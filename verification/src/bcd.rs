//! Packed-decimal (BCD) conversion utilities for RTC registers.
//!
//! Most RTC chips store each date and time field as one packed-decimal byte:
//! the high nibble holds the tens digit and the low nibble the ones digit, so
//! one byte represents 0-99. The two functions here translate between that
//! encoding and a plain binary integer.

use vstd::prelude::*;

verus! {

/// The integer denoted by a packed-decimal byte: ten times the high nibble
/// plus the low nibble.
pub open spec fn spec_to_decimal(bcd: int) -> int {
    10 * (bcd / 16) + bcd % 16
}

/// The packed-decimal byte encoding an integer: the tens digit in the high
/// nibble and the ones digit in the low nibble.
pub open spec fn spec_from_decimal(decimal: int) -> int {
    16 * (decimal / 10) + decimal % 10
}

/// Convert a packed-decimal byte to the integer it denotes.
///
/// Nibbles are not range-checked: a byte whose nibble exceeds 9 still yields
/// the value of the formula above, so garbage register bytes convert without
/// a fault (the result merely need not round-trip).
pub fn to_decimal(bcd: u8) -> (r: u8)
    ensures
        r as int == spec_to_decimal(bcd as int),
{
    proof {
        assert(bcd >> 4 == bcd / 16 && (bcd & 0x0F) == bcd % 16 && bcd >> 4 < 16 && (bcd & 0x0F) < 16)
            by (bit_vector);
    }
    ((bcd >> 4) * 10) + (bcd & 0x0F)
}

/// Convert an integer no greater than 99 to its packed-decimal byte.
///
/// Callers must keep the argument in 0..=99; a tens digit of two decimal
/// digits has no packed encoding, so larger inputs are a caller error and are
/// ruled out here rather than reported at run time.
pub fn from_decimal(decimal: u8) -> (r: u8)
    requires
        decimal <= 99,
    ensures
        r as int == spec_from_decimal(decimal as int),
{
    proof {
        assert(decimal <= 99 ==> ((decimal / 10) << 4) | (decimal % 10) == 16 * (decimal / 10) + decimal % 10)
            by (bit_vector);
    }
    ((decimal / 10) << 4) | (decimal % 10)
}

/// Round trip: every value in 0..=99 survives encoding to packed decimal and
/// decoding back unchanged.
pub proof fn lemma_bcd_round_trip(decimal: int)
    requires
        0 <= decimal <= 99,
    ensures
        spec_to_decimal(spec_from_decimal(decimal)) == decimal,
{
    let tens = decimal / 10;
    let ones = decimal % 10;
    vstd::arithmetic::div_mod::lemma_fundamental_div_mod(decimal, 10);
    assert((16 * tens + ones) / 16 == tens && (16 * tens + ones) % 16 == ones)
        by (nonlinear_arith)
        requires
            0 <= ones < 10,
            0 <= tens,
    ;
}

} // verus!
