//! Square wave output frequencies and the trait to control them.

use vstd::prelude::*;
use crate::rtc::Rtc;

verus! {

/// Square wave output frequencies.
#[derive(Debug, Clone, Copy, PartialEq, Eq, Structural)]
pub enum SquareWaveFreq {
    /// 1 Hz
    Hz1,
    /// 1024 Hz (1.024 kHz)
    Hz1024,
    /// 4096 Hz (4.096 kHz)
    Hz4096,
    /// 8192 Hz (8.192 kHz)
    Hz8192,
    /// 32768 Hz (32.768 kHz)
    Hz32768,
    /// Custom frequency (if supported by device)
    Custom(u32),
}

/// The frequency variant denoted by a value in Hz: one of the five named
/// frequencies for their exact values, `Custom` for everything else.
pub open spec fn spec_freq_from_hz(hz: u32) -> SquareWaveFreq {
    if hz == 1 {
        SquareWaveFreq::Hz1
    } else if hz == 1024 {
        SquareWaveFreq::Hz1024
    } else if hz == 4096 {
        SquareWaveFreq::Hz4096
    } else if hz == 8192 {
        SquareWaveFreq::Hz8192
    } else if hz == 32768 {
        SquareWaveFreq::Hz32768
    } else {
        SquareWaveFreq::Custom(hz)
    }
}

impl SquareWaveFreq {
    /// The value of this frequency in Hz.
    pub open spec fn spec_hz(self) -> u32 {
        match self {
            SquareWaveFreq::Hz1 => 1,
            SquareWaveFreq::Hz1024 => 1024,
            SquareWaveFreq::Hz4096 => 4096,
            SquareWaveFreq::Hz8192 => 8192,
            SquareWaveFreq::Hz32768 => 32768,
            SquareWaveFreq::Custom(freq) => freq,
        }
    }

    /// Get frequency value in Hz.
    pub fn to_hz(&self) -> (r: u32)
        ensures
            r == self.spec_hz(),
    {
        match self {
            Self::Hz1 => 1,
            Self::Hz1024 => 1024,
            Self::Hz4096 => 4096,
            Self::Hz8192 => 8192,
            Self::Hz32768 => 32768,
            Self::Custom(freq) => *freq,
        }
    }

    /// Create from Hz value.
    pub fn from_hz(hz: u32) -> (r: Self)
        ensures
            r == spec_freq_from_hz(hz),
    {
        match hz {
            1 => Self::Hz1,
            1024 => Self::Hz1024,
            4096 => Self::Hz4096,
            8192 => Self::Hz8192,
            32768 => Self::Hz32768,
            other => Self::Custom(other),
        }
    }
}

/// Hz round trip: reading any Hz value into a frequency variant and back
/// yields the same number.
pub proof fn lemma_hz_round_trip(hz: u32)
    ensures
        spec_freq_from_hz(hz).spec_hz() == hz,
{
}

/// Variant round trip: a frequency variant survives conversion to Hz and
/// back, unless it is a `Custom` carrying one of the five named values,
/// which comes back as the named variant of that value.
pub proof fn lemma_freq_round_trip(f: SquareWaveFreq)
    requires
        f matches SquareWaveFreq::Custom(hz) ==> spec_freq_from_hz(hz) == f,
    ensures
        spec_freq_from_hz(f.spec_hz()) == f,
{
}

/// Square wave functionality trait.
pub trait SquareWave: Rtc {
    /// Configure Frequency and enable square wave
    fn start_square_wave(&mut self, freq: SquareWaveFreq) -> Result<(), Self::Error>;

    /// Enable square wave output
    fn enable_square_wave(&mut self) -> Result<(), Self::Error>;

    /// Disable square wave output
    fn disable_square_wave(&mut self) -> Result<(), Self::Error>;

    /// Set the frequency (without enabling/disabling)
    fn set_square_wave_frequency(&mut self, freq: SquareWaveFreq) -> Result<(), Self::Error>;
}

} // verus!
