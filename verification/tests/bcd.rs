use rtc_hal::bcd::{from_decimal, to_decimal};

#[test]
fn test_to_decimal() {
    assert_eq!(to_decimal(0x00), 0);
    assert_eq!(to_decimal(0x01), 1);
    assert_eq!(to_decimal(0x09), 9);
    assert_eq!(to_decimal(0x10), 10);
    assert_eq!(to_decimal(0x23), 23);
    assert_eq!(to_decimal(0x45), 45);
    assert_eq!(to_decimal(0x59), 59);
    assert_eq!(to_decimal(0x99), 99);
}

#[test]
fn test_from_decimal() {
    assert_eq!(from_decimal(0), 0x00);
    assert_eq!(from_decimal(1), 0x01);
    assert_eq!(from_decimal(9), 0x09);
    assert_eq!(from_decimal(10), 0x10);
    assert_eq!(from_decimal(23), 0x23);
    assert_eq!(from_decimal(45), 0x45);
    assert_eq!(from_decimal(59), 0x59);
    assert_eq!(from_decimal(99), 0x99);
}

#[test]
fn test_bcd_round_trip() {
    for i in 0..=99 {
        let bcd = from_decimal(i);
        let decimal = to_decimal(bcd);
        assert_eq!(i, decimal);
    }
}

#[test]
fn test_bcd_edge_cases() {
    // Test boundary values commonly used in RTC
    let test_cases = [0, 1, 9, 10, 23, 31, 59, 99];

    for &value in &test_cases {
        let bcd = from_decimal(value);
        let back = to_decimal(bcd);
        assert_eq!(value, back, "Failed for value: {value}");
    }
}

#[test]
fn test_to_decimal_invalid_nibble() {
    // A nibble above 9 is not rejected; the formula still applies.
    assert_eq!(to_decimal(0x0A), 10);
    assert_eq!(to_decimal(0x1F), 25);
    assert_eq!(to_decimal(0xFF), 165);
}
