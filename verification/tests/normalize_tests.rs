use everclear_spoke::errors::SpokeError;
use everclear_spoke::normalize::normalize_decimals;

#[test]
fn equal_precisions_are_identity() {
    assert_eq!(normalize_decimals(12345, 9, 9), Ok(12345));
    assert_eq!(normalize_decimals(0, 6, 6), Ok(0));
}

#[test]
fn upscale_multiplies_by_power_of_ten() {
    assert_eq!(normalize_decimals(1_000_000, 6, 18), Ok(1_000_000_000_000_000_000));
    assert_eq!(normalize_decimals(7, 0, 3), Ok(7_000));
}

#[test]
fn downscale_floors() {
    assert_eq!(normalize_decimals(1_999_999, 6, 0), Ok(1));
    assert_eq!(normalize_decimals(999_999, 6, 0), Ok(0));
    assert_eq!(normalize_decimals(1_234_567_890, 9, 6), Ok(1_234_567));
}

#[test]
fn downscale_shift_above_twelve_fails() {
    assert_eq!(
        normalize_decimals(1, 19, 6),
        Err(SpokeError::DecimalConversionOverflow)
    );
    assert_eq!(normalize_decimals(1, 18, 6), Ok(0));
}

#[test]
fn upscale_overflow_fails() {
    assert_eq!(
        normalize_decimals(u64::MAX, 6, 18),
        Err(SpokeError::DecimalConversionOverflow)
    );
    // The factor itself can already leave the integer width, whatever the
    // amount.
    assert_eq!(
        normalize_decimals(0, 0, 30),
        Err(SpokeError::DecimalConversionOverflow)
    );
}

#[test]
fn round_trip_up_then_down_is_exact() {
    let x = 123_456;
    let up = normalize_decimals(x, 6, 18).unwrap();
    assert_eq!(normalize_decimals(up, 18, 6), Ok(x));
}

#[test]
fn round_trip_down_then_up_never_exceeds() {
    // Not a multiple of 10^12: truncation loses the remainder.
    let x = 5_000_000_000_123_456_789;
    let down = normalize_decimals(x, 18, 6).unwrap();
    let back = normalize_decimals(down, 6, 18).unwrap();
    assert!(back <= x);
    assert_eq!(back, 5_000_000_000_000_000_000);

    // A multiple of 10^12 comes back exactly.
    let y = 42_000_000_000_000;
    let down_y = normalize_decimals(y, 18, 6).unwrap();
    assert_eq!(normalize_decimals(down_y, 6, 18), Ok(y));
}
