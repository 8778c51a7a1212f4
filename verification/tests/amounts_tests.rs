use confidential_token::amounts::pow10_u64;
use confidential_token::amounts::scale_units;

#[test]
fn pow10_of_zero_is_one() {
    assert_eq!(pow10_u64(0), Some(1));
}

#[test]
fn pow10_of_nine_is_a_billion() {
    assert_eq!(pow10_u64(9), Some(1_000_000_000));
}

#[test]
fn pow10_of_nineteen_still_fits() {
    assert_eq!(pow10_u64(19), Some(10_000_000_000_000_000_000));
}

#[test]
fn pow10_of_twenty_overflows() {
    assert_eq!(pow10_u64(20), None);
}

#[test]
fn scale_hundred_units_by_nine_decimals() {
    assert_eq!(scale_units(100, 9), Some(100_000_000_000));
}

#[test]
fn scale_zero_units_never_overflows() {
    assert_eq!(scale_units(0, 200), Some(0));
}

#[test]
fn scale_overflow_is_reported() {
    assert_eq!(scale_units(u64::MAX, 1), None);
    assert_eq!(scale_units(2, 19), None);
}
