use regret_program::math::{
    checked_product, checked_quotient, magnitude, narrow, power_of_ten, scaled_mul_div, unscaled,
};
use regret_program::ErrorCode;

#[test]
fn product_that_fits_is_exact() {
    assert_eq!(checked_product(3, 7), Ok(21));
    assert_eq!(checked_product(u64::MAX as u128, u64::MAX as u128), Ok(u128::MAX - 2 * (u64::MAX as u128)));
    assert_eq!(checked_product(0, u128::MAX), Ok(0));
}

#[test]
fn product_beyond_128_bits_overflows() {
    assert_eq!(checked_product(u128::MAX, 2), Err(ErrorCode::MathOverflow));
    assert_eq!(checked_product(1 << 64, 1 << 64), Err(ErrorCode::MathOverflow));
}

#[test]
fn quotient_truncates() {
    assert_eq!(checked_quotient(7, 2), Ok(3));
    assert_eq!(checked_quotient(9_999, 10_000), Ok(0));
    assert_eq!(checked_quotient(0, 5), Ok(0));
}

#[test]
fn quotient_by_zero_is_an_overflow() {
    assert_eq!(checked_quotient(7, 0), Err(ErrorCode::MathOverflow));
}

#[test]
fn narrowing_keeps_what_fits() {
    assert_eq!(narrow(0), Ok(0));
    assert_eq!(narrow(u64::MAX as u128), Ok(u64::MAX));
    assert_eq!(narrow(u64::MAX as u128 + 1), Err(ErrorCode::MathOverflow));
}

#[test]
fn magnitude_drops_the_sign() {
    assert_eq!(magnitude(0), 0);
    assert_eq!(magnitude(10), 10);
    assert_eq!(magnitude(-10), 10);
    assert_eq!(magnitude(i64::MAX), 9_223_372_036_854_775_807);
    assert_eq!(magnitude(i64::MIN), 9_223_372_036_854_775_808);
}

#[test]
fn powers_of_ten_up_to_38_fit() {
    assert_eq!(power_of_ten(0), Ok(1));
    assert_eq!(power_of_ten(1), Ok(10));
    assert_eq!(power_of_ten(8), Ok(100_000_000));
    assert_eq!(power_of_ten(38), Ok(100_000_000_000_000_000_000_000_000_000_000_000_000));
}

#[test]
fn powers_of_ten_from_39_overflow() {
    assert_eq!(power_of_ten(39), Err(ErrorCode::MathOverflow));
    assert_eq!(power_of_ten(255), Err(ErrorCode::MathOverflow));
    assert_eq!(power_of_ten(u32::MAX), Err(ErrorCode::MathOverflow));
}

#[test]
fn scaled_division_keeps_six_more_digits() {
    assert_eq!(scaled_mul_div(1, 1, 3), Ok(333_333));
    assert_eq!(scaled_mul_div(10, 3, 4), Ok(7_500_000));
    assert_eq!(unscaled(7_500_000), 7);
    assert_eq!(unscaled(999_999), 0);
}

#[test]
fn scaled_division_checks_the_scaled_product() {
    assert_eq!(scaled_mul_div(u64::MAX as u128, u64::MAX as u128, 1), Err(ErrorCode::MathOverflow));
    assert_eq!(scaled_mul_div(5, 5, 0), Err(ErrorCode::MathOverflow));
    assert_eq!(
        scaled_mul_div(u64::MAX as u128, 1_000_000, 1_000_000),
        Ok(u64::MAX as u128 * 1_000_000)
    );
}
