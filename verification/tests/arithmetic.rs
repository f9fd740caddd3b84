use account_guard::arithmetic::{
    checked_add, checked_mul, checked_sub, elapsed, proportional_share,
};
use account_guard::error::ValidationError;

#[test]
fn addition_that_fits_is_exact() {
    assert_eq!(checked_add(2, 3), Ok(5));
    assert_eq!(checked_add(u64::MAX - 1, 1), Ok(u64::MAX));
    assert_eq!(checked_add(0, 0), Ok(0));
}

#[test]
fn addition_near_the_maximum_overflows_instead_of_wrapping() {
    let r = checked_add(u64::MAX - 100, 200);
    assert_eq!(r, Err(ValidationError::ArithmeticOverflow));
    assert_ne!(r, Ok(99));
}

#[test]
fn subtraction_below_zero_underflows() {
    assert_eq!(checked_sub(100, 150), Err(ValidationError::ArithmeticUnderflow));
    assert_eq!(checked_sub(150, 100), Ok(50));
    assert_eq!(checked_sub(7, 7), Ok(0));
}

#[test]
fn multiplication_is_checked() {
    assert_eq!(checked_mul(1 << 32, 1 << 32), Err(ValidationError::ArithmeticOverflow));
    assert_eq!(checked_mul(1 << 32, (1 << 32) - 1), Ok(((1u64 << 32) - 1) << 32));
    assert_eq!(checked_mul(0, u64::MAX), Ok(0));
    assert_eq!(checked_mul(6, 7), Ok(42));
}

#[test]
fn share_multiplies_before_it_divides() {
    let share = proportional_share(10, 1_000_000, 1_000_000);
    assert_eq!(share, Ok(10));
    // Dividing first would have truncated the stake's share to zero.
    assert_eq!((10u64 / 1_000_000) * 1_000_000, 0);
    assert_ne!(share, Ok(0));
}

#[test]
fn share_of_a_zero_denominator_is_refused() {
    assert_eq!(proportional_share(10, 10, 0), Err(ValidationError::DivisionByZero));
    assert_eq!(proportional_share(u64::MAX, u64::MAX, 0), Err(ValidationError::DivisionByZero));
}

#[test]
fn share_whose_product_overflows_is_refused() {
    assert_eq!(
        proportional_share(u64::MAX, 2, 4),
        Err(ValidationError::ArithmeticOverflow)
    );
    assert_eq!(proportional_share(7, 3, 2), Ok(10));
}

#[test]
fn elapsed_time_is_a_checked_difference() {
    assert_eq!(elapsed(1_000_000, 999_000), Ok(1_000));
    assert_eq!(elapsed(5, 5), Ok(0));
    assert_eq!(elapsed(999_000, 1_000_000), Err(ValidationError::InvalidTimestamp));
    assert_eq!(elapsed(i64::MAX, i64::MIN), Ok(u64::MAX));
    assert_eq!(elapsed(0, -1), Ok(1));
    assert_eq!(elapsed(-5, -10), Ok(5));
}
