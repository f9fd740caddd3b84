//! Checked arithmetic on unsigned 64-bit magnitudes. No operation wraps,
//! saturates silently or truncates: each returns the exact mathematical
//! result or says why there is none.
use crate::error::ValidationError;
use vstd::prelude::*;

verus! {

/// The sum `a + b`, or `ArithmeticOverflow` where it exceeds `u64::MAX`.
pub open spec fn add_spec(a: u64, b: u64) -> Result<u64, ValidationError> {
    if a + b <= u64::MAX {
        Ok((a + b) as u64)
    } else {
        Err(ValidationError::ArithmeticOverflow)
    }
}

/// The difference `a - b`, or `ArithmeticUnderflow` where `b` exceeds `a`.
pub open spec fn sub_spec(a: u64, b: u64) -> Result<u64, ValidationError> {
    if b <= a {
        Ok((a - b) as u64)
    } else {
        Err(ValidationError::ArithmeticUnderflow)
    }
}

/// The product `a * b`, or `ArithmeticOverflow` where it exceeds `u64::MAX`.
pub open spec fn mul_spec(a: u64, b: u64) -> Result<u64, ValidationError> {
    if a * b <= u64::MAX {
        Ok((a * b) as u64)
    } else {
        Err(ValidationError::ArithmeticOverflow)
    }
}

/// The share `(a * b) / d`, multiplied before it is divided. A zero
/// denominator is reported first; then a product that leaves the domain.
pub open spec fn proportional_share_spec(a: u64, b: u64, d: u64) -> Result<u64, ValidationError> {
    if d == 0 {
        Err(ValidationError::DivisionByZero)
    } else if a * b > u64::MAX {
        Err(ValidationError::ArithmeticOverflow)
    } else {
        Ok(((a * b) / (d as int)) as u64)
    }
}

/// The time that has passed from `last` to `now`, or `InvalidTimestamp`
/// where `now` lies before `last`.
pub open spec fn elapsed_spec(now: i64, last: i64) -> Result<u64, ValidationError> {
    if now < last {
        Err(ValidationError::InvalidTimestamp)
    } else {
        Ok((now - last) as u64)
    }
}

/// Checked addition.
pub fn checked_add(a: u64, b: u64) -> (r: Result<u64, ValidationError>)
    ensures
        r == add_spec(a, b),
{
    if a > u64::MAX - b {
        Err(ValidationError::ArithmeticOverflow)
    } else {
        Ok(a + b)
    }
}

/// Checked subtraction.
pub fn checked_sub(a: u64, b: u64) -> (r: Result<u64, ValidationError>)
    ensures
        r == sub_spec(a, b),
{
    if b > a {
        Err(ValidationError::ArithmeticUnderflow)
    } else {
        Ok(a - b)
    }
}

/// Checked multiplication, through a 128-bit intermediate.
pub fn checked_mul(a: u64, b: u64) -> (r: Result<u64, ValidationError>)
    ensures
        r == mul_spec(a, b),
{
    let wide = wide_product(a, b);
    if wide > u64::MAX as u128 {
        Err(ValidationError::ArithmeticOverflow)
    } else {
        Ok(wide as u64)
    }
}

/// The exact product of two 64-bit magnitudes in 128 bits.
fn wide_product(a: u64, b: u64) -> (p: u128)
    ensures
        p == a * b,
{
    assert(a * b <= u64::MAX * u64::MAX) by (nonlinear_arith)
        requires
            0 <= a <= u64::MAX,
            0 <= b <= u64::MAX,
    ;
    (a as u128) * (b as u128)
}

/// The share of `b` that `a` out of `d` earns: `(a * b) / d`. There is no
/// entry point that divides first, so a small numerator over a large
/// denominator never truncates to zero before it is multiplied.
pub fn proportional_share(numerator_a: u64, numerator_b: u64, denominator: u64) -> (r: Result<
    u64,
    ValidationError,
>)
    ensures
        r == proportional_share_spec(numerator_a, numerator_b, denominator),
{
    if denominator == 0 {
        return Err(ValidationError::DivisionByZero);
    }
    let wide = wide_product(numerator_a, numerator_b);
    if wide > u64::MAX as u128 {
        return Err(ValidationError::ArithmeticOverflow);
    }
    let product = wide as u64;
    assert(product / denominator <= product) by (nonlinear_arith)
        requires
            denominator > 0,
    ;
    Ok(product / denominator)
}

/// The time elapsed between two timestamps. The difference of two signed
/// 64-bit timestamps in order always fits the unsigned result.
pub fn elapsed(now: i64, last: i64) -> (r: Result<u64, ValidationError>)
    ensures
        r == elapsed_spec(now, last),
{
    if now < last {
        Err(ValidationError::InvalidTimestamp)
    } else if last >= 0 || now < 0 {
        Ok((now - last) as u64)
    } else {
        let below: u64 = (-(last + 1)) as u64;
        Ok(now as u64 + below + 1)
    }
}

} // verus!
