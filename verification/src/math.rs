//! Overflow-checked arithmetic primitives with exact contracts.
//!
//! Every operation either returns the mathematical result, proved equal to
//! the corresponding `int` expression, or fails with an [`ErrorCode`]
//! exactly when that result leaves the range of the type.

use vstd::prelude::*;

use crate::error::ErrorCode;

verus! {

/// Truncating (round toward zero) integer division, the semantics of `/`
/// on Rust's signed integers. Meaningful only for `b != 0`.
pub open spec fn spec_div_trunc(a: int, b: int) -> int
    recommends
        b != 0,
{
    let q = abs_int(a) / abs_int(b);
    if (a < 0) != (b < 0) {
        -q
    } else {
        q
    }
}

/// Absolute value over `int`.
pub open spec fn abs_int(a: int) -> int {
    if a < 0 {
        -a
    } else {
        a
    }
}

/// Checked `u128` multiplication.
pub fn mul_u128(a: u128, b: u128) -> (r: Result<u128, ErrorCode>)
    ensures
        r == (if a * b <= u128::MAX {
            Ok((a * b) as u128)
        } else {
            Err::<u128, ErrorCode>(ErrorCode::MathOverflow)
        }),
{
    match a.checked_mul(b) {
        Some(v) => Ok(v),
        None => Err(ErrorCode::MathOverflow),
    }
}

/// Checked `u128` addition.
pub fn add_u128(a: u128, b: u128) -> (r: Result<u128, ErrorCode>)
    ensures
        r == (if a + b <= u128::MAX {
            Ok((a + b) as u128)
        } else {
            Err::<u128, ErrorCode>(ErrorCode::MathOverflow)
        }),
{
    match a.checked_add(b) {
        Some(v) => Ok(v),
        None => Err(ErrorCode::MathOverflow),
    }
}

/// Checked `u128` subtraction.
pub fn sub_u128(a: u128, b: u128) -> (r: Result<u128, ErrorCode>)
    ensures
        r == (if a - b >= 0 {
            Ok((a - b) as u128)
        } else {
            Err::<u128, ErrorCode>(ErrorCode::MathOverflow)
        }),
{
    match a.checked_sub(b) {
        Some(v) => Ok(v),
        None => Err(ErrorCode::MathOverflow),
    }
}

/// Checked `u128` division; fails only on a zero divisor.
pub fn div_u128(a: u128, b: u128) -> (r: Result<u128, ErrorCode>)
    ensures
        r == (if b != 0 {
            Ok((a as int / b as int) as u128)
        } else {
            Err::<u128, ErrorCode>(ErrorCode::DivisionByZero)
        }),
{
    match a.checked_div(b) {
        Some(v) => Ok(v),
        None => Err(ErrorCode::DivisionByZero),
    }
}

/// Checked `i128` multiplication.
pub fn mul_i128(a: i128, b: i128) -> (r: Result<i128, ErrorCode>)
    ensures
        r == (if i128::MIN <= a * b <= i128::MAX {
            Ok((a * b) as i128)
        } else {
            Err::<i128, ErrorCode>(ErrorCode::MathOverflow)
        }),
{
    match a.checked_mul(b) {
        Some(v) => Ok(v),
        None => Err(ErrorCode::MathOverflow),
    }
}

/// Checked `i128` addition.
pub fn add_i128(a: i128, b: i128) -> (r: Result<i128, ErrorCode>)
    ensures
        r == (if i128::MIN <= a + b <= i128::MAX {
            Ok((a + b) as i128)
        } else {
            Err::<i128, ErrorCode>(ErrorCode::MathOverflow)
        }),
{
    match a.checked_add(b) {
        Some(v) => Ok(v),
        None => Err(ErrorCode::MathOverflow),
    }
}

/// Checked `i128` subtraction.
pub fn sub_i128(a: i128, b: i128) -> (r: Result<i128, ErrorCode>)
    ensures
        r == (if i128::MIN <= a - b <= i128::MAX {
            Ok((a - b) as i128)
        } else {
            Err::<i128, ErrorCode>(ErrorCode::MathOverflow)
        }),
{
    match a.checked_sub(b) {
        Some(v) => Ok(v),
        None => Err(ErrorCode::MathOverflow),
    }
}

/// Checked `i128` division, truncating toward zero as Rust's `/` does.
/// Fails with [`ErrorCode::DivisionByZero`] on a zero divisor and with
/// [`ErrorCode::MathOverflow`] on `i128::MIN / -1`.
pub fn div_i128(a: i128, b: i128) -> (r: Result<i128, ErrorCode>)
    ensures
        r == (if b == 0 {
            Err::<i128, ErrorCode>(ErrorCode::DivisionByZero)
        } else if i128::MIN <= spec_div_trunc(a as int, b as int) <= i128::MAX {
            Ok(spec_div_trunc(a as int, b as int) as i128)
        } else {
            Err::<i128, ErrorCode>(ErrorCode::MathOverflow)
        }),
{
    if b == 0 {
        return Err(ErrorCode::DivisionByZero);
    }
    match a.checked_div(b) {
        Some(v) => Ok(v),
        None => Err(ErrorCode::MathOverflow),
    }
}

/// Checked `i64` addition.
pub fn add_i64(a: i64, b: i64) -> (r: Result<i64, ErrorCode>)
    ensures
        r == (if i64::MIN <= a + b <= i64::MAX {
            Ok((a + b) as i64)
        } else {
            Err::<i64, ErrorCode>(ErrorCode::MathOverflow)
        }),
{
    match a.checked_add(b) {
        Some(v) => Ok(v),
        None => Err(ErrorCode::MathOverflow),
    }
}

/// Checked `i64` subtraction.
pub fn sub_i64(a: i64, b: i64) -> (r: Result<i64, ErrorCode>)
    ensures
        r == (if i64::MIN <= a - b <= i64::MAX {
            Ok((a - b) as i64)
        } else {
            Err::<i64, ErrorCode>(ErrorCode::MathOverflow)
        }),
{
    match a.checked_sub(b) {
        Some(v) => Ok(v),
        None => Err(ErrorCode::MathOverflow),
    }
}

/// Checked narrowing of `u128` into `u64`.
pub fn u128_to_u64(a: u128) -> (r: Result<u64, ErrorCode>)
    ensures
        r == (if a <= u64::MAX {
            Ok(a as u64)
        } else {
            Err::<u64, ErrorCode>(ErrorCode::MathOverflow)
        }),
{
    if a <= u64::MAX as u128 {
        Ok(a as u64)
    } else {
        Err(ErrorCode::MathOverflow)
    }
}

/// Checked narrowing of `i128` into `i64`.
pub fn i128_to_i64(a: i128) -> (r: Result<i64, ErrorCode>)
    ensures
        r == (if i64::MIN <= a <= i64::MAX {
            Ok(a as i64)
        } else {
            Err::<i64, ErrorCode>(ErrorCode::MathOverflow)
        }),
{
    if i64::MIN as i128 <= a && a <= i64::MAX as i128 {
        Ok(a as i64)
    } else {
        Err(ErrorCode::MathOverflow)
    }
}

/// Checked conversion of `u64` into `i64`.
pub fn u64_to_i64(a: u64) -> (r: Result<i64, ErrorCode>)
    ensures
        r == (if a <= i64::MAX {
            Ok(a as i64)
        } else {
            Err::<i64, ErrorCode>(ErrorCode::MathOverflow)
        }),
{
    if a <= i64::MAX as u64 {
        Ok(a as i64)
    } else {
        Err(ErrorCode::MathOverflow)
    }
}

/// The larger of two `i64` values.
pub fn max_i64(a: i64, b: i64) -> (r: i64)
    ensures
        r == (if a >= b { a } else { b }),
{
    if a >= b {
        a
    } else {
        b
    }
}

} // verus!
