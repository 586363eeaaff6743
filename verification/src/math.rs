//! Overflow-checked fixed-point arithmetic primitives.
//!
//! Every numeric computation of the pricing and settlement engines routes
//! through these operations: arithmetic either returns the exact mathematical
//! result or fails with [`ErrorCode::MathOverflow`] / [`ErrorCode::DivideByZero`],
//! never wrapping or saturating.

use vstd::prelude::*;

use crate::errors::ErrorCode;

verus! {

/// Checked addition over `u64`: the exact sum, or `MathOverflow`.
pub fn checked_add_u64(a: u64, b: u64) -> (r: Result<u64, ErrorCode>)
    ensures
        a + b <= u64::MAX ==> r == Ok::<u64, ErrorCode>((a + b) as u64),
        a + b > u64::MAX ==> r == Err::<u64, ErrorCode>(ErrorCode::MathOverflow),
{
    match a.checked_add(b) {
        Some(v) => Ok(v),
        None => Err(ErrorCode::MathOverflow),
    }
}

/// Checked subtraction over `u64`: the exact difference, or `MathOverflow`
/// when it would be negative.
pub fn checked_sub_u64(a: u64, b: u64) -> (r: Result<u64, ErrorCode>)
    ensures
        b <= a ==> r == Ok::<u64, ErrorCode>((a - b) as u64),
        b > a ==> r == Err::<u64, ErrorCode>(ErrorCode::MathOverflow),
{
    match a.checked_sub(b) {
        Some(v) => Ok(v),
        None => Err(ErrorCode::MathOverflow),
    }
}

/// Checked multiplication over `u64`: the exact product, or `MathOverflow`.
pub fn checked_mul_u64(a: u64, b: u64) -> (r: Result<u64, ErrorCode>)
    ensures
        a * b <= u64::MAX ==> r == Ok::<u64, ErrorCode>((a * b) as u64),
        a * b > u64::MAX ==> r == Err::<u64, ErrorCode>(ErrorCode::MathOverflow),
{
    match a.checked_mul(b) {
        Some(v) => Ok(v),
        None => Err(ErrorCode::MathOverflow),
    }
}

/// Checked division over `u64`: the floored quotient, or `DivideByZero`.
pub fn checked_div_u64(a: u64, b: u64) -> (r: Result<u64, ErrorCode>)
    ensures
        b > 0 ==> r == Ok::<u64, ErrorCode>((a as int / b as int) as u64),
        b == 0 ==> r == Err::<u64, ErrorCode>(ErrorCode::DivideByZero),
{
    match a.checked_div(b) {
        Some(v) => Ok(v),
        None => Err(ErrorCode::DivideByZero),
    }
}

/// Checked addition over `u128`: the exact sum, or `MathOverflow`.
pub fn checked_add_u128(a: u128, b: u128) -> (r: Result<u128, ErrorCode>)
    ensures
        a + b <= u128::MAX ==> r == Ok::<u128, ErrorCode>((a + b) as u128),
        a + b > u128::MAX ==> r == Err::<u128, ErrorCode>(ErrorCode::MathOverflow),
{
    match a.checked_add(b) {
        Some(v) => Ok(v),
        None => Err(ErrorCode::MathOverflow),
    }
}

/// Checked subtraction over `u128`: the exact difference, or `MathOverflow`
/// when it would be negative.
pub fn checked_sub_u128(a: u128, b: u128) -> (r: Result<u128, ErrorCode>)
    ensures
        b <= a ==> r == Ok::<u128, ErrorCode>((a - b) as u128),
        b > a ==> r == Err::<u128, ErrorCode>(ErrorCode::MathOverflow),
{
    match a.checked_sub(b) {
        Some(v) => Ok(v),
        None => Err(ErrorCode::MathOverflow),
    }
}

/// Checked multiplication over `u128`: the exact product, or `MathOverflow`.
pub fn checked_mul_u128(a: u128, b: u128) -> (r: Result<u128, ErrorCode>)
    ensures
        a * b <= u128::MAX ==> r == Ok::<u128, ErrorCode>((a * b) as u128),
        a * b > u128::MAX ==> r == Err::<u128, ErrorCode>(ErrorCode::MathOverflow),
{
    match a.checked_mul(b) {
        Some(v) => Ok(v),
        None => Err(ErrorCode::MathOverflow),
    }
}

/// Checked division over `u128`: the floored quotient, or `DivideByZero`.
pub fn checked_div_u128(a: u128, b: u128) -> (r: Result<u128, ErrorCode>)
    ensures
        b > 0 ==> r == Ok::<u128, ErrorCode>((a as int / b as int) as u128),
        b == 0 ==> r == Err::<u128, ErrorCode>(ErrorCode::DivideByZero),
{
    match a.checked_div(b) {
        Some(v) => Ok(v),
        None => Err(ErrorCode::DivideByZero),
    }
}

/// `a * b / c` over `u128` in one step, floored: `MathOverflow` when the
/// product exceeds `u128::MAX`, `DivideByZero` when `c` is zero.
pub fn mul_div_u128(a: u128, b: u128, c: u128) -> (r: Result<u128, ErrorCode>)
    ensures
        a * b > u128::MAX ==> r == Err::<u128, ErrorCode>(ErrorCode::MathOverflow),
        a * b <= u128::MAX && c == 0 ==> r == Err::<u128, ErrorCode>(ErrorCode::DivideByZero),
        a * b <= u128::MAX && c > 0 ==> r == Ok::<u128, ErrorCode>((a * b / c as int) as u128),
{
    match checked_mul_u128(a, b) {
        Ok(p) => checked_div_u128(p, c),
        Err(e) => Err(e),
    }
}

} // verus!
