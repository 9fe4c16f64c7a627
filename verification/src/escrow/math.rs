use vstd::prelude::*;
use crate::error::ContractError;

verus! {

/// Rust's integer division, which rounds toward zero, for a positive divisor.
pub open spec fn trunc_div(x: int, d: int) -> int
    recommends
        d > 0,
{
    if x >= 0 {
        x / d
    } else {
        -((-x) / d)
    }
}

/// Rust's integer division, which rounds toward zero, for a non-zero divisor.
pub open spec fn rust_div(x: int, d: int) -> int
    recommends
        d != 0,
{
    if d > 0 {
        trunc_div(x, d)
    } else {
        -trunc_div(x, -d)
    }
}

/// Rust's checked division on `i128`: `None` for a zero divisor or a
/// quotient outside `i128`.
pub open spec fn checked_quotient(x: int, d: int) -> Option<int> {
    if d == 0 || !fits_i128(rust_div(x, d)) {
        None
    } else {
        Some(rust_div(x, d))
    }
}

/// Whether `x` fits in an `i128`.
pub open spec fn fits_i128(x: int) -> bool {
    i128::MIN <= x <= i128::MAX
}

/// Checked addition and subtraction on token amounts.
pub struct BasicMath;

impl BasicMath {
    /// `a + b`, or `Overflow` where the sum leaves the `i128` range.
    pub fn safe_add(a: i128, b: i128) -> (r: Result<i128, ContractError>)
        ensures
            fits_i128(a + b) ==> r == Ok::<i128, ContractError>((a + b) as i128),
            !fits_i128(a + b) ==> r == Err::<i128, ContractError>(ContractError::Overflow),
    {
        match a.checked_add(b) {
            Some(v) => Ok(v),
            None => Err(ContractError::Overflow),
        }
    }

    /// `a - b`, or `Underflow` where the difference leaves the `i128` range.
    pub fn safe_sub(a: i128, b: i128) -> (r: Result<i128, ContractError>)
        ensures
            fits_i128(a - b) ==> r == Ok::<i128, ContractError>((a - b) as i128),
            !fits_i128(a - b) ==> r == Err::<i128, ContractError>(ContractError::Underflow),
    {
        match a.checked_sub(b) {
            Some(v) => Ok(v),
            None => Err(ContractError::Underflow),
        }
    }
}

/// Checked multiply-then-divide on token amounts.
pub struct SafeMath;

impl SafeMath {
    /// `a * b / c`, rounded toward zero: `Overflow` where the product leaves
    /// the `i128` range, `DivisionError` where `c` is not positive.
    pub fn safe_mul_div(a: i128, b: i128, c: i128) -> (r: Result<i128, ContractError>)
        ensures
            !fits_i128(a * b) ==> r == Err::<i128, ContractError>(ContractError::Overflow),
            fits_i128(a * b) && c <= 0 ==> r == Err::<i128, ContractError>(ContractError::DivisionError),
            fits_i128(a * b) && c > 0 ==> r == Ok::<i128, ContractError>(trunc_div(a * b, c as int) as i128),
    {
        let product = match a.checked_mul(b) {
            Some(v) => v,
            None => { return Err(ContractError::Overflow); },
        };
        if c <= 0 {
            return Err(ContractError::DivisionError);
        }
        match product.checked_div(c) {
            Some(v) => Ok(v),
            None => Err(ContractError::DivisionError),
        }
    }
}

/// `x / d` with Rust's checked division on `i128`.
pub fn checked_quotient_of(x: i128, d: i128) -> (r: Option<i128>)
    ensures
        match checked_quotient(x as int, d as int) {
            None => r is None,
            Some(q) => r == Some(q as i128),
        },
{
    x.checked_div(d)
}

} // verus!
