//! Checked 128-bit arithmetic, done by `cosmwasm_std::Uint128`.
//!
//! The four functions here are the only arithmetic that the pool performs on
//! amounts. Their contracts are taken on trust from the source of
//! `cosmwasm_std`; what the pool computes with them is proved from these
//! contracts.

use cosmwasm_std::{DivideByZeroError, OverflowError, Uint128};
use vstd::prelude::*;

verus! {

/// `cosmwasm_std::OverflowError`, carried as an opaque value.
#[verifier::external_type_specification]
#[verifier::external_body]
pub struct ExOverflowError(OverflowError);

/// `cosmwasm_std::DivideByZeroError`, carried as an opaque value.
#[verifier::external_type_specification]
#[verifier::external_body]
pub struct ExDivideByZeroError(DivideByZeroError);

/// `Uint128::checked_add`: the sum where it fits in 128 bits, an error where
/// it does not.
#[verifier::external_body]
pub(crate) fn uint128_checked_add(a: u128, b: u128) -> (r: Result<u128, OverflowError>)
    ensures
        r is Ok <==> a + b <= u128::MAX,
        r is Ok ==> r->Ok_0 == a + b,
{
    match Uint128::new(a).checked_add(Uint128::new(b)) {
        Ok(v) => Ok(v.u128()),
        Err(e) => Err(e),
    }
}

/// `Uint128::checked_sub`: the difference where it is not negative, an error
/// where it is.
#[verifier::external_body]
pub(crate) fn uint128_checked_sub(a: u128, b: u128) -> (r: Result<u128, OverflowError>)
    ensures
        r is Ok <==> b <= a,
        r is Ok ==> r->Ok_0 == a - b,
{
    match Uint128::new(a).checked_sub(Uint128::new(b)) {
        Ok(v) => Ok(v.u128()),
        Err(e) => Err(e),
    }
}

/// `Uint128::checked_mul`: the product where it fits in 128 bits, an error
/// where it does not.
#[verifier::external_body]
pub(crate) fn uint128_checked_mul(a: u128, b: u128) -> (r: Result<u128, OverflowError>)
    ensures
        r is Ok <==> a * b <= u128::MAX,
        r is Ok ==> r->Ok_0 == a * b,
{
    match Uint128::new(a).checked_mul(Uint128::new(b)) {
        Ok(v) => Ok(v.u128()),
        Err(e) => Err(e),
    }
}

/// `Uint128::checked_div`: the quotient rounded down where the divisor is not
/// zero, an error where it is.
#[verifier::external_body]
pub(crate) fn uint128_checked_div(a: u128, b: u128) -> (r: Result<u128, DivideByZeroError>)
    ensures
        r is Ok <==> b != 0,
        r is Ok ==> r->Ok_0 == a / b,
{
    match Uint128::new(a).checked_div(Uint128::new(b)) {
        Ok(v) => Ok(v.u128()),
        Err(e) => Err(e),
    }
}

} // verus!
