//! Swap pricing on the curve `(B + b)(Q - q) = B Q`, with the fee taken on
//! the quote leg in either direction.
//!
//! Selling `b` base for quote pays out `Q b / (B + b)` less the fee; buying
//! `b` base with quote costs `Q b / (B - b)` plus the fee. All divisions
//! round down.

use crate::error::{divide_by_zero, overflow, ContractError, StdError};
use crate::state::{SwapPrice, TokenAmount};
use crate::types::Denom;
use crate::uint128::{
    uint128_checked_add,
    uint128_checked_div,
    uint128_checked_mul,
    uint128_checked_sub,
};
use vstd::prelude::*;

verus! {

/// The fee on a quote amount: three parts in a thousand, rounded down.
pub open spec fn swap_fee(amount: nat) -> nat {
    amount * 3 / 1000
}

/// The quote that `input` base buys at reserves `base_reserve` and
/// `quote_reserve`, before the fee.
pub open spec fn quote_for_base_in(input: nat, base_reserve: nat, quote_reserve: nat) -> nat {
    quote_reserve * input / (base_reserve + input)
}

/// The quote that buys `output` base at reserves `base_reserve` and
/// `quote_reserve`, before the fee. Meant for `output < base_reserve`.
pub open spec fn quote_for_base_out(output: nat, base_reserve: nat, quote_reserve: nat) -> nat {
    ((quote_reserve * output) as int / (base_reserve - output)) as nat
}

/// The amounts `(input, output)` of a sale of exactly `input` base, or the
/// error with which it is refused.
pub open spec fn exact_input_outcome(
    input: u128,
    min_output: u128,
    base_reserve: u128,
    quote_reserve: u128,
) -> Result<(u128, u128), ContractError> {
    let gross = quote_for_base_in(input as nat, base_reserve as nat, quote_reserve as nat);
    let net = gross - swap_fee(gross);
    if quote_reserve * input > u128::MAX || base_reserve + input > u128::MAX {
        Err(overflow())
    } else if base_reserve + input == 0 {
        Err(divide_by_zero())
    } else if gross * 3 > u128::MAX {
        Err(overflow())
    } else if net < min_output {
        Err(ContractError::SwapMinError { min: min_output, available: net as u128 })
    } else {
        Ok((input, net as u128))
    }
}

/// The amounts `(input, output)` of a purchase of exactly `output` base, or
/// the error with which it is refused.
pub open spec fn exact_output_outcome(
    output: u128,
    max_input: u128,
    base_reserve: u128,
    quote_reserve: u128,
) -> Result<(u128, u128), ContractError> {
    let net = quote_for_base_out(output as nat, base_reserve as nat, quote_reserve as nat);
    let gross = net + swap_fee(net);
    if quote_reserve * output > u128::MAX || output >= base_reserve {
        Err(overflow())
    } else if net * 3 > u128::MAX {
        Err(overflow())
    } else if gross > max_input {
        Err(ContractError::SwapMaxError { max: max_input, required: gross as u128 })
    } else {
        Ok((gross as u128, output))
    }
}

/// The fee on `amount`. Fails with `Overflow` where three times the amount
/// does not fit in 128 bits.
pub fn get_swap_fee(amount: u128) -> (r: Result<u128, ContractError>)
    ensures
        amount * 3 <= u128::MAX ==> r == Ok::<u128, ContractError>(swap_fee(amount as nat) as u128),
        amount * 3 > u128::MAX ==> r == Err::<u128, ContractError>(overflow()),
{
    let tripled = match uint128_checked_mul(amount, 3u128) {
        Ok(v) => v,
        Err(_) => {
            return Err(ContractError::Std(StdError::Overflow));
        },
    };
    match uint128_checked_div(tripled, 1000u128) {
        Ok(v) => Ok(v),
        Err(_) => Err(ContractError::Std(StdError::DivideByZero)),
    }
}

/// Prices the sale of exactly `exact_input_amount` base for quote.
///
/// The caller gets `Q b / (B + b)` quote less the fee on it, and the sale is
/// refused with `SwapMinError` where that is under `min_output_amount`.
pub fn exact_input_variable_output(
    exact_input_amount: u128,
    min_output_amount: u128,
    base_reserve: u128,
    quote_reserve: u128,
    base_denom: Denom,
    quote_denom: Denom,
) -> (r: Result<SwapPrice, ContractError>)
    ensures
        match r {
            Ok(price) => {
                &&& exact_input_outcome(
                    exact_input_amount,
                    min_output_amount,
                    base_reserve,
                    quote_reserve,
                ) == Ok::<(u128, u128), ContractError>((price.input.amount, price.output.amount))
                &&& price@.input.denom == base_denom@
                &&& price@.output.denom == quote_denom@
            },
            Err(e) => exact_input_outcome(
                exact_input_amount,
                min_output_amount,
                base_reserve,
                quote_reserve,
            ) == Err::<(u128, u128), ContractError>(e),
        },
{
    let numerator = match uint128_checked_mul(quote_reserve, exact_input_amount) {
        Ok(v) => v,
        Err(_) => {
            return Err(ContractError::Std(StdError::Overflow));
        },
    };
    let denominator = match uint128_checked_add(base_reserve, exact_input_amount) {
        Ok(v) => v,
        Err(_) => {
            return Err(ContractError::Std(StdError::Overflow));
        },
    };
    let gross = match uint128_checked_div(numerator, denominator) {
        Ok(v) => v,
        Err(_) => {
            return Err(ContractError::Std(StdError::DivideByZero));
        },
    };
    let fee = get_swap_fee(gross)?;
    let net = match uint128_checked_sub(gross, fee) {
        Ok(v) => v,
        Err(_) => {
            return Err(ContractError::Std(StdError::Overflow));
        },
    };
    if net < min_output_amount {
        return Err(ContractError::SwapMinError { min: min_output_amount, available: net });
    }
    Ok(
        SwapPrice {
            input: TokenAmount { amount: exact_input_amount, denom: base_denom },
            output: TokenAmount { amount: net, denom: quote_denom },
        },
    )
}

/// Prices the purchase of exactly `exact_output_amount` base with quote.
///
/// The caller pays `Q b / (B - b)` quote plus the fee on it, and the purchase
/// is refused with `SwapMaxError` where that is over `max_input_amount`. An
/// output that the base reserve does not exceed is refused with `Overflow`.
pub fn exact_output_variable_input(
    exact_output_amount: u128,
    max_input_amount: u128,
    base_reserve: u128,
    quote_reserve: u128,
    base_denom: Denom,
    quote_denom: Denom,
) -> (r: Result<SwapPrice, ContractError>)
    ensures
        match r {
            Ok(price) => {
                &&& exact_output_outcome(
                    exact_output_amount,
                    max_input_amount,
                    base_reserve,
                    quote_reserve,
                ) == Ok::<(u128, u128), ContractError>((price.input.amount, price.output.amount))
                &&& price@.input.denom == quote_denom@
                &&& price@.output.denom == base_denom@
            },
            Err(e) => exact_output_outcome(
                exact_output_amount,
                max_input_amount,
                base_reserve,
                quote_reserve,
            ) == Err::<(u128, u128), ContractError>(e),
        },
{
    let numerator = match uint128_checked_mul(quote_reserve, exact_output_amount) {
        Ok(v) => v,
        Err(_) => {
            return Err(ContractError::Std(StdError::Overflow));
        },
    };
    let denominator = match uint128_checked_sub(base_reserve, exact_output_amount) {
        Ok(v) => v,
        Err(_) => {
            return Err(ContractError::Std(StdError::Overflow));
        },
    };
    let net = match uint128_checked_div(numerator, denominator) {
        Ok(v) => v,
        Err(_) => {
            return Err(ContractError::Std(StdError::Overflow));
        },
    };
    let fee = get_swap_fee(net)?;
    let gross = match uint128_checked_add(net, fee) {
        Ok(v) => v,
        Err(_) => {
            return Err(ContractError::Std(StdError::Overflow));
        },
    };
    if gross > max_input_amount {
        return Err(ContractError::SwapMaxError { max: max_input_amount, required: gross });
    }
    Ok(
        SwapPrice {
            input: TokenAmount { amount: gross, denom: quote_denom },
            output: TokenAmount { amount: exact_output_amount, denom: base_denom },
        },
    )
}


/// A sale never pays out more quote than the pool holds.
pub proof fn lemma_quote_for_base_in_bounded(input: nat, base_reserve: nat, quote_reserve: nat)
    requires
        base_reserve + input > 0,
    ensures
        quote_for_base_in(input, base_reserve, quote_reserve) <= quote_reserve,
        swap_fee(quote_for_base_in(input, base_reserve, quote_reserve)) <= quote_for_base_in(
            input,
            base_reserve,
            quote_reserve,
        ),
{
    let d = (base_reserve + input) as int;
    assert(quote_reserve * input <= quote_reserve * d) by (nonlinear_arith)
        requires
            input <= d,
    ;
    vstd::arithmetic::div_mod::lemma_div_is_ordered(
        (quote_reserve * input) as int,
        quote_reserve * d,
        d,
    );
    vstd::arithmetic::div_mod::lemma_div_multiples_vanish(quote_reserve as int, d);
    assert(quote_reserve * d == d * quote_reserve) by (nonlinear_arith);
}

} // verus!
