//! Liquidity accounting: how many shares a deposit mints, how much quote it
//! takes, and what a share pays out.
//!
//! The first provider gets one share for each unit of base and sets the
//! price by paying the same amount of quote. Afterwards shares, quote and
//! payouts are in proportion, rounded down.

use crate::effects::{
    amount_attr,
    get_bank_transfer_to_msg,
    get_burn_msg,
    get_cw20_transfer_from_msg,
    get_cw20_transfer_to_msg,
    mint_lp_tokens,
    AttributeValue,
    EffectView,
    Response,
    ResponseView,
};
use crate::error::{overflow, ContractError, StdError};
use crate::expiration::{check_expiration, expired, Expiration};
use crate::funds::{funds_total, validate_base_amount};
use crate::state::{loaded_pair, pair_denoms, Outcome, Store, StoreView};
use crate::types::{Env, EnvView, MessageInfo, MessageInfoView};
use crate::uint128::{uint128_checked_div, uint128_checked_mul};
use vstd::prelude::*;

verus! {

/// `a * b / c` rounded down, or the error with which the arithmetic stops:
/// the product is checked before the division.
pub open spec fn mul_div_outcome(a: u128, b: u128, c: u128) -> Result<u128, StdError> {
    if a * b > u128::MAX {
        Err(StdError::Overflow)
    } else if c == 0 {
        Err(StdError::DivideByZero)
    } else {
        Ok((a * b / (c as int)) as u128)
    }
}

/// The shares that a deposit of `base_token_amount` mints.
pub open spec fn lp_amount_outcome(
    base_token_amount: u128,
    liquidity_supply: u128,
    base_reserve: u128,
) -> Result<u128, StdError> {
    if liquidity_supply == 0 {
        Ok(base_token_amount)
    } else {
        mul_div_outcome(base_token_amount, liquidity_supply, base_reserve)
    }
}

/// The quote that goes with a deposit of `base_token_amount`.
pub open spec fn quote_amount_outcome(
    base_token_amount: u128,
    liquidity_supply: u128,
    quote_reserve: u128,
    base_reserve: u128,
) -> Result<u128, StdError> {
    if liquidity_supply == 0 {
        Ok(base_token_amount)
    } else {
        mul_div_outcome(base_token_amount, quote_reserve, base_reserve)
    }
}

/// What `lp_amount` shares out of `lp_supply` pay out of `reserve`.
pub open spec fn share_outcome(lp_amount: u128, reserve: u128, lp_supply: u128) -> Result<
    u128,
    StdError,
> {
    mul_div_outcome(lp_amount, reserve, lp_supply)
}

/// Lifts an arithmetic outcome into the pool's error type.
pub open spec fn lift(outcome: Result<u128, StdError>) -> Result<u128, ContractError> {
    match outcome {
        Ok(v) => Ok(v),
        Err(e) => Err(ContractError::Std(e)),
    }
}

/// `a * b / c`, rounded down. Fails with `Overflow` where the product does
/// not fit in 128 bits, else with `DivideByZero` where `c` is zero.
pub fn mul_div(a: u128, b: u128, c: u128) -> (r: Result<u128, StdError>)
    ensures
        r == mul_div_outcome(a, b, c),
{
    let product = match uint128_checked_mul(a, b) {
        Ok(v) => v,
        Err(_) => {
            return Err(StdError::Overflow);
        },
    };
    match uint128_checked_div(product, c) {
        Ok(v) => Ok(v),
        Err(_) => Err(StdError::DivideByZero),
    }
}

/// The shares to mint for a deposit of `base_token_amount`: the amount
/// itself while no share exists, else `base_token_amount * liquidity_supply
/// / base_reserve`.
pub fn get_lp_token_amount_to_mint(
    base_token_amount: u128,
    liquidity_supply: u128,
    base_reserve: u128,
) -> (r: Result<u128, ContractError>)
    ensures
        r == lift(lp_amount_outcome(base_token_amount, liquidity_supply, base_reserve)),
{
    if liquidity_supply == 0 {
        Ok(base_token_amount)
    } else {
        match mul_div(base_token_amount, liquidity_supply, base_reserve) {
            Ok(v) => Ok(v),
            Err(e) => Err(ContractError::Std(e)),
        }
    }
}

/// The quote to pay with a deposit of `base_token_amount`: the same amount
/// while no share exists, else `base_token_amount * quote_reserve /
/// base_reserve`.
pub fn get_required_quote_token_amount(
    base_token_amount: u128,
    liquidity_supply: u128,
    quote_reserve: u128,
    base_reserve: u128,
) -> (r: Result<u128, StdError>)
    ensures
        r == quote_amount_outcome(base_token_amount, liquidity_supply, quote_reserve, base_reserve),
{
    if liquidity_supply == 0 {
        Ok(base_token_amount)
    } else {
        mul_div(base_token_amount, quote_reserve, base_reserve)
    }
}


/// What a deposit comes to: the shares minted, the quote taken, and the two
/// reserves afterwards.
pub struct Deposit {
    pub liquidity: u128,
    pub quote_amount: u128,
    pub base_reserve: u128,
    pub quote_reserve: u128,
}

/// The arithmetic of a deposit of `base_token_amount` base into a pool with
/// the given share supply and reserves, or the error with which it stops:
/// first the shares, then the quote, then the bound on the quote, then the
/// two new reserves.
pub open spec fn deposit_outcome(
    base_token_amount: u128,
    max_quote_token_amount: u128,
    lp_token_supply: u128,
    base_reserve: u128,
    quote_reserve: u128,
) -> Result<Deposit, ContractError> {
    match (
        lp_amount_outcome(base_token_amount, lp_token_supply, base_reserve),
        quote_amount_outcome(base_token_amount, lp_token_supply, quote_reserve, base_reserve),
    ) {
        (Err(e), _) => Err(ContractError::Std(e)),
        (Ok(_), Err(e)) => Err(ContractError::Std(e)),
        (Ok(liquidity), Ok(quote_amount)) => if quote_amount > max_quote_token_amount {
            Err(
                ContractError::MaxQuoteTokenAmountExceeded {
                    max_quote_token_amount,
                    required_quote_token_amount: quote_amount,
                },
            )
        } else if base_reserve + base_token_amount > u128::MAX || quote_reserve + quote_amount
            > u128::MAX {
            Err(overflow())
        } else {
            Ok(
                Deposit {
                    liquidity,
                    quote_amount,
                    base_reserve: (base_reserve + base_token_amount) as u128,
                    quote_reserve: (quote_reserve + quote_amount) as u128,
                },
            )
        },
    }
}

/// What `execute_add_liquidity` does: the checks in the order in which they
/// are made, and the store and response where all of them pass.
///
/// The response asks for the quote to be moved from the sender to the pool
/// and then for the shares to be minted to the sender.
pub open spec fn add_liquidity_outcome(
    store: StoreView,
    info: MessageInfoView,
    env: EnvView,
    lp_token_supply: u128,
    base_token_amount: u128,
    max_quote_token_amount: u128,
    expiration: Option<Expiration>,
) -> Result<Outcome, ContractError> {
    if expired(expiration, env.block) {
        Err(ContractError::MsgExpirationError)
    } else if base_token_amount == 0 || max_quote_token_amount == 0 {
        Err(ContractError::NonZeroInputAmountExpected)
    } else if loaded_pair(store, true) is Err {
        Err(loaded_pair(store, true)->Err_0)
    } else {
        let pair = loaded_pair(store, true)->Ok_0;
        let deposit = deposit_outcome(
            base_token_amount,
            max_quote_token_amount,
            lp_token_supply,
            pair.base_reserve,
            pair.quote_reserve,
        );
        if funds_total(info.funds, pair.base_denom) != base_token_amount {
            Err(ContractError::InsufficientFunds)
        } else if deposit is Err {
            Err(deposit->Err_0)
        } else {
            let d = deposit->Ok_0;
            Ok(
                Outcome {
                    store: store.with_reserves(d.base_reserve, d.quote_reserve),
                    response: ResponseView {
                        messages: seq![
                            EffectView::Cw20TransferFrom {
                                contract_addr: pair.quote_addr,
                                owner: info.sender,
                                recipient: env.contract_address,
                                amount: d.quote_amount,
                            },
                            EffectView::Cw20Mint {
                                contract_addr: store.lp_token->Some_0,
                                recipient: info.sender,
                                amount: d.liquidity,
                            },
                        ],
                        attributes: seq![
                            amount_attr("base_token_amount"@, base_token_amount),
                            amount_attr("required_quote_token_amount"@, d.quote_amount),
                            amount_attr("liquidity_received"@, d.liquidity),
                        ],
                    },
                },
            )
        }
    }
}

/// Deposits `base_token_amount` base, which must have come with the message,
/// and the quote that goes with it, and has shares minted to the sender.
///
/// `lp_token_supply` is the number of shares that exist, as the share
/// contract reports it. On success the two reserves have grown by what was
/// deposited; on failure the store is as it was.
pub fn execute_add_liquidity(
    store: &mut Store,
    info: &MessageInfo,
    env: &Env,
    lp_token_supply: u128,
    base_token_amount: u128,
    max_quote_token_amount: u128,
    expiration: Option<Expiration>,
) -> (r: Result<Response, ContractError>)
    ensures
        old(store)@.wf() ==> final(store)@.wf(),
        match r {
            Ok(response) => add_liquidity_outcome(
                old(store)@,
                info@,
                env@,
                lp_token_supply,
                base_token_amount,
                max_quote_token_amount,
                expiration,
            ) == Ok::<Outcome, ContractError>(
                Outcome { store: final(store)@, response: response@ },
            ),
            Err(e) => {
                &&& add_liquidity_outcome(
                    old(store)@,
                    info@,
                    env@,
                    lp_token_supply,
                    base_token_amount,
                    max_quote_token_amount,
                    expiration,
                ) == Err::<Outcome, ContractError>(e)
                &&& *final(store) == *old(store)
            },
        },
{
    check_expiration(&expiration, &env.block)?;
    if base_token_amount == 0 || max_quote_token_amount == 0 {
        return Err(ContractError::NonZeroInputAmountExpected);
    }
    let base = match store.load_base_token() {
        Ok(token) => token,
        Err(e) => {
            return Err(ContractError::Std(e));
        },
    };
    let quote = match store.load_quote_token() {
        Ok(token) => token,
        Err(e) => {
            return Err(ContractError::Std(e));
        },
    };
    let lp_token_addr = match store.load_lp_token() {
        Ok(addr) => addr,
        Err(e) => {
            return Err(ContractError::Std(e));
        },
    };
    let (denom, quote_addr) = pair_denoms(&base, &quote)?;
    validate_base_amount(&info.funds, base_token_amount, denom.as_str())?;

    let liquidity_amount = get_lp_token_amount_to_mint(
        base_token_amount,
        lp_token_supply,
        base.reserve,
    )?;
    let required_quote_token_amount = match get_required_quote_token_amount(
        base_token_amount,
        lp_token_supply,
        quote.reserve,
        base.reserve,
    ) {
        Ok(v) => v,
        Err(e) => {
            return Err(ContractError::Std(e));
        },
    };
    if required_quote_token_amount > max_quote_token_amount {
        return Err(
            ContractError::MaxQuoteTokenAmountExceeded {
                max_quote_token_amount,
                required_quote_token_amount,
            },
        );
    }
    let transfer_msg = get_cw20_transfer_from_msg(
        &info.sender,
        &env.contract.address,
        &quote_addr,
        required_quote_token_amount,
    );

    let mut base = base;
    let mut quote = quote;
    base.increase(base_token_amount)?;
    quote.increase(required_quote_token_amount)?;
    store.base_token = Some(base);
    store.quote_token = Some(quote);

    let mint_msg = mint_lp_tokens(&info.sender, liquidity_amount, &lp_token_addr);
    let response = Response::new().add_message(transfer_msg).add_message(mint_msg).add_attribute(
        "base_token_amount",
        AttributeValue::Amount(base_token_amount),
    ).add_attribute(
        "required_quote_token_amount",
        AttributeValue::Amount(required_quote_token_amount),
    ).add_attribute("liquidity_received", AttributeValue::Amount(liquidity_amount));
    proof {
        let expected = add_liquidity_outcome(
            old(store)@,
            info@,
            env@,
            lp_token_supply,
            base_token_amount,
            max_quote_token_amount,
            expiration,
        );
        assert(expected is Ok);
        assert(response@.messages =~= expected->Ok_0.response.messages);
        assert(response@.attributes =~= expected->Ok_0.response.attributes);
    }
    Ok(response)
}


/// What a redemption comes to: the base and the quote paid out, and the two
/// reserves afterwards.
pub struct Withdrawal {
    pub base_amount: u128,
    pub quote_amount: u128,
    pub base_reserve: u128,
    pub quote_reserve: u128,
}

/// The arithmetic of a redemption of `lp_amount` shares by a holder of
/// `lp_balance` shares, out of a pool with the given share supply and
/// reserves, or the error with which it stops: first the holder's balance,
/// then the base and its minimum, then the quote and its minimum, then the
/// two new reserves.
pub open spec fn withdrawal_outcome(
    lp_amount: u128,
    min_base_token_output: u128,
    min_quote_token_output: u128,
    lp_balance: u128,
    lp_token_supply: u128,
    base_reserve: u128,
    quote_reserve: u128,
) -> Result<Withdrawal, ContractError> {
    let base = share_outcome(lp_amount, base_reserve, lp_token_supply);
    let quote = share_outcome(lp_amount, quote_reserve, lp_token_supply);
    if lp_amount > lp_balance {
        Err(ContractError::InsufficientLiquidityError { requested: lp_amount, available: lp_balance })
    } else if base is Err {
        Err(ContractError::Std(base->Err_0))
    } else if base->Ok_0 < min_base_token_output {
        Err(
            ContractError::MinBaseTokenOutputError {
                requested: min_base_token_output,
                available: base->Ok_0,
            },
        )
    } else if quote is Err {
        Err(ContractError::Std(quote->Err_0))
    } else if quote->Ok_0 < min_quote_token_output {
        Err(
            ContractError::MinQuoteTokenOutputError {
                requested: min_quote_token_output,
                available: quote->Ok_0,
            },
        )
    } else if base->Ok_0 > base_reserve || quote->Ok_0 > quote_reserve {
        Err(overflow())
    } else {
        Ok(
            Withdrawal {
                base_amount: base->Ok_0,
                quote_amount: quote->Ok_0,
                base_reserve: (base_reserve - base->Ok_0) as u128,
                quote_reserve: (quote_reserve - quote->Ok_0) as u128,
            },
        )
    }
}

/// What `execute_remove_liquidity` does: the checks in the order in which
/// they are made, and the store and response where all of them pass.
///
/// The response asks for the base to be sent to the sender, then for the
/// quote to be moved to the sender, then for the shares to be burnt.
pub open spec fn remove_liquidity_outcome(
    store: StoreView,
    info: MessageInfoView,
    env: EnvView,
    lp_token_supply: u128,
    user_lp_balance: u128,
    lp_amount: u128,
    min_base_token_output: u128,
    min_quote_token_output: u128,
    expiration: Option<Expiration>,
) -> Result<Outcome, ContractError> {
    if expired(expiration, env.block) {
        Err(ContractError::MsgExpirationError)
    } else if loaded_pair(store, true) is Err {
        Err(loaded_pair(store, true)->Err_0)
    } else {
        let pair = loaded_pair(store, true)->Ok_0;
        let withdrawal = withdrawal_outcome(
            lp_amount,
            min_base_token_output,
            min_quote_token_output,
            user_lp_balance,
            lp_token_supply,
            pair.base_reserve,
            pair.quote_reserve,
        );
        if withdrawal is Err {
            Err(withdrawal->Err_0)
        } else {
            let w = withdrawal->Ok_0;
            Ok(
                Outcome {
                    store: store.with_reserves(w.base_reserve, w.quote_reserve),
                    response: ResponseView {
                        messages: seq![
                            EffectView::BankSend {
                                to_address: info.sender,
                                denom: pair.base_denom,
                                amount: w.base_amount,
                            },
                            EffectView::Cw20Transfer {
                                contract_addr: pair.quote_addr,
                                recipient: info.sender,
                                amount: w.quote_amount,
                            },
                            EffectView::Cw20BurnFrom {
                                contract_addr: store.lp_token->Some_0,
                                owner: info.sender,
                                amount: lp_amount,
                            },
                        ],
                        attributes: seq![
                            amount_attr("liquidity_burned"@, lp_amount),
                            amount_attr("base_token_returned"@, w.base_amount),
                            amount_attr("quote_token_returned"@, w.quote_amount),
                        ],
                    },
                },
            )
        }
    }
}

/// Redeems `lp_amount` of the sender's shares for base and quote in
/// proportion, and has the shares burnt.
///
/// `lp_token_supply` is the number of shares that exist and
/// `user_lp_balance` the number that the sender holds, as the share contract
/// reports them. On success the two reserves have shrunk by what was paid
/// out; on failure the store is as it was.
pub fn execute_remove_liquidity(
    store: &mut Store,
    info: &MessageInfo,
    env: &Env,
    lp_token_supply: u128,
    user_lp_balance: u128,
    lp_amount: u128,
    min_base_token_output: u128,
    min_quote_token_output: u128,
    expiration: Option<Expiration>,
) -> (r: Result<Response, ContractError>)
    ensures
        old(store)@.wf() ==> final(store)@.wf(),
        match r {
            Ok(response) => remove_liquidity_outcome(
                old(store)@,
                info@,
                env@,
                lp_token_supply,
                user_lp_balance,
                lp_amount,
                min_base_token_output,
                min_quote_token_output,
                expiration,
            ) == Ok::<Outcome, ContractError>(
                Outcome { store: final(store)@, response: response@ },
            ),
            Err(e) => {
                &&& remove_liquidity_outcome(
                    old(store)@,
                    info@,
                    env@,
                    lp_token_supply,
                    user_lp_balance,
                    lp_amount,
                    min_base_token_output,
                    min_quote_token_output,
                    expiration,
                ) == Err::<Outcome, ContractError>(e)
                &&& *final(store) == *old(store)
            },
        },
{
    check_expiration(&expiration, &env.block)?;
    let base = match store.load_base_token() {
        Ok(token) => token,
        Err(e) => {
            return Err(ContractError::Std(e));
        },
    };
    let quote = match store.load_quote_token() {
        Ok(token) => token,
        Err(e) => {
            return Err(ContractError::Std(e));
        },
    };
    let lp_token_addr = match store.load_lp_token() {
        Ok(addr) => addr,
        Err(e) => {
            return Err(ContractError::Std(e));
        },
    };
    let (denom, quote_addr) = pair_denoms(&base, &quote)?;

    if lp_amount > user_lp_balance {
        return Err(
            ContractError::InsufficientLiquidityError {
                requested: lp_amount,
                available: user_lp_balance,
            },
        );
    }
    let base_amount_to_output = match mul_div(lp_amount, base.reserve, lp_token_supply) {
        Ok(v) => v,
        Err(e) => {
            return Err(ContractError::Std(e));
        },
    };
    if base_amount_to_output < min_base_token_output {
        return Err(
            ContractError::MinBaseTokenOutputError {
                requested: min_base_token_output,
                available: base_amount_to_output,
            },
        );
    }
    let quote_amount_to_output = match mul_div(lp_amount, quote.reserve, lp_token_supply) {
        Ok(v) => v,
        Err(e) => {
            return Err(ContractError::Std(e));
        },
    };
    if quote_amount_to_output < min_quote_token_output {
        return Err(
            ContractError::MinQuoteTokenOutputError {
                requested: min_quote_token_output,
                available: quote_amount_to_output,
            },
        );
    }
    let mut base = base;
    let mut quote = quote;
    base.decrease(base_amount_to_output)?;
    quote.decrease(quote_amount_to_output)?;
    store.base_token = Some(base);
    store.quote_token = Some(quote);

    let base_token_transfer_msg = get_bank_transfer_to_msg(
        &info.sender,
        denom.as_str(),
        base_amount_to_output,
    );
    let quote_token_transfer_msg = get_cw20_transfer_to_msg(
        &info.sender,
        &quote_addr,
        quote_amount_to_output,
    );
    let lp_token_burn_msg = get_burn_msg(&lp_token_addr, &info.sender, lp_amount);

    let response = Response::new().add_message(base_token_transfer_msg).add_message(
        quote_token_transfer_msg,
    ).add_message(lp_token_burn_msg).add_attribute(
        "liquidity_burned",
        AttributeValue::Amount(lp_amount),
    ).add_attribute("base_token_returned", AttributeValue::Amount(base_amount_to_output))
        .add_attribute("quote_token_returned", AttributeValue::Amount(quote_amount_to_output));
    proof {
        let expected = remove_liquidity_outcome(
            old(store)@,
            info@,
            env@,
            lp_token_supply,
            user_lp_balance,
            lp_amount,
            min_base_token_output,
            min_quote_token_output,
            expiration,
        );
        assert(expected is Ok);
        assert(response@.messages =~= expected->Ok_0.response.messages);
        assert(response@.attributes =~= expected->Ok_0.response.attributes);
    }
    Ok(response)
}

} // verus!
