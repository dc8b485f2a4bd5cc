//! The swap: priced against the stored reserves, then settled.
//!
//! A sale of base takes the exact input from the funds of the message and
//! pays quote out. A purchase of base takes quote from the sender's
//! allowance and pays the exact output out. Whichever side comes in, the fee
//! stays in the quote reserve.

use crate::effects::{
    amount_attr,
    denom_attr,
    get_bank_transfer_to_msg,
    get_cw20_transfer_from_msg,
    get_cw20_transfer_to_msg,
    AttributeValue,
    EffectView,
    Response,
    ResponseView,
};
use crate::error::{overflow, ContractError};
use crate::expiration::{check_expiration, expired, Expiration};
use crate::funds::{funds_total, validate_base_amount};
use crate::msg::TokenSelect;
use crate::pricing::{
    exact_input_outcome,
    exact_input_variable_output,
    exact_output_outcome,
    exact_output_variable_input,
    lemma_quote_for_base_in_bounded,
};
use crate::state::{loaded_pair, pair_denoms, Outcome, Store, StoreView};
use crate::types::{Addr, Denom, DenomView, Env, EnvView, MessageInfo, MessageInfoView};
use vstd::prelude::*;

verus! {

/// What a swap comes to: the amount that comes in, the amount that goes out,
/// and the two reserves afterwards.
pub struct Trade {
    pub input_amount: u128,
    pub output_amount: u128,
    pub base_reserve: u128,
    pub quote_reserve: u128,
}

/// The arithmetic of a swap at the given reserves, or the error with which
/// it stops.
///
/// With `Base`, `input_amount` base is sold for at least `output_amount`
/// quote. With `Quote`, `output_amount` base is bought for at most
/// `input_amount` quote, and the swap is refused with `Overflow` where the
/// quote reserve cannot take what comes in.
pub open spec fn trade_outcome(
    input_token: TokenSelect,
    input_amount: u128,
    output_amount: u128,
    base_reserve: u128,
    quote_reserve: u128,
) -> Result<Trade, ContractError> {
    match input_token {
        TokenSelect::Base => match exact_input_outcome(
            input_amount,
            output_amount,
            base_reserve,
            quote_reserve,
        ) {
            Err(e) => Err(e),
            Ok((sold, bought)) => Ok(
                Trade {
                    input_amount: sold,
                    output_amount: bought,
                    base_reserve: (base_reserve + sold) as u128,
                    quote_reserve: (quote_reserve - bought) as u128,
                },
            ),
        },
        TokenSelect::Quote => match exact_output_outcome(
            output_amount,
            input_amount,
            base_reserve,
            quote_reserve,
        ) {
            Err(e) => Err(e),
            Ok((paid, bought)) => if quote_reserve + paid > u128::MAX {
                Err(overflow())
            } else {
                Ok(
                    Trade {
                        input_amount: paid,
                        output_amount: bought,
                        base_reserve: (base_reserve - bought) as u128,
                        quote_reserve: (quote_reserve + paid) as u128,
                    },
                )
            },
        },
    }
}

/// The effects of a settled swap, in order: the quote is taken from the
/// sender where quote comes in, then the output is paid to `recipient`.
pub open spec fn swap_messages(
    input_token: TokenSelect,
    trade: Trade,
    base_denom: Seq<char>,
    quote_addr: Seq<char>,
    sender: Seq<char>,
    pool: Seq<char>,
    recipient: Seq<char>,
) -> Seq<EffectView> {
    match input_token {
        TokenSelect::Base => seq![
            EffectView::Cw20Transfer {
                contract_addr: quote_addr,
                recipient,
                amount: trade.output_amount,
            },
        ],
        TokenSelect::Quote => seq![
            EffectView::Cw20TransferFrom {
                contract_addr: quote_addr,
                owner: sender,
                recipient: pool,
                amount: trade.input_amount,
            },
            EffectView::BankSend { to_address: recipient, denom: base_denom, amount: trade.output_amount },
        ],
    }
}

/// What `execute_swap` does: the checks in the order in which they are
/// made, and the store and response where all of them pass.
pub open spec fn swap_outcome(
    store: StoreView,
    info: MessageInfoView,
    env: EnvView,
    input_amount: u128,
    input_token: TokenSelect,
    output_amount: u128,
    recipient: Seq<char>,
    expiration: Option<Expiration>,
) -> Result<Outcome, ContractError> {
    if expired(expiration, env.block) {
        Err(ContractError::MsgExpirationError)
    } else if loaded_pair(store, false) is Err {
        Err(loaded_pair(store, false)->Err_0)
    } else {
        let pair = loaded_pair(store, false)->Ok_0;
        let trade = trade_outcome(
            input_token,
            input_amount,
            output_amount,
            pair.base_reserve,
            pair.quote_reserve,
        );
        let base_denom = DenomView::Native(pair.base_denom);
        let quote_denom = DenomView::Cw20(pair.quote_addr);
        if trade is Err {
            Err(trade->Err_0)
        } else if input_token is Base && funds_total(info.funds, pair.base_denom)
            != trade->Ok_0.input_amount {
            Err(ContractError::InsufficientFunds)
        } else {
            let t = trade->Ok_0;
            Ok(
                Outcome {
                    store: store.with_reserves(t.base_reserve, t.quote_reserve),
                    response: ResponseView {
                        messages: swap_messages(
                            input_token,
                            t,
                            pair.base_denom,
                            pair.quote_addr,
                            info.sender,
                            env.contract_address,
                            recipient,
                        ),
                        attributes: seq![
                            amount_attr("input_amount"@, t.input_amount),
                            denom_attr(
                                "input_denom"@,
                                if input_token is Base {
                                    base_denom
                                } else {
                                    quote_denom
                                },
                            ),
                            amount_attr("output_amount"@, t.output_amount),
                            denom_attr(
                                "output_denom"@,
                                if input_token is Base {
                                    quote_denom
                                } else {
                                    base_denom
                                },
                            ),
                        ],
                    },
                },
            )
        }
    }
}

/// Swaps one side of the pair for the other and pays the output to
/// `recipient`.
///
/// With `TokenSelect::Base` the sender sells exactly `input_amount` base,
/// which must have come with the message, for at least `output_amount`
/// quote. With `TokenSelect::Quote` the sender buys exactly `output_amount`
/// base for at most `input_amount` quote. On failure the store is as it was.
pub fn execute_swap(
    env: &Env,
    store: &mut Store,
    info: &MessageInfo,
    input_amount: u128,
    input_token: TokenSelect,
    output_amount: u128,
    recipient: &Addr,
    expiration: Option<Expiration>,
) -> (r: Result<Response, ContractError>)
    ensures
        old(store)@.wf() ==> final(store)@.wf(),
        match r {
            Ok(response) => swap_outcome(
                old(store)@,
                info@,
                env@,
                input_amount,
                input_token,
                output_amount,
                recipient@,
                expiration,
            ) == Ok::<Outcome, ContractError>(
                Outcome { store: final(store)@, response: response@ },
            ),
            Err(e) => {
                &&& swap_outcome(
                    old(store)@,
                    info@,
                    env@,
                    input_amount,
                    input_token,
                    output_amount,
                    recipient@,
                    expiration,
                ) == Err::<Outcome, ContractError>(e)
                &&& *final(store) == *old(store)
            },
        },
{
    check_expiration(&expiration, &env.block)?;
    let mut base = match store.load_base_token() {
        Ok(token) => token,
        Err(e) => {
            return Err(ContractError::Std(e));
        },
    };
    let mut quote = match store.load_quote_token() {
        Ok(token) => token,
        Err(e) => {
            return Err(ContractError::Std(e));
        },
    };
    let (denom, quote_addr) = pair_denoms(&base, &quote)?;

    let swap_price = match input_token {
        TokenSelect::Base => exact_input_variable_output(
            input_amount,
            output_amount,
            base.reserve,
            quote.reserve,
            base.denom.clone(),
            quote.denom.clone(),
        )?,
        TokenSelect::Quote => exact_output_variable_input(
            output_amount,
            input_amount,
            base.reserve,
            quote.reserve,
            base.denom.clone(),
            quote.denom.clone(),
        )?,
    };
    proof {
        if input_token is Base {
            lemma_quote_for_base_in_bounded(
                input_amount as nat,
                base.reserve as nat,
                quote.reserve as nat,
            );
        }
    }

    let mut response = Response::new();
    match &swap_price.input.denom {
        Denom::Native(_) => {
            validate_base_amount(&info.funds, swap_price.input.amount, denom.as_str())?;
            base.increase(swap_price.input.amount)?;
        },
        Denom::Cw20(_) => {
            response = response.add_message(
                get_cw20_transfer_from_msg(
                    &info.sender,
                    &env.contract.address,
                    &quote_addr,
                    swap_price.input.amount,
                ),
            );
            quote.increase(swap_price.input.amount)?;
        },
    }
    match &swap_price.output.denom {
        Denom::Native(_) => {
            response = response.add_message(
                get_bank_transfer_to_msg(recipient, denom.as_str(), swap_price.output.amount),
            );
            base.decrease(swap_price.output.amount)?;
        },
        Denom::Cw20(_) => {
            response = response.add_message(
                get_cw20_transfer_to_msg(recipient, &quote_addr, swap_price.output.amount),
            );
            quote.decrease(swap_price.output.amount)?;
        },
    }
    store.base_token = Some(base);
    store.quote_token = Some(quote);

    let response = response.add_attribute(
        "input_amount",
        AttributeValue::Amount(swap_price.input.amount),
    ).add_attribute("input_denom", AttributeValue::Denom(swap_price.input.denom)).add_attribute(
        "output_amount",
        AttributeValue::Amount(swap_price.output.amount),
    ).add_attribute("output_denom", AttributeValue::Denom(swap_price.output.denom));
    proof {
        let expected = swap_outcome(
            old(store)@,
            info@,
            env@,
            input_amount,
            input_token,
            output_amount,
            recipient@,
            expiration,
        );
        assert(expected is Ok);
        assert(response@.messages =~= expected->Ok_0.response.messages);
        assert(response@.attributes =~= expected->Ok_0.response.attributes);
    }
    Ok(response)
}

} // verus!
