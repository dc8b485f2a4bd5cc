//! The pool's entry points: setting it up, running a command, answering a
//! question. The reply that tells where the share contract lives is taken in
//! `crate::reply`.

use crate::effects::{text_attr, AttributeValue, Effect, EffectView, Response, ResponseView};
use crate::error::{ContractError, StdError, StoredItem};
use crate::expiration::Expiration;
use crate::liquidity::{
    add_liquidity_outcome,
    execute_add_liquidity,
    execute_remove_liquidity,
    remove_liquidity_outcome,
};
use crate::msg::{
    ExecuteMsg,
    ExecuteMsgView,
    InfoResponse,
    InfoResponseView,
    InstantiateMsg,
    InstantiateMsgView,
    QueryMsg,
    QueryMsgView,
    QueryResponse,
    QueryResponseView,
    TokenSelect,
};
use crate::reply::INSTANTIATE_LP_TOKEN_REPLY_ID;
use crate::state::{Outcome, Store, StoreView, Token, TokenView};
use crate::swap::{execute_swap, swap_outcome};
use crate::types::{Addr, Env, EnvView, MessageInfo, MessageInfoView};
use vstd::prelude::*;

verus! {

/// The name under which the pool's code is known.
pub const CONTRACT_NAME: &'static str = "huahuaswap";

/// The name of the share token.
pub const LP_TOKEN_NAME: &'static str = "HuahuaSwap LP Token";

/// The symbol of the share token.
pub const LP_TOKEN_SYMBOL: &'static str = "hhslpt";

/// The number of decimals of the share token.
pub const LP_TOKEN_DECIMALS: u8 = 6;

/// What is known of the shares when a command comes in, as the share
/// contract reports it: how many exist, and how many the sender holds.
#[derive(Clone, Copy, Debug, PartialEq, Eq, Structural)]
pub struct LpShares {
    pub total_supply: u128,
    pub sender_balance: u128,
}

/// What `instantiate` does: the checks in the order in which they are made,
/// and the store and response where all of them pass.
///
/// The base must be native and be the chain's own asset, and the quote must
/// be contract-issued. Both reserves start at zero, and the response asks
/// for the share contract to be created with the pool as its minter.
pub open spec fn instantiate_outcome(
    store: StoreView,
    env: EnvView,
    msg: InstantiateMsgView,
) -> Result<Outcome, ContractError> {
    if !(msg.base_denom is Native) {
        Err(ContractError::InvalidBaseDenom)
    } else if msg.native_denom != msg.base_denom {
        Err(ContractError::NativeTokenNotProvidedInPair)
    } else if !(msg.quote_denom is Cw20) {
        Err(ContractError::InvalidQuoteDenom)
    } else {
        Ok(
            Outcome {
                store: StoreView {
                    base_token: Some(TokenView { reserve: 0, denom: msg.base_denom }),
                    quote_token: Some(TokenView { reserve: 0, denom: msg.quote_denom }),
                    lp_token: store.lp_token,
                },
                response: ResponseView {
                    messages: seq![
                        EffectView::InstantiateLpToken {
                            reply_id: INSTANTIATE_LP_TOKEN_REPLY_ID,
                            code_id: msg.lp_token_code_id,
                            name: LP_TOKEN_NAME@,
                            symbol: LP_TOKEN_SYMBOL@,
                            decimals: LP_TOKEN_DECIMALS,
                            minter: env.contract_address,
                            base_denom: msg.base_denom,
                            quote_denom: msg.quote_denom,
                        },
                    ],
                    attributes: seq![text_attr("method"@, "instantiate"@)],
                },
            },
        )
    }
}

/// Sets the pool up for the pair that `msg` names.
///
/// On success the store holds both tokens with empty reserves, and the pair
/// is well formed. On failure the store is as it was.
pub fn instantiate(store: &mut Store, env: &Env, info: &MessageInfo, msg: InstantiateMsg) -> (r:
    Result<Response, ContractError>)
    ensures
        match r {
            Ok(response) => {
                &&& instantiate_outcome(old(store)@, env@, msg@) == Ok::<Outcome, ContractError>(
                    Outcome { store: final(store)@, response: response@ },
                )
                &&& final(store)@.wf()
            },
            Err(e) => {
                &&& instantiate_outcome(old(store)@, env@, msg@) == Err::<Outcome, ContractError>(e)
                &&& *final(store) == *old(store)
            },
        },
{
    if !msg.base_denom.is_native() {
        return Err(ContractError::InvalidBaseDenom);
    }
    if !msg.native_denom.same(&msg.base_denom) {
        return Err(ContractError::NativeTokenNotProvidedInPair);
    }
    if msg.quote_denom.is_native() {
        return Err(ContractError::InvalidQuoteDenom);
    }
    store.base_token = Some(Token { reserve: 0, denom: msg.base_denom.clone() });
    store.quote_token = Some(Token { reserve: 0, denom: msg.quote_denom.clone() });

    let sub_msg = Effect::InstantiateLpToken {
        reply_id: INSTANTIATE_LP_TOKEN_REPLY_ID,
        code_id: msg.lp_token_code_id,
        name: LP_TOKEN_NAME.to_owned(),
        symbol: LP_TOKEN_SYMBOL.to_owned(),
        decimals: LP_TOKEN_DECIMALS,
        minter: env.contract.address.clone(),
        base_denom: msg.base_denom,
        quote_denom: msg.quote_denom,
    };
    let response = Response::new().add_attribute(
        "method",
        AttributeValue::Text("instantiate".to_owned()),
    ).add_message(sub_msg);
    proof {
        let expected = instantiate_outcome(old(store)@, env@, msg@);
        assert(response@.messages =~= expected->Ok_0.response.messages);
        assert(response@.attributes =~= expected->Ok_0.response.attributes);
    }
    Ok(response)
}

/// What `execute` does: each command does what the operation of its name
/// does. A plain swap pays the sender, and a swap through a second pool has
/// no effect.
pub open spec fn execute_outcome(
    store: StoreView,
    env: EnvView,
    info: MessageInfoView,
    shares: LpShares,
    msg: ExecuteMsgView,
) -> Result<Outcome, ContractError> {
    match msg {
        ExecuteMsgView::AddLiquidity {
            base_token_amount,
            max_quote_token_amount,
            expiration,
        } => add_liquidity_outcome(
            store,
            info,
            env,
            shares.total_supply,
            base_token_amount,
            max_quote_token_amount,
            expiration,
        ),
        ExecuteMsgView::RemoveLiquidity {
            amount,
            min_base_token_output,
            min_quote_token_output,
            expiration,
        } => remove_liquidity_outcome(
            store,
            info,
            env,
            shares.total_supply,
            shares.sender_balance,
            amount,
            min_base_token_output,
            min_quote_token_output,
            expiration,
        ),
        ExecuteMsgView::Swap { input_token, input_amount, output_amount, expiration } => swap_outcome(
            store,
            info,
            env,
            input_amount,
            input_token,
            output_amount,
            info.sender,
            expiration,
        ),
        ExecuteMsgView::PassThroughSwap { .. } => Ok(
            Outcome {
                store,
                response: ResponseView { messages: Seq::empty(), attributes: Seq::empty() },
            },
        ),
        ExecuteMsgView::SwapAndSendTo {
            input_token,
            input_amount,
            output_amount,
            recipient,
            expiration,
        } => swap_outcome(
            store,
            info,
            env,
            input_amount,
            input_token,
            output_amount,
            recipient,
            expiration,
        ),
    }
}

/// Runs one command against the store. On failure the store is as it was.
pub fn execute(store: &mut Store, env: &Env, info: &MessageInfo, shares: LpShares, msg: ExecuteMsg) -> (r:
    Result<Response, ContractError>)
    ensures
        old(store)@.wf() ==> final(store)@.wf(),
        match r {
            Ok(response) => execute_outcome(old(store)@, env@, info@, shares, msg@) == Ok::<
                Outcome,
                ContractError,
            >(Outcome { store: final(store)@, response: response@ }),
            Err(e) => {
                &&& execute_outcome(old(store)@, env@, info@, shares, msg@) == Err::<
                    Outcome,
                    ContractError,
                >(e)
                &&& *final(store) == *old(store)
            },
        },
{
    match msg {
        ExecuteMsg::AddLiquidity {
            base_token_amount,
            max_quote_token_amount,
            expiration,
        } => execute_add_liquidity(
            store,
            info,
            env,
            shares.total_supply,
            base_token_amount,
            max_quote_token_amount,
            expiration,
        ),
        ExecuteMsg::RemoveLiquidity {
            amount,
            min_base_token_output,
            min_quote_token_output,
            expiration,
        } => execute_remove_liquidity(
            store,
            info,
            env,
            shares.total_supply,
            shares.sender_balance,
            amount,
            min_base_token_output,
            min_quote_token_output,
            expiration,
        ),
        ExecuteMsg::Swap { input_token, input_amount, output_amount, expiration } => execute_swap(
            env,
            store,
            info,
            input_amount,
            input_token,
            output_amount,
            &info.sender,
            expiration,
        ),
        ExecuteMsg::PassThroughSwap {
            output_amm_address,
            input_token,
            input_token_amount,
            output_min_token,
            expiration,
        } => execute_pass_through_swap(
            info,
            env,
            output_amm_address,
            input_token,
            input_token_amount,
            output_min_token,
            expiration,
        ),
        ExecuteMsg::SwapAndSendTo {
            input_token,
            input_amount,
            output_amount,
            recipient,
            expiration,
        } => execute_swap(
            env,
            store,
            info,
            input_amount,
            input_token,
            output_amount,
            &recipient,
            expiration,
        ),
    }
}

/// A swap through a second pool. It asks nothing of the host and always
/// succeeds.
pub fn execute_pass_through_swap(
    info: &MessageInfo,
    env: &Env,
    output_amm_address: Addr,
    input_token_enum: TokenSelect,
    input_token_amount: u128,
    output_min_token: u128,
    expiration: Option<Expiration>,
) -> (r: Result<Response, ContractError>)
    ensures
        r is Ok,
        r->Ok_0@ == (ResponseView { messages: Seq::empty(), attributes: Seq::empty() }),
{
    Ok(Response::new())
}

/// The state of a pool that is set up and knows its share contract, or
/// `NotFound` for the first item that is missing: base, quote, share
/// contract.
pub open spec fn info_outcome(store: StoreView, lp_token_supply: u128) -> Result<
    InfoResponseView,
    StdError,
> {
    if store.base_token is None {
        Err(StdError::NotFound { item: StoredItem::BaseToken })
    } else if store.quote_token is None {
        Err(StdError::NotFound { item: StoredItem::QuoteToken })
    } else if store.lp_token is None {
        Err(StdError::NotFound { item: StoredItem::LpToken })
    } else {
        Ok(
            InfoResponseView {
                base_reserve: store.base_token->Some_0.reserve,
                base_denom: store.base_token->Some_0.denom,
                quote_reserve: store.quote_token->Some_0.reserve,
                quote_denom: store.quote_token->Some_0.denom,
                lp_token_supply,
                lp_token_address: store.lp_token->Some_0,
            },
        )
    }
}

/// The state of the pool. `lp_token_supply` is the number of shares that
/// exist, as the share contract reports it.
pub fn query_info(store: &Store, lp_token_supply: u128) -> (r: Result<InfoResponse, StdError>)
    ensures
        match r {
            Ok(info) => info_outcome(store@, lp_token_supply) == Ok::<InfoResponseView, StdError>(
                info@,
            ),
            Err(e) => info_outcome(store@, lp_token_supply) == Err::<InfoResponseView, StdError>(e),
        },
{
    let base = store.load_base_token()?;
    let quote = store.load_quote_token()?;
    let lp_token_address = store.load_lp_token()?;
    Ok(
        InfoResponse {
            base_reserve: base.reserve,
            base_denom: base.denom,
            quote_reserve: quote.reserve,
            quote_denom: quote.denom,
            lp_token_supply,
            lp_token_address,
        },
    )
}

/// What `query` does: the state of the pool for `Info`, and for `Balance`
/// the address to ask the share contract about.
pub open spec fn query_outcome(store: StoreView, lp_token_supply: u128, msg: QueryMsgView) -> Result<
    QueryResponseView,
    StdError,
> {
    match msg {
        QueryMsgView::Balance { address } => Ok(QueryResponseView::Balance { address }),
        QueryMsgView::Info => match info_outcome(store, lp_token_supply) {
            Ok(info) => Ok(QueryResponseView::Info(info)),
            Err(e) => Err(e),
        },
    }
}

/// Answers a question, or hands a question about a balance on to the share
/// contract.
pub fn query(store: &Store, lp_token_supply: u128, msg: QueryMsg) -> (r: Result<
    QueryResponse,
    StdError,
>)
    ensures
        match r {
            Ok(response) => query_outcome(store@, lp_token_supply, msg@) == Ok::<
                QueryResponseView,
                StdError,
            >(response@),
            Err(e) => query_outcome(store@, lp_token_supply, msg@) == Err::<
                QueryResponseView,
                StdError,
            >(e),
        },
{
    match msg {
        QueryMsg::Balance { address } => Ok(QueryResponse::Balance { address }),
        QueryMsg::Info {  } => match query_info(store, lp_token_supply) {
            Ok(info) => Ok(QueryResponse::Info(info)),
            Err(e) => Err(e),
        },
    }
}

} // verus!
