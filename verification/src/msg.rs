//! The messages that the pool takes and the answers that it gives.

use crate::expiration::Expiration;
use crate::types::{Addr, Denom, DenomView};
use vstd::prelude::*;

verus! {

/// Sets the pool up for one pair of assets.
#[derive(Debug, PartialEq, Eq)]
pub struct InstantiateMsg {
    /// The chain's own asset.
    pub native_denom: Denom,
    pub base_denom: Denom,
    pub quote_denom: Denom,
    /// The code from which the share contract is created.
    pub lp_token_code_id: u64,
}

/// The mathematical value of an [`InstantiateMsg`].
pub struct InstantiateMsgView {
    pub native_denom: DenomView,
    pub base_denom: DenomView,
    pub quote_denom: DenomView,
    pub lp_token_code_id: u64,
}

impl View for InstantiateMsg {
    type V = InstantiateMsgView;

    open spec fn view(&self) -> InstantiateMsgView {
        InstantiateMsgView {
            native_denom: self.native_denom@,
            base_denom: self.base_denom@,
            quote_denom: self.quote_denom@,
            lp_token_code_id: self.lp_token_code_id,
        }
    }
}

/// One of the two sides of the pair.
#[derive(Clone, Copy, Debug, PartialEq, Eq, Structural)]
pub enum TokenSelect {
    Base,
    Quote,
}

/// The commands that change the pool.
#[derive(Debug, PartialEq, Eq)]
pub enum ExecuteMsg {
    /// Deposit `base_token_amount` base and the quote that goes with it, at
    /// most `max_quote_token_amount`, for shares.
    AddLiquidity {
        base_token_amount: u128,
        max_quote_token_amount: u128,
        expiration: Option<Expiration>,
    },
    /// Redeem `amount` shares for base and quote, at least the two minimums.
    RemoveLiquidity {
        amount: u128,
        min_base_token_output: u128,
        min_quote_token_output: u128,
        expiration: Option<Expiration>,
    },
    /// With `Base`: sell exactly `input_amount` base for at least
    /// `output_amount` quote. With `Quote`: buy exactly `output_amount` base
    /// for at most `input_amount` quote.
    Swap {
        input_token: TokenSelect,
        input_amount: u128,
        output_amount: u128,
        expiration: Option<Expiration>,
    },
    /// A swap through a second pool. It has no effect.
    PassThroughSwap {
        output_amm_address: Addr,
        input_token: TokenSelect,
        input_token_amount: u128,
        output_min_token: u128,
        expiration: Option<Expiration>,
    },
    /// A swap whose output goes to `recipient`.
    SwapAndSendTo {
        input_token: TokenSelect,
        input_amount: u128,
        output_amount: u128,
        recipient: Addr,
        expiration: Option<Expiration>,
    },
}

/// The mathematical value of an [`ExecuteMsg`].
pub enum ExecuteMsgView {
    AddLiquidity {
        base_token_amount: u128,
        max_quote_token_amount: u128,
        expiration: Option<Expiration>,
    },
    RemoveLiquidity {
        amount: u128,
        min_base_token_output: u128,
        min_quote_token_output: u128,
        expiration: Option<Expiration>,
    },
    Swap {
        input_token: TokenSelect,
        input_amount: u128,
        output_amount: u128,
        expiration: Option<Expiration>,
    },
    PassThroughSwap {
        output_amm_address: Seq<char>,
        input_token: TokenSelect,
        input_token_amount: u128,
        output_min_token: u128,
        expiration: Option<Expiration>,
    },
    SwapAndSendTo {
        input_token: TokenSelect,
        input_amount: u128,
        output_amount: u128,
        recipient: Seq<char>,
        expiration: Option<Expiration>,
    },
}

impl View for ExecuteMsg {
    type V = ExecuteMsgView;

    open spec fn view(&self) -> ExecuteMsgView {
        match *self {
            ExecuteMsg::AddLiquidity {
                base_token_amount,
                max_quote_token_amount,
                expiration,
            } => ExecuteMsgView::AddLiquidity {
                base_token_amount,
                max_quote_token_amount,
                expiration,
            },
            ExecuteMsg::RemoveLiquidity {
                amount,
                min_base_token_output,
                min_quote_token_output,
                expiration,
            } => ExecuteMsgView::RemoveLiquidity {
                amount,
                min_base_token_output,
                min_quote_token_output,
                expiration,
            },
            ExecuteMsg::Swap {
                input_token,
                input_amount,
                output_amount,
                expiration,
            } => ExecuteMsgView::Swap { input_token, input_amount, output_amount, expiration },
            ExecuteMsg::PassThroughSwap {
                output_amm_address,
                input_token,
                input_token_amount,
                output_min_token,
                expiration,
            } => ExecuteMsgView::PassThroughSwap {
                output_amm_address: output_amm_address@,
                input_token,
                input_token_amount,
                output_min_token,
                expiration,
            },
            ExecuteMsg::SwapAndSendTo {
                input_token,
                input_amount,
                output_amount,
                recipient,
                expiration,
            } => ExecuteMsgView::SwapAndSendTo {
                input_token,
                input_amount,
                output_amount,
                recipient: recipient@,
                expiration,
            },
        }
    }
}

/// The questions that the pool answers.
#[derive(Debug, PartialEq, Eq)]
pub enum QueryMsg {
    /// The share balance of `address`.
    Balance { address: String },
    /// The state of the pool.
    Info {  },
}

/// The mathematical value of a [`QueryMsg`].
pub enum QueryMsgView {
    Balance { address: Seq<char> },
    Info,
}

impl View for QueryMsg {
    type V = QueryMsgView;

    open spec fn view(&self) -> QueryMsgView {
        match *self {
            QueryMsg::Balance { address } => QueryMsgView::Balance { address: address@ },
            QueryMsg::Info {  } => QueryMsgView::Info,
        }
    }
}

/// The state of the pool.
#[derive(Debug, PartialEq, Eq)]
pub struct InfoResponse {
    pub base_reserve: u128,
    pub base_denom: Denom,
    pub quote_reserve: u128,
    pub quote_denom: Denom,
    pub lp_token_supply: u128,
    pub lp_token_address: Addr,
}

/// The mathematical value of an [`InfoResponse`].
pub struct InfoResponseView {
    pub base_reserve: u128,
    pub base_denom: DenomView,
    pub quote_reserve: u128,
    pub quote_denom: DenomView,
    pub lp_token_supply: u128,
    pub lp_token_address: Seq<char>,
}

impl View for InfoResponse {
    type V = InfoResponseView;

    open spec fn view(&self) -> InfoResponseView {
        InfoResponseView {
            base_reserve: self.base_reserve,
            base_denom: self.base_denom@,
            quote_reserve: self.quote_reserve,
            quote_denom: self.quote_denom@,
            lp_token_supply: self.lp_token_supply,
            lp_token_address: self.lp_token_address@,
        }
    }
}

/// What the pool does with a question: it answers it, or it names the
/// address whose balance the share contract is to be asked for.
#[derive(Debug, PartialEq, Eq)]
pub enum QueryResponse {
    Info(InfoResponse),
    Balance { address: String },
}

/// The mathematical value of a [`QueryResponse`].
pub enum QueryResponseView {
    Info(InfoResponseView),
    Balance { address: Seq<char> },
}

impl View for QueryResponse {
    type V = QueryResponseView;

    open spec fn view(&self) -> QueryResponseView {
        match *self {
            QueryResponse::Info(info) => QueryResponseView::Info(info@),
            QueryResponse::Balance { address } => QueryResponseView::Balance { address: address@ },
        }
    }
}

/// What a sub-call brought back on success.
#[derive(Debug, PartialEq, Eq)]
pub struct SubMsgResponse {
    pub data: Option<Vec<u8>>,
}

/// The host's report on a sub-call that the pool asked for.
#[derive(Debug, PartialEq, Eq)]
pub struct Reply {
    /// The identifier that the pool gave the sub-call.
    pub id: u64,
    /// What the sub-call brought back, or the text of its failure.
    pub result: Result<SubMsgResponse, String>,
}

/// The mathematical value of a [`Reply`]: the identifier, and the data
/// that the sub-call brought back, if any, or the text of its failure.
pub struct ReplyView {
    pub id: u64,
    pub result: Result<Option<Seq<u8>>, Seq<char>>,
}

impl View for Reply {
    type V = ReplyView;

    open spec fn view(&self) -> ReplyView {
        ReplyView {
            id: self.id,
            result: match self.result {
                Ok(response) => Ok(
                    match response.data {
                        Some(data) => Some(data@),
                        None => None,
                    },
                ),
                Err(text) => Err(text@),
            },
        }
    }
}

} // verus!
