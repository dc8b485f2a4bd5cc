//! What the pool keeps in the host's store, and the values that pricing
//! hands to settlement.

use crate::effects::ResponseView;
use crate::error::{not_found, overflow, ContractError, StdError, StoredItem};
use crate::types::{Addr, Denom, DenomView};
use crate::uint128::{uint128_checked_add, uint128_checked_sub};
use vstd::prelude::*;

verus! {

/// One side of the pair: what the asset is called and how much of it the
/// pool holds.
#[derive(Debug, PartialEq, Eq)]
pub struct Token {
    pub reserve: u128,
    pub denom: Denom,
}

/// The mathematical value of a [`Token`].
pub struct TokenView {
    pub reserve: u128,
    pub denom: DenomView,
}

impl View for Token {
    type V = TokenView;

    open spec fn view(&self) -> TokenView {
        TokenView { reserve: self.reserve, denom: self.denom@ }
    }
}

impl Clone for Token {
    fn clone(&self) -> (r: Self)
        ensures
            r == *self,
    {
        Token { reserve: self.reserve, denom: self.denom.clone() }
    }
}

impl Token {
    /// Adds `amount` to the reserve. Fails with `Overflow`, and changes
    /// nothing, where the sum does not fit in 128 bits.
    pub fn increase(&mut self, amount: u128) -> (r: Result<(), ContractError>)
        ensures
            final(self).denom == old(self).denom,
            old(self).reserve + amount <= u128::MAX ==> {
                &&& r is Ok
                &&& final(self).reserve == old(self).reserve + amount
            },
            old(self).reserve + amount > u128::MAX ==> {
                &&& r == Err::<(), ContractError>(overflow())
                &&& final(self).reserve == old(self).reserve
            },
    {
        match uint128_checked_add(self.reserve, amount) {
            Ok(sum) => {
                self.reserve = sum;
                Ok(())
            },
            Err(_) => Err(ContractError::Std(StdError::Overflow)),
        }
    }

    /// Takes `amount` from the reserve. Fails with `Overflow`, and changes
    /// nothing, where the reserve holds less than `amount`.
    pub fn decrease(&mut self, amount: u128) -> (r: Result<(), ContractError>)
        ensures
            final(self).denom == old(self).denom,
            amount <= old(self).reserve ==> {
                &&& r is Ok
                &&& final(self).reserve == old(self).reserve - amount
            },
            amount > old(self).reserve ==> {
                &&& r == Err::<(), ContractError>(overflow())
                &&& final(self).reserve == old(self).reserve
            },
    {
        match uint128_checked_sub(self.reserve, amount) {
            Ok(rest) => {
                self.reserve = rest;
                Ok(())
            },
            Err(_) => Err(ContractError::Std(StdError::Overflow)),
        }
    }
}

/// An amount of one of the two assets.
#[derive(Debug, PartialEq, Eq)]
pub struct TokenAmount {
    pub amount: u128,
    pub denom: Denom,
}

/// The mathematical value of a [`TokenAmount`].
pub struct TokenAmountView {
    pub amount: u128,
    pub denom: DenomView,
}

impl View for TokenAmount {
    type V = TokenAmountView;

    open spec fn view(&self) -> TokenAmountView {
        TokenAmountView { amount: self.amount, denom: self.denom@ }
    }
}

/// What a swap takes in and what it pays out. It lives for one operation:
/// pricing makes it and settlement consumes it.
#[derive(Debug, PartialEq, Eq)]
pub struct SwapPrice {
    pub input: TokenAmount,
    pub output: TokenAmount,
}

/// The mathematical value of a [`SwapPrice`].
pub struct SwapPriceView {
    pub input: TokenAmountView,
    pub output: TokenAmountView,
}

impl View for SwapPrice {
    type V = SwapPriceView;

    open spec fn view(&self) -> SwapPriceView {
        SwapPriceView { input: self.input@, output: self.output@ }
    }
}


/// The three items that the pool keeps in the host's store. An item is
/// `None` until it is first saved: the two tokens are saved when the pool is
/// set up, the address of the share contract when the host reports that the
/// contract exists.
#[derive(Debug, PartialEq, Eq)]
pub struct Store {
    pub base_token: Option<Token>,
    pub quote_token: Option<Token>,
    pub lp_token: Option<Addr>,
}

/// The mathematical value of a [`Store`].
pub struct StoreView {
    pub base_token: Option<TokenView>,
    pub quote_token: Option<TokenView>,
    pub lp_token: Option<Seq<char>>,
}

impl View for Store {
    type V = StoreView;

    open spec fn view(&self) -> StoreView {
        StoreView {
            base_token: match self.base_token {
                Some(t) => Some(t@),
                None => None,
            },
            quote_token: match self.quote_token {
                Some(t) => Some(t@),
                None => None,
            },
            lp_token: match self.lp_token {
                Some(a) => Some(a@),
                None => None,
            },
        }
    }
}

impl StoreView {
    /// The pair is a native base and a contract-issued quote, as far as the
    /// two tokens are stored. Setting the pool up makes it so, and no
    /// operation changes a denomination.
    pub open spec fn wf(self) -> bool {
        &&& self.base_token is Some ==> self.base_token->Some_0.denom is Native
        &&& self.quote_token is Some ==> self.quote_token->Some_0.denom is Cw20
    }

    /// The same store with other reserves. Meant for a store that holds both
    /// tokens.
    pub open spec fn with_reserves(self, base_reserve: u128, quote_reserve: u128) -> StoreView {
        StoreView {
            base_token: Some(
                TokenView { reserve: base_reserve, denom: self.base_token->Some_0.denom },
            ),
            quote_token: Some(
                TokenView { reserve: quote_reserve, denom: self.quote_token->Some_0.denom },
            ),
            lp_token: self.lp_token,
        }
    }
}

/// The two sides of a pair that is stored whole and well formed.
pub struct Pair {
    pub base_reserve: u128,
    pub base_denom: Seq<char>,
    pub quote_reserve: u128,
    pub quote_addr: Seq<char>,
}

/// The pair that the two tokens make, or `NoneError` where they are not a
/// native base and a contract-issued quote.
pub open spec fn paired(base: TokenView, quote: TokenView) -> Result<Pair, ContractError> {
    match (base.denom, quote.denom) {
        (DenomView::Native(denom), DenomView::Cw20(addr)) => Ok(
            Pair {
                base_reserve: base.reserve,
                base_denom: denom,
                quote_reserve: quote.reserve,
                quote_addr: addr,
            },
        ),
        _ => Err(ContractError::NoneError),
    }
}

/// What an operation reads from the store before it computes: the pair, or
/// the error with which reading it fails. That is `NotFound` for the first
/// item that is missing, base before quote before the share contract, which
/// is looked for only where `with_lp_token` says so; and `NoneError` for
/// tokens that are not a native base and a contract-issued quote.
pub open spec fn loaded_pair(store: StoreView, with_lp_token: bool) -> Result<Pair, ContractError> {
    if store.base_token is None {
        Err(not_found(StoredItem::BaseToken))
    } else if store.quote_token is None {
        Err(not_found(StoredItem::QuoteToken))
    } else if with_lp_token && store.lp_token is None {
        Err(not_found(StoredItem::LpToken))
    } else {
        paired(store.base_token->Some_0, store.quote_token->Some_0)
    }
}

impl Clone for Store {
    fn clone(&self) -> (r: Self)
        ensures
            r == *self,
    {
        Store {
            base_token: match &self.base_token {
                Some(t) => Some(t.clone()),
                None => None,
            },
            quote_token: match &self.quote_token {
                Some(t) => Some(t.clone()),
                None => None,
            },
            lp_token: match &self.lp_token {
                Some(a) => Some(a.clone()),
                None => None,
            },
        }
    }
}

impl Store {
    /// The store of a pool that has not been set up.
    pub fn new() -> (r: Store)
        ensures
            r@ == (StoreView { base_token: None, quote_token: None, lp_token: None }),
    {
        Store { base_token: None, quote_token: None, lp_token: None }
    }

    /// The stored base token, or `NotFound`.
    pub fn load_base_token(&self) -> (r: Result<Token, StdError>)
        ensures
            match self.base_token {
                Some(t) => r == Ok::<Token, StdError>(t),
                None => r == Err::<Token, StdError>(
                    StdError::NotFound { item: StoredItem::BaseToken },
                ),
            },
    {
        match &self.base_token {
            Some(t) => Ok(t.clone()),
            None => Err(StdError::NotFound { item: StoredItem::BaseToken }),
        }
    }

    /// The stored quote token, or `NotFound`.
    pub fn load_quote_token(&self) -> (r: Result<Token, StdError>)
        ensures
            match self.quote_token {
                Some(t) => r == Ok::<Token, StdError>(t),
                None => r == Err::<Token, StdError>(
                    StdError::NotFound { item: StoredItem::QuoteToken },
                ),
            },
    {
        match &self.quote_token {
            Some(t) => Ok(t.clone()),
            None => Err(StdError::NotFound { item: StoredItem::QuoteToken }),
        }
    }

    /// The stored address of the share contract, or `NotFound`.
    pub fn load_lp_token(&self) -> (r: Result<Addr, StdError>)
        ensures
            match self.lp_token {
                Some(a) => r == Ok::<Addr, StdError>(a),
                None => r == Err::<Addr, StdError>(StdError::NotFound { item: StoredItem::LpToken }),
            },
    {
        match &self.lp_token {
            Some(a) => Ok(a.clone()),
            None => Err(StdError::NotFound { item: StoredItem::LpToken }),
        }
    }
}

/// The native symbol of the base and the contract of the quote, or
/// `NoneError` where the two tokens are not such a pair.
pub fn pair_denoms(base: &Token, quote: &Token) -> (r: Result<(String, Addr), ContractError>)
    ensures
        match r {
            Ok((denom, addr)) => paired(base@, quote@) is Ok && paired(base@, quote@)->Ok_0
                == (Pair {
                base_reserve: base.reserve,
                base_denom: denom@,
                quote_reserve: quote.reserve,
                quote_addr: addr@,
            }),
            Err(e) => paired(base@, quote@) == Err::<Pair, ContractError>(e),
        },
{
    match (&base.denom, &quote.denom) {
        (Denom::Native(denom), Denom::Cw20(addr)) => Ok((denom.clone(), addr.clone())),
        _ => Err(ContractError::NoneError),
    }
}

/// The store and the response that an operation leaves where it succeeds.
pub struct Outcome {
    pub store: StoreView,
    pub response: ResponseView,
}

} // verus!
