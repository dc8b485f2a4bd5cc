//! The plain values that the host hands to the pool: addresses,
//! denominations, coins, and what is known of the block and the caller.

use vstd::prelude::*;

verus! {

/// An address on the host chain. The pool takes addresses from the host and
/// hands them back in effects; it makes none up.
#[derive(Debug, PartialEq, Eq)]
pub struct Addr(pub String);

impl View for Addr {
    type V = Seq<char>;

    open spec fn view(&self) -> Seq<char> {
        self.0@
    }
}

impl Addr {
    /// An address with the given text, taken as it is.
    pub fn unchecked(input: &str) -> (r: Addr)
        ensures
            r@ == input@,
    {
        Addr(input.to_owned())
    }

    /// The text of the address.
    pub fn as_str(&self) -> (r: &str)
        ensures
            r@ == self@,
    {
        self.0.as_str()
    }

    /// The text of the address, owned.
    pub fn into_string(self) -> (r: String)
        ensures
            r@ == self@,
    {
        self.0
    }
}

impl Clone for Addr {
    fn clone(&self) -> (r: Self)
        ensures
            r == *self,
    {
        Addr(self.0.clone())
    }
}

/// What an asset is called: a symbol of the host's own ledger, or the
/// address of the contract that issues it.
#[derive(Debug, PartialEq, Eq)]
pub enum Denom {
    Native(String),
    Cw20(Addr),
}

/// The mathematical value of a [`Denom`].
pub enum DenomView {
    Native(Seq<char>),
    Cw20(Seq<char>),
}

impl View for Denom {
    type V = DenomView;

    open spec fn view(&self) -> DenomView {
        match *self {
            Denom::Native(s) => DenomView::Native(s@),
            Denom::Cw20(a) => DenomView::Cw20(a@),
        }
    }
}

impl Clone for Denom {
    fn clone(&self) -> (r: Self)
        ensures
            r == *self,
    {
        match self {
            Denom::Native(s) => Denom::Native(s.clone()),
            Denom::Cw20(a) => Denom::Cw20(a.clone()),
        }
    }
}

impl Denom {
    /// Whether this is a symbol of the host's own ledger.
    pub fn is_native(&self) -> (r: bool)
        ensures
            r == (self@ is Native),
    {
        match self {
            Denom::Native(_) => true,
            Denom::Cw20(_) => false,
        }
    }

    /// Whether the two denominations are of one kind and have the same text.
    pub fn same(&self, other: &Denom) -> (r: bool)
        ensures
            r == (self@ == other@),
    {
        match (self, other) {
            (Denom::Native(a), Denom::Native(b)) => *a == *b,
            (Denom::Cw20(a), Denom::Cw20(b)) => a.0 == b.0,
            _ => false,
        }
    }
}

/// An amount of a native asset.
#[derive(Debug, PartialEq, Eq)]
pub struct Coin {
    pub denom: String,
    pub amount: u128,
}

/// The mathematical value of a [`Coin`].
pub struct CoinView {
    pub denom: Seq<char>,
    pub amount: u128,
}

impl View for Coin {
    type V = CoinView;

    open spec fn view(&self) -> CoinView {
        CoinView { denom: self.denom@, amount: self.amount }
    }
}

/// The mathematical values of a list of coins, in order.
pub open spec fn coin_views(coins: Seq<Coin>) -> Seq<CoinView> {
    coins.map_values(|c: Coin| c@)
}

impl Clone for Coin {
    fn clone(&self) -> (r: Self)
        ensures
            r == *self,
    {
        Coin { denom: self.denom.clone(), amount: self.amount }
    }
}

/// A point in time, in nanoseconds since the epoch.
#[derive(Clone, Copy, Debug, PartialEq, Eq, Structural)]
pub struct Timestamp {
    pub nanos: u64,
}

impl Timestamp {
    pub fn from_nanos(nanos: u64) -> (r: Timestamp)
        ensures
            r.nanos == nanos,
    {
        Timestamp { nanos }
    }
}

/// The block in which a message is handled.
#[derive(Debug, PartialEq, Eq)]
pub struct BlockInfo {
    pub height: u64,
    pub time: Timestamp,
    pub chain_id: String,
}

/// The mathematical value of a [`BlockInfo`].
pub struct BlockInfoView {
    pub height: u64,
    pub time: Timestamp,
    pub chain_id: Seq<char>,
}

impl View for BlockInfo {
    type V = BlockInfoView;

    open spec fn view(&self) -> BlockInfoView {
        BlockInfoView { height: self.height, time: self.time, chain_id: self.chain_id@ }
    }
}

/// The pool's own place on the chain.
#[derive(Debug, PartialEq, Eq)]
pub struct ContractInfo {
    pub address: Addr,
}

/// What the host tells of the surroundings of a message.
#[derive(Debug, PartialEq, Eq)]
pub struct Env {
    pub block: BlockInfo,
    pub contract: ContractInfo,
}

/// The mathematical value of an [`Env`]: the block, and the pool's own
/// address.
pub struct EnvView {
    pub block: BlockInfoView,
    pub contract_address: Seq<char>,
}

impl View for Env {
    type V = EnvView;

    open spec fn view(&self) -> EnvView {
        EnvView { block: self.block@, contract_address: self.contract.address@ }
    }
}

/// Who sent a message, and the native funds that came with it.
#[derive(Debug, PartialEq, Eq)]
pub struct MessageInfo {
    pub sender: Addr,
    pub funds: Vec<Coin>,
}

/// The mathematical value of a [`MessageInfo`].
pub struct MessageInfoView {
    pub sender: Seq<char>,
    pub funds: Seq<CoinView>,
}

impl View for MessageInfo {
    type V = MessageInfoView;

    open spec fn view(&self) -> MessageInfoView {
        MessageInfoView { sender: self.sender@, funds: coin_views(self.funds@) }
    }
}

} // verus!
