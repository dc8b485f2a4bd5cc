//! What an operation asks of the host: transfers of the native asset, calls
//! of the two token contracts, and the attributes that describe the result.
//!
//! The host carries the effects out in the order in which they are listed,
//! and all of them or none.

use crate::types::{Addr, Denom, DenomView};
use vstd::prelude::*;

verus! {

/// One request to the host.
#[derive(Debug, PartialEq, Eq)]
pub enum Effect {
    /// Send `amount` of the native asset `denom` from the pool to `to_address`.
    BankSend { to_address: Addr, denom: String, amount: u128 },
    /// Have the token contract move `amount` from the pool to `recipient`.
    Cw20Transfer { contract_addr: Addr, recipient: Addr, amount: u128 },
    /// Have the token contract move `amount` from `owner` to `recipient`, on
    /// the allowance that `owner` gave the pool.
    Cw20TransferFrom { contract_addr: Addr, owner: Addr, recipient: Addr, amount: u128 },
    /// Have the share contract mint `amount` shares to `recipient`.
    Cw20Mint { contract_addr: Addr, recipient: Addr, amount: u128 },
    /// Have the share contract burn `amount` shares of `owner`, on the
    /// allowance that `owner` gave the pool.
    Cw20BurnFrom { contract_addr: Addr, owner: Addr, amount: u128 },
    /// Create the share contract from the code `code_id`, with the pool as
    /// its only minter and no shares to start with, and report back under
    /// `reply_id` once it exists. The two denominations go into the label
    /// of the new contract.
    InstantiateLpToken {
        reply_id: u64,
        code_id: u64,
        name: String,
        symbol: String,
        decimals: u8,
        minter: Addr,
        base_denom: Denom,
        quote_denom: Denom,
    },
}

/// The mathematical value of an [`Effect`].
pub enum EffectView {
    BankSend { to_address: Seq<char>, denom: Seq<char>, amount: u128 },
    Cw20Transfer { contract_addr: Seq<char>, recipient: Seq<char>, amount: u128 },
    Cw20TransferFrom {
        contract_addr: Seq<char>,
        owner: Seq<char>,
        recipient: Seq<char>,
        amount: u128,
    },
    Cw20Mint { contract_addr: Seq<char>, recipient: Seq<char>, amount: u128 },
    Cw20BurnFrom { contract_addr: Seq<char>, owner: Seq<char>, amount: u128 },
    InstantiateLpToken {
        reply_id: u64,
        code_id: u64,
        name: Seq<char>,
        symbol: Seq<char>,
        decimals: u8,
        minter: Seq<char>,
        base_denom: DenomView,
        quote_denom: DenomView,
    },
}

impl View for Effect {
    type V = EffectView;

    open spec fn view(&self) -> EffectView {
        match *self {
            Effect::BankSend { to_address, denom, amount } => EffectView::BankSend {
                to_address: to_address@,
                denom: denom@,
                amount,
            },
            Effect::Cw20Transfer { contract_addr, recipient, amount } => EffectView::Cw20Transfer {
                contract_addr: contract_addr@,
                recipient: recipient@,
                amount,
            },
            Effect::Cw20TransferFrom {
                contract_addr,
                owner,
                recipient,
                amount,
            } => EffectView::Cw20TransferFrom {
                contract_addr: contract_addr@,
                owner: owner@,
                recipient: recipient@,
                amount,
            },
            Effect::Cw20Mint { contract_addr, recipient, amount } => EffectView::Cw20Mint {
                contract_addr: contract_addr@,
                recipient: recipient@,
                amount,
            },
            Effect::Cw20BurnFrom { contract_addr, owner, amount } => EffectView::Cw20BurnFrom {
                contract_addr: contract_addr@,
                owner: owner@,
                amount,
            },
            Effect::InstantiateLpToken {
                reply_id,
                code_id,
                name,
                symbol,
                decimals,
                minter,
                base_denom,
                quote_denom,
            } => EffectView::InstantiateLpToken {
                reply_id,
                code_id,
                name: name@,
                symbol: symbol@,
                decimals,
                minter: minter@,
                base_denom: base_denom@,
                quote_denom: quote_denom@,
            },
        }
    }
}

/// What an attribute says: an amount, a denomination or a text. The host
/// shows an amount in decimal digits and a denomination by its kind and
/// text.
#[derive(Debug, PartialEq, Eq)]
pub enum AttributeValue {
    Amount(u128),
    Denom(Denom),
    Text(String),
}

/// The mathematical value of an [`AttributeValue`].
pub enum AttributeValueView {
    Amount(u128),
    Denom(DenomView),
    Text(Seq<char>),
}

impl View for AttributeValue {
    type V = AttributeValueView;

    open spec fn view(&self) -> AttributeValueView {
        match *self {
            AttributeValue::Amount(a) => AttributeValueView::Amount(a),
            AttributeValue::Denom(d) => AttributeValueView::Denom(d@),
            AttributeValue::Text(t) => AttributeValueView::Text(t@),
        }
    }
}

/// A named value in the result of an operation, for those who index the
/// chain.
#[derive(Debug, PartialEq, Eq)]
pub struct Attribute {
    pub key: String,
    pub value: AttributeValue,
}

/// The mathematical value of an [`Attribute`].
pub struct AttributeView {
    pub key: Seq<char>,
    pub value: AttributeValueView,
}

impl View for Attribute {
    type V = AttributeView;

    open spec fn view(&self) -> AttributeView {
        AttributeView { key: self.key@, value: self.value@ }
    }
}

/// The attribute `key` with an amount for its value.
pub open spec fn amount_attr(key: Seq<char>, amount: u128) -> AttributeView {
    AttributeView { key, value: AttributeValueView::Amount(amount) }
}

/// The attribute `key` with a denomination for its value.
pub open spec fn denom_attr(key: Seq<char>, denom: DenomView) -> AttributeView {
    AttributeView { key, value: AttributeValueView::Denom(denom) }
}

/// The attribute `key` with a text for its value.
pub open spec fn text_attr(key: Seq<char>, text: Seq<char>) -> AttributeView {
    AttributeView { key, value: AttributeValueView::Text(text) }
}

/// The result of an operation that succeeds: the effects that the host is to
/// carry out, in order, and the attributes, in order.
#[derive(Debug, PartialEq, Eq)]
pub struct Response {
    pub messages: Vec<Effect>,
    pub attributes: Vec<Attribute>,
}

/// The mathematical value of a [`Response`].
pub struct ResponseView {
    pub messages: Seq<EffectView>,
    pub attributes: Seq<AttributeView>,
}

impl View for Response {
    type V = ResponseView;

    open spec fn view(&self) -> ResponseView {
        ResponseView {
            messages: self.messages@.map_values(|e: Effect| e@),
            attributes: self.attributes@.map_values(|a: Attribute| a@),
        }
    }
}

impl Response {
    /// A response without effects and without attributes.
    pub fn new() -> (r: Response)
        ensures
            r@.messages == Seq::<EffectView>::empty(),
            r@.attributes == Seq::<AttributeView>::empty(),
    {
        let r = Response { messages: Vec::new(), attributes: Vec::new() };
        assert(r@.messages =~= Seq::<EffectView>::empty());
        assert(r@.attributes =~= Seq::<AttributeView>::empty());
        r
    }

    /// The same response with `msg` as its last effect.
    pub fn add_message(self, msg: Effect) -> (r: Response)
        ensures
            r@.messages == self@.messages.push(msg@),
            r@.attributes == self@.attributes,
    {
        let mut r = self;
        r.messages.push(msg);
        assert(r@.messages =~= self@.messages.push(msg@));
        r
    }

    /// The same response with the attribute `key`, `value` as its last.
    pub fn add_attribute(self, key: &str, value: AttributeValue) -> (r: Response)
        ensures
            r@.messages == self@.messages,
            r@.attributes == self@.attributes.push(AttributeView { key: key@, value: value@ }),
    {
        let mut r = self;
        let attribute = Attribute { key: key.to_owned(), value };
        r.attributes.push(attribute);
        assert(r@.attributes =~= self@.attributes.push(attribute@));
        r
    }
}

/// The call that moves `token_amount` of the token at `token_addr` from
/// `owner` to `recipient`.
pub fn get_cw20_transfer_from_msg(
    owner: &Addr,
    recipient: &Addr,
    token_addr: &Addr,
    token_amount: u128,
) -> (r: Effect)
    ensures
        r@ == (EffectView::Cw20TransferFrom {
            contract_addr: token_addr@,
            owner: owner@,
            recipient: recipient@,
            amount: token_amount,
        }),
{
    Effect::Cw20TransferFrom {
        contract_addr: token_addr.clone(),
        owner: owner.clone(),
        recipient: recipient.clone(),
        amount: token_amount,
    }
}

/// The call that mints `liquidity_amount` shares to `recipient`.
pub fn mint_lp_tokens(recipient: &Addr, liquidity_amount: u128, lp_token_address: &Addr) -> (r:
    Effect)
    ensures
        r@ == (EffectView::Cw20Mint {
            contract_addr: lp_token_address@,
            recipient: recipient@,
            amount: liquidity_amount,
        }),
{
    Effect::Cw20Mint {
        contract_addr: lp_token_address.clone(),
        recipient: recipient.clone(),
        amount: liquidity_amount,
    }
}

/// The transfer of `native_amount` of the native asset `denom` to
/// `recipient`.
pub fn get_bank_transfer_to_msg(recipient: &Addr, denom: &str, native_amount: u128) -> (r: Effect)
    ensures
        r@ == (EffectView::BankSend {
            to_address: recipient@,
            denom: denom@,
            amount: native_amount,
        }),
{
    Effect::BankSend { to_address: recipient.clone(), denom: denom.to_owned(), amount: native_amount }
}

/// The call that moves `token_amount` of the token at `token_addr` from the
/// pool to `recipient`.
pub fn get_cw20_transfer_to_msg(recipient: &Addr, token_addr: &Addr, token_amount: u128) -> (r:
    Effect)
    ensures
        r@ == (EffectView::Cw20Transfer {
            contract_addr: token_addr@,
            recipient: recipient@,
            amount: token_amount,
        }),
{
    Effect::Cw20Transfer {
        contract_addr: token_addr.clone(),
        recipient: recipient.clone(),
        amount: token_amount,
    }
}

/// The call that burns `amount` shares of `owner` at the share contract
/// `contract`.
pub fn get_burn_msg(contract: &Addr, owner: &Addr, amount: u128) -> (r: Effect)
    ensures
        r@ == (EffectView::Cw20BurnFrom { contract_addr: contract@, owner: owner@, amount }),
{
    Effect::Cw20BurnFrom { contract_addr: contract.clone(), owner: owner.clone(), amount }
}

} // verus!
