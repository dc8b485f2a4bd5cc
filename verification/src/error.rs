//! The errors with which an operation on the pool can fail.

use vstd::prelude::*;

verus! {

/// One of the three items that the pool keeps in the host's store.
#[derive(Clone, Copy, Debug, PartialEq, Eq, Structural)]
pub enum StoredItem {
    BaseToken,
    QuoteToken,
    LpToken,
}

/// Failures of arithmetic, of the store and of the reply protocol.
#[derive(Clone, Copy, Debug, PartialEq, Eq, Structural)]
pub enum StdError {
    /// A sum or product does not fit in 128 bits, or a difference is negative.
    Overflow,
    /// A division by zero.
    DivideByZero,
    /// The item has not been stored yet.
    NotFound { item: StoredItem },
    /// A reply came with an identifier that the pool never handed out.
    UnknownReplyId { id: u64 },
    /// A reply reports a failed sub-call, carries no data, or its data is not
    /// an instantiation response.
    ParseReply,
    /// The host does not accept the address that a reply carries.
    InvalidAddress,
}

/// Every way in which an operation on the pool fails. A failed operation
/// leaves the store as it was.
#[derive(Clone, Copy, Debug, PartialEq, Eq, Structural)]
pub enum ContractError {
    /// A failure of arithmetic, of the store or of the reply protocol.
    Std(StdError),
    /// The stored denominations are not a native base and a contract-issued
    /// quote.
    NoneError,
    /// The base of the pair is not a native asset.
    InvalidBaseDenom,
    /// The quote of the pair is not a contract-issued asset.
    InvalidQuoteDenom,
    /// The base of the pair is not the chain's own asset.
    NativeTokenNotProvidedInPair,
    /// A deposit of no base, or with no quote allowed.
    NonZeroInputAmountExpected,
    /// The message's bound in time has elapsed.
    MsgExpirationError,
    /// The funds of the message are not exactly the base that it names.
    InsufficientFunds,
    /// A deposit takes more quote than the caller allows.
    MaxQuoteTokenAmountExceeded { max_quote_token_amount: u128, required_quote_token_amount: u128 },
    /// A redemption of more shares than the caller holds.
    InsufficientLiquidityError { requested: u128, available: u128 },
    /// A redemption pays out less base than the caller asks for.
    MinBaseTokenOutputError { requested: u128, available: u128 },
    /// A redemption pays out less quote than the caller asks for.
    MinQuoteTokenOutputError { requested: u128, available: u128 },
    /// A sale pays out less than the caller asks for.
    SwapMinError { min: u128, available: u128 },
    /// A purchase costs more than the caller allows.
    SwapMaxError { max: u128, required: u128 },
}

/// The arithmetic error for a result that leaves the 128-bit range.
pub open spec fn overflow() -> ContractError {
    ContractError::Std(StdError::Overflow)
}

/// The arithmetic error for a division by zero.
pub open spec fn divide_by_zero() -> ContractError {
    ContractError::Std(StdError::DivideByZero)
}

/// The error for an item that the store does not hold.
pub open spec fn not_found(item: StoredItem) -> ContractError {
    ContractError::Std(StdError::NotFound { item })
}

} // verus!
