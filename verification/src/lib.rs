//! A constant-product pool for one native asset (the base) and one
//! contract-issued asset (the quote): reserve bookkeeping, swap pricing with
//! a fee on the quote leg, and liquidity accounting in proportion to the
//! pool's share supply.
//!
//! Every operation is a function from the stored state and one message to
//! the next state and the list of effects that the host is to carry out.

pub mod types;
pub mod error;
pub mod uint128;
pub mod state;
pub mod funds;
pub mod expiration;
pub mod effects;
pub mod msg;
pub mod pricing;
pub mod liquidity;
pub mod swap;
pub mod reply;
pub mod contract;
pub mod laws;
