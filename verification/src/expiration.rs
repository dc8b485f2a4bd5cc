//! The bound in time that a message may carry.

use crate::error::ContractError;
use crate::types::{BlockInfo, BlockInfoView, Timestamp};
use vstd::prelude::*;

verus! {

/// The point at which a message stops being valid.
#[derive(Clone, Copy, Debug, PartialEq, Eq, Structural)]
pub enum Expiration {
    /// Elapsed from the block of this height on.
    AtHeight(u64),
    /// Elapsed from the block of this time on.
    AtTime(Timestamp),
    /// Never elapsed.
    Never {},
}

impl Expiration {
    /// Whether the bound has elapsed in a block of the given height and time.
    pub open spec fn elapsed(self, block: BlockInfoView) -> bool {
        match self {
            Expiration::AtHeight(height) => block.height >= height,
            Expiration::AtTime(time) => block.time.nanos >= time.nanos,
            Expiration::Never {  } => false,
        }
    }

    /// Whether the bound has elapsed in `block`.
    pub fn is_expired(&self, block: &BlockInfo) -> (r: bool)
        ensures
            r == self.elapsed(block@),
    {
        expiration_is_expired(self, block)
    }
}

/// `cw20::Expiration::is_expired`, on the same bound and a block of the same
/// height and time: a height or a time has elapsed once the block has
/// reached it, and `Never` has not.
#[verifier::external_body]
fn expiration_is_expired(expiration: &Expiration, block: &BlockInfo) -> (r: bool)
    ensures
        r == expiration.elapsed(block@),
{
    let time = cosmwasm_std::Timestamp::from_nanos(block.time.nanos);
    let outside = match expiration {
        Expiration::AtHeight(h) => cw20::Expiration::AtHeight(*h),
        Expiration::AtTime(t) => cw20::Expiration::AtTime(
            cosmwasm_std::Timestamp::from_nanos(t.nanos),
        ),
        Expiration::Never {  } => cw20::Expiration::Never {  },
    };
    outside.is_expired(
        &cosmwasm_std::BlockInfo { height: block.height, time, chain_id: block.chain_id.clone() },
    )
}

/// Whether a message with the optional bound `expiration` has lost its
/// validity in `block`.
pub open spec fn expired(expiration: Option<Expiration>, block: BlockInfoView) -> bool {
    expiration is Some && expiration->Some_0.elapsed(block)
}

/// Refuses a message whose bound has elapsed in `block`. A message without a
/// bound is never refused.
pub fn check_expiration(expiration: &Option<Expiration>, block: &BlockInfo) -> (r: Result<
    (),
    ContractError,
>)
    ensures
        r == if expired(*expiration, block@) {
            Err::<(), ContractError>(ContractError::MsgExpirationError)
        } else {
            Ok::<(), ContractError>(())
        },
{
    if let Some(e) = expiration {
        if e.is_expired(block) {
            return Err(ContractError::MsgExpirationError);
        }
    }
    Ok(())
}

} // verus!
