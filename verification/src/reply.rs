//! The reply to the sub-call that creates the share contract.
//!
//! Setting the pool up asks the host to create the share contract. Until the
//! host reports back, the store holds no address for it, and the operations
//! that need one fail with `NotFound`. The reply carries the address of the
//! new contract; the host validates it, and the pool saves it.
//!
//! The bytes of the reply are parsed by `cw_utils`. What the parser makes of
//! given bytes is taken on trust and has a name, `parsed_contract_address`;
//! what the pool does with the parser's result is proved.

use crate::effects::{text_attr, AttributeValue, Response, ResponseView};
use crate::error::{ContractError, StdError};
use crate::msg::{Reply, ReplyView};
use crate::state::{Outcome, Store, StoreView};
use crate::types::Addr;
use cw_utils::ParseReplyError;
use vstd::prelude::*;

verus! {

/// The identifier of the sub-call that creates the share contract.
pub const INSTANTIATE_LP_TOKEN_REPLY_ID: u64 = 0;

/// `cw_utils::ParseReplyError`, carried as an opaque value.
#[verifier::external_type_specification]
#[verifier::external_body]
pub struct ExParseReplyError(ParseReplyError);

/// What `cw_utils::parse_instantiate_response_data` makes of `data` on a
/// machine whose addresses have `address_bits` bits: the contract address
/// that the data carry, or `None` where they are not the response to an
/// instantiation.
pub uninterp spec fn parsed_contract_address(data: Seq<u8>, address_bits: u32) -> Option<Seq<char>>;

/// `cw_utils::parse_instantiate_response_data`: the contract address in the
/// response to an instantiation. The result depends on the bytes and, for a
/// length that does not fit in an address, on the width of the machine's
/// addresses.
#[verifier::external_body]
fn parse_instantiate_response_data(data: &Vec<u8>) -> (r: Result<String, ParseReplyError>)
    ensures
        match r {
            Ok(address) => parsed_contract_address(data@, usize::BITS) == Some(address@),
            Err(_) => parsed_contract_address(data@, usize::BITS) is None,
        },
{
    match cw_utils::parse_instantiate_response_data(data.as_slice()) {
        Ok(response) => Ok(response.contract_address),
        Err(e) => Err(e),
    }
}

/// The contract address that a reply carries: `None` where the sub-call
/// failed, where it brought no data back, and where the data are not the
/// response to an instantiation.
pub open spec fn reply_address(msg: ReplyView) -> Option<Seq<char>> {
    match msg.result {
        Ok(Some(data)) => parsed_contract_address(data, usize::BITS),
        _ => None,
    }
}

/// The contract address that `msg` carries, for the host to validate.
pub fn instantiate_reply_address(msg: &Reply) -> (r: Option<String>)
    ensures
        match r {
            Some(address) => reply_address(msg@) == Some(address@),
            None => reply_address(msg@) is None,
        },
{
    match &msg.result {
        Ok(response) => match &response.data {
            Some(data) => match parse_instantiate_response_data(data) {
                Ok(address) => Some(address),
                Err(_) => None,
            },
            None => None,
        },
        Err(_) => None,
    }
}

/// The text of an address that may be missing.
pub open spec fn text_of(addr: Option<Addr>) -> Option<Seq<char>> {
    match addr {
        Some(a) => Some(a@),
        None => None,
    }
}

/// What `handle_instantiate_reply` does with the address that a reply
/// carries and the host's verdict on it.
pub open spec fn instantiate_reply_outcome(
    store: StoreView,
    contract_address: Option<Seq<char>>,
    validated: Option<Seq<char>>,
) -> Result<Outcome, ContractError> {
    if contract_address is None {
        Err(ContractError::Std(StdError::ParseReply))
    } else if validated is None {
        Err(ContractError::Std(StdError::InvalidAddress))
    } else {
        Ok(
            Outcome {
                store: StoreView { lp_token: validated, ..store },
                response: ResponseView {
                    messages: Seq::empty(),
                    attributes: seq![
                        text_attr("token_contract_addr"@, contract_address->Some_0),
                    ],
                },
            },
        )
    }
}

/// Saves the address of the share contract.
///
/// `contract_address` is the address that the reply carried, `None` where
/// it carried none. `validated` is that address as the host accepted it,
/// `None` where the host refused it. On failure the store is as it was.
pub fn handle_instantiate_reply(
    store: &mut Store,
    contract_address: Option<String>,
    validated: Option<Addr>,
) -> (r: Result<Response, ContractError>)
    ensures
        old(store)@.wf() ==> final(store)@.wf(),
        match r {
            Ok(response) => instantiate_reply_outcome(
                old(store)@,
                match contract_address {
                    Some(text) => Some(text@),
                    None => None,
                },
                text_of(validated),
            ) == Ok::<Outcome, ContractError>(Outcome { store: final(store)@, response: response@ }),
            Err(e) => {
                &&& instantiate_reply_outcome(
                    old(store)@,
                    match contract_address {
                        Some(text) => Some(text@),
                        None => None,
                    },
                    text_of(validated),
                ) == Err::<Outcome, ContractError>(e)
                &&& *final(store) == *old(store)
            },
        },
{
    let text = match contract_address {
        Some(text) => text,
        None => {
            return Err(ContractError::Std(StdError::ParseReply));
        },
    };
    let cw20_addr = match validated {
        Some(addr) => addr,
        None => {
            return Err(ContractError::Std(StdError::InvalidAddress));
        },
    };
    store.lp_token = Some(cw20_addr);
    let response = Response::new().add_attribute("token_contract_addr", AttributeValue::Text(text));
    proof {
        assert(response@.attributes =~= seq![text_attr("token_contract_addr"@, text@)]);
    }
    Ok(response)
}

/// What `reply` does: a reply under an unknown identifier is refused, and
/// the reply to the creation of the share contract is handled with the
/// address that it carries.
pub open spec fn reply_outcome(
    store: StoreView,
    msg: ReplyView,
    validated: Option<Seq<char>>,
) -> Result<Outcome, ContractError> {
    if msg.id != INSTANTIATE_LP_TOKEN_REPLY_ID {
        Err(ContractError::Std(StdError::UnknownReplyId { id: msg.id }))
    } else {
        instantiate_reply_outcome(store, reply_address(msg), validated)
    }
}

/// Takes the host's report on a sub-call.
///
/// `validated` is the address that the reply carries as the host accepted
/// it, `None` where the host refused it or the reply carries none (see
/// `instantiate_reply_address`). On failure the store is as it was.
pub fn reply(store: &mut Store, msg: &Reply, validated: Option<Addr>) -> (r: Result<
    Response,
    ContractError,
>)
    ensures
        old(store)@.wf() ==> final(store)@.wf(),
        match r {
            Ok(response) => reply_outcome(old(store)@, msg@, text_of(validated)) == Ok::<
                Outcome,
                ContractError,
            >(Outcome { store: final(store)@, response: response@ }),
            Err(e) => {
                &&& reply_outcome(old(store)@, msg@, text_of(validated)) == Err::<
                    Outcome,
                    ContractError,
                >(e)
                &&& *final(store) == *old(store)
            },
        },
{
    if msg.id != INSTANTIATE_LP_TOKEN_REPLY_ID {
        return Err(ContractError::Std(StdError::UnknownReplyId { id: msg.id }));
    }
    handle_instantiate_reply(store, instantiate_reply_address(msg), validated)
}

} // verus!
