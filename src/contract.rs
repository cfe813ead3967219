//! The entry points of the relay.
use crate::error::ContractError;
use crate::host::{
    add_actions, add_attribute, decode_actions, json_actions, new_response, response_attributes,
    response_data, response_events, response_messages, sub_msg_new,
};
use crate::msg::{ExecuteMsg, InstantiateMsg, QueryMsg};
use cosmwasm_std::{CosmosMsg, Event, Response, StdError, SubMsg};
use vstd::prelude::*;

verus! {

/// The name recorded in storage when the contract is created.
pub const CONTRACT_NAME: &'static str = "crates.io:cw1-whitelist";

/// The version recorded in storage when the contract is created.
pub const CONTRACT_VERSION: &'static str = "0.1.0";

/// The attribute that marks every forwarded batch: `action = "execute"`.
pub open spec fn audit_attribute() -> (Seq<char>, Seq<char>) {
    (seq!['a', 'c', 't', 'i', 'o', 'n'], seq!['e', 'x', 'e', 'c', 'u', 't', 'e'])
}

/// `r` is the default response: no messages, attributes or events, no data.
pub open spec fn is_empty_response(r: Response) -> bool {
    &&& response_messages(r) == Seq::<SubMsg>::empty()
    &&& response_attributes(r) == Seq::<(Seq<char>, Seq<char>)>::empty()
    &&& response_events(r) == Seq::<Event>::empty()
    &&& response_data(r) == None::<Seq<u8>>
}

/// `r` hands `batch` to the host: one plain message per action, in the same
/// order, with the audit attribute as its only attribute, and no events or
/// data.
pub open spec fn forwarded(batch: Seq<CosmosMsg>, r: Response) -> bool {
    &&& response_messages(r) == batch.map_values(|a: CosmosMsg| sub_msg_new(a))
    &&& response_attributes(r) == seq![audit_attribute()]
    &&& response_events(r) == Seq::<Event>::empty()
    &&& response_data(r) == None::<Seq<u8>>
}

/// `r` forwards the request `payload`: the payload decodes to a batch of
/// actions and `r` hands exactly that batch to the host.
pub open spec fn forwards(payload: Seq<u8>, r: Response) -> bool {
    match json_actions(payload) {
        Some(batch) => forwarded(batch, r),
        None => false,
    }
}

/// Finishes creating the contract, once `CONTRACT_NAME` and
/// `CONTRACT_VERSION` were written to storage with `stored` as the outcome:
/// the default response where the write succeeded, else the storage error.
pub fn instantiate(_msg: InstantiateMsg, stored: Result<(), StdError>) -> (r: Result<
    Response,
    ContractError,
>)
    ensures
        r is Ok <==> stored is Ok,
        r matches Ok(resp) ==> is_empty_response(resp),
        stored matches Err(se) ==> (r matches Err(ContractError::Storage(e)) && e == se),
{
    match stored {
        Ok(()) => Ok(new_response()),
        Err(e) => Err(ContractError::Storage(e)),
    }
}

/// Handles a request; the only one there is forwards a batch of actions.
pub fn execute(msg: ExecuteMsg) -> (r: Result<Response, ContractError>)
    ensures
        msg matches ExecuteMsg::Execute { msg: payload } ==> {
            &&& r is Ok <==> json_actions(payload@) is Some
            &&& r matches Ok(resp) ==> forwards(payload@, resp)
            &&& r matches Err(e) ==> e is Decode
        },
{
    match msg {
        ExecuteMsg::Execute { msg } => execute_msgs(msg),
    }
}

/// Decodes `msg` as a JSON list of actions and returns a response that hands
/// all of them to the host, in order, with the attribute `action = "execute"`.
/// Either every element decodes or nothing is forwarded. No caller is
/// checked: anyone may have the relay send anything.
pub fn execute_msgs(msg: Vec<u8>) -> (r: Result<Response, ContractError>)
    ensures
        r is Ok <==> json_actions(msg@) is Some,
        r matches Ok(resp) ==> forwards(msg@, resp),
        r matches Err(e) ==> e is Decode,
{
    match decode_actions(&msg) {
        Ok(msgs) => Ok(forward_actions(msgs)),
        Err(e) => Err(ContractError::Decode(e)),
    }
}

/// The response that hands a decoded batch to the host: each action as a
/// plain message, in order, and the attribute `action = "execute"`.
pub fn forward_actions(msgs: Vec<CosmosMsg>) -> (r: Response)
    ensures
        forwarded(msgs@, r),
{
    proof {
        reveal_strlit("action");
        reveal_strlit("execute");
    }
    let res = add_attribute(add_actions(new_response(), msgs), "action", "execute");
    assert("action"@ =~= audit_attribute().0);
    assert("execute"@ =~= audit_attribute().1);
    assert(response_attributes(res) =~= seq![audit_attribute()]);
    assert(response_messages(res) =~= msgs@.map_values(|a: CosmosMsg| sub_msg_new(a)));
    res
}

/// The relay defines no query: every query fails with `Unimplemented`.
pub fn query(_msg: QueryMsg) -> (r: Result<Vec<u8>, ContractError>)
    ensures
        r matches Err(ContractError::Unimplemented),
{
    Err(ContractError::Unimplemented)
}

/// A forwarded batch is the decoded batch itself, in the same order: each
/// entry carries its action with id 0, no gas limit and no reply. The audit
/// attribute comes exactly once, and there are no events or data.
pub proof fn lemma_forward_keeps_batch(payload: Seq<u8>, r: Response, batch: Seq<CosmosMsg>)
    requires
        json_actions(payload) == Some(batch),
        forwards(payload, r),
    ensures
        response_messages(r).len() == batch.len(),
        forall|i: int|
            0 <= i < batch.len() ==> {
                let m = #[trigger] response_messages(r)[i];
                &&& m.msg == batch[i]
                &&& m.id == 0
                &&& m.gas_limit is None
                &&& m.reply_on is Never
            },
        response_attributes(r).len() == 1,
        response_attributes(r)[0] == audit_attribute(),
        response_events(r).len() == 0,
        response_data(r) is None,
{
}

/// A payload that decodes to no batch of actions is forwarded by no response.
pub proof fn lemma_undecodable_forwards_nothing(payload: Seq<u8>, r: Response)
    requires
        json_actions(payload) is None,
    ensures
        !forwards(payload, r),
{
}

/// Order matters: where one payload decodes to `[a1, a2]` and another to
/// `[a2, a1]` with `a1 != a2`, the two forwarded batches differ.
pub proof fn lemma_forward_keeps_order(
    p: Seq<u8>,
    q: Seq<u8>,
    rp: Response,
    rq: Response,
    a1: CosmosMsg,
    a2: CosmosMsg,
)
    requires
        json_actions(p) == Some(seq![a1, a2]),
        json_actions(q) == Some(seq![a2, a1]),
        a1 != a2,
        forwards(p, rp),
        forwards(q, rq),
    ensures
        response_messages(rp) != response_messages(rq),
{
    assert(response_messages(rp)[0].msg == a1);
    assert(response_messages(rq)[0].msg == a2);
}

/// Forwarding is deterministic: two responses to the same payload hand the
/// host the same messages, attributes, events and data.
pub proof fn lemma_forward_deterministic(payload: Seq<u8>, r1: Response, r2: Response)
    requires
        forwards(payload, r1),
        forwards(payload, r2),
    ensures
        response_messages(r1) == response_messages(r2),
        response_attributes(r1) == response_attributes(r2),
        response_events(r1) == response_events(r2),
        response_data(r1) == response_data(r2),
{
}

} // verus!
