//! The host types and calls the relay relies on, with the contracts they are
//! trusted to meet.
use cosmwasm_std::{CosmosMsg, Empty, Event, ReplyOn, Response, StdError, SubMsg};
use vstd::prelude::*;

verus! {

#[verifier::external_type_specification]
#[verifier::external_body]
#[verifier::reject_recursive_types(T)]
pub struct ExCosmosMsg<T>(CosmosMsg<T>);

#[verifier::external_type_specification]
#[verifier::external_body]
#[verifier::reject_recursive_types(T)]
pub struct ExResponse<T>(Response<T>);

#[verifier::external_type_specification]
#[verifier::reject_recursive_types(T)]
pub struct ExSubMsg<T>(SubMsg<T>);

#[verifier::external_type_specification]
pub struct ExReplyOn(ReplyOn);

#[verifier::external_type_specification]
#[verifier::external_body]
pub struct ExEvent(Event);

#[verifier::external_type_specification]
#[verifier::external_body]
pub struct ExStdError(StdError);

#[verifier::external_type_specification]
#[verifier::external_body]
pub struct ExEmpty(Empty);

/// The action sequence that a JSON payload encodes, or `None` where the bytes
/// are no such encoding.
pub uninterp spec fn json_actions(bytes: Seq<u8>) -> Option<Seq<CosmosMsg>>;

/// Relies on `cosmwasm_std::from_binary`: JSON decoding (by serde-json-wasm)
/// depends on the bytes alone, and fails exactly where they encode no list of
/// actions.
#[verifier::external_body]
pub(crate) fn decode_actions(bytes: &Vec<u8>) -> (r: Result<Vec<CosmosMsg>, StdError>)
    ensures
        r is Ok <==> json_actions(bytes@) is Some,
        r is Ok ==> json_actions(bytes@) == Some(r->Ok_0@),
{
    #[allow(deprecated)]
    cosmwasm_std::from_binary(&cosmwasm_std::Binary::from(bytes.clone()))
}

/// The entries of a response's `messages`, in the order the host runs them.
pub uninterp spec fn response_messages(r: Response) -> Seq<SubMsg>;

/// The key/value attributes of a response, in order.
pub uninterp spec fn response_attributes(r: Response) -> Seq<(Seq<char>, Seq<char>)>;

/// The events of a response, in order.
pub uninterp spec fn response_events(r: Response) -> Seq<Event>;

/// The bytes of a response's `data`, where it has any.
pub uninterp spec fn response_data(r: Response) -> Option<Seq<u8>>;

/// What `SubMsg::new` makes of an action: it is sent with id 0, no gas limit
/// of its own, and no reply, so that its failure fails the whole invocation.
pub open spec fn sub_msg_new(a: CosmosMsg) -> SubMsg {
    SubMsg { id: 0, msg: a, gas_limit: None, reply_on: ReplyOn::Never }
}

/// Relies on `Response::new`: a response with no messages, attributes or
/// events, and no data.
#[verifier::external_body]
pub(crate) fn new_response() -> (r: Response)
    ensures
        response_messages(r) == Seq::<SubMsg>::empty(),
        response_attributes(r) == Seq::<(Seq<char>, Seq<char>)>::empty(),
        response_events(r) == Seq::<Event>::empty(),
        response_data(r) == None::<Seq<u8>>,
{
    Response::new()
}

/// Relies on `Response::add_messages`: each action is appended, in order, as
/// `SubMsg::new` of it; attributes, events and data stay as they were.
#[verifier::external_body]
pub(crate) fn add_actions(r: Response, msgs: Vec<CosmosMsg>) -> (out: Response)
    ensures
        response_messages(out) == response_messages(r) + msgs@.map_values(
            |a: CosmosMsg| sub_msg_new(a),
        ),
        response_attributes(out) == response_attributes(r),
        response_events(out) == response_events(r),
        response_data(out) == response_data(r),
{
    r.add_messages(msgs)
}

/// Relies on `Response::add_attribute`: the pair is appended to the
/// attributes; messages, events and data stay as they were. A key that
/// starts with `_` is reserved, and debug builds panic on it.
#[verifier::external_body]
pub(crate) fn add_attribute(r: Response, key: &str, value: &str) -> (out: Response)
    requires
        key@.len() == 0 || key@[0] != '_',
    ensures
        response_messages(out) == response_messages(r),
        response_attributes(out) == response_attributes(r).push((key@, value@)),
        response_events(out) == response_events(r),
        response_data(out) == response_data(r),
{
    r.add_attribute(key, value)
}

} // verus!
