//! The relay's entry points. Each is a pure function of its message: the
//! relay holds no state between calls.

use vstd::prelude::*;
use vstd::string::*;
use vstd::utf8::encode_utf8;

use cosmwasm_std::{Attribute, Empty, Event, StdError, SubMsg};
use cw_utils::ParseReplyError;

use crate::correlation::{is_init_id, CorrelationKind};
use crate::envelope::{
    execute_envelope, instantiate_envelope, opt_bytes, parse_error_text, parse_execute_data,
    parse_instantiate_data,
};

verus! {

/// The message `execute` takes: everything in it is forwarded as it stands.
#[derive(Debug, Clone)]
#[verifier::reject_recursive_types(C)]
pub struct Message<C> {
    pub data: Option<String>,
    pub sub_msg: Vec<SubMsg<C>>,
    pub attributes: Vec<Attribute>,
    pub events: Vec<Event>,
}

/// The message `instantiate` takes; an empty one is accepted too.
#[derive(Debug, Clone)]
#[verifier::reject_recursive_types(C)]
pub struct InitMessage<C> {
    pub data: Option<String>,
    pub sub_msg: Option<Vec<SubMsg<C>>>,
}

/// What an entry point hands back to the host.
#[derive(Debug, Clone)]
#[verifier::reject_recursive_types(C)]
pub struct RelayResponse<C> {
    pub data: Option<Vec<u8>>,
    pub messages: Vec<SubMsg<C>>,
    pub attributes: Vec<Attribute>,
    pub events: Vec<Event>,
}

/// How a dispatched sub-call ended.
#[derive(Debug, Clone)]
pub enum ReplyOutcome {
    /// The sub-call succeeded, with an optional response envelope.
    Success { data: Option<Vec<u8>> },
    /// The sub-call failed for the given reason.
    Failure { reason: String },
}

/// A reply the host delivers once a sub-call has completed.
#[derive(Debug, Clone)]
pub struct ReplyMsg {
    pub id: u64,
    pub result: ReplyOutcome,
}

/// Why a reply could not be handled.
#[derive(Debug, Clone, PartialEq, Eq)]
pub enum RelayError {
    /// The response envelope was not a well-formed instance of the shape that
    /// its correlation id selects.
    Decode(String),
}

/// The UTF-8 bytes of an optional text.
pub open spec fn text_bytes(d: Option<String>) -> Option<Seq<u8>> {
    match d {
        Some(s) => Some(encode_utf8(s@)),
        None => None,
    }
}

/// What decoding `env` yields under the envelope shape that `id` selects.
pub open spec fn decoded_envelope(id: u64, env: Seq<u8>) -> Option<Option<Seq<u8>>> {
    if is_init_id(id) {
        instantiate_envelope(env)
    } else {
        execute_envelope(env)
    }
}

/// The sub-messages an init message declares; none when the field is absent.
pub open spec fn declared_sub_msgs<C>(m: Option<Vec<SubMsg<C>>>) -> Seq<SubMsg<C>> {
    match m {
        Some(v) => v@,
        None => Seq::empty(),
    }
}

impl<C> RelayResponse<C> {
    /// A response that carries data `d` and no sub-messages, attributes or
    /// events.
    pub open spec fn only_data(self, d: Option<Seq<u8>>) -> bool {
        &&& opt_bytes(self.data) == d
        &&& self.messages@.len() == 0
        &&& self.attributes@.len() == 0
        &&& self.events@.len() == 0
    }

    /// A response with nothing in it.
    pub fn new() -> (r: Self)
        ensures
            r.only_data(None),
    {
        RelayResponse { data: None, messages: Vec::new(), attributes: Vec::new(), events: Vec::new() }
    }
}

impl<C> Message<C> {
    /// A message with no data and nothing to forward.
    pub fn new() -> (r: Self)
        ensures
            r.data is None,
            r.sub_msg@.len() == 0,
            r.attributes@.len() == 0,
            r.events@.len() == 0,
    {
        Message { data: None, sub_msg: Vec::new(), attributes: Vec::new(), events: Vec::new() }
    }
}

impl<C> Default for Message<C> {
    fn default() -> (r: Self)
        ensures
            r.data is None,
            r.sub_msg@.len() == 0,
            r.attributes@.len() == 0,
            r.events@.len() == 0,
    {
        Message::new()
    }
}

impl<C> InitMessage<C> {
    /// A message with no data and no sub-messages.
    pub fn new() -> (r: Self)
        ensures
            r.data is None,
            r.sub_msg is None,
    {
        InitMessage { data: None, sub_msg: None }
    }
}

impl<C> Default for InitMessage<C> {
    fn default() -> (r: Self)
        ensures
            r.data is None,
            r.sub_msg is None,
    {
        InitMessage::new()
    }
}

/// The UTF-8 bytes of an optional text, unchanged.
fn text_to_bytes(d: &Option<String>) -> (r: Option<Vec<u8>>)
    ensures
        opt_bytes(r) == text_bytes(*d),
{
    match d {
        Some(s) => Some(s.as_str().as_bytes_vec()),
        None => None,
    }
}

/// Sets the data and sub-messages the message gives; emits no attributes or
/// events. An absent sub-message list and an empty one both forward nothing.
pub fn instantiate<C>(msg: InitMessage<C>) -> (r: RelayResponse<C>)
    ensures
        opt_bytes(r.data) == text_bytes(msg.data),
        r.messages@ == declared_sub_msgs(msg.sub_msg),
        r.attributes@.len() == 0,
        r.events@.len() == 0,
{
    let data = text_to_bytes(&msg.data);
    let messages = match msg.sub_msg {
        Some(v) => v,
        None => Vec::new(),
    };
    RelayResponse { data, messages, attributes: Vec::new(), events: Vec::new() }
}

/// Sets the data the message gives and forwards its sub-messages,
/// attributes and events in their order.
pub fn execute<C>(msg: Message<C>) -> (r: RelayResponse<C>)
    ensures
        opt_bytes(r.data) == text_bytes(msg.data),
        r.messages@ == msg.sub_msg@,
        r.attributes@ == msg.attributes@,
        r.events@ == msg.events@,
{
    let data = text_to_bytes(&msg.data);
    let Message { data: _, sub_msg, attributes, events } = msg;
    RelayResponse { data, messages: sub_msg, attributes, events }
}

/// Relies on `cosmwasm_std::to_json_binary`, which writes the empty
/// message as the JSON object `{}`.
#[verifier::external_body]
fn empty_to_json(msg: &Empty) -> (r: Result<Vec<u8>, StdError>)
    ensures
        r is Ok,
        r matches Ok(b) ==> b@ == seq![0x7bu8, 0x7du8],
{
    cosmwasm_std::to_json_binary(msg).map(|b| b.0)
}

/// Echoes the empty query message back as JSON.
pub fn query(msg: &Empty) -> (r: Vec<u8>)
    ensures
        r@ == seq![0x7bu8, 0x7du8],
{
    match empty_to_json(msg) {
        Ok(b) => b,
        Err(_) => vstd::pervasive::unreached(),
    }
}

/// Turns the outcome of decoding a response envelope into the reply's
/// response: the inner data, if any, and nothing else; or the decoding error.
pub fn response_from_decoded<C>(decoded: Result<Option<Vec<u8>>, ParseReplyError>) -> (r: Result<
    RelayResponse<C>,
    RelayError,
>)
    ensures
        decoded matches Ok(d) ==> r matches Ok(resp) && resp.only_data(opt_bytes(d)),
        decoded is Err ==> r matches Err(RelayError::Decode(_)),
{
    match decoded {
        Ok(d) => {
            let mut resp = RelayResponse::new();
            resp.data = d;
            Ok(resp)
        },
        Err(e) => Err(RelayError::Decode(parse_error_text(&e))),
    }
}

/// Handles a reply: a failed sub-call, or a successful one without an
/// envelope, gives an empty response. Otherwise the envelope is decoded under
/// the shape that the correlation id selects, and its inner data, if any,
/// becomes the response's data. A malformed envelope is an error.
pub fn reply<C>(msg: ReplyMsg) -> (r: Result<RelayResponse<C>, RelayError>)
    ensures
        match msg.result {
            ReplyOutcome::Success { data: Some(env) } => match decoded_envelope(msg.id, env@) {
                Some(inner) => r matches Ok(resp) && resp.only_data(inner),
                None => r matches Err(RelayError::Decode(_)),
            },
            _ => r matches Ok(resp) && resp.only_data(None),
        },
{
    match msg.result {
        ReplyOutcome::Success { data: Some(env) } => {
            let decoded = match CorrelationKind::classify(msg.id) {
                CorrelationKind::Init(_) => parse_instantiate_data(env.as_slice()),
                CorrelationKind::Exec(_) => parse_execute_data(env.as_slice()),
            };
            response_from_decoded(decoded)
        },
        _ => Ok(RelayResponse::new()),
    }
}

} // verus!
