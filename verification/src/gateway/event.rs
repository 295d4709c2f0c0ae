//! Events as they arrive from the gateway, and actions sent to it.
use vstd::prelude::*;

use serde::de::DeserializeSeed;
use twilight_model::gateway::event::{DispatchEvent, GatewayEvent, GatewayEventDeserializer};

use crate::interceptors::Interceptor;

verus! {

#[verifier::external_type_specification]
#[verifier::external_body]
pub struct ExDispatchEvent(DispatchEvent);

/// A dispatch event: the event type that the payload names (its `t`
/// field) and the decoded event, which this library carries through
/// without looking inside.
pub struct Dispatch {
    pub event_type: Option<String>,
    pub event: Box<DispatchEvent>,
}

/// An event received from the gateway.
pub enum ReceivedEvent {
    /// A dispatch with its sequence number.
    Dispatch(u64, Dispatch),
    /// The gateway asks for a heartbeat.
    Heartbeat(u64),
    /// The gateway acknowledged a heartbeat.
    HeartbeatAck,
    /// The first message of a connection, with the heartbeat interval in
    /// milliseconds.
    Hello(u64),
    /// The session was invalidated; the flag tells whether it can be resumed.
    InvalidateSession(bool),
    /// The gateway asks the client to reconnect.
    Reconnect,
}

/// What this library reads of a received event: everything but the
/// contents of a dispatch.
pub enum EventShape {
    Dispatch { seq: u64, event_type: Option<Seq<char>> },
    Heartbeat(u64),
    HeartbeatAck,
    Hello(u64),
    InvalidateSession(bool),
    Reconnect,
}

/// The event type name of a dispatch, as text.
pub open spec fn event_type_text(t: Option<String>) -> Option<Seq<char>> {
    match t {
        Some(s) => Some(s@),
        None => None,
    }
}

impl ReceivedEvent {
    pub open spec fn shape(&self) -> EventShape {
        match self {
            ReceivedEvent::Dispatch(seq, d) => EventShape::Dispatch { seq: *seq, event_type: event_type_text(d.event_type) },
            ReceivedEvent::Heartbeat(seq) => EventShape::Heartbeat(*seq),
            ReceivedEvent::HeartbeatAck => EventShape::HeartbeatAck,
            ReceivedEvent::Hello(interval) => EventShape::Hello(*interval),
            ReceivedEvent::InvalidateSession(resumable) => EventShape::InvalidateSession(*resumable),
            ReceivedEvent::Reconnect => EventShape::Reconnect,
        }
    }
}

/// The shape of an optional event.
pub open spec fn option_shape(e: Option<ReceivedEvent>) -> Option<EventShape> {
    match e {
        Some(e) => Some(e.shape()),
        None => None,
    }
}

/// The event that twilight-model's gateway event deserializer, run by
/// serde_json, makes of a JSON text, by its shape; `None` where it refuses
/// the text.
pub uninterp spec fn gateway_event_shape(text: Seq<char>) -> Option<EventShape>;

/// Decodes a gateway payload: `GatewayEventDeserializer::from_json` finds
/// the opcode, sequence and event type, and its `DeserializeSeed` impl,
/// run on a `serde_json::Deserializer`, decodes the payload, after which
/// `Deserializer::end` refuses anything but whitespace left over. The shape of
/// the result is named by [`gateway_event_shape`] of the text; the event
/// type of a dispatch is the one that `from_json` found.
#[verifier::external_body]
fn parse_gateway_event(text: &str) -> (r: Option<ReceivedEvent>)
    ensures
        option_shape(r) == gateway_event_shape(text@),
{
    let seed = GatewayEventDeserializer::from_json(text)?;
    let event_type = seed.event_type_ref().map(String::from);
    let mut json = serde_json::Deserializer::from_str(text);
    let event = seed.deserialize(&mut json).ok()?;
    json.end().ok()?;
    Some(match event {
        GatewayEvent::Dispatch(seq, event) => ReceivedEvent::Dispatch(seq, Dispatch { event_type, event }),
        GatewayEvent::Heartbeat(seq) => ReceivedEvent::Heartbeat(seq),
        GatewayEvent::HeartbeatAck => ReceivedEvent::HeartbeatAck,
        GatewayEvent::Hello(interval) => ReceivedEvent::Hello(interval),
        GatewayEvent::InvalidateSession(resumable) => ReceivedEvent::InvalidateSession(resumable),
        GatewayEvent::Reconnect => ReceivedEvent::Reconnect,
    })
}

/// Reads bytes as UTF-8 text, `std::str::from_utf8`: it succeeds exactly
/// on valid UTF-8, and the text is then what the bytes encode.
#[verifier::external_body]
fn str_from_utf8(bytes: &[u8]) -> (r: Option<&str>)
    ensures
        r is Some <==> vstd::utf8::valid_utf8(bytes@),
        r matches Some(s) ==> s@ == vstd::utf8::decode_utf8(bytes@),
{
    std::str::from_utf8(bytes).ok()
}

/// The shape of the event that a payload of UTF-8 bytes decodes to.
pub open spec fn bytes_event_shape(bytes: Seq<u8>) -> Option<EventShape> {
    if vstd::utf8::valid_utf8(bytes) {
        gateway_event_shape(vstd::utf8::decode_utf8(bytes))
    } else {
        None
    }
}

/// Decodes a text payload into an event.
pub fn decode_text_event(text: &str) -> (r: Option<ReceivedEvent>)
    ensures
        option_shape(r) == gateway_event_shape(text@),
{
    parse_gateway_event(text)
}

/// Decodes a payload of bytes, which must be UTF-8 JSON, into an event.
pub fn decode_bytes_event(bytes: &[u8]) -> (r: Option<ReceivedEvent>)
    ensures
        option_shape(r) == bytes_event_shape(bytes@),
{
    match str_from_utf8(bytes) {
        Some(text) => parse_gateway_event(text),
        None => None,
    }
}

/// An action that middleware sends to the gateway.
pub enum GatewayAction {
    /// Start handing matching events to an interceptor.
    AddInterceptor(Interceptor),
}

} // verus!
