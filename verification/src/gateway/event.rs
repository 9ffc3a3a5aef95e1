use serde::de::DeserializeSeed;
use twilight_model::gateway::event::{DispatchEvent, GatewayEvent, GatewayEventDeserializer};
use vstd::prelude::*;

verus! {

/// The kind of a dispatch event.
pub type EventKind = twilight_model::gateway::event::EventType;

#[verifier::external_type_specification]
#[verifier::external_body]
pub struct ExEventType(twilight_model::gateway::event::EventType);

/// What a dispatch event tells the connection.
#[derive(Debug)]
pub enum DispatchKind {
    /// The session is ready: its id and the URL to resume it at.
    Ready(String, String),
    /// The session was resumed.
    Resumed,
    /// Any other event, of this kind.
    Other(EventKind),
}

/// A message that the gateway sent, as far as the connection reads it.
#[derive(Debug)]
pub enum GatewayMessage {
    /// A dispatch event with its sequence number.
    Dispatch(u64, DispatchKind),
    Heartbeat,
    HeartbeatAck,
    /// The greeting, with the heartbeat interval in milliseconds.
    Hello(u64),
    /// The session is invalid; whether it may be resumed.
    InvalidateSession(bool),
    Reconnect,
}

pub enum DispatchKindView {
    Ready(Seq<char>, Seq<char>),
    Resumed,
    Other(EventKind),
}

pub enum GatewayMessageView {
    Dispatch(u64, DispatchKindView),
    Heartbeat,
    HeartbeatAck,
    Hello(u64),
    InvalidateSession(bool),
    Reconnect,
}

impl View for GatewayMessage {
    type V = GatewayMessageView;

    open spec fn view(&self) -> GatewayMessageView {
        match self {
            GatewayMessage::Dispatch(seq, k) => GatewayMessageView::Dispatch(
                *seq,
                match k {
                    DispatchKind::Ready(s, u) => DispatchKindView::Ready(s@, u@),
                    DispatchKind::Resumed => DispatchKindView::Resumed,
                    DispatchKind::Other(e) => DispatchKindView::Other(*e),
                },
            ),
            GatewayMessage::Heartbeat => GatewayMessageView::Heartbeat,
            GatewayMessage::HeartbeatAck => GatewayMessageView::HeartbeatAck,
            GatewayMessage::Hello(i) => GatewayMessageView::Hello(*i),
            GatewayMessage::InvalidateSession(b) => GatewayMessageView::InvalidateSession(*b),
            GatewayMessage::Reconnect => GatewayMessageView::Reconnect,
        }
    }
}

/// The view of an optional message.
pub open spec fn message_view(m: Option<GatewayMessage>) -> Option<GatewayMessageView> {
    match m {
        Some(x) => Some(x@),
        None => None,
    }
}

/// What twilight's gateway event deserializer reads from a text frame:
/// `None` when the frame is no gateway event it knows.
pub uninterp spec fn decoded_gateway_message(text: Seq<char>) -> Option<GatewayMessageView>;

/// Reads a text frame with `twilight_model`'s `GatewayEventDeserializer`
/// over `serde_json`.
///
/// Trusted: the result is what the deserializer gives for the text, moved
/// into this crate's message type; what the deserializer accepts is not
/// stated, only named.
#[verifier::external_body]
pub fn parse_gateway_message(text: &str) -> (r: Option<GatewayMessage>)
    ensures
        message_view(r) == decoded_gateway_message(text@),
{
    let seed = GatewayEventDeserializer::from_json(text)?;
    let event = seed.deserialize(&mut serde_json::Deserializer::from_str(text)).ok()?;
    Some(match event {
        GatewayEvent::Dispatch(q, DispatchEvent::Ready(r)) => GatewayMessage::Dispatch(q, DispatchKind::Ready(r.session_id, r.resume_gateway_url)),
        GatewayEvent::Dispatch(q, DispatchEvent::Resumed) => GatewayMessage::Dispatch(q, DispatchKind::Resumed),
        GatewayEvent::Dispatch(q, other) => GatewayMessage::Dispatch(q, DispatchKind::Other(other.kind())),
        GatewayEvent::Heartbeat => GatewayMessage::Heartbeat,
        GatewayEvent::HeartbeatAck => GatewayMessage::HeartbeatAck,
        GatewayEvent::Hello(h) => GatewayMessage::Hello(h.heartbeat_interval),
        GatewayEvent::InvalidateSession(b) => GatewayMessage::InvalidateSession(b),
        GatewayEvent::Reconnect => GatewayMessage::Reconnect,
    })
}

/// Whether events of a kind are posted to the webhook: no kind is.
pub fn is_forwarded_event_type(event_type: EventKind) -> (r: bool)
    ensures
        !r,
{
    false
}

} // verus!
