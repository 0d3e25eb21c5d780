//! The decoder of server messages: from the envelope of a message to the
//! typed event it announces, and from there to what the node does about it.

use vstd::prelude::*;
use vstd::string::*;
use crate::decimal::{decimal_value, is_decimal, parse_decimal};
use crate::events::EventKind;
use crate::json::{
    json_member,
    json_member_flag,
    json_member_text,
    json_model,
    member_flag,
    member_text,
    value_get,
    Json,
    JsonNumber,
};
use crate::model::GuildId;
use crate::text::text_eq;

verus! {

/// A typed notification, with the fields that the node acts on. The rest of
/// a message's payload stays in its envelope.
#[derive(Clone, Debug)]
pub enum Event {
    /// The server acknowledged the handshake and issued a session.
    Ready { session_id: String, resumed: bool },
    /// A snapshot of a guild's playback position and connection state.
    PlayerUpdate { guild_id: GuildId },
    /// Resource and usage statistics of the server.
    Stats,
    /// A track started playing.
    TrackStart { guild_id: GuildId },
    /// A track stopped playing, for the reason given.
    TrackEnd { guild_id: GuildId, reason: String },
    /// A track failed while playing.
    TrackException { guild_id: GuildId },
    /// A track stalled.
    TrackStuck { guild_id: GuildId },
    /// The server's voice connection for a guild was closed.
    WebSocketClosed { guild_id: GuildId },
}

/// An event as a plain value.
pub ghost enum EventView {
    Ready { session_id: Seq<char>, resumed: bool },
    PlayerUpdate { guild_id: GuildId },
    Stats,
    TrackStart { guild_id: GuildId },
    TrackEnd { guild_id: GuildId, reason: Seq<char> },
    TrackException { guild_id: GuildId },
    TrackStuck { guild_id: GuildId },
    WebSocketClosed { guild_id: GuildId },
}

impl View for Event {
    type V = EventView;

    open spec fn view(&self) -> EventView {
        match *self {
            Event::Ready { session_id, resumed } => EventView::Ready {
                session_id: session_id@,
                resumed,
            },
            Event::PlayerUpdate { guild_id } => EventView::PlayerUpdate { guild_id },
            Event::Stats => EventView::Stats,
            Event::TrackStart { guild_id } => EventView::TrackStart { guild_id },
            Event::TrackEnd { guild_id, reason } => EventView::TrackEnd { guild_id, reason: reason@ },
            Event::TrackException { guild_id } => EventView::TrackException { guild_id },
            Event::TrackStuck { guild_id } => EventView::TrackStuck { guild_id },
            Event::WebSocketClosed { guild_id } => EventView::WebSocketClosed { guild_id },
        }
    }
}

impl EventView {
    /// The registry slot that handles the event.
    pub open spec fn kind(self) -> EventKind {
        match self {
            EventView::Ready { .. } => EventKind::Ready,
            EventView::PlayerUpdate { .. } => EventKind::PlayerUpdate,
            EventView::Stats => EventKind::Stats,
            EventView::TrackStart { .. } => EventKind::TrackStart,
            EventView::TrackEnd { .. } => EventKind::TrackEnd,
            EventView::TrackException { .. } => EventKind::TrackException,
            EventView::TrackStuck { .. } => EventKind::TrackStuck,
            EventView::WebSocketClosed { .. } => EventKind::WebSocketClosed,
        }
    }

    /// The guild whose playback handle the event updates, for the events that
    /// update one.
    pub open spec fn player(self) -> Option<GuildId> {
        match self {
            EventView::PlayerUpdate { guild_id } => Some(guild_id),
            EventView::TrackStart { guild_id } => Some(guild_id),
            EventView::TrackEnd { guild_id, .. } => Some(guild_id),
            _ => None,
        }
    }
}

impl Event {
    /// The registry slot that handles the event.
    pub fn kind(&self) -> (kind: EventKind)
        ensures
            kind == self@.kind(),
    {
        match self {
            Event::Ready { .. } => EventKind::Ready,
            Event::PlayerUpdate { .. } => EventKind::PlayerUpdate,
            Event::Stats => EventKind::Stats,
            Event::TrackStart { .. } => EventKind::TrackStart,
            Event::TrackEnd { .. } => EventKind::TrackEnd,
            Event::TrackException { .. } => EventKind::TrackException,
            Event::TrackStuck { .. } => EventKind::TrackStuck,
            Event::WebSocketClosed { .. } => EventKind::WebSocketClosed,
        }
    }

    /// The guild whose playback handle the event updates, for the events that
    /// update one.
    pub fn player(&self) -> (guild: Option<GuildId>)
        ensures
            guild == self@.player(),
    {
        match self {
            Event::PlayerUpdate { guild_id } => Some(*guild_id),
            Event::TrackStart { guild_id } => Some(*guild_id),
            Event::TrackEnd { guild_id, .. } => Some(*guild_id),
            _ => None,
        }
    }
}

/// Why a message that parsed as JSON could not be decoded. A message that
/// fails so is given up whole: nothing is changed and nothing dispatched for it.
#[derive(Clone, Copy, PartialEq, Eq, Structural, Debug, Hash)]
pub enum DecodeError {
    /// The envelope has no member `op` that is a string.
    MissingOp,
    /// The envelope announces `event` and has no member `type` that is a string.
    MissingType,
    /// The envelope announces an event of this kind and lacks a field of it,
    /// or holds one of another type.
    Malformed(EventKind),
}

/// The guild that the envelope `doc` names: its member `guildId`, where that
/// is a string of decimal digits or a number, and within `u64`.
pub open spec fn envelope_guild(doc: Json) -> Option<GuildId> {
    match json_member(doc, "guildId"@) {
        Some(Json::Text(text)) => if is_decimal(text) && decimal_value(text) <= u64::MAX {
            Some(GuildId(decimal_value(text) as u64))
        } else {
            None
        },
        Some(Json::Number(JsonNumber::Unsigned(n))) => Some(GuildId(n)),
        _ => None,
    }
}

/// The typed event of an envelope that announces `ready`.
pub open spec fn decode_ready(doc: Json) -> Result<Option<EventView>, DecodeError> {
    match (json_member_text(doc, "sessionId"@), json_member_flag(doc, "resumed"@)) {
        (Some(session_id), Some(resumed)) => Ok(Some(EventView::Ready { session_id, resumed })),
        _ => Err(DecodeError::Malformed(EventKind::Ready)),
    }
}

/// The typed event of an envelope that announces `playerUpdate`.
pub open spec fn decode_player_update(doc: Json) -> Result<Option<EventView>, DecodeError> {
    match envelope_guild(doc) {
        Some(guild_id) => Ok(Some(EventView::PlayerUpdate { guild_id })),
        None => Err(DecodeError::Malformed(EventKind::PlayerUpdate)),
    }
}

/// The typed event of an envelope that announces `event` with the nested
/// discriminator `name`; none where `name` is not recognized.
pub open spec fn decode_player_event(doc: Json, name: Seq<char>) -> Result<
    Option<EventView>,
    DecodeError,
> {
    if name == "TrackStartEvent"@ {
        match envelope_guild(doc) {
            Some(guild_id) => Ok(Some(EventView::TrackStart { guild_id })),
            None => Err(DecodeError::Malformed(EventKind::TrackStart)),
        }
    } else if name == "TrackEndEvent"@ {
        match (envelope_guild(doc), json_member_text(doc, "reason"@)) {
            (Some(guild_id), Some(reason)) => Ok(Some(EventView::TrackEnd { guild_id, reason })),
            _ => Err(DecodeError::Malformed(EventKind::TrackEnd)),
        }
    } else if name == "TrackExceptionEvent"@ {
        match envelope_guild(doc) {
            Some(guild_id) => Ok(Some(EventView::TrackException { guild_id })),
            None => Err(DecodeError::Malformed(EventKind::TrackException)),
        }
    } else if name == "TrackStuckEvent"@ {
        match envelope_guild(doc) {
            Some(guild_id) => Ok(Some(EventView::TrackStuck { guild_id })),
            None => Err(DecodeError::Malformed(EventKind::TrackStuck)),
        }
    } else if name == "WebSocketClosedEvent"@ {
        match envelope_guild(doc) {
            Some(guild_id) => Ok(Some(EventView::WebSocketClosed { guild_id })),
            None => Err(DecodeError::Malformed(EventKind::WebSocketClosed)),
        }
    } else {
        Ok(None)
    }
}

/// The typed event that the envelope `doc` announces. The member `op`
/// decides, and for `event` the member `type`; an envelope whose
/// discriminator is not recognized has no typed event and is no error.
pub open spec fn decode_envelope(doc: Json) -> Result<Option<EventView>, DecodeError> {
    match json_member_text(doc, "op"@) {
        None => Err(DecodeError::MissingOp),
        Some(op) => if op == "ready"@ {
            decode_ready(doc)
        } else if op == "playerUpdate"@ {
            decode_player_update(doc)
        } else if op == "stats"@ {
            Ok(Some(EventView::Stats))
        } else if op == "event"@ {
            match json_member_text(doc, "type"@) {
                None => Err(DecodeError::MissingType),
                Some(name) => decode_player_event(doc, name),
            }
        } else {
            Ok(None)
        },
    }
}

/// The view of a decoder's result.
pub open spec fn decoded_view(r: Result<Option<Event>, DecodeError>) -> Result<
    Option<EventView>,
    DecodeError,
> {
    match r {
        Ok(Some(event)) => Ok(Some(event@)),
        Ok(None) => Ok(None),
        Err(e) => Err(e),
    }
}

/// Reads the guild that an envelope names.
pub fn read_guild(doc: &serde_json::Value) -> (guild: Option<GuildId>)
    ensures
        guild == envelope_guild(json_model(*doc)),
{
    match value_get(doc, "guildId") {
        Some(member) => match member.as_str() {
            Some(text) => match parse_decimal(text) {
                Some(n) => Some(GuildId(n)),
                None => None,
            },
            None => match member.as_u64() {
                Some(n) => Some(GuildId(n)),
                None => None,
            },
        },
        None => None,
    }
}

fn read_ready(doc: &serde_json::Value) -> (r: Result<Option<Event>, DecodeError>)
    ensures
        decoded_view(r) == decode_ready(json_model(*doc)),
{
    match member_text(doc, "sessionId") {
        Some(session_id) => match member_flag(doc, "resumed") {
            Some(resumed) => Ok(Some(Event::Ready { session_id, resumed })),
            None => Err(DecodeError::Malformed(EventKind::Ready)),
        },
        None => Err(DecodeError::Malformed(EventKind::Ready)),
    }
}

fn read_player_event(doc: &serde_json::Value, name: &str) -> (r: Result<Option<Event>, DecodeError>)
    ensures
        decoded_view(r) == decode_player_event(json_model(*doc), name@),
{
    if text_eq(name, "TrackStartEvent") {
        match read_guild(doc) {
            Some(guild_id) => Ok(Some(Event::TrackStart { guild_id })),
            None => Err(DecodeError::Malformed(EventKind::TrackStart)),
        }
    } else if text_eq(name, "TrackEndEvent") {
        match read_guild(doc) {
            Some(guild_id) => match member_text(doc, "reason") {
                Some(reason) => Ok(Some(Event::TrackEnd { guild_id, reason })),
                None => Err(DecodeError::Malformed(EventKind::TrackEnd)),
            },
            None => Err(DecodeError::Malformed(EventKind::TrackEnd)),
        }
    } else if text_eq(name, "TrackExceptionEvent") {
        match read_guild(doc) {
            Some(guild_id) => Ok(Some(Event::TrackException { guild_id })),
            None => Err(DecodeError::Malformed(EventKind::TrackException)),
        }
    } else if text_eq(name, "TrackStuckEvent") {
        match read_guild(doc) {
            Some(guild_id) => Ok(Some(Event::TrackStuck { guild_id })),
            None => Err(DecodeError::Malformed(EventKind::TrackStuck)),
        }
    } else if text_eq(name, "WebSocketClosedEvent") {
        match read_guild(doc) {
            Some(guild_id) => Ok(Some(Event::WebSocketClosed { guild_id })),
            None => Err(DecodeError::Malformed(EventKind::WebSocketClosed)),
        }
    } else {
        Ok(None)
    }
}

/// Decodes the envelope of a message: finds the event it announces and reads
/// that event's fields.
///
/// `Ok(None)` is an envelope whose discriminator is not recognized. An `Err`
/// gives the message up: an envelope without a usable discriminator, or one
/// whose fields do not fit the event it announces.
pub fn decode(envelope: &serde_json::Value) -> (r: Result<Option<Event>, DecodeError>)
    ensures
        decoded_view(r) == decode_envelope(json_model(*envelope)),
{
    match member_text(envelope, "op") {
        None => Err(DecodeError::MissingOp),
        Some(op) => {
            if text_eq(op.as_str(), "ready") {
                read_ready(envelope)
            } else if text_eq(op.as_str(), "playerUpdate") {
                match read_guild(envelope) {
                    Some(guild_id) => Ok(Some(Event::PlayerUpdate { guild_id })),
                    None => Err(DecodeError::Malformed(EventKind::PlayerUpdate)),
                }
            } else if text_eq(op.as_str(), "stats") {
                Ok(Some(Event::Stats))
            } else if text_eq(op.as_str(), "event") {
                match member_text(envelope, "type") {
                    None => Err(DecodeError::MissingType),
                    Some(name) => read_player_event(envelope, name.as_str()),
                }
            } else {
                Ok(None)
            }
        },
    }
}

} // verus!
