//! Typed application events, and the decode table from dispatch tags
//! to events.
//!
//! A dispatch envelope carries a string tag and a payload. The tag is
//! looked up in a closed table: a known tag decodes the payload into
//! a typed [`Event`] (a payload that does not fit its schema is a
//! per-packet decode failure), and an unknown tag is a first-class
//! outcome, never an error.

use vstd::prelude::*;

use crate::json::{jmodel, json_as_str, json_get, JsonVal};
use crate::text::str_eq;

verus! {

/// A chat message, as much of it as this client reads.
#[derive(Debug, Clone, PartialEq, Eq)]
pub struct MessageData {
    /// The channel the message was posted to.
    pub channel_id: String,
    /// The message text.
    pub content: String,
}

/// A guild made visible to the session.
#[derive(Debug, Clone, PartialEq, Eq)]
pub struct GuildData {
    /// The guild's identifier.
    pub id: String,
}

/// A typed application event, decoded from a dispatch envelope.
/// Unknown tags never produce an `Event`.
#[derive(Debug, Clone, PartialEq, Eq)]
pub enum Event {
    /// The server's own readiness dispatch.
    Ready,
    /// A guild became visible.
    GuildCreate(GuildData),
    /// A message was posted.
    MessageCreate(MessageData),
}

/// Spec-level content of a [`MessageData`].
pub struct MessageModel {
    pub channel_id: Seq<char>,
    pub content: Seq<char>,
}

/// Spec-level content of a [`GuildData`].
pub struct GuildModel {
    pub id: Seq<char>,
}

/// Spec-level content of an [`Event`].
pub enum EventModel {
    Ready,
    GuildCreate(GuildModel),
    MessageCreate(MessageModel),
}

impl View for MessageData {
    type V = MessageModel;

    open spec fn view(&self) -> MessageModel {
        MessageModel { channel_id: self.channel_id@, content: self.content@ }
    }
}

impl View for GuildData {
    type V = GuildModel;

    open spec fn view(&self) -> GuildModel {
        GuildModel { id: self.id@ }
    }
}

impl View for Event {
    type V = EventModel;

    open spec fn view(&self) -> EventModel {
        match self {
            Event::Ready => EventModel::Ready,
            Event::GuildCreate(g) => EventModel::GuildCreate(g@),
            Event::MessageCreate(m) => EventModel::MessageCreate(m@),
        }
    }
}

/// What a dispatch tag and payload decode to: an event to deliver, an
/// unknown tag, or a payload that does not fit the tag's schema.
#[derive(Debug, Clone, PartialEq, Eq)]
pub enum EventDecision {
    Deliver(Event),
    UnknownTag,
    BadPayload,
}

/// Spec-level content of an [`EventDecision`].
pub enum EventDecisionModel {
    Deliver(EventModel),
    UnknownTag,
    BadPayload,
}

impl View for EventDecision {
    type V = EventDecisionModel;

    open spec fn view(&self) -> EventDecisionModel {
        match self {
            EventDecision::Deliver(e) => EventDecisionModel::Deliver(e@),
            EventDecision::UnknownTag => EventDecisionModel::UnknownTag,
            EventDecision::BadPayload => EventDecisionModel::BadPayload,
        }
    }
}

/// The message schema: an object whose `channel_id` and `content`
/// are strings.
pub open spec fn message_of(d: JsonVal) -> Option<MessageModel> {
    match d {
        JsonVal::Obj(m) => {
            if m.contains_key("channel_id"@) && m.contains_key("content"@) {
                match (m["channel_id"@], m["content"@]) {
                    (JsonVal::Str(c), JsonVal::Str(t)) => Some(
                        MessageModel { channel_id: c, content: t },
                    ),
                    _ => None,
                }
            } else {
                None
            }
        },
        _ => None,
    }
}

/// The guild schema: an object whose `id` is a string.
pub open spec fn guild_of(d: JsonVal) -> Option<GuildModel> {
    match d {
        JsonVal::Obj(m) => {
            if m.contains_key("id"@) {
                match m["id"@] {
                    JsonVal::Str(i) => Some(GuildModel { id: i }),
                    _ => None,
                }
            } else {
                None
            }
        },
        _ => None,
    }
}

/// The decode table: which tags are recognized and what each decodes
/// to. The readiness dispatch carries no payload this client reads.
pub open spec fn event_of(t: Seq<char>, d: JsonVal) -> EventDecisionModel {
    if t == "READY"@ {
        EventDecisionModel::Deliver(EventModel::Ready)
    } else if t == "GUILD_CREATE"@ {
        match guild_of(d) {
            Some(g) => EventDecisionModel::Deliver(EventModel::GuildCreate(g)),
            None => EventDecisionModel::BadPayload,
        }
    } else if t == "MESSAGE_CREATE"@ {
        match message_of(d) {
            Some(m) => EventDecisionModel::Deliver(EventModel::MessageCreate(m)),
            None => EventDecisionModel::BadPayload,
        }
    } else {
        EventDecisionModel::UnknownTag
    }
}

/// Reads a string field out of an object payload.
fn str_field(d: &serde_json::Value, key: &str) -> (r: Option<String>)
    ensures
        match jmodel(*d) {
            JsonVal::Obj(m) => {
                &&& (r is Some <==> m.contains_key(key@) && m[key@] is Str)
                &&& (r matches Some(s) ==> m.contains_key(key@) && m[key@] == JsonVal::Str(s@))
            },
            _ => r is None,
        },
{
    match json_get(d, key) {
        None => None,
        Some(v) => match json_as_str(v) {
            None => None,
            Some(s) => Some(s.to_owned()),
        },
    }
}

/// Decodes one dispatch by its tag, per the decode table.
pub fn handle_event(t: &str, d: &serde_json::Value) -> (r: EventDecision)
    ensures
        r@ == event_of(t@, jmodel(*d)),
{
    if str_eq(t, "READY") {
        EventDecision::Deliver(Event::Ready)
    } else if str_eq(t, "GUILD_CREATE") {
        match str_field(d, "id") {
            Some(id) => EventDecision::Deliver(Event::GuildCreate(GuildData { id })),
            None => EventDecision::BadPayload,
        }
    } else if str_eq(t, "MESSAGE_CREATE") {
        let channel_id = match str_field(d, "channel_id") {
            Some(c) => c,
            None => { return EventDecision::BadPayload },
        };
        let content = match str_field(d, "content") {
            Some(c) => c,
            None => { return EventDecision::BadPayload },
        };
        EventDecision::Deliver(Event::MessageCreate(MessageData { channel_id, content }))
    } else {
        EventDecision::UnknownTag
    }
}

} // verus!
