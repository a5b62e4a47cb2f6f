//! The packet handler and the event decode table, called directly.

use gateway_client::events::{handle_event, Event, EventDecision};
use gateway_client::session::{handle_packet, Diagnostic, InboundFrame, PacketOutcome};

fn value(text: &str) -> serde_json::Value {
    serde_json::from_str(text).unwrap()
}

#[test]
fn ready_tag_decodes_without_payload() {
    let r = handle_event("READY", &value("null"));
    assert_eq!(r, EventDecision::Deliver(Event::Ready));
}

#[test]
fn message_create_tag_decodes_fields() {
    let r = handle_event("MESSAGE_CREATE", &value(r#"{"channel_id":"c","content":"x","id":"9"}"#));
    match r {
        EventDecision::Deliver(Event::MessageCreate(m)) => {
            assert_eq!(m.channel_id, "c");
            assert_eq!(m.content, "x");
        },
        other => panic!("expected a message event, got {:?}", other),
    }
}

#[test]
fn guild_create_tag_requires_string_id() {
    assert_eq!(handle_event("GUILD_CREATE", &value(r#"{"id":3}"#)), EventDecision::BadPayload);
}

#[test]
fn unknown_tag_is_a_first_class_outcome() {
    assert_eq!(handle_event("PRESENCE_UPDATE", &value("{}")), EventDecision::UnknownTag);
}

#[test]
fn tags_are_case_sensitive() {
    assert_eq!(handle_event("ready", &value("null")), EventDecision::UnknownTag);
}

#[test]
fn packet_handler_delivers_dispatches() {
    let f = InboundFrame::Text(r#"{"op":0,"t":"READY","d":null,"s":3}"#.to_owned());
    assert_eq!(handle_packet(&f), PacketOutcome::Deliver(Event::Ready));
}

#[test]
fn packet_handler_acknowledges_heartbeat_ack() {
    let f = InboundFrame::Text(r#"{"op":11,"d":null}"#.to_owned());
    assert_eq!(handle_packet(&f), PacketOutcome::Ack);
}

#[test]
fn packet_handler_drops_malformed_text() {
    let f = InboundFrame::Text("]".to_owned());
    assert_eq!(handle_packet(&f), PacketOutcome::Drop(Diagnostic::MalformedEnvelope));
}

#[test]
fn packet_handler_drops_unknown_opcodes() {
    let f = InboundFrame::Text(r#"{"op":200,"d":null}"#.to_owned());
    assert_eq!(handle_packet(&f), PacketOutcome::Drop(Diagnostic::UnrecognizedOpcode));
}
