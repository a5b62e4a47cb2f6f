//! The session state machine: handshake, steady-state dispatch, and
//! the non-fatal handling of bad packets.

use gateway_client::error::Error;
use gateway_client::events::Event;
use gateway_client::session::{Diagnostic, InboundFrame, Session, SessionPhase, SessionStep};

fn text_frame(t: &str) -> InboundFrame {
    InboundFrame::Text(t.to_owned())
}

fn active_session() -> Session {
    let mut s = Session::new("tok".to_owned());
    let step = s.on_frame(&text_frame(r#"{"op":10,"d":{"heartbeat_interval":100}}"#));
    assert!(step.fatal.is_none());
    s
}

fn assert_quiet(step: &SessionStep) {
    assert!(step.send.is_none());
    assert!(step.event.is_none());
    assert!(step.start_heartbeat.is_none());
    assert!(step.fatal.is_none());
}

#[test]
fn greeting_then_dispatch_sends_one_identify_and_delivers_event() {
    let mut s = Session::new("tok".to_owned());

    let step1 = s.on_frame(&text_frame(r#"{"op":10,"d":{"heartbeat_interval":100}}"#));
    let identify = step1.send.expect("the greeting must be answered with identify");
    let sent: serde_json::Value = serde_json::from_str(&identify).unwrap();
    assert_eq!(sent["op"].as_u64(), Some(2));
    assert_eq!(sent["d"]["token"].as_str(), Some("tok"));
    assert_eq!(sent["d"]["compress"].as_bool(), Some(false));
    assert_eq!(step1.start_heartbeat, Some(100));
    assert!(step1.event.is_none());
    assert!(step1.fatal.is_none());

    let step2 = s.on_frame(&text_frame(
        r#"{"op":0,"s":1,"t":"MESSAGE_CREATE","d":{"channel_id":"c9","content":"hi"}}"#,
    ));
    assert!(step2.send.is_none(), "identify must go out exactly once");
    assert!(step2.start_heartbeat.is_none());
    match step2.event {
        Some(Event::MessageCreate(m)) => {
            assert_eq!(m.channel_id, "c9");
            assert_eq!(m.content, "hi");
        },
        other => panic!("expected a message event, got {:?}", other),
    }
}

#[test]
fn malformed_envelope_is_not_fatal_and_session_continues() {
    let mut s = active_session();

    let step = s.on_frame(&text_frame("{{{{"));
    assert_eq!(step.diagnostic, Some(Diagnostic::MalformedEnvelope));
    assert!(step.event.is_none());
    assert!(step.fatal.is_none());

    let step2 = s.on_frame(&text_frame(r#"{"op":0,"t":"READY","d":null}"#));
    assert_eq!(step2.event, Some(Event::Ready));
}

#[test]
fn envelope_without_required_fields_is_dropped_not_fatal() {
    let mut s = active_session();
    let step = s.on_frame(&text_frame(r#"{"op":0}"#));
    assert_eq!(step.diagnostic, Some(Diagnostic::MalformedEnvelope));
    assert!(step.fatal.is_none());
}

#[test]
fn unknown_dispatch_tag_draws_one_diagnostic_and_no_event() {
    let mut s = active_session();
    let step = s.on_frame(&text_frame(r#"{"op":0,"t":"TYPING_START","d":{}}"#));
    assert_eq!(step.diagnostic, Some(Diagnostic::UnknownEventTag));
    assert!(step.event.is_none());
    assert!(step.fatal.is_none());

    let step2 = s.on_frame(&text_frame(r#"{"op":0,"t":"READY","d":null}"#));
    assert_eq!(step2.event, Some(Event::Ready));
}

#[test]
fn dispatch_without_tag_is_dropped() {
    let mut s = active_session();
    let step = s.on_frame(&text_frame(r#"{"op":0,"d":{}}"#));
    assert_eq!(step.diagnostic, Some(Diagnostic::MissingEventTag));
    assert!(step.event.is_none());
}

#[test]
fn bad_event_payload_is_dropped() {
    let mut s = active_session();
    let step = s.on_frame(&text_frame(r#"{"op":0,"t":"MESSAGE_CREATE","d":{"content":7}}"#));
    assert_eq!(step.diagnostic, Some(Diagnostic::BadEventPayload));
    assert!(step.event.is_none());
}

#[test]
fn guild_create_decodes_id() {
    let mut s = active_session();
    let step = s.on_frame(&text_frame(r#"{"op":0,"t":"GUILD_CREATE","d":{"id":"g1"}}"#));
    match step.event {
        Some(Event::GuildCreate(g)) => assert_eq!(g.id, "g1"),
        other => panic!("expected a guild event, got {:?}", other),
    }
}

#[test]
fn heartbeat_ack_is_informational_only() {
    let mut s = active_session();
    let step = s.on_frame(&text_frame(r#"{"op":11,"d":null}"#));
    assert_quiet(&step);
    assert!(step.diagnostic.is_none());
}

#[test]
fn late_greeting_is_dropped_with_diagnostic() {
    let mut s = active_session();
    let step = s.on_frame(&text_frame(r#"{"op":10,"d":{"heartbeat_interval":5}}"#));
    assert_eq!(step.diagnostic, Some(Diagnostic::UnexpectedGreeting));
    assert!(step.fatal.is_none());
}

#[test]
fn unrecognized_opcode_is_dropped_with_diagnostic() {
    let mut s = active_session();
    let step = s.on_frame(&text_frame(r#"{"op":9,"d":null}"#));
    assert_eq!(step.diagnostic, Some(Diagnostic::UnrecognizedOpcode));
}

#[test]
fn non_text_frame_in_steady_state_is_dropped() {
    let mut s = active_session();
    let step = s.on_frame(&InboundFrame::NonText);
    assert_eq!(step.diagnostic, Some(Diagnostic::NonTextFrame));
    assert!(step.fatal.is_none());
}

#[test]
fn non_greeting_first_frame_is_fatal() {
    let mut s = Session::new("tok".to_owned());
    let step = s.on_frame(&text_frame(r#"{"op":11,"d":null}"#));
    match step.fatal {
        Some(Error::UnexpectedResponse(_)) => {},
        other => panic!("expected an unexpected-response error, got {:?}", other),
    }
    assert_eq!(s.phase, SessionPhase::Closed);
}

#[test]
fn malformed_greeting_is_fatal() {
    let mut s = Session::new("tok".to_owned());
    let step = s.on_frame(&text_frame("garbage"));
    assert!(matches!(step.fatal, Some(Error::UnexpectedResponse(_))));
    assert_eq!(s.phase, SessionPhase::Closed);
}

#[test]
fn greeting_without_interval_is_fatal() {
    let mut s = Session::new("tok".to_owned());
    let step = s.on_frame(&text_frame(r#"{"op":10,"d":{}}"#));
    assert!(matches!(step.fatal, Some(Error::UnexpectedResponse(_))));
}

#[test]
fn non_text_first_frame_is_fatal() {
    let mut s = Session::new("tok".to_owned());
    let step = s.on_frame(&InboundFrame::NonText);
    assert!(matches!(step.fatal, Some(Error::UnexpectedResponse(_))));
}

#[test]
fn closed_session_ignores_frames() {
    let mut s = Session::new("tok".to_owned());
    let _ = s.on_frame(&InboundFrame::NonText);
    let step = s.on_frame(&text_frame(r#"{"op":0,"t":"READY","d":null}"#));
    assert_quiet(&step);
    assert!(step.diagnostic.is_none());
}

#[test]
fn greeting_learns_the_interval() {
    let mut s = Session::new("tok".to_owned());
    let _ = s.on_frame(&text_frame(r#"{"op":10,"d":{"heartbeat_interval":41250}}"#));
    assert_eq!(s.interval, Some(41250));
    assert_eq!(s.phase, SessionPhase::Active);
}
