//! The streaming session: handshake, then steady-state packet
//! handling.
//!
//! A [`Session`] is created once a transport is open. The first
//! inbound frame must be the server's greeting; it yields the
//! heartbeat interval, and the session answers with the identify
//! frame and asks the embedding application to start the heartbeat
//! driver. Every later frame is routed through [`handle_packet`]:
//! per-packet decode failures are diagnosed and dropped, never fatal,
//! so the session keeps processing subsequent frames.
//!
//! Each step's effects are returned as plain values in a
//! [`SessionStep`]; the embedding application performs them in field
//! order: write `send` first, then act on `start_heartbeat`.

use vstd::prelude::*;

use crate::envelope::{decode_envelope, env_of, EnvModel};
use crate::error::{Error, ErrorModel};
use crate::events::{event_of, handle_event, Event, EventDecision, EventDecisionModel, EventModel};
use crate::json::{json_parse, JsonVal};
use crate::protocol::{
    hello_interval, hello_interval_of, identify_frame, identify_text, OP_DISPATCH,
    OP_HEARTBEAT_ACK, OP_HELLO,
};

verus! {

/// One frame as the transport delivered it: text, or some other
/// message kind this protocol does not speak.
pub enum InboundFrame {
    Text(String),
    NonText,
}

/// Spec-level content of an [`InboundFrame`].
pub enum InboundFrameModel {
    Text(Seq<char>),
    NonText,
}

impl View for InboundFrame {
    type V = InboundFrameModel;

    open spec fn view(&self) -> InboundFrameModel {
        match self {
            InboundFrame::Text(t) => InboundFrameModel::Text(t@),
            InboundFrame::NonText => InboundFrameModel::NonText,
        }
    }
}

/// Why a packet was dropped. Each dropped packet is reported through
/// exactly one of these, and produces no event.
#[derive(Clone, Copy, PartialEq, Eq, Structural, Debug)]
pub enum Diagnostic {
    /// The text was not a well-formed envelope.
    MalformedEnvelope,
    /// A dispatch envelope carried no event tag.
    MissingEventTag,
    /// The event tag is not in the decode table.
    UnknownEventTag,
    /// The payload did not fit the tag's schema.
    BadEventPayload,
    /// A greeting arrived after the handshake was done.
    UnexpectedGreeting,
    /// The opcode is not one this client recognizes.
    UnrecognizedOpcode,
    /// The transport delivered a non-text frame.
    NonTextFrame,
}

/// What handling one steady-state packet amounts to.
#[derive(Debug, Clone, PartialEq, Eq)]
pub enum PacketOutcome {
    /// A decoded event, to be handed to the application's callback.
    Deliver(Event),
    /// A heartbeat acknowledgment: informational only, no action.
    Ack,
    /// The packet is dropped; the diagnostic says why.
    Drop(Diagnostic),
}

/// Spec-level content of a [`PacketOutcome`].
pub enum PacketOutcomeModel {
    Deliver(EventModel),
    Ack,
    Drop(Diagnostic),
}

impl View for PacketOutcome {
    type V = PacketOutcomeModel;

    open spec fn view(&self) -> PacketOutcomeModel {
        match self {
            PacketOutcome::Deliver(e) => PacketOutcomeModel::Deliver(e@),
            PacketOutcome::Ack => PacketOutcomeModel::Ack,
            PacketOutcome::Drop(d) => PacketOutcomeModel::Drop(*d),
        }
    }
}

/// How a well-formed envelope is demultiplexed by opcode, once the
/// handshake is done.
pub open spec fn dispatch_outcome(env: EnvModel) -> PacketOutcomeModel {
    if env.op == OP_DISPATCH {
        match env.t {
            None => PacketOutcomeModel::Drop(Diagnostic::MissingEventTag),
            Some(tag) => match event_of(tag, env.d) {
                EventDecisionModel::Deliver(e) => PacketOutcomeModel::Deliver(e),
                EventDecisionModel::UnknownTag => PacketOutcomeModel::Drop(
                    Diagnostic::UnknownEventTag,
                ),
                EventDecisionModel::BadPayload => PacketOutcomeModel::Drop(
                    Diagnostic::BadEventPayload,
                ),
            },
        }
    } else if env.op == OP_HEARTBEAT_ACK {
        PacketOutcomeModel::Ack
    } else if env.op == OP_HELLO {
        PacketOutcomeModel::Drop(Diagnostic::UnexpectedGreeting)
    } else {
        PacketOutcomeModel::Drop(Diagnostic::UnrecognizedOpcode)
    }
}

/// What one steady-state frame amounts to: malformed text is dropped
/// with a diagnostic, a well-formed envelope is demultiplexed.
pub open spec fn packet_outcome_of(f: InboundFrameModel) -> PacketOutcomeModel {
    match f {
        InboundFrameModel::NonText => PacketOutcomeModel::Drop(Diagnostic::NonTextFrame),
        InboundFrameModel::Text(text) => match json_parse(text) {
            None => PacketOutcomeModel::Drop(Diagnostic::MalformedEnvelope),
            Some(j) => match env_of(j) {
                None => PacketOutcomeModel::Drop(Diagnostic::MalformedEnvelope),
                Some(env) => dispatch_outcome(env),
            },
        },
    }
}

/// Handles one steady-state frame: decode, demultiplex by opcode,
/// decode dispatch payloads by tag. Never fails: every failure of a
/// single packet becomes a `Drop` with its diagnostic.
pub fn handle_packet(frame: &InboundFrame) -> (r: PacketOutcome)
    ensures
        r@ == packet_outcome_of(frame@),
{
    let text = match frame {
        InboundFrame::NonText => { return PacketOutcome::Drop(Diagnostic::NonTextFrame) },
        InboundFrame::Text(t) => t,
    };
    let env = match decode_envelope(text.as_str()) {
        Err(_) => { return PacketOutcome::Drop(Diagnostic::MalformedEnvelope) },
        Ok(e) => e,
    };
    if env.op == OP_DISPATCH {
        match &env.t {
            None => PacketOutcome::Drop(Diagnostic::MissingEventTag),
            Some(tag) => match handle_event(tag.as_str(), &env.d) {
                EventDecision::Deliver(e) => PacketOutcome::Deliver(e),
                EventDecision::UnknownTag => PacketOutcome::Drop(Diagnostic::UnknownEventTag),
                EventDecision::BadPayload => PacketOutcome::Drop(Diagnostic::BadEventPayload),
            },
        }
    } else if env.op == OP_HEARTBEAT_ACK {
        PacketOutcome::Ack
    } else if env.op == OP_HELLO {
        PacketOutcome::Drop(Diagnostic::UnexpectedGreeting)
    } else {
        PacketOutcome::Drop(Diagnostic::UnrecognizedOpcode)
    }
}

/// Where the session stands.
#[derive(Clone, Copy, PartialEq, Eq, Structural, Debug)]
pub enum SessionPhase {
    /// The transport is open; the greeting has not arrived yet.
    AwaitingGreeting,
    /// The handshake is done; frames are demultiplexed.
    Active,
    /// The session ended, by fatal handshake failure.
    Closed,
}

/// The per-connection session state machine.
pub struct Session {
    /// The credential, sent inside the identify frame.
    pub token: String,
    /// Where the session stands.
    pub phase: SessionPhase,
    /// The heartbeat interval learned from the greeting, in
    /// milliseconds; set exactly once, by the greeting.
    pub interval: Option<u64>,
}

/// Spec-level content of a [`Session`].
pub struct SessionModel {
    pub token: Seq<char>,
    pub phase: SessionPhase,
    pub interval: Option<u64>,
}

impl View for Session {
    type V = SessionModel;

    open spec fn view(&self) -> SessionModel {
        SessionModel { token: self.token@, phase: self.phase, interval: self.interval }
    }
}

/// The effects of one session step, as plain values for the
/// embedding application to perform, in field order.
pub struct SessionStep {
    /// Frame text to write to the outbound sink, before anything
    /// else.
    pub send: Option<String>,
    /// An event to hand to the application's callback.
    pub event: Option<Event>,
    /// A dropped packet's diagnostic, to log.
    pub diagnostic: Option<Diagnostic>,
    /// Start the heartbeat driver at this interval (milliseconds),
    /// first beat immediately.
    pub start_heartbeat: Option<u64>,
    /// The session ended; surface this error.
    pub fatal: Option<Error>,
}

/// Spec-level content of a [`SessionStep`]. Outbound text is stated
/// by its JSON content, not its exact characters.
pub struct SessionStepModel {
    pub send: Option<JsonVal>,
    pub event: Option<EventModel>,
    pub diagnostic: Option<Diagnostic>,
    pub start_heartbeat: Option<u64>,
    pub fatal: Option<ErrorModel>,
}

/// The step that does nothing.
pub open spec fn empty_step() -> SessionStepModel {
    SessionStepModel {
        send: None,
        event: None,
        diagnostic: None,
        start_heartbeat: None,
        fatal: None,
    }
}

/// Whether an executable step carries exactly the effects of a
/// spec-level step: same events, diagnostics, heartbeat start and
/// error, and outbound text whose JSON content is the stated frame.
pub open spec fn step_matches(r: SessionStep, m: SessionStepModel) -> bool {
    &&& match (r.send, m.send) {
        (Some(txt), Some(j)) => json_parse(txt@) == Some(j),
        (None, None) => true,
        _ => false,
    }
    &&& match (r.event, m.event) {
        (Some(e), Some(em)) => e@ == em,
        (None, None) => true,
        _ => false,
    }
    &&& r.diagnostic == m.diagnostic
    &&& r.start_heartbeat == m.start_heartbeat
    &&& match (r.fatal, m.fatal) {
        (Some(e), Some(em)) => e@ == em,
        (None, None) => true,
        _ => false,
    }
}

/// The step that closes the session with a handshake failure.
pub open spec fn failed_handshake(s: SessionModel, detail: Seq<char>) -> (
    SessionModel,
    SessionStepModel,
) {
    (
        SessionModel { phase: SessionPhase::Closed, ..s },
        SessionStepModel {
            fatal: Some(ErrorModel::UnexpectedResponse(detail)),
            ..empty_step()
        },
    )
}

/// The handshake step: the first inbound frame must be the greeting.
/// On the greeting, the session learns the heartbeat interval,
/// answers with the identify frame, asks for the heartbeat driver,
/// and becomes active. Any other first frame is fatal.
pub open spec fn greeting_step(s: SessionModel, f: InboundFrameModel) -> (
    SessionModel,
    SessionStepModel,
) {
    match f {
        InboundFrameModel::NonText => failed_handshake(s, "unexpected non-text first frame"@),
        InboundFrameModel::Text(text) => match json_parse(text) {
            None => failed_handshake(s, "malformed greeting"@),
            Some(j) => match env_of(j) {
                None => failed_handshake(s, "malformed greeting"@),
                Some(env) => {
                    if env.op != OP_HELLO {
                        failed_handshake(s, "the first frame was not a greeting"@)
                    } else {
                        match hello_interval_of(env.d) {
                            None => failed_handshake(
                                s,
                                "greeting payload lacked a heartbeat interval"@,
                            ),
                            Some(n) => (
                                SessionModel {
                                    phase: SessionPhase::Active,
                                    interval: Some(n),
                                    ..s
                                },
                                SessionStepModel {
                                    send: Some(identify_frame(s.token)),
                                    start_heartbeat: Some(n),
                                    ..empty_step()
                                },
                            ),
                        }
                    }
                },
            },
        },
    }
}

/// The steady-state step: route the frame through the packet
/// handler. The session state never changes, and nothing here is
/// fatal.
pub open spec fn active_step(s: SessionModel, f: InboundFrameModel) -> (
    SessionModel,
    SessionStepModel,
) {
    match packet_outcome_of(f) {
        PacketOutcomeModel::Deliver(e) => (
            s,
            SessionStepModel { event: Some(e), ..empty_step() },
        ),
        PacketOutcomeModel::Ack => (s, empty_step()),
        PacketOutcomeModel::Drop(d) => (
            s,
            SessionStepModel { diagnostic: Some(d), ..empty_step() },
        ),
    }
}

/// One step of the session state machine on one inbound frame.
pub open spec fn session_step(s: SessionModel, f: InboundFrameModel) -> (
    SessionModel,
    SessionStepModel,
) {
    match s.phase {
        SessionPhase::AwaitingGreeting => greeting_step(s, f),
        SessionPhase::Active => active_step(s, f),
        SessionPhase::Closed => (s, empty_step()),
    }
}

impl Session {
    /// A fresh session for an opened transport, before the greeting.
    pub fn new(token: String) -> (r: Session)
        ensures
            r@ == (SessionModel {
                token: token@,
                phase: SessionPhase::AwaitingGreeting,
                interval: None,
            }),
    {
        Session { token, phase: SessionPhase::AwaitingGreeting, interval: None }
    }

    /// Feeds one inbound frame to the session and returns the
    /// effects to perform, exactly as [`session_step`] states them.
    pub fn on_frame(&mut self, frame: &InboundFrame) -> (r: SessionStep)
        ensures
            final(self)@ == session_step(old(self)@, frame@).0,
            step_matches(r, session_step(old(self)@, frame@).1),
    {
        match self.phase {
            SessionPhase::AwaitingGreeting => self.greeting_frame(frame),
            SessionPhase::Active => {
                match handle_packet(frame) {
                    PacketOutcome::Deliver(e) => SessionStep {
                        send: None,
                        event: Some(e),
                        diagnostic: None,
                        start_heartbeat: None,
                        fatal: None,
                    },
                    PacketOutcome::Ack => SessionStep {
                        send: None,
                        event: None,
                        diagnostic: None,
                        start_heartbeat: None,
                        fatal: None,
                    },
                    PacketOutcome::Drop(d) => SessionStep {
                        send: None,
                        event: None,
                        diagnostic: Some(d),
                        start_heartbeat: None,
                        fatal: None,
                    },
                }
            },
            SessionPhase::Closed => SessionStep {
                send: None,
                event: None,
                diagnostic: None,
                start_heartbeat: None,
                fatal: None,
            },
        }
    }

    /// The handshake: see [`greeting_step`].
    fn greeting_frame(&mut self, frame: &InboundFrame) -> (r: SessionStep)
        requires
            old(self)@.phase is AwaitingGreeting,
        ensures
            final(self)@ == greeting_step(old(self)@, frame@).0,
            step_matches(r, greeting_step(old(self)@, frame@).1),
    {
        let text = match frame {
            InboundFrame::NonText => {
                return self.fail_handshake("unexpected non-text first frame");
            },
            InboundFrame::Text(t) => t,
        };
        let env = match decode_envelope(text.as_str()) {
            Err(_) => { return self.fail_handshake("malformed greeting") },
            Ok(e) => e,
        };
        if env.op != OP_HELLO {
            return self.fail_handshake("the first frame was not a greeting");
        }
        let n = match hello_interval(&env.d) {
            None => {
                return self.fail_handshake("greeting payload lacked a heartbeat interval");
            },
            Some(n) => n,
        };
        self.phase = SessionPhase::Active;
        self.interval = Some(n);
        let identify = identify_text(self.token.as_str());
        SessionStep {
            send: Some(identify),
            event: None,
            diagnostic: None,
            start_heartbeat: Some(n),
            fatal: None,
        }
    }

    /// Ends the handshake with an unexpected-response error.
    fn fail_handshake(&mut self, detail: &str) -> (r: SessionStep)
        ensures
            final(self)@ == (SessionModel { phase: SessionPhase::Closed, ..old(self)@ }),
            step_matches(
                r,
                SessionStepModel {
                    fatal: Some(ErrorModel::UnexpectedResponse(detail@)),
                    ..empty_step()
                },
            ),
    {
        self.phase = SessionPhase::Closed;
        SessionStep {
            send: None,
            event: None,
            diagnostic: None,
            start_heartbeat: None,
            fatal: Some(Error::UnexpectedResponse(detail.to_owned())),
        }
    }
}

/// The identify frame goes out exactly once, in answer to the
/// greeting: once the session is active (or closed), no step writes
/// any frame.
pub proof fn lemma_identify_only_at_handshake(s: SessionModel, f: InboundFrameModel)
    requires
        s.phase is Active || s.phase is Closed,
    ensures
        session_step(s, f).1.send is None,
        session_step(s, f).1.start_heartbeat is None,
{
}

/// A malformed envelope never unseats the session. The malformed
/// frame draws one diagnostic and no event, leaves the session
/// exactly as it was, and any subsequent frame is handled as if
/// the malformed one had never arrived.
pub proof fn lemma_malformed_is_transparent(
    s: SessionModel,
    bad: Seq<char>,
    next: InboundFrameModel,
)
    requires
        s.phase is Active,
        match json_parse(bad) {
            None => true,
            Some(j) => env_of(j) is None,
        },
    ensures
        session_step(s, InboundFrameModel::Text(bad)).0 == s,
        session_step(s, InboundFrameModel::Text(bad)).1 == (SessionStepModel {
            diagnostic: Some(Diagnostic::MalformedEnvelope),
            ..empty_step()
        }),
        session_step(session_step(s, InboundFrameModel::Text(bad)).0, next) == session_step(
            s,
            next,
        ),
{
}

/// An unrecognized dispatch tag draws exactly one diagnostic and
/// produces no event, and the session goes on unchanged.
pub proof fn lemma_unknown_tag_is_diagnosed(s: SessionModel, text: Seq<char>)
    requires
        s.phase is Active,
        match json_parse(text) {
            Some(j) => match env_of(j) {
                Some(env) => {
                    &&& env.op == OP_DISPATCH
                    &&& match env.t {
                        Some(tag) => event_of(tag, env.d) is UnknownTag,
                        None => false,
                    }
                },
                None => false,
            },
            None => false,
        },
    ensures
        session_step(s, InboundFrameModel::Text(text)).0 == s,
        session_step(s, InboundFrameModel::Text(text)).1 == (SessionStepModel {
            diagnostic: Some(Diagnostic::UnknownEventTag),
            ..empty_step()
        }),
{
}

} // verus!
