//! The connection state machine and the client façade.
//!
//! A [`Client`] owns the credential and the connection lifecycle
//! `Disconnected → Connecting → Connected → Ready`, terminally
//! `Failed` on an unrecoverable error. It decides; the embedding
//! application performs the I/O each decision calls for and reports
//! the outcome back:
//!
//! 1. [`Client::connect`] — idempotent entry. While a connection is
//!    being made or is up it directs nothing; otherwise it directs
//!    one bootstrap call.
//! 2. [`Client::on_bootstrap`] — classifies the bootstrap reply and,
//!    on success, yields the streaming URI to open.
//! 3. [`Client::on_transport_open`] / [`Client::on_transport_failed`]
//!    — the open's outcome.
//! 4. [`Client::on_handshake_complete`] — the session's greeting
//!    exchange finished; the connection is Ready.

use vstd::prelude::*;
use vstd::string::StringExecFns;

use crate::error::{Error, ErrorModel};
use crate::json::{json_parse, JsonVal};
use crate::text::{decimal_of, decimal_string};

verus! {

/// The connection lifecycle. Exactly one of these holds at any time,
/// and it changes only through the state machine's own operations.
#[derive(Debug, Clone, PartialEq, Eq)]
pub enum ConnectionState {
    /// No transport, none being made.
    Disconnected,
    /// A bootstrap call or a transport open is in flight.
    Connecting,
    /// The transport is open; the handshake is not done.
    Connected,
    /// The handshake is done; the session is usable.
    Ready,
    /// An unrecoverable error ended the attempt. A fresh `connect`
    /// may retry.
    Failed(Error),
}

/// Spec-level content of a [`ConnectionState`].
pub enum ConnectionStateModel {
    Disconnected,
    Connecting,
    Connected,
    Ready,
    Failed(ErrorModel),
}

impl View for ConnectionState {
    type V = ConnectionStateModel;

    open spec fn view(&self) -> ConnectionStateModel {
        match self {
            ConnectionState::Disconnected => ConnectionStateModel::Disconnected,
            ConnectionState::Connecting => ConnectionStateModel::Connecting,
            ConnectionState::Connected => ConnectionStateModel::Connected,
            ConnectionState::Ready => ConnectionStateModel::Ready,
            ConnectionState::Failed(e) => ConnectionStateModel::Failed(e@),
        }
    }
}

/// What a `connect` call directs the embedding application to do.
#[derive(Clone, Copy, PartialEq, Eq, Structural, Debug)]
pub enum ConnectDirective {
    /// A connection is already being made or is up: open nothing.
    AlreadyActive,
    /// Perform the authenticated bootstrap call and report its
    /// status and body to [`Client::on_bootstrap`].
    Resolve,
}

/// The query the streaming URI carries: protocol version and
/// encoding.
pub open spec fn uri_query() -> Seq<char> {
    "?v=6&encoding=json"@
}

/// The streaming URI for a resolved endpoint.
pub open spec fn streaming_uri(base: Seq<char>) -> Seq<char> {
    base + uri_query()
}

/// What the bootstrap body must hold: an object whose `url` is a
/// string.
pub open spec fn bootstrap_url_of(body: Seq<char>) -> Option<Seq<char>> {
    match json_parse(body) {
        Some(JsonVal::Obj(m)) => {
            if m.contains_key("url"@) {
                match m["url"@] {
                    JsonVal::Str(u) => Some(u),
                    _ => None,
                }
            } else {
                None
            }
        },
        _ => None,
    }
}

/// One `connect` call: from rest or failure it starts a fresh
/// attempt; while an attempt is in flight or a connection is up it
/// directs nothing, so no second transport is ever opened.
pub open spec fn connect_model(s: ConnectionStateModel) -> (ConnectionStateModel, ConnectDirective) {
    match s {
        ConnectionStateModel::Disconnected => (
            ConnectionStateModel::Connecting,
            ConnectDirective::Resolve,
        ),
        ConnectionStateModel::Failed(_) => (
            ConnectionStateModel::Connecting,
            ConnectDirective::Resolve,
        ),
        _ => (s, ConnectDirective::AlreadyActive),
    }
}

/// How a bootstrap reply is classified, given the state the call was
/// made in. A 401 is an authentication failure and the body is not
/// read; a 200 whose body holds a string `url` resolves to the
/// streaming URI; anything else is an unexpected response. Errors
/// leave the attempt `Failed`; out-of-order replies change nothing.
pub open spec fn bootstrap_model(s: ConnectionStateModel, status: u16, body: Seq<char>) -> (
    ConnectionStateModel,
    Result<Seq<char>, ErrorModel>,
) {
    if !(s is Connecting) {
        (s, Err(ErrorModel::NotReady))
    } else if status == 401 {
        (
            ConnectionStateModel::Failed(ErrorModel::AuthenticationFailed),
            Err(ErrorModel::AuthenticationFailed),
        )
    } else if status != 200 {
        let e = ErrorModel::UnexpectedResponse(
            "unexpected bootstrap status "@ + decimal_of(status as nat),
        );
        (ConnectionStateModel::Failed(e), Err(e))
    } else {
        match bootstrap_url_of(body) {
            Some(u) => (s, Ok(streaming_uri(u))),
            None => {
                let e = ErrorModel::UnexpectedResponse("bootstrap body lacked a url"@);
                (ConnectionStateModel::Failed(e), Err(e))
            },
        }
    }
}

/// The gateway client: the credential, and the connection lifecycle
/// it owns.
pub struct Client {
    /// The credential, immutable for the client's lifetime: sent as
    /// the bootstrap authorization and inside the identify frame.
    pub token: String,
    /// Where the connection stands.
    pub state: ConnectionState,
}

/// Spec-level content of a [`Client`].
pub struct ClientModel {
    pub token: Seq<char>,
    pub state: ConnectionStateModel,
}

impl View for Client {
    type V = ClientModel;

    open spec fn view(&self) -> ClientModel {
        ClientModel { token: self.token@, state: self.state@ }
    }
}

impl Client {
    /// A fresh, disconnected client holding the credential.
    pub fn new(token: String) -> (r: Client)
        ensures
            r@ == (ClientModel {
                token: token@,
                state: ConnectionStateModel::Disconnected,
            }),
    {
        Client { token, state: ConnectionState::Disconnected }
    }

    /// Asks for a connection: exactly [`connect_model`]. Idempotent:
    /// while Connecting, Connected or Ready it directs nothing, so a
    /// repeated call opens no second transport.
    pub fn connect(&mut self) -> (r: ConnectDirective)
        ensures
            final(self)@.token == old(self)@.token,
            final(self)@.state == connect_model(old(self)@.state).0,
            r == connect_model(old(self)@.state).1,
    {
        match &self.state {
            ConnectionState::Disconnected => {
                self.state = ConnectionState::Connecting;
                ConnectDirective::Resolve
            },
            ConnectionState::Failed(_) => {
                self.state = ConnectionState::Connecting;
                ConnectDirective::Resolve
            },
            _ => ConnectDirective::AlreadyActive,
        }
    }

    /// Classifies the bootstrap reply: exactly [`bootstrap_model`].
    /// On success the returned URI is what the embedding application
    /// opens; on error no URI exists, so no streaming connection is
    /// attempted.
    pub fn on_bootstrap(&mut self, status: u16, body: &str) -> (r: Result<String, Error>)
        ensures
            final(self)@.token == old(self)@.token,
            final(self)@.state == bootstrap_model(old(self)@.state, status, body@).0,
            match (r, bootstrap_model(old(self)@.state, status, body@).1) {
                (Ok(u), Ok(um)) => u@ == um,
                (Err(e), Err(em)) => e@ == em,
                _ => false,
            },
    {
        let connecting = match &self.state {
            ConnectionState::Connecting => true,
            _ => false,
        };
        if !connecting {
            return Err(Error::NotReady);
        }
        if status == 401 {
            self.state = ConnectionState::Failed(Error::AuthenticationFailed);
            return Err(Error::AuthenticationFailed);
        }
        if status != 200 {
            let mut detail = "unexpected bootstrap status ".to_owned();
            detail.append(decimal_string(status as u64).as_str());
            self.state = ConnectionState::Failed(Error::UnexpectedResponse(detail.clone()));
            return Err(Error::UnexpectedResponse(detail));
        }
        match crate::client::read_bootstrap_url(body) {
            Some(u) => {
                let mut uri = u;
                uri.append("?v=6&encoding=json");
                Ok(uri)
            },
            None => {
                self.state = ConnectionState::Failed(
                    Error::UnexpectedResponse("bootstrap body lacked a url".to_owned()),
                );
                Err(Error::UnexpectedResponse("bootstrap body lacked a url".to_owned()))
            },
        }
    }

    /// The transport opened: the connection is up, awaiting its
    /// handshake. Reported out of turn, it changes nothing.
    pub fn on_transport_open(&mut self)
        ensures
            final(self)@.token == old(self)@.token,
            final(self)@.state == if old(self)@.state is Connecting {
                ConnectionStateModel::Connected
            } else {
                old(self)@.state
            },
    {
        match &self.state {
            ConnectionState::Connecting => {
                self.state = ConnectionState::Connected;
            },
            _ => {},
        }
    }

    /// The transport could not be opened, or died: the attempt is
    /// failed and the error is surfaced. The caller may retry with a
    /// fresh `connect`.
    pub fn on_transport_failed(&mut self, detail: String) -> (r: Error)
        ensures
            final(self)@.token == old(self)@.token,
            final(self)@.state == ConnectionStateModel::Failed(ErrorModel::Transport(detail@)),
            r@ == ErrorModel::Transport(detail@),
    {
        let kept = detail.clone();
        self.state = ConnectionState::Failed(Error::Transport(kept));
        Error::Transport(detail)
    }

    /// The session's handshake failed: the attempt is failed with
    /// the session's own error. The caller may retry with a fresh
    /// `connect`.
    pub fn on_handshake_failed(&mut self, e: Error)
        ensures
            final(self)@.token == old(self)@.token,
            final(self)@.state == ConnectionStateModel::Failed(e@),
    {
        self.state = ConnectionState::Failed(e);
    }

    /// The session's greeting exchange finished: the connection is
    /// usable. Reported out of turn, it changes nothing.
    pub fn on_handshake_complete(&mut self)
        ensures
            final(self)@.token == old(self)@.token,
            final(self)@.state == if old(self)@.state is Connected {
                ConnectionStateModel::Ready
            } else {
                old(self)@.state
            },
    {
        match &self.state {
            ConnectionState::Connected => {
                self.state = ConnectionState::Ready;
            },
            _ => {},
        }
    }
}

/// Reads the resolved endpoint out of a bootstrap body.
fn read_bootstrap_url(body: &str) -> (r: Option<String>)
    ensures
        match (r, bootstrap_url_of(body@)) {
            (Some(u), Some(um)) => u@ == um,
            (None, None) => true,
            _ => false,
        },
{
    let root = match crate::json::json_from_text(body) {
        None => { return None },
        Some(v) => v,
    };
    match crate::json::json_get(&root, "url") {
        None => None,
        Some(v) => match crate::json::json_as_str(v) {
            None => None,
            Some(s) => Some(s.to_owned()),
        },
    }
}

/// Opening a transport is directed at most once across two
/// consecutive `connect` calls, whatever state the first call finds:
/// in particular, calling `connect` twice while Connected or Ready
/// directs none at all.
pub proof fn lemma_connect_twice_opens_at_most_one(s: ConnectionStateModel)
    ensures
        !(connect_model(s).1 is Resolve && connect_model(connect_model(s).0).1 is Resolve),
        s is Connected || s is Ready ==> connect_model(s).1 is AlreadyActive && connect_model(
            connect_model(s).0,
        ).1 is AlreadyActive,
{
}

/// A rejected credential fails the login alone, and no streaming
/// connection is attempted: on a 401 the bootstrap yields an
/// authentication failure, never a URI, whatever the body held.
pub proof fn lemma_rejected_credential_opens_nothing(
    s: ConnectionStateModel,
    body: Seq<char>,
)
    requires
        s is Connecting,
    ensures
        bootstrap_model(s, 401, body).1 == Err::<Seq<char>, ErrorModel>(
            ErrorModel::AuthenticationFailed,
        ),
        bootstrap_model(s, 401, body).0 == ConnectionStateModel::Failed(
            ErrorModel::AuthenticationFailed,
        ),
{
}

} // verus!
