//! Error kinds of the gateway client.
//!
//! The kinds separate how far a failure reaches: a transport failure
//! ends the session, a failed authentication ends only the login, an
//! unexpected response ends the operation that produced it, a decode
//! failure is confined to one packet, and `NotReady` is a local,
//! recoverable refusal of an operation invoked too early.

use vstd::prelude::*;

verus! {

/// Failure kinds of the gateway client, by reach.
#[derive(Debug, Clone, PartialEq, Eq)]
pub enum Error {
    /// The streaming transport failed or closed; fatal to the session.
    Transport(String),
    /// The credential was rejected; fatal to the login attempt only.
    AuthenticationFailed,
    /// A well-formed but unexpected reply; fatal to the operation that
    /// produced it. Carries a short description.
    UnexpectedResponse(String),
    /// One inbound packet could not be decoded; never fatal.
    Decode,
    /// An operation was invoked before the session was usable.
    NotReady,
}

/// Spec-level content of an [`Error`].
pub enum ErrorModel {
    Transport(Seq<char>),
    AuthenticationFailed,
    UnexpectedResponse(Seq<char>),
    Decode,
    NotReady,
}

impl View for Error {
    type V = ErrorModel;

    open spec fn view(&self) -> ErrorModel {
        match self {
            Error::Transport(d) => ErrorModel::Transport(d@),
            Error::AuthenticationFailed => ErrorModel::AuthenticationFailed,
            Error::UnexpectedResponse(d) => ErrorModel::UnexpectedResponse(d@),
            Error::Decode => ErrorModel::Decode,
            Error::NotReady => ErrorModel::NotReady,
        }
    }
}

} // verus!
