//! Client-side logic for a real-time gateway protocol: a streaming
//! connection over which a server pushes enveloped events and expects
//! periodic heartbeats, next to a stateless authenticated REST API.
//!
//! This crate holds the verified core: the envelope codec, the
//! connection state machine with its handshake, the packet handler
//! that turns inbound envelopes into typed events, the heartbeat
//! schedule, the bounded outbound queue, and the bootstrap/REST
//! response classification. The embedding application performs the
//! actual I/O and feeds plain values in and out.

pub mod client;
pub mod envelope;
pub mod error;
pub mod events;
pub mod heartbeat;
pub mod json;
pub mod outbound;
pub mod protocol;
pub mod rest;
pub mod session;
pub mod text;

pub use client::Client;
pub use error::Error;
