//! Event-decoding core of a real-time chat-platform client.
//!
//! The library turns a decoded protocol frame (an operation code plus an
//! untyped payload tree) into one member of a closed set of typed events, or
//! into a classified failure.  It also carries the typed representation of the
//! platform's primary content unit, the message, together with builders for
//! the requests a REST collaborator performs on a message's behalf.

pub mod dispatch;
pub mod entities;
pub mod error;
pub mod events;
pub mod laws;
pub mod json;
pub mod message;
pub mod payload;

pub use json::JsonValue;
