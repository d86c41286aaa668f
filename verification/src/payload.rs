//! The frame envelope handed in by the transport collaborator.

use vstd::prelude::*;

use crate::json::JsonValue;

verus! {

/// One decoded unit of the streaming protocol: an operation code, an optional
/// untyped body, an optional sequence number and an optional event-type tag.
#[derive(Debug, PartialEq)]
pub struct Payload {
    /// Operation code selecting the frame's control meaning.
    pub op: u64,
    /// Untyped event body; present exactly on dispatch frames.
    pub d: Option<JsonValue>,
    /// Sequence number used by the surrounding session logic.
    pub s: Option<u64>,
    /// Event-type tag; present exactly on dispatch frames.
    pub t: Option<String>,
}

/// Operation code of a dispatch frame.
pub const OP_DISPATCH: u64 = 0;

/// Operation code of a reconnect request.
pub const OP_RECONNECT: u64 = 7;

/// Operation code of an invalidated-session signal.
pub const OP_INVALID_SESSION: u64 = 9;

/// Operation code of the hello signal that carries the heartbeat interval.
pub const OP_HELLO: u64 = 10;

/// Operation code of a heartbeat acknowledgment.
pub const OP_HEARTBEAT_ACK: u64 = 11;

/// The operation codes this client understands.
pub open spec fn known_opcode(op: u64) -> bool {
    ||| op == OP_DISPATCH
    ||| op == OP_RECONNECT
    ||| op == OP_INVALID_SESSION
    ||| op == OP_HELLO
    ||| op == OP_HEARTBEAT_ACK
}

} // verus!
