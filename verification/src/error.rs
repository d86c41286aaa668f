//! Classified decode failures.

use vstd::prelude::*;

verus! {

/// Why a frame could not be turned into an event.
///
/// A failure is always surfaced as a return value; the pipeline never
/// substitutes a default event for a malformed frame.
#[derive(Debug, PartialEq)]
pub enum PandaError {
    /// A frame or payload is structurally invalid for its declared kind; the
    /// string names the missing field or the dispatch tag whose body failed.
    InvalidPayloadFormat(String),
    /// A dispatch frame's event-type tag has no known decoder; the string is
    /// that tag, kept for diagnostics.
    UnrecognizedDispatch(String),
    /// The frame's operation code is outside the known control/dispatch set.
    UnexpectedPayloadReceived,
}

/// Two failures read the same.
pub open spec fn error_eq(a: PandaError, b: PandaError) -> bool {
    match (a, b) {
        (PandaError::InvalidPayloadFormat(x), PandaError::InvalidPayloadFormat(y)) => x@ == y@,
        (PandaError::UnrecognizedDispatch(x), PandaError::UnrecognizedDispatch(y)) => x@ == y@,
        (PandaError::UnexpectedPayloadReceived, PandaError::UnexpectedPayloadReceived) => true,
        _ => false,
    }
}

/// True when `e` is a format failure naming `field`.
pub open spec fn is_format_error(e: PandaError, field: Seq<char>) -> bool {
    e matches PandaError::InvalidPayloadFormat(f) && f@ == field
}

} // verus!
