//! The boundary error channel: one local error value for every operation.
//!
//! Nothing here raises a host exception itself; the outermost layer maps a
//! `BridgeError` to an exception, and only when none is already pending.

use vstd::prelude::*;

verus! {

/// Everything that can go wrong between the host and the engine.
#[derive(Debug)]
pub enum BridgeError {
    /// A buffer is not valid UTF-8; carries the decoder's message.
    Decode(String),
    /// A pattern is not valid syntax for the engine; carries its message.
    Compile(String),
    /// A match was asked for through a handle that names no live object.
    NullPatternOrString,
    /// A release was asked for through a handle that names no live object.
    NullPointer,
    /// An internal fault was intercepted; carries a best-effort description.
    Panic(String),
}

/// Turns the payload recovered from an intercepted fault into the boundary
/// error that carries its description, substituting `"Unknown"` when the
/// payload held no description.
pub fn downcast_error(description: Option<String>) -> (r: BridgeError)
    ensures
        description matches Some(d) ==> r == BridgeError::Panic(d),
        description is None ==> (r matches BridgeError::Panic(m) && m@ == "Unknown"@),
{
    match description {
        Some(d) => BridgeError::Panic(d),
        None => BridgeError::Panic("Unknown".to_owned()),
    }
}

} // verus!
