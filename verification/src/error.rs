//! The two-tier error design of the bridge.
//!
//! Structural problems with a call's arguments (a bad enumeration symbol, a
//! malformed tuple, an empty recipient list) are rejected before any engine
//! call through [`BridgeError::BadArg`]. Diagnostics raised by the native
//! engine travel as [`BridgeError::Message`]. A named flag that was never
//! set yields the distinguished [`BridgeError::NotSet`] symbol, so callers
//! can branch without matching on message text. Everything else flows
//! through the uniform success/failure envelope [`OpResult`].

use vstd::prelude::*;

verus! {

/// An error reported outside the ok/error envelope.
#[derive(Debug, Clone, PartialEq, Eq)]
pub enum BridgeError {
    /// A malformed or out-of-domain argument, rejected before the native
    /// engine is reached.
    BadArg,
    /// A diagnostic raised by the native engine, carried verbatim.
    Message(String),
    /// The distinguished symbol for reading a named flag that has no value.
    NotSet,
}

/// The uniform two-shape result of an operation: a payload on success, a
/// human-readable message on failure.
#[derive(Debug, Clone, PartialEq, Eq)]
pub enum OpResult<T> {
    Success(T),
    Failure(String),
}

/// Maps the outcome of a native engine call into the bridge's error type:
/// the engine's own diagnostic text is carried through unchanged.
pub fn try_engine<T>(outcome: Result<T, String>) -> (r: Result<T, BridgeError>)
    ensures
        outcome matches Ok(v) ==> r matches Ok(rv) && rv == v,
        outcome matches Err(m) ==> r matches Err(BridgeError::Message(rm)) && rm == m,
{
    match outcome {
        Ok(v) => Ok(v),
        Err(m) => Err(BridgeError::Message(m)),
    }
}

} // verus!
