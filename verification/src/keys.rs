//! Key records and recipient-list validation.

use vstd::prelude::*;
use crate::error::BridgeError;

verus! {

/// The bridge's record of one native key: the plain attributes the bridge
/// reads. A key record is immutable after creation, so it may be shared
/// freely, including standing in several recipient lists at once.
#[derive(Debug, Clone, PartialEq, Eq)]
pub struct KeyData {
    /// The key's fingerprint, as reported by the native engine.
    pub fingerprint: String,
    /// How far the native engine trusts the key.
    pub validity: crate::validity::Validity,
    /// The key's public-key algorithm.
    pub key_algorithm: crate::key_algorithm::KeyAlgorithm,
}

/// Checks that a recipient list is non-empty before any engine call is made.
///
/// Encrypt and sign operations must fail fast with an argument error when
/// handed an empty recipient list; the native engine is never invoked for
/// such a call.
pub fn keys_not_empty(key_length: usize) -> (r: Result<(), BridgeError>)
    ensures
        key_length == 0 <==> r matches Err(BridgeError::BadArg),
        key_length >= 1 <==> r matches Ok(()),
{
    if key_length < 1 {
        Err(BridgeError::BadArg)
    } else {
        Ok(())
    }
}

} // verus!
