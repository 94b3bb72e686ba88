//! Decoding of native byte output for the host.
//!
//! Cryptographic outputs (ciphertext, cleartext, signatures) come back from
//! the native engine as raw bytes. The bridge hands them to the host as
//! UTF-8 text; bytes that do not decode are reported through the envelope
//! with a fixed sentinel message, distinct from any engine diagnostic.

use vstd::prelude::*;
use vstd::utf8::decode_utf8;
use vstd::utf8::encode_utf8;
use vstd::utf8::encode_utf8_decode_utf8;
use vstd::utf8::encode_utf8_valid_utf8;
use vstd::utf8::valid_utf8;
use crate::error::OpResult;

verus! {

/// The fixed sentinel reported when a native byte result is not valid
/// UTF-8. It is deliberately generic: the underlying bytes cannot be
/// rendered meaningfully for the caller.
pub fn utf8_failure_message() -> (r: String)
    ensures
        r@ == "Could not decode cyphertext to utf8"@,
{
    String::from_str("Could not decode cyphertext to utf8")
}

/// Relies on std's String::from_utf8: it returns the decoded string
/// exactly when the bytes are a valid UTF-8 encoding, and an error
/// otherwise.
#[verifier::external_body]
fn string_from_utf8(bytes: Vec<u8>) -> (r: Option<String>)
    ensures
        r is Some <==> valid_utf8(bytes@),
        r matches Some(s) ==> s@ == decode_utf8(bytes@),
{
    match String::from_utf8(bytes) {
        Ok(s) => Some(s),
        Err(_) => None,
    }
}

/// Wraps a native byte result for the host: the decoded text on success,
/// the fixed sentinel when the bytes are not valid UTF-8.
pub fn decode_context_result(output: Vec<u8>) -> (r: OpResult<String>)
    ensures
        valid_utf8(output@) ==> (r matches OpResult::Success(s) && s@ == decode_utf8(output@)),
        !valid_utf8(output@) ==> (r matches OpResult::Failure(m) && m@
            == "Could not decode cyphertext to utf8"@),
{
    match string_from_utf8(output) {
        Some(s) => OpResult::Success(s),
        None => OpResult::Failure(utf8_failure_message()),
    }
}

/// The bridge's byte decoding inverts the byte encoding of host text: when
/// the engine returns exactly the bytes of an encoded string, decoding
/// yields that string again. The cryptographic transform in between is the
/// engine's own work; this law covers the bridge's half of the plaintext
/// round trip.
pub proof fn lemma_text_byte_round_trip(text: Seq<char>)
    ensures
        valid_utf8(encode_utf8(text)),
        decode_utf8(encode_utf8(text)) == text,
{
    encode_utf8_valid_utf8(text);
    encode_utf8_decode_utf8(text);
}

} // verus!
