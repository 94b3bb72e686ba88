//! Codec for the signing mode.

use vstd::prelude::*;
use crate::error::BridgeError;
use crate::value::HostValue;
use crate::value::atom_is;
use crate::value::decode_other;
use crate::value::other_tuple;
use crate::value::spec_decode_other;

verus! {

/// The shape of a signature produced by the native engine. `Other` carries
/// a raw native constant the bridge does not enumerate by name.
#[derive(Clone, Copy, Debug, PartialEq, Eq, Structural)]
pub enum SignMode {
    Normal,
    Detached,
    Clear,
    Other(u32),
}

/// The named-symbol half of the decoding table.
pub open spec fn spec_sign_mode_atom(s: Seq<char>) -> Option<SignMode> {
    if s == "normal"@ {
        Some(SignMode::Normal)
    } else if s == "detached"@ {
        Some(SignMode::Detached)
    } else if s == "clear"@ {
        Some(SignMode::Clear)
    } else {
        None
    }
}

/// What a host value decodes to: a named symbol through the table, the
/// `{other, code}` escape tuple to the raw constant, anything else to
/// nothing.
pub open spec fn spec_arg_to_sign_mode(v: HostValue) -> Option<SignMode> {
    match v {
        HostValue::Atom(s) => spec_sign_mode_atom(s@),
        HostValue::Tuple(_) => match spec_decode_other(v) {
            Some(code) => Some(SignMode::Other(code)),
            None => None,
        },
        _ => None,
    }
}

/// Decodes a host value into a signing mode; a value of any other shape is
/// an argument error, reported before any engine call.
pub fn arg_to_sign_mode(arg: &HostValue) -> (r: Result<SignMode, BridgeError>)
    ensures
        match spec_arg_to_sign_mode(*arg) {
            Some(m) => r matches Ok(rm) && rm == m,
            None => r matches Err(BridgeError::BadArg),
        },
{
    match arg {
        HostValue::Atom(s) => {
            if atom_is(s, "normal") {
                Ok(SignMode::Normal)
            } else if atom_is(s, "detached") {
                Ok(SignMode::Detached)
            } else if atom_is(s, "clear") {
                Ok(SignMode::Clear)
            } else {
                Err(BridgeError::BadArg)
            }
        },
        HostValue::Tuple(_) => match decode_other(arg) {
            Some(code) => Ok(SignMode::Other(code)),
            None => Err(BridgeError::BadArg),
        },
        _ => Err(BridgeError::BadArg),
    }
}

/// The encoding table: which host values stand for which signing mode.
pub open spec fn is_sign_mode_encoding(m: SignMode, v: HostValue) -> bool {
    match m {
        SignMode::Normal => v.is_atom("normal"@),
        SignMode::Detached => v.is_atom("detached"@),
        SignMode::Clear => v.is_atom("clear"@),
        SignMode::Other(code) => v.is_other_tuple(code),
    }
}

/// Encodes a signing mode for the host: named variants as their symbol,
/// the escape variant as the `{other, code}` tuple.
pub fn sign_mode_to_nif(mode: &SignMode) -> (r: HostValue)
    ensures
        is_sign_mode_encoding(*mode, r),
{
    match mode {
        SignMode::Normal => HostValue::Atom(String::from_str("normal")),
        SignMode::Detached => HostValue::Atom(String::from_str("detached")),
        SignMode::Clear => HostValue::Atom(String::from_str("clear")),
        SignMode::Other(code) => other_tuple(*code),
    }
}

/// Decoding inverts encoding: every host value that encodes a signing mode
/// decodes back to exactly that mode.
pub proof fn lemma_sign_mode_round_trip(m: SignMode, v: HostValue)
    requires
        is_sign_mode_encoding(m, v),
    ensures
        spec_arg_to_sign_mode(v) == Some(m),
{
    reveal_strlit("normal");
    reveal_strlit("detached");
    reveal_strlit("clear");
    reveal_strlit("other");
    assert("normal"@.len() == 6);
    assert("detached"@.len() == 8);
    assert("clear"@.len() == 5);
}

} // verus!
