//! Codec for the native pinentry mode.

use vstd::prelude::*;
use crate::error::BridgeError;
use crate::value::HostValue;
use crate::value::atom_is;
use crate::value::decode_other;
use crate::value::other_tuple;
use crate::value::spec_decode_other;

verus! {

/// How the native engine asks for a passphrase. `Other` carries a raw
/// native constant the bridge does not enumerate by name.
#[derive(Clone, Copy, Debug, PartialEq, Eq, Structural)]
pub enum PinentryMode {
    Default,
    Ask,
    Cancel,
    Error,
    Loopback,
    Other(u32),
}

/// The named-symbol half of the decoding table.
pub open spec fn spec_pinentry_mode_atom(s: Seq<char>) -> Option<PinentryMode> {
    if s == "default"@ {
        Some(PinentryMode::Default)
    } else if s == "ask"@ {
        Some(PinentryMode::Ask)
    } else if s == "cancel"@ {
        Some(PinentryMode::Cancel)
    } else if s == "error"@ {
        Some(PinentryMode::Error)
    } else if s == "loopback"@ {
        Some(PinentryMode::Loopback)
    } else {
        None
    }
}

/// What a host value decodes to: a named symbol through the table, the
/// `{other, code}` escape tuple to the raw constant, anything else to
/// nothing.
pub open spec fn spec_arg_to_pinentry_mode(v: HostValue) -> Option<PinentryMode> {
    match v {
        HostValue::Atom(s) => spec_pinentry_mode_atom(s@),
        HostValue::Tuple(_) => match spec_decode_other(v) {
            Some(code) => Some(PinentryMode::Other(code)),
            None => None,
        },
        _ => None,
    }
}

/// Decodes a host value into a pinentry mode; a value of any other shape is
/// an argument error, reported before any engine call.
pub fn arg_to_pinentry_mode(arg: &HostValue) -> (r: Result<PinentryMode, BridgeError>)
    ensures
        match spec_arg_to_pinentry_mode(*arg) {
            Some(m) => r matches Ok(rm) && rm == m,
            None => r matches Err(BridgeError::BadArg),
        },
{
    match arg {
        HostValue::Atom(s) => {
            if atom_is(s, "default") {
                Ok(PinentryMode::Default)
            } else if atom_is(s, "ask") {
                Ok(PinentryMode::Ask)
            } else if atom_is(s, "cancel") {
                Ok(PinentryMode::Cancel)
            } else if atom_is(s, "error") {
                Ok(PinentryMode::Error)
            } else if atom_is(s, "loopback") {
                Ok(PinentryMode::Loopback)
            } else {
                Err(BridgeError::BadArg)
            }
        },
        HostValue::Tuple(_) => match decode_other(arg) {
            Some(code) => Ok(PinentryMode::Other(code)),
            None => Err(BridgeError::BadArg),
        },
        _ => Err(BridgeError::BadArg),
    }
}

/// The encoding table: which host values stand for which pinentry mode.
pub open spec fn is_pinentry_mode_encoding(m: PinentryMode, v: HostValue) -> bool {
    match m {
        PinentryMode::Default => v.is_atom("default"@),
        PinentryMode::Ask => v.is_atom("ask"@),
        PinentryMode::Cancel => v.is_atom("cancel"@),
        PinentryMode::Error => v.is_atom("error"@),
        PinentryMode::Loopback => v.is_atom("loopback"@),
        PinentryMode::Other(code) => v.is_other_tuple(code),
    }
}

/// Encodes a pinentry mode for the host: named variants as their symbol,
/// the escape variant as the `{other, code}` tuple.
pub fn pinentry_mode_to_term(pinentry_mode: &PinentryMode) -> (r: HostValue)
    ensures
        is_pinentry_mode_encoding(*pinentry_mode, r),
{
    match pinentry_mode {
        PinentryMode::Default => HostValue::Atom(String::from_str("default")),
        PinentryMode::Ask => HostValue::Atom(String::from_str("ask")),
        PinentryMode::Cancel => HostValue::Atom(String::from_str("cancel")),
        PinentryMode::Error => HostValue::Atom(String::from_str("error")),
        PinentryMode::Loopback => HostValue::Atom(String::from_str("loopback")),
        PinentryMode::Other(code) => other_tuple(*code),
    }
}

/// Decoding inverts encoding: every host value that encodes a pinentry
/// mode decodes back to exactly that mode.
pub proof fn lemma_pinentry_mode_round_trip(m: PinentryMode, v: HostValue)
    requires
        is_pinentry_mode_encoding(m, v),
    ensures
        spec_arg_to_pinentry_mode(v) == Some(m),
{
    reveal_strlit("default");
    reveal_strlit("ask");
    reveal_strlit("cancel");
    reveal_strlit("error");
    reveal_strlit("loopback");
    reveal_strlit("other");
    assert("default"@.len() == 7);
    assert("ask"@.len() == 3);
    assert("cancel"@.len() == 6);
    assert("error"@.len() == 5);
    assert("loopback"@.len() == 8);
}

} // verus!
