//! Codec for key validity.

use vstd::prelude::*;
use crate::error::BridgeError;
use crate::value::HostValue;
use crate::value::atom_is;
use crate::value::decode_other;
use crate::value::other_tuple;
use crate::value::spec_decode_other;

verus! {

/// How far the native engine trusts a key. `Other` carries a raw native
/// constant the bridge does not enumerate by name; the engine itself
/// reports validity values it does not recognise as `Unknown`.
#[derive(Clone, Copy, Debug, PartialEq, Eq, Structural)]
pub enum Validity {
    Unknown,
    Undefined,
    Never,
    Marginal,
    Full,
    Ultimate,
    Other(u32),
}

/// The decoding table, symbol name to validity.
pub open spec fn spec_validity_atom(s: Seq<char>) -> Option<Validity> {
    if s == "unknown"@ {
        Some(Validity::Unknown)
    } else if s == "undefined"@ {
        Some(Validity::Undefined)
    } else if s == "never"@ {
        Some(Validity::Never)
    } else if s == "marginal"@ {
        Some(Validity::Marginal)
    } else if s == "full"@ {
        Some(Validity::Full)
    } else if s == "ultimate"@ {
        Some(Validity::Ultimate)
    } else {
        None
    }
}

/// What a host value decodes to: a named symbol through the table, the
/// `{other, code}` escape tuple to the raw constant, anything else to
/// nothing.
pub open spec fn spec_arg_to_validity(v: HostValue) -> Option<Validity> {
    match v {
        HostValue::Atom(s) => spec_validity_atom(s@),
        HostValue::Tuple(_) => match spec_decode_other(v) {
            Some(code) => Some(Validity::Other(code)),
            None => None,
        },
        _ => None,
    }
}

/// Decodes a host value into a validity; a value of any other shape is an
/// argument error.
pub fn arg_to_validity(arg: &HostValue) -> (r: Result<Validity, BridgeError>)
    ensures
        match spec_arg_to_validity(*arg) {
            Some(val) => r matches Ok(rv) && rv == val,
            None => r matches Err(BridgeError::BadArg),
        },
{
    match arg {
        HostValue::Atom(s) => {
            if atom_is(s, "unknown") {
                Ok(Validity::Unknown)
            } else if atom_is(s, "undefined") {
                Ok(Validity::Undefined)
            } else if atom_is(s, "never") {
                Ok(Validity::Never)
            } else if atom_is(s, "marginal") {
                Ok(Validity::Marginal)
            } else if atom_is(s, "full") {
                Ok(Validity::Full)
            } else if atom_is(s, "ultimate") {
                Ok(Validity::Ultimate)
            } else {
                Err(BridgeError::BadArg)
            }
        },
        HostValue::Tuple(_) => match decode_other(arg) {
            Some(code) => Ok(Validity::Other(code)),
            None => Err(BridgeError::BadArg),
        },
        _ => Err(BridgeError::BadArg),
    }
}

/// The encoding table: which host values stand for which validity.
pub open spec fn is_validity_encoding(val: Validity, v: HostValue) -> bool {
    match val {
        Validity::Unknown => v.is_atom("unknown"@),
        Validity::Undefined => v.is_atom("undefined"@),
        Validity::Never => v.is_atom("never"@),
        Validity::Marginal => v.is_atom("marginal"@),
        Validity::Full => v.is_atom("full"@),
        Validity::Ultimate => v.is_atom("ultimate"@),
        Validity::Other(code) => v.is_other_tuple(code),
    }
}

/// Encodes a validity for the host as its named symbol.
pub fn transform_validity(validity: &Validity) -> (r: HostValue)
    ensures
        is_validity_encoding(*validity, r),
{
    match validity {
        Validity::Unknown => HostValue::Atom(String::from_str("unknown")),
        Validity::Undefined => HostValue::Atom(String::from_str("undefined")),
        Validity::Never => HostValue::Atom(String::from_str("never")),
        Validity::Marginal => HostValue::Atom(String::from_str("marginal")),
        Validity::Full => HostValue::Atom(String::from_str("full")),
        Validity::Ultimate => HostValue::Atom(String::from_str("ultimate")),
        Validity::Other(code) => other_tuple(*code),
    }
}

/// Decoding inverts encoding: every host value that encodes a validity
/// decodes back to exactly that validity.
pub proof fn lemma_validity_round_trip(val: Validity, v: HostValue)
    requires
        is_validity_encoding(val, v),
    ensures
        spec_arg_to_validity(v) == Some(val),
{
    reveal_strlit("unknown");
    reveal_strlit("undefined");
    reveal_strlit("never");
    reveal_strlit("marginal");
    reveal_strlit("full");
    reveal_strlit("ultimate");
    reveal_strlit("other");
    assert("unknown"@.len() == 7);
    assert("undefined"@.len() == 9);
    assert("never"@.len() == 5);
    assert("marginal"@.len() == 8);
    assert("full"@.len() == 4);
    assert("ultimate"@.len() == 8);
    assert("marginal"@[0] != "ultimate"@[0]);
}

} // verus!
