//! Codec for PKA trust levels reported with signatures.

use vstd::prelude::*;
use crate::error::BridgeError;
use crate::value::HostValue;
use crate::value::atom_is;
use crate::value::decode_other;
use crate::value::spec_decode_other;

verus! {

/// The PKA trust level the native engine attaches to a signature. `Other`
/// carries a raw native constant the bridge does not enumerate by name.
#[derive(Clone, Copy, Debug, PartialEq, Eq, Structural)]
pub enum PkaTrust {
    Unknown,
    Bad,
    Okay,
    Other(u32),
}

/// A PKA trust level as handed to the host: a bare symbol for a named
/// level, a `{other, code}` pair for a raw constant.
#[derive(Debug, Clone, PartialEq, Eq)]
pub enum PkaTrustResult {
    Atom(String),
    Tuple(String, u32),
}

/// The encoding table: which host values stand for which trust level.
pub open spec fn is_pka_trust_encoding(t: PkaTrust, v: HostValue) -> bool {
    match t {
        PkaTrust::Unknown => v.is_atom("unknown"@),
        PkaTrust::Bad => v.is_atom("bad"@),
        PkaTrust::Okay => v.is_atom("okay"@),
        PkaTrust::Other(code) => v.is_other_tuple(code),
    }
}

/// Which result value stands for which trust level.
pub open spec fn is_pka_result(t: PkaTrust, r: PkaTrustResult) -> bool {
    match t {
        PkaTrust::Unknown => r matches PkaTrustResult::Atom(s) && s@ == "unknown"@,
        PkaTrust::Bad => r matches PkaTrustResult::Atom(s) && s@ == "bad"@,
        PkaTrust::Okay => r matches PkaTrustResult::Atom(s) && s@ == "okay"@,
        PkaTrust::Other(code) => r matches PkaTrustResult::Tuple(s, c) && s@ == "other"@ && c
            == code,
    }
}

impl PkaTrustResult {
    /// Turns the result into the host value it stands for.
    pub fn encode(&self) -> (r: HostValue)
        ensures
            match *self {
                PkaTrustResult::Atom(s) => r.is_atom(s@),
                PkaTrustResult::Tuple(s, code) => (r matches HostValue::Tuple(items)
                    && items@.len() == 2 && items@[0].is_atom(s@) && items@[1]
                    == HostValue::Int(code)),
            },
    {
        match self {
            PkaTrustResult::Atom(s) => HostValue::Atom(s.clone()),
            PkaTrustResult::Tuple(s, code) => {
                let mut items: Vec<HostValue> = Vec::new();
                items.push(HostValue::Atom(s.clone()));
                items.push(HostValue::Int(*code));
                HostValue::Tuple(items)
            },
        }
    }
}

/// Encodes a trust level for the host: named variants as their symbol, the
/// escape variant as the `{other, code}` pair.
pub fn transform_pka_trust(trust: &PkaTrust) -> (r: PkaTrustResult)
    ensures
        is_pka_result(*trust, r),
{
    match trust {
        PkaTrust::Unknown => PkaTrustResult::Atom(String::from_str("unknown")),
        PkaTrust::Bad => PkaTrustResult::Atom(String::from_str("bad")),
        PkaTrust::Okay => PkaTrustResult::Atom(String::from_str("okay")),
        PkaTrust::Other(code) => PkaTrustResult::Tuple(String::from_str("other"), *code),
    }
}

/// The named-symbol half of the decoding table.
pub open spec fn spec_pka_trust_atom(s: Seq<char>) -> Option<PkaTrust> {
    if s == "unknown"@ {
        Some(PkaTrust::Unknown)
    } else if s == "bad"@ {
        Some(PkaTrust::Bad)
    } else if s == "okay"@ {
        Some(PkaTrust::Okay)
    } else {
        None
    }
}

/// What a host value decodes to: a named symbol through the table, the
/// `{other, code}` escape tuple to the raw constant, anything else to
/// nothing.
pub open spec fn spec_arg_to_pka_trust(v: HostValue) -> Option<PkaTrust> {
    match v {
        HostValue::Atom(s) => spec_pka_trust_atom(s@),
        HostValue::Tuple(_) => match spec_decode_other(v) {
            Some(code) => Some(PkaTrust::Other(code)),
            None => None,
        },
        _ => None,
    }
}

/// Decodes a host value into a trust level; a value of any other shape is
/// an argument error.
pub fn arg_to_pka_trust(arg: &HostValue) -> (r: Result<PkaTrust, BridgeError>)
    ensures
        match spec_arg_to_pka_trust(*arg) {
            Some(t) => r matches Ok(rt) && rt == t,
            None => r matches Err(BridgeError::BadArg),
        },
{
    match arg {
        HostValue::Atom(s) => {
            if atom_is(s, "unknown") {
                Ok(PkaTrust::Unknown)
            } else if atom_is(s, "bad") {
                Ok(PkaTrust::Bad)
            } else if atom_is(s, "okay") {
                Ok(PkaTrust::Okay)
            } else {
                Err(BridgeError::BadArg)
            }
        },
        HostValue::Tuple(_) => match decode_other(arg) {
            Some(code) => Ok(PkaTrust::Other(code)),
            None => Err(BridgeError::BadArg),
        },
        _ => Err(BridgeError::BadArg),
    }
}

/// Decoding inverts encoding: every host value that encodes a trust level
/// decodes back to exactly that level.
pub proof fn lemma_pka_trust_round_trip(t: PkaTrust, v: HostValue)
    requires
        is_pka_trust_encoding(t, v),
    ensures
        spec_arg_to_pka_trust(v) == Some(t),
{
    reveal_strlit("unknown");
    reveal_strlit("bad");
    reveal_strlit("okay");
    reveal_strlit("other");
    assert("unknown"@.len() == 7);
    assert("bad"@.len() == 3);
    assert("okay"@.len() == 4);
}

} // verus!
