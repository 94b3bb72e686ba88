//! Codec for the native protocol selector.

use vstd::prelude::*;
use crate::error::BridgeError;
use crate::value::HostValue;
use crate::value::atom_is;
use crate::value::decode_other;
use crate::value::spec_decode_other;

verus! {

/// The native engine's protocol selector. `Other` carries a raw native
/// constant the bridge does not enumerate by name.
#[derive(Clone, Copy, Debug, PartialEq, Eq, Structural)]
pub enum Protocol {
    OpenPgp,
    Cms,
    GpgConf,
    Assuan,
    G13,
    UiServer,
    Spawn,
    Default,
    Unknown,
    Other(u32),
}

/// The named-symbol half of the decoding table.
pub open spec fn spec_protocol_atom(s: Seq<char>) -> Option<Protocol> {
    if s == "open_pgp"@ {
        Some(Protocol::OpenPgp)
    } else if s == "cms"@ {
        Some(Protocol::Cms)
    } else if s == "gpg_conf"@ {
        Some(Protocol::GpgConf)
    } else if s == "assuan"@ {
        Some(Protocol::Assuan)
    } else if s == "g13"@ {
        Some(Protocol::G13)
    } else if s == "ui_server"@ {
        Some(Protocol::UiServer)
    } else if s == "spawn"@ {
        Some(Protocol::Spawn)
    } else if s == "default"@ {
        Some(Protocol::Default)
    } else if s == "unknown"@ {
        Some(Protocol::Unknown)
    } else {
        None
    }
}

/// What a host value decodes to: a named symbol through the table, the
/// `{other, code}` escape tuple to the raw constant, anything else to
/// nothing.
pub open spec fn spec_arg_to_protocol(v: HostValue) -> Option<Protocol> {
    match v {
        HostValue::Atom(s) => spec_protocol_atom(s@),
        HostValue::Tuple(_) => match spec_decode_other(v) {
            Some(code) => Some(Protocol::Other(code)),
            None => None,
        },
        _ => None,
    }
}

/// Decodes a host value into a protocol; a value of any other shape is an
/// argument error, reported before any engine call.
pub fn arg_to_protocol(arg: &HostValue) -> (r: Result<Protocol, BridgeError>)
    ensures
        match spec_arg_to_protocol(*arg) {
            Some(p) => r matches Ok(rp) && rp == p,
            None => r matches Err(BridgeError::BadArg),
        },
{
    match arg {
        HostValue::Atom(s) => {
            if atom_is(s, "open_pgp") {
                Ok(Protocol::OpenPgp)
            } else if atom_is(s, "cms") {
                Ok(Protocol::Cms)
            } else if atom_is(s, "gpg_conf") {
                Ok(Protocol::GpgConf)
            } else if atom_is(s, "assuan") {
                Ok(Protocol::Assuan)
            } else if atom_is(s, "g13") {
                Ok(Protocol::G13)
            } else if atom_is(s, "ui_server") {
                Ok(Protocol::UiServer)
            } else if atom_is(s, "spawn") {
                Ok(Protocol::Spawn)
            } else if atom_is(s, "default") {
                Ok(Protocol::Default)
            } else if atom_is(s, "unknown") {
                Ok(Protocol::Unknown)
            } else {
                Err(BridgeError::BadArg)
            }
        },
        HostValue::Tuple(_) => match decode_other(arg) {
            Some(code) => Ok(Protocol::Other(code)),
            None => Err(BridgeError::BadArg),
        },
        _ => Err(BridgeError::BadArg),
    }
}

/// The encoding table: which host values stand for which protocol.
pub open spec fn is_protocol_encoding(p: Protocol, v: HostValue) -> bool {
    match p {
        Protocol::OpenPgp => v.is_atom("open_pgp"@),
        Protocol::Cms => v.is_atom("cms"@),
        Protocol::GpgConf => v.is_atom("gpg_conf"@),
        Protocol::Assuan => v.is_atom("assuan"@),
        Protocol::G13 => v.is_atom("g13"@),
        Protocol::UiServer => v.is_atom("ui_server"@),
        Protocol::Spawn => v.is_atom("spawn"@),
        Protocol::Default => v.is_atom("default"@),
        Protocol::Unknown => v.is_atom("unknown"@),
        Protocol::Other(code) => v.is_other_tuple(code),
    }
}

/// Encodes a protocol for the host: named variants as their symbol, the
/// escape variant as the `{other, code}` tuple.
pub fn protocol_to_nif(protocol: &Protocol) -> (r: HostValue)
    ensures
        is_protocol_encoding(*protocol, r),
{
    match protocol {
        Protocol::OpenPgp => HostValue::Atom(String::from_str("open_pgp")),
        Protocol::Cms => HostValue::Atom(String::from_str("cms")),
        Protocol::GpgConf => HostValue::Atom(String::from_str("gpg_conf")),
        Protocol::Assuan => HostValue::Atom(String::from_str("assuan")),
        Protocol::G13 => HostValue::Atom(String::from_str("g13")),
        Protocol::UiServer => HostValue::Atom(String::from_str("ui_server")),
        Protocol::Spawn => HostValue::Atom(String::from_str("spawn")),
        Protocol::Default => HostValue::Atom(String::from_str("default")),
        Protocol::Unknown => HostValue::Atom(String::from_str("unknown")),
        Protocol::Other(code) => crate::value::other_tuple(*code),
    }
}

/// Decoding inverts encoding: every host value that encodes a protocol,
/// named variant or escape variant alike, decodes back to exactly that
/// protocol.
pub proof fn lemma_protocol_round_trip(p: Protocol, v: HostValue)
    requires
        is_protocol_encoding(p, v),
    ensures
        spec_arg_to_protocol(v) == Some(p),
{
    reveal_strlit("open_pgp");
    reveal_strlit("cms");
    reveal_strlit("gpg_conf");
    reveal_strlit("assuan");
    reveal_strlit("g13");
    reveal_strlit("ui_server");
    reveal_strlit("spawn");
    reveal_strlit("default");
    reveal_strlit("unknown");
    reveal_strlit("other");
    assert("open_pgp"@.len() == 8);
    assert("cms"@.len() == 3);
    assert("gpg_conf"@.len() == 8);
    assert("assuan"@.len() == 6);
    assert("g13"@.len() == 3);
    assert("ui_server"@.len() == 9);
    assert("spawn"@.len() == 5);
    assert("default"@.len() == 7);
    assert("unknown"@.len() == 7);
    assert("open_pgp"@[0] != "gpg_conf"@[0]);
    assert("cms"@[0] != "g13"@[0]);
    assert("default"@[0] != "unknown"@[0]);
}

} // verus!
