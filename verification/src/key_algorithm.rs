//! Codec for public-key algorithms reported by the native engine.

use vstd::prelude::*;
use crate::error::BridgeError;
use crate::value::HostValue;
use crate::value::atom_is;
use crate::value::decode_other;
use crate::value::spec_decode_other;

verus! {

/// A public-key algorithm named by the native engine. `Other` carries a
/// raw native constant the bridge does not enumerate by name.
#[derive(Clone, Copy, Debug, PartialEq, Eq, Structural)]
pub enum KeyAlgorithm {
    Rsa,
    RsaEncrypt,
    RsaSign,
    ElgamalEncrypt,
    Dsa,
    Ecc,
    Elgamal,
    Ecdsa,
    Ecdh,
    Eddsa,
    Other(u32),
}

/// A key algorithm as handed to the host: a bare symbol for a named
/// algorithm, a `{other, code}` pair for a raw constant.
#[derive(Debug, Clone, PartialEq, Eq)]
pub enum KeyAlgorithmResult {
    Atom(String),
    Tuple(String, u32),
}

/// The encoding table: which host values stand for which key algorithm.
pub open spec fn is_key_algorithm_encoding(a: KeyAlgorithm, v: HostValue) -> bool {
    match a {
        KeyAlgorithm::Rsa => v.is_atom("rsa"@),
        KeyAlgorithm::RsaEncrypt => v.is_atom("rsa_encrypt"@),
        KeyAlgorithm::RsaSign => v.is_atom("rsa_sign"@),
        KeyAlgorithm::ElgamalEncrypt => v.is_atom("elgamal_encrypt"@),
        KeyAlgorithm::Dsa => v.is_atom("dsa"@),
        KeyAlgorithm::Ecc => v.is_atom("ecc"@),
        KeyAlgorithm::Elgamal => v.is_atom("elgamal"@),
        KeyAlgorithm::Ecdsa => v.is_atom("ecdsa"@),
        KeyAlgorithm::Ecdh => v.is_atom("ecdh"@),
        KeyAlgorithm::Eddsa => v.is_atom("eddsa"@),
        KeyAlgorithm::Other(code) => v.is_other_tuple(code),
    }
}

/// Which result value stands for which key algorithm.
pub open spec fn is_key_result(a: KeyAlgorithm, r: KeyAlgorithmResult) -> bool {
    match a {
        KeyAlgorithm::Rsa => r matches KeyAlgorithmResult::Atom(s) && s@ == "rsa"@,
        KeyAlgorithm::RsaEncrypt => r matches KeyAlgorithmResult::Atom(s) && s@ == "rsa_encrypt"@,
        KeyAlgorithm::RsaSign => r matches KeyAlgorithmResult::Atom(s) && s@ == "rsa_sign"@,
        KeyAlgorithm::ElgamalEncrypt => r matches KeyAlgorithmResult::Atom(s) && s@
            == "elgamal_encrypt"@,
        KeyAlgorithm::Dsa => r matches KeyAlgorithmResult::Atom(s) && s@ == "dsa"@,
        KeyAlgorithm::Ecc => r matches KeyAlgorithmResult::Atom(s) && s@ == "ecc"@,
        KeyAlgorithm::Elgamal => r matches KeyAlgorithmResult::Atom(s) && s@ == "elgamal"@,
        KeyAlgorithm::Ecdsa => r matches KeyAlgorithmResult::Atom(s) && s@ == "ecdsa"@,
        KeyAlgorithm::Ecdh => r matches KeyAlgorithmResult::Atom(s) && s@ == "ecdh"@,
        KeyAlgorithm::Eddsa => r matches KeyAlgorithmResult::Atom(s) && s@ == "eddsa"@,
        KeyAlgorithm::Other(code) => r matches KeyAlgorithmResult::Tuple(s, c) && s@ == "other"@
            && c == code,
    }
}

impl KeyAlgorithmResult {
    /// Turns the result into the host value it stands for.
    pub fn encode(&self) -> (r: HostValue)
        ensures
            match *self {
                KeyAlgorithmResult::Atom(s) => r.is_atom(s@),
                KeyAlgorithmResult::Tuple(s, code) => (r matches HostValue::Tuple(items)
                    && items@.len() == 2 && items@[0].is_atom(s@) && items@[1]
                    == HostValue::Int(code)),
            },
    {
        match self {
            KeyAlgorithmResult::Atom(s) => HostValue::Atom(s.clone()),
            KeyAlgorithmResult::Tuple(s, code) => {
                let mut items: Vec<HostValue> = Vec::new();
                items.push(HostValue::Atom(s.clone()));
                items.push(HostValue::Int(*code));
                HostValue::Tuple(items)
            },
        }
    }
}

/// Encodes a key algorithm for the host: named variants as their symbol,
/// the escape variant as the `{other, code}` pair.
pub fn transform_key_algorithm(algorithm: &KeyAlgorithm) -> (r: KeyAlgorithmResult)
    ensures
        is_key_result(*algorithm, r),
{
    match algorithm {
        KeyAlgorithm::Rsa => KeyAlgorithmResult::Atom(String::from_str("rsa")),
        KeyAlgorithm::RsaEncrypt => KeyAlgorithmResult::Atom(String::from_str("rsa_encrypt")),
        KeyAlgorithm::RsaSign => KeyAlgorithmResult::Atom(String::from_str("rsa_sign")),
        KeyAlgorithm::ElgamalEncrypt => KeyAlgorithmResult::Atom(
            String::from_str("elgamal_encrypt"),
        ),
        KeyAlgorithm::Dsa => KeyAlgorithmResult::Atom(String::from_str("dsa")),
        KeyAlgorithm::Ecc => KeyAlgorithmResult::Atom(String::from_str("ecc")),
        KeyAlgorithm::Elgamal => KeyAlgorithmResult::Atom(String::from_str("elgamal")),
        KeyAlgorithm::Ecdsa => KeyAlgorithmResult::Atom(String::from_str("ecdsa")),
        KeyAlgorithm::Ecdh => KeyAlgorithmResult::Atom(String::from_str("ecdh")),
        KeyAlgorithm::Eddsa => KeyAlgorithmResult::Atom(String::from_str("eddsa")),
        KeyAlgorithm::Other(code) => KeyAlgorithmResult::Tuple(String::from_str("other"), *code),
    }
}

/// The named-symbol half of the decoding table.
pub open spec fn spec_key_algorithm_atom(s: Seq<char>) -> Option<KeyAlgorithm> {
    if s == "rsa"@ {
        Some(KeyAlgorithm::Rsa)
    } else if s == "rsa_encrypt"@ {
        Some(KeyAlgorithm::RsaEncrypt)
    } else if s == "rsa_sign"@ {
        Some(KeyAlgorithm::RsaSign)
    } else if s == "elgamal_encrypt"@ {
        Some(KeyAlgorithm::ElgamalEncrypt)
    } else if s == "dsa"@ {
        Some(KeyAlgorithm::Dsa)
    } else if s == "ecc"@ {
        Some(KeyAlgorithm::Ecc)
    } else if s == "elgamal"@ {
        Some(KeyAlgorithm::Elgamal)
    } else if s == "ecdsa"@ {
        Some(KeyAlgorithm::Ecdsa)
    } else if s == "ecdh"@ {
        Some(KeyAlgorithm::Ecdh)
    } else if s == "eddsa"@ {
        Some(KeyAlgorithm::Eddsa)
    } else {
        None
    }
}

/// What a host value decodes to: a named symbol through the table, the
/// `{other, code}` escape tuple to the raw constant, anything else to
/// nothing.
pub open spec fn spec_arg_to_key_algorithm(v: HostValue) -> Option<KeyAlgorithm> {
    match v {
        HostValue::Atom(s) => spec_key_algorithm_atom(s@),
        HostValue::Tuple(_) => match spec_decode_other(v) {
            Some(code) => Some(KeyAlgorithm::Other(code)),
            None => None,
        },
        _ => None,
    }
}

/// Decodes a host value into a key algorithm; a value of any other shape
/// is an argument error.
pub fn arg_to_key_algorithm(arg: &HostValue) -> (r: Result<KeyAlgorithm, BridgeError>)
    ensures
        match spec_arg_to_key_algorithm(*arg) {
            Some(a) => r matches Ok(ra) && ra == a,
            None => r matches Err(BridgeError::BadArg),
        },
{
    match arg {
        HostValue::Atom(s) => {
            if atom_is(s, "rsa") {
                Ok(KeyAlgorithm::Rsa)
            } else if atom_is(s, "rsa_encrypt") {
                Ok(KeyAlgorithm::RsaEncrypt)
            } else if atom_is(s, "rsa_sign") {
                Ok(KeyAlgorithm::RsaSign)
            } else if atom_is(s, "elgamal_encrypt") {
                Ok(KeyAlgorithm::ElgamalEncrypt)
            } else if atom_is(s, "dsa") {
                Ok(KeyAlgorithm::Dsa)
            } else if atom_is(s, "ecc") {
                Ok(KeyAlgorithm::Ecc)
            } else if atom_is(s, "elgamal") {
                Ok(KeyAlgorithm::Elgamal)
            } else if atom_is(s, "ecdsa") {
                Ok(KeyAlgorithm::Ecdsa)
            } else if atom_is(s, "ecdh") {
                Ok(KeyAlgorithm::Ecdh)
            } else if atom_is(s, "eddsa") {
                Ok(KeyAlgorithm::Eddsa)
            } else {
                Err(BridgeError::BadArg)
            }
        },
        HostValue::Tuple(_) => match decode_other(arg) {
            Some(code) => Ok(KeyAlgorithm::Other(code)),
            None => Err(BridgeError::BadArg),
        },
        _ => Err(BridgeError::BadArg),
    }
}

/// Decoding inverts encoding: every host value that encodes a key
/// algorithm decodes back to exactly that algorithm.
pub proof fn lemma_key_algorithm_round_trip(a: KeyAlgorithm, v: HostValue)
    requires
        is_key_algorithm_encoding(a, v),
    ensures
        spec_arg_to_key_algorithm(v) == Some(a),
{
    reveal_strlit("rsa");
    reveal_strlit("rsa_encrypt");
    reveal_strlit("rsa_sign");
    reveal_strlit("elgamal_encrypt");
    reveal_strlit("dsa");
    reveal_strlit("ecc");
    reveal_strlit("elgamal");
    reveal_strlit("ecdsa");
    reveal_strlit("ecdh");
    reveal_strlit("eddsa");
    reveal_strlit("other");
    assert("rsa"@.len() == 3);
    assert("rsa_encrypt"@.len() == 11);
    assert("rsa_sign"@.len() == 8);
    assert("elgamal_encrypt"@.len() == 15);
    assert("dsa"@.len() == 3);
    assert("ecc"@.len() == 3);
    assert("elgamal"@.len() == 7);
    assert("ecdsa"@.len() == 5);
    assert("ecdh"@.len() == 4);
    assert("eddsa"@.len() == 5);
    assert("rsa"@[0] != "dsa"@[0]);
    assert("rsa"@[0] != "ecc"@[0]);
    assert("dsa"@[0] != "ecc"@[0]);
    assert("ecdsa"@[1] != "eddsa"@[1]);
}

} // verus!
