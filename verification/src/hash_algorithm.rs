//! Codec for hash algorithms reported by the native engine.

use vstd::prelude::*;
use crate::error::BridgeError;
use crate::value::HostValue;
use crate::value::atom_is;
use crate::value::decode_other;
use crate::value::spec_decode_other;

verus! {

/// A hash algorithm named by the native engine. `Other` carries a raw
/// native constant the bridge does not enumerate by name.
#[derive(Clone, Copy, Debug, PartialEq, Eq, Structural)]
pub enum HashAlgorithm {
    NoneAlgorithm,
    Md2,
    Md4,
    Md5,
    Sha1,
    Sha224,
    Sha256,
    Sha384,
    Sha512,
    RipeMd160,
    Tiger,
    Haval,
    Crc32,
    Crc32Rfc1510,
    Crc24Rfc2440,
    Other(u32),
}

/// A hash algorithm as handed to the host: a bare symbol for a named
/// algorithm, a `{other, code}` pair for a raw constant.
#[derive(Debug, Clone, PartialEq, Eq)]
pub enum HashAlgorithmResult {
    Atom(String),
    Tuple(String, u32),
}

/// The encoding table: which host values stand for which hash algorithm.
pub open spec fn is_hash_algorithm_encoding(a: HashAlgorithm, v: HostValue) -> bool {
    match a {
        HashAlgorithm::NoneAlgorithm => v.is_atom("none"@),
        HashAlgorithm::Md2 => v.is_atom("md2"@),
        HashAlgorithm::Md4 => v.is_atom("md4"@),
        HashAlgorithm::Md5 => v.is_atom("md5"@),
        HashAlgorithm::Sha1 => v.is_atom("sha1"@),
        HashAlgorithm::Sha224 => v.is_atom("sha224"@),
        HashAlgorithm::Sha256 => v.is_atom("sha256"@),
        HashAlgorithm::Sha384 => v.is_atom("sha384"@),
        HashAlgorithm::Sha512 => v.is_atom("sha512"@),
        HashAlgorithm::RipeMd160 => v.is_atom("ripe_md160"@),
        HashAlgorithm::Tiger => v.is_atom("tiger"@),
        HashAlgorithm::Haval => v.is_atom("haval"@),
        HashAlgorithm::Crc32 => v.is_atom("crc32"@),
        HashAlgorithm::Crc32Rfc1510 => v.is_atom("crc32_rfc1510"@),
        HashAlgorithm::Crc24Rfc2440 => v.is_atom("crc24_rfc2440"@),
        HashAlgorithm::Other(code) => v.is_other_tuple(code),
    }
}

impl HashAlgorithmResult {
    /// Turns the result into the host value it stands for.
    pub fn encode(&self) -> (r: HostValue)
        ensures
            match *self {
                HashAlgorithmResult::Atom(s) => r.is_atom(s@),
                HashAlgorithmResult::Tuple(s, code) => (r matches HostValue::Tuple(items)
                    && items@.len() == 2 && items@[0].is_atom(s@) && items@[1]
                    == HostValue::Int(code)),
            },
    {
        match self {
            HashAlgorithmResult::Atom(s) => HostValue::Atom(s.clone()),
            HashAlgorithmResult::Tuple(s, code) => {
                let mut items: Vec<HostValue> = Vec::new();
                items.push(HostValue::Atom(s.clone()));
                items.push(HostValue::Int(*code));
                HostValue::Tuple(items)
            },
        }
    }
}

/// Which result value stands for which hash algorithm.
pub open spec fn is_hash_result(a: HashAlgorithm, r: HashAlgorithmResult) -> bool {
    match a {
        HashAlgorithm::NoneAlgorithm => r matches HashAlgorithmResult::Atom(s) && s@ == "none"@,
        HashAlgorithm::Md2 => r matches HashAlgorithmResult::Atom(s) && s@ == "md2"@,
        HashAlgorithm::Md4 => r matches HashAlgorithmResult::Atom(s) && s@ == "md4"@,
        HashAlgorithm::Md5 => r matches HashAlgorithmResult::Atom(s) && s@ == "md5"@,
        HashAlgorithm::Sha1 => r matches HashAlgorithmResult::Atom(s) && s@ == "sha1"@,
        HashAlgorithm::Sha224 => r matches HashAlgorithmResult::Atom(s) && s@ == "sha224"@,
        HashAlgorithm::Sha256 => r matches HashAlgorithmResult::Atom(s) && s@ == "sha256"@,
        HashAlgorithm::Sha384 => r matches HashAlgorithmResult::Atom(s) && s@ == "sha384"@,
        HashAlgorithm::Sha512 => r matches HashAlgorithmResult::Atom(s) && s@ == "sha512"@,
        HashAlgorithm::RipeMd160 => r matches HashAlgorithmResult::Atom(s) && s@ == "ripe_md160"@,
        HashAlgorithm::Tiger => r matches HashAlgorithmResult::Atom(s) && s@ == "tiger"@,
        HashAlgorithm::Haval => r matches HashAlgorithmResult::Atom(s) && s@ == "haval"@,
        HashAlgorithm::Crc32 => r matches HashAlgorithmResult::Atom(s) && s@ == "crc32"@,
        HashAlgorithm::Crc32Rfc1510 => r matches HashAlgorithmResult::Atom(s) && s@
            == "crc32_rfc1510"@,
        HashAlgorithm::Crc24Rfc2440 => r matches HashAlgorithmResult::Atom(s) && s@
            == "crc24_rfc2440"@,
        HashAlgorithm::Other(code) => r matches HashAlgorithmResult::Tuple(s, c) && s@ == "other"@
            && c == code,
    }
}

/// Encodes a hash algorithm for the host: named variants as their symbol,
/// the escape variant as the `{other, code}` pair.
pub fn transform_hash_algorithm(algorithm: &HashAlgorithm) -> (r: HashAlgorithmResult)
    ensures
        is_hash_result(*algorithm, r),
{
    match algorithm {
        HashAlgorithm::NoneAlgorithm => HashAlgorithmResult::Atom(String::from_str("none")),
        HashAlgorithm::Md2 => HashAlgorithmResult::Atom(String::from_str("md2")),
        HashAlgorithm::Md4 => HashAlgorithmResult::Atom(String::from_str("md4")),
        HashAlgorithm::Md5 => HashAlgorithmResult::Atom(String::from_str("md5")),
        HashAlgorithm::Sha1 => HashAlgorithmResult::Atom(String::from_str("sha1")),
        HashAlgorithm::Sha224 => HashAlgorithmResult::Atom(String::from_str("sha224")),
        HashAlgorithm::Sha256 => HashAlgorithmResult::Atom(String::from_str("sha256")),
        HashAlgorithm::Sha384 => HashAlgorithmResult::Atom(String::from_str("sha384")),
        HashAlgorithm::Sha512 => HashAlgorithmResult::Atom(String::from_str("sha512")),
        HashAlgorithm::RipeMd160 => HashAlgorithmResult::Atom(String::from_str("ripe_md160")),
        HashAlgorithm::Tiger => HashAlgorithmResult::Atom(String::from_str("tiger")),
        HashAlgorithm::Haval => HashAlgorithmResult::Atom(String::from_str("haval")),
        HashAlgorithm::Crc32 => HashAlgorithmResult::Atom(String::from_str("crc32")),
        HashAlgorithm::Crc32Rfc1510 => HashAlgorithmResult::Atom(String::from_str("crc32_rfc1510")),
        HashAlgorithm::Crc24Rfc2440 => HashAlgorithmResult::Atom(String::from_str("crc24_rfc2440")),
        HashAlgorithm::Other(code) => HashAlgorithmResult::Tuple(String::from_str("other"), *code),
    }
}

/// The named-symbol half of the decoding table.
pub open spec fn spec_hash_algorithm_atom(s: Seq<char>) -> Option<HashAlgorithm> {
    if s == "none"@ {
        Some(HashAlgorithm::NoneAlgorithm)
    } else if s == "md2"@ {
        Some(HashAlgorithm::Md2)
    } else if s == "md4"@ {
        Some(HashAlgorithm::Md4)
    } else if s == "md5"@ {
        Some(HashAlgorithm::Md5)
    } else if s == "sha1"@ {
        Some(HashAlgorithm::Sha1)
    } else if s == "sha224"@ {
        Some(HashAlgorithm::Sha224)
    } else if s == "sha256"@ {
        Some(HashAlgorithm::Sha256)
    } else if s == "sha384"@ {
        Some(HashAlgorithm::Sha384)
    } else if s == "sha512"@ {
        Some(HashAlgorithm::Sha512)
    } else if s == "ripe_md160"@ {
        Some(HashAlgorithm::RipeMd160)
    } else if s == "tiger"@ {
        Some(HashAlgorithm::Tiger)
    } else if s == "haval"@ {
        Some(HashAlgorithm::Haval)
    } else if s == "crc32"@ {
        Some(HashAlgorithm::Crc32)
    } else if s == "crc32_rfc1510"@ {
        Some(HashAlgorithm::Crc32Rfc1510)
    } else if s == "crc24_rfc2440"@ {
        Some(HashAlgorithm::Crc24Rfc2440)
    } else {
        None
    }
}

/// What a host value decodes to: a named symbol through the table, the
/// `{other, code}` escape tuple to the raw constant, anything else to
/// nothing.
pub open spec fn spec_arg_to_hash_algorithm(v: HostValue) -> Option<HashAlgorithm> {
    match v {
        HostValue::Atom(s) => spec_hash_algorithm_atom(s@),
        HostValue::Tuple(_) => match spec_decode_other(v) {
            Some(code) => Some(HashAlgorithm::Other(code)),
            None => None,
        },
        _ => None,
    }
}

/// Decodes a host value into a hash algorithm; a value of any other shape
/// is an argument error.
pub fn arg_to_hash_algorithm(arg: &HostValue) -> (r: Result<HashAlgorithm, BridgeError>)
    ensures
        match spec_arg_to_hash_algorithm(*arg) {
            Some(a) => r matches Ok(ra) && ra == a,
            None => r matches Err(BridgeError::BadArg),
        },
{
    match arg {
        HostValue::Atom(s) => {
            if atom_is(s, "none") {
                Ok(HashAlgorithm::NoneAlgorithm)
            } else if atom_is(s, "md2") {
                Ok(HashAlgorithm::Md2)
            } else if atom_is(s, "md4") {
                Ok(HashAlgorithm::Md4)
            } else if atom_is(s, "md5") {
                Ok(HashAlgorithm::Md5)
            } else if atom_is(s, "sha1") {
                Ok(HashAlgorithm::Sha1)
            } else if atom_is(s, "sha224") {
                Ok(HashAlgorithm::Sha224)
            } else if atom_is(s, "sha256") {
                Ok(HashAlgorithm::Sha256)
            } else if atom_is(s, "sha384") {
                Ok(HashAlgorithm::Sha384)
            } else if atom_is(s, "sha512") {
                Ok(HashAlgorithm::Sha512)
            } else if atom_is(s, "ripe_md160") {
                Ok(HashAlgorithm::RipeMd160)
            } else if atom_is(s, "tiger") {
                Ok(HashAlgorithm::Tiger)
            } else if atom_is(s, "haval") {
                Ok(HashAlgorithm::Haval)
            } else if atom_is(s, "crc32") {
                Ok(HashAlgorithm::Crc32)
            } else if atom_is(s, "crc32_rfc1510") {
                Ok(HashAlgorithm::Crc32Rfc1510)
            } else if atom_is(s, "crc24_rfc2440") {
                Ok(HashAlgorithm::Crc24Rfc2440)
            } else {
                Err(BridgeError::BadArg)
            }
        },
        HostValue::Tuple(_) => match decode_other(arg) {
            Some(code) => Ok(HashAlgorithm::Other(code)),
            None => Err(BridgeError::BadArg),
        },
        _ => Err(BridgeError::BadArg),
    }
}

/// Decoding inverts encoding: every host value that encodes a hash
/// algorithm decodes back to exactly that algorithm.
pub proof fn lemma_hash_algorithm_round_trip(a: HashAlgorithm, v: HostValue)
    requires
        is_hash_algorithm_encoding(a, v),
    ensures
        spec_arg_to_hash_algorithm(v) == Some(a),
{
    reveal_strlit("none");
    reveal_strlit("md2");
    reveal_strlit("md4");
    reveal_strlit("md5");
    reveal_strlit("sha1");
    reveal_strlit("sha224");
    reveal_strlit("sha256");
    reveal_strlit("sha384");
    reveal_strlit("sha512");
    reveal_strlit("ripe_md160");
    reveal_strlit("tiger");
    reveal_strlit("haval");
    reveal_strlit("crc32");
    reveal_strlit("crc32_rfc1510");
    reveal_strlit("crc24_rfc2440");
    reveal_strlit("other");
    assert("none"@.len() == 4);
    assert("md2"@.len() == 3);
    assert("md4"@.len() == 3);
    assert("md5"@.len() == 3);
    assert("sha1"@.len() == 4);
    assert("sha224"@.len() == 6);
    assert("sha256"@.len() == 6);
    assert("sha384"@.len() == 6);
    assert("sha512"@.len() == 6);
    assert("ripe_md160"@.len() == 10);
    assert("tiger"@.len() == 5);
    assert("haval"@.len() == 5);
    assert("crc32"@.len() == 5);
    assert("crc32_rfc1510"@.len() == 13);
    assert("crc24_rfc2440"@.len() == 13);
    assert("md2"@[2] != "md4"@[2]);
    assert("md2"@[2] != "md5"@[2]);
    assert("md4"@[2] != "md5"@[2]);
    assert("none"@[0] != "sha1"@[0]);
    assert("sha224"@[4] != "sha256"@[4]);
    assert("sha224"@[3] != "sha384"@[3]);
    assert("sha224"@[3] != "sha512"@[3]);
    assert("sha256"@[3] != "sha384"@[3]);
    assert("sha256"@[3] != "sha512"@[3]);
    assert("sha384"@[3] != "sha512"@[3]);
    assert("tiger"@[0] != "haval"@[0]);
    assert("tiger"@[0] != "crc32"@[0]);
    assert("haval"@[0] != "crc32"@[0]);
    assert("crc32_rfc1510"@[3] != "crc24_rfc2440"@[3]);
}

} // verus!
