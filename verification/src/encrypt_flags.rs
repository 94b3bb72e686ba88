//! Codec for encryption flag sets.
//!
//! A flag set arrives from the host as a list of named symbols. Each symbol
//! resolves through a closed table to one bit of the native flag word; an
//! unrecognised symbol fails the whole call before any engine invocation,
//! so a flag set is never applied partially.

use vstd::prelude::*;
use crate::error::BridgeError;
use crate::value::HostValue;
use crate::value::atom_is;

verus! {

/// Trust every recipient key without consulting the trust database.
pub const ENCRYPT_ALWAYS_TRUST: u32 = 1;

/// Skip the default recipients configured for the engine.
pub const ENCRYPT_NO_ENCRYPT_TO: u32 = 2;

/// Only prepare the operation without producing output.
pub const ENCRYPT_PREPARE: u32 = 4;

/// Expect a combined sign-and-encrypt operation to follow.
pub const ENCRYPT_EXPECT_SIGN: u32 = 8;

/// Disable compression of the plaintext.
pub const ENCRYPT_NO_COMPRESS: u32 = 16;

/// Use symmetric encryption.
pub const ENCRYPT_SYMMETRIC: u32 = 32;

/// Hide the recipient key identifiers in the ciphertext.
pub const ENCRYPT_THROW_KEYIDS: u32 = 64;

/// Wrap a key rather than encrypt data.
pub const ENCRYPT_WRAP: u32 = 128;

/// The closed lookup table, symbol name to flag bit.
pub open spec fn spec_string_to_flag(s: Seq<char>) -> Option<u32> {
    if s == "always_trust"@ {
        Some(ENCRYPT_ALWAYS_TRUST)
    } else if s == "expect_sign"@ {
        Some(ENCRYPT_EXPECT_SIGN)
    } else if s == "no_compress"@ {
        Some(ENCRYPT_NO_COMPRESS)
    } else if s == "no_encrypt_to"@ {
        Some(ENCRYPT_NO_ENCRYPT_TO)
    } else if s == "prepare"@ {
        Some(ENCRYPT_PREPARE)
    } else if s == "symmetric"@ {
        Some(ENCRYPT_SYMMETRIC)
    } else if s == "throw_keyids"@ {
        Some(ENCRYPT_THROW_KEYIDS)
    } else if s == "wrap"@ {
        Some(ENCRYPT_WRAP)
    } else {
        None
    }
}

/// Resolves one symbol name to its flag bit; an unknown name is an
/// argument error.
pub fn string_to_flag(name: &String) -> (r: Result<u32, BridgeError>)
    ensures
        match spec_string_to_flag(name@) {
            Some(f) => r matches Ok(rf) && rf == f,
            None => r matches Err(BridgeError::BadArg),
        },
{
    if atom_is(name, "always_trust") {
        Ok(ENCRYPT_ALWAYS_TRUST)
    } else if atom_is(name, "expect_sign") {
        Ok(ENCRYPT_EXPECT_SIGN)
    } else if atom_is(name, "no_compress") {
        Ok(ENCRYPT_NO_COMPRESS)
    } else if atom_is(name, "no_encrypt_to") {
        Ok(ENCRYPT_NO_ENCRYPT_TO)
    } else if atom_is(name, "prepare") {
        Ok(ENCRYPT_PREPARE)
    } else if atom_is(name, "symmetric") {
        Ok(ENCRYPT_SYMMETRIC)
    } else if atom_is(name, "throw_keyids") {
        Ok(ENCRYPT_THROW_KEYIDS)
    } else if atom_is(name, "wrap") {
        Ok(ENCRYPT_WRAP)
    } else {
        Err(BridgeError::BadArg)
    }
}

/// The flag word a list of host values decodes to: the union of the bits
/// of its symbols, or nothing if any element is not a known flag symbol.
pub open spec fn spec_flags_of_list(items: Seq<HostValue>) -> Option<u32>
    decreases items.len(),
{
    if items.len() == 0 {
        Some(0)
    } else {
        match spec_flags_of_list(items.drop_last()) {
            Some(acc) => match items.last() {
                HostValue::Atom(s) => match spec_string_to_flag(s@) {
                    Some(f) => Some(acc | f),
                    None => None,
                },
                _ => None,
            },
            None => None,
        }
    }
}

/// Decodes a list of flag symbols into the native flag word. The whole
/// call fails on the first unrecognised symbol, before any engine
/// invocation: no partial flag set is ever produced.
pub fn arg_to_protocol(atoms: &Vec<HostValue>) -> (r: Result<u32, BridgeError>)
    ensures
        match spec_flags_of_list(atoms@) {
            Some(f) => r matches Ok(rf) && rf == f,
            None => r matches Err(BridgeError::BadArg),
        },
{
    let mut flags: u32 = 0;
    let mut i: usize = 0;
    while i < atoms.len()
        invariant
            0 <= i <= atoms@.len(),
            spec_flags_of_list(atoms@.take(i as int)) == Some(flags),
        decreases atoms@.len() - i,
    {
        proof {
            assert(atoms@.take(i + 1).drop_last() =~= atoms@.take(i as int));
            assert(atoms@.take(i + 1).last() == atoms@[i as int]);
        }
        match &atoms[i] {
            HostValue::Atom(s) => {
                match string_to_flag(s) {
                    Ok(f) => {
                        flags = flags | f;
                    },
                    Err(_) => {
                        proof {
                            lemma_flags_of_list_poisoned(atoms@, i as int);
                        }
                        return Err(BridgeError::BadArg);
                    },
                }
            },
            _ => {
                proof {
                    lemma_flags_of_list_poisoned(atoms@, i as int);
                }
                return Err(BridgeError::BadArg);
            },
        }
        i = i + 1;
    }
    proof {
        assert(atoms@.take(atoms@.len() as int) =~= atoms@);
    }
    Ok(flags)
}

/// A list whose element at `i` is not a known flag symbol decodes to
/// nothing, whatever follows it.
proof fn lemma_flags_of_list_poisoned(items: Seq<HostValue>, i: int)
    requires
        0 <= i < items.len(),
        !(items[i] matches HostValue::Atom(s) && spec_string_to_flag(s@) is Some),
    ensures
        spec_flags_of_list(items) is None,
    decreases items.len(),
{
    if items.len() - 1 > i {
        lemma_flags_of_list_poisoned(items.drop_last(), i);
    }
}

} // verus!
