//! The structured verification report.
//!
//! Verifying an opaque signature yields a report: the signed file's name,
//! if any, and one entry per signature with its validity, algorithms,
//! PKA trust and notations. Any text field that is not valid UTF-8 turns
//! the whole report into a decode failure.

use vstd::prelude::*;
use crate::hash_algorithm::HashAlgorithm;
use crate::hash_algorithm::is_hash_algorithm_encoding;
use crate::hash_algorithm::transform_hash_algorithm;
use crate::key_algorithm::KeyAlgorithm;
use crate::key_algorithm::is_key_algorithm_encoding;
use crate::key_algorithm::transform_key_algorithm;
use crate::notation::NotationData;
use crate::notation::NotationRecord;
use crate::notation::is_notation_record;
use crate::notation::spec_notation_ok;
use crate::notation::transform_signature_notation;
use crate::pka_trust::PkaTrust;
use crate::pka_trust::is_pka_trust_encoding;
use crate::pka_trust::transform_pka_trust;
use crate::validity::Validity;
use crate::validity::is_validity_encoding;
use crate::validity::transform_validity;
use crate::value::HostValue;
use crate::value::NativeText;
use crate::value::is_opt_text;
use crate::value::string_or_null;

verus! {

/// One signature of a verification result, as read from the native
/// object.
#[derive(Debug, Clone, PartialEq, Eq)]
pub struct SignatureData {
    /// The fingerprint of the signing key, if the native object carries
    /// one.
    pub fingerprint: NativeText,
    /// The signature's validity.
    pub validity: Validity,
    /// The hash algorithm used for the signature.
    pub hash_algorithm: HashAlgorithm,
    /// The public-key algorithm used for the signature.
    pub key_algorithm: KeyAlgorithm,
    /// The PKA trust the native engine attaches to the signature.
    pub pka_trust: PkaTrust,
    /// The notations attached to the signature.
    pub notations: Vec<NotationData>,
}

/// One signature of a verification report, as handed to the host.
#[derive(Debug, PartialEq, Eq)]
pub struct SignatureRecord {
    pub fingerprint: Option<String>,
    /// The encoded validity symbol.
    pub validity: HostValue,
    /// The encoded hash algorithm symbol or escape tuple.
    pub hash_algorithm: HostValue,
    /// The encoded key algorithm symbol or escape tuple.
    pub key_algorithm: HostValue,
    /// The encoded PKA trust symbol or escape tuple.
    pub pka_trust: HostValue,
    pub notations: Vec<NotationRecord>,
}

/// Every text field of the signature and its notations can be rendered
/// for the host.
pub open spec fn spec_signature_ok(s: SignatureData) -> bool {
    s.fingerprint.is_decodable() && forall|i: int|
        0 <= i < s.notations@.len() ==> spec_notation_ok(#[trigger] s.notations@[i])
}

/// The record renders the signature field for field: each tagged value
/// through its encoding table, each notation through its record.
pub open spec fn is_signature_record(s: SignatureData, r: SignatureRecord) -> bool {
    &&& is_opt_text(s.fingerprint, r.fingerprint)
    &&& is_validity_encoding(s.validity, r.validity)
    &&& is_hash_algorithm_encoding(s.hash_algorithm, r.hash_algorithm)
    &&& is_key_algorithm_encoding(s.key_algorithm, r.key_algorithm)
    &&& is_pka_trust_encoding(s.pka_trust, r.pka_trust)
    &&& r.notations@.len() == s.notations@.len()
    &&& forall|i: int|
        0 <= i < s.notations@.len() ==> is_notation_record(
            s.notations@[i],
            #[trigger] r.notations@[i],
        )
}

/// Builds the host-facing record of one signature; any text field that is
/// not valid UTF-8 fails the report.
pub fn transform_signature(signature: &SignatureData) -> (r: Option<SignatureRecord>)
    ensures
        r is Some <==> spec_signature_ok(*signature),
        r matches Some(rec) ==> is_signature_record(*signature, rec),
{
    let fingerprint = match string_or_null(&signature.fingerprint) {
        Some(o) => o,
        None => {
            return None;
        },
    };
    let mut notations: Vec<NotationRecord> = Vec::new();
    let mut i: usize = 0;
    while i < signature.notations.len()
        invariant
            0 <= i <= signature.notations@.len(),
            notations@.len() == i,
            forall|j: int| 0 <= j < i ==> spec_notation_ok(#[trigger] signature.notations@[j]),
            forall|j: int|
                0 <= j < i ==> is_notation_record(
                    signature.notations@[j],
                    #[trigger] notations@[j],
                ),
        decreases signature.notations@.len() - i,
    {
        match transform_signature_notation(&signature.notations[i]) {
            Some(rec) => notations.push(rec),
            None => {
                return None;
            },
        }
        i = i + 1;
    }
    Some(
        SignatureRecord {
            fingerprint,
            validity: transform_validity(&signature.validity),
            hash_algorithm: transform_hash_algorithm(&signature.hash_algorithm).encode(),
            key_algorithm: transform_key_algorithm(&signature.key_algorithm).encode(),
            pka_trust: transform_pka_trust(&signature.pka_trust).encode(),
            notations,
        },
    )
}

/// A verification result, as read from the native object.
#[derive(Debug, Clone, PartialEq, Eq)]
pub struct VerificationData {
    /// The signed file's name, if the native object carries one.
    pub filename: NativeText,
    /// The signatures found on the data.
    pub signatures: Vec<SignatureData>,
}

/// A verification report, as handed to the host.
#[derive(Debug, PartialEq, Eq)]
pub struct VerificationRecord {
    pub filename: Option<String>,
    pub signatures: Vec<SignatureRecord>,
}

/// Every text field of the result, across all signatures, can be rendered
/// for the host.
pub open spec fn spec_verification_ok(d: VerificationData) -> bool {
    d.filename.is_decodable() && forall|i: int|
        0 <= i < d.signatures@.len() ==> spec_signature_ok(#[trigger] d.signatures@[i])
}

/// The report renders the result field for field, one record per
/// signature, in order.
pub open spec fn is_verification_record(d: VerificationData, r: VerificationRecord) -> bool {
    &&& is_opt_text(d.filename, r.filename)
    &&& r.signatures@.len() == d.signatures@.len()
    &&& forall|i: int|
        0 <= i < d.signatures@.len() ==> is_signature_record(
            d.signatures@[i],
            #[trigger] r.signatures@[i],
        )
}

/// Builds the host-facing verification report; any text field that is not
/// valid UTF-8, in the file name or in any signature, fails the report.
pub fn transform_verification_result(data: &VerificationData) -> (r: Option<VerificationRecord>)
    ensures
        r is Some <==> spec_verification_ok(*data),
        r matches Some(rec) ==> is_verification_record(*data, rec),
{
    let filename = match string_or_null(&data.filename) {
        Some(o) => o,
        None => {
            return None;
        },
    };
    let mut signatures: Vec<SignatureRecord> = Vec::new();
    let mut i: usize = 0;
    while i < data.signatures.len()
        invariant
            0 <= i <= data.signatures@.len(),
            signatures@.len() == i,
            forall|j: int| 0 <= j < i ==> spec_signature_ok(#[trigger] data.signatures@[j]),
            forall|j: int|
                0 <= j < i ==> is_signature_record(
                    data.signatures@[j],
                    #[trigger] signatures@[j],
                ),
        decreases data.signatures@.len() - i,
    {
        match transform_signature(&data.signatures[i]) {
            Some(rec) => signatures.push(rec),
            None => {
                return None;
            },
        }
        i = i + 1;
    }
    Some(VerificationRecord { filename, signatures })
}

} // verus!
