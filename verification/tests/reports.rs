//! The structured reports the bridge renders for the host: engine
//! information, signature notations and verification results.

use exgpgme::HostValue;
use exgpgme::BridgeError;
use exgpgme::OpResult;
use exgpgme::Protocol;
use exgpgme::Validity;
use exgpgme::HashAlgorithm;
use exgpgme::KeyAlgorithm;
use exgpgme::PkaTrust;
use exgpgme::context;
use exgpgme::engine::EngineInfoData;
use exgpgme::engine::engine_info;
use exgpgme::engine::engine_info_to_term;
use exgpgme::notation::NotationData;
use exgpgme::notation::transform_signature_notation;
use exgpgme::value::NativeText;
use exgpgme::verification::SignatureData;
use exgpgme::verification::VerificationData;
use exgpgme::verification::transform_signature;
use exgpgme::verification::transform_verification_result;

fn atom(name: &str) -> HostValue {
    HostValue::Atom(name.to_string())
}

fn plain_signature() -> SignatureData {
    SignatureData {
        fingerprint: NativeText::Valid("ABCD".to_string()),
        validity: Validity::Full,
        hash_algorithm: HashAlgorithm::Sha256,
        key_algorithm: KeyAlgorithm::Eddsa,
        pka_trust: PkaTrust::Unknown,
        notations: vec![],
    }
}

#[test]
fn engine_info_renders_all_fields() {
    let data = EngineInfoData {
        protocol: Protocol::OpenPgp,
        path: NativeText::Valid("/usr/bin/gpg".to_string()),
        home_dir: NativeText::Absent,
        version: NativeText::Valid("2.4.4".to_string()),
        required_version: NativeText::Valid("1.4.0".to_string()),
    };
    let rec = engine_info_to_term(&data).unwrap();
    assert_eq!(rec.protocol, atom("open_pgp"));
    assert_eq!(rec.path, "/usr/bin/gpg");
    // An absent field reads as the empty string.
    assert_eq!(rec.home_dir, "");
    assert_eq!(rec.version, "2.4.4");
    assert_eq!(rec.required_version, "1.4.0");
}

#[test]
fn engine_info_field_that_is_not_utf8_fails_the_query() {
    let data = EngineInfoData {
        protocol: Protocol::OpenPgp,
        path: NativeText::Valid("/usr/bin/gpg".to_string()),
        home_dir: NativeText::NotUtf8,
        version: NativeText::Valid("2.4.4".to_string()),
        required_version: NativeText::Absent,
    };
    assert!(engine_info_to_term(&data).is_none());
    let wrapped = engine_info(&data);
    assert_eq!(
        wrapped,
        OpResult::Failure("Could not decode cyphertext to utf8".to_string())
    );
}

#[test]
fn notation_renders_names_and_values() {
    let rec = transform_signature_notation(&NotationData {
        name: NativeText::Valid("issuer@example.org".to_string()),
        value: NativeText::Valid("policy".to_string()),
        is_human_readable: true,
        is_critical: false,
    })
    .unwrap();
    assert_eq!(rec.name, Some("issuer@example.org".to_string()));
    assert_eq!(rec.value, Some("policy".to_string()));
    assert!(rec.is_human_readable);
    assert!(!rec.is_critical);

    // A policy URL has no name: it renders as nothing, not as a crash.
    let rec = transform_signature_notation(&NotationData {
        name: NativeText::Absent,
        value: NativeText::Valid("https://example.org/policy".to_string()),
        is_human_readable: false,
        is_critical: true,
    })
    .unwrap();
    assert_eq!(rec.name, None);
    assert_eq!(rec.value, Some("https://example.org/policy".to_string()));
}

#[test]
fn notation_that_is_not_utf8_fails() {
    let r = transform_signature_notation(&NotationData {
        name: NativeText::Valid("n".to_string()),
        value: NativeText::NotUtf8,
        is_human_readable: false,
        is_critical: false,
    });
    assert!(r.is_none());
}

#[test]
fn signature_renders_tagged_values_through_the_tables() {
    let rec = transform_signature(&plain_signature()).unwrap();
    assert_eq!(rec.fingerprint, Some("ABCD".to_string()));
    assert_eq!(rec.validity, atom("full"));
    assert_eq!(rec.hash_algorithm, atom("sha256"));
    assert_eq!(rec.key_algorithm, atom("eddsa"));
    assert_eq!(rec.pka_trust, atom("unknown"));
    assert!(rec.notations.is_empty());
}

#[test]
fn signature_with_raw_algorithm_uses_escape_tuple() {
    let mut sig = plain_signature();
    sig.hash_algorithm = HashAlgorithm::Other(333);
    let rec = transform_signature(&sig).unwrap();
    assert_eq!(
        rec.hash_algorithm,
        HostValue::Tuple(vec![atom("other"), HostValue::Int(333)])
    );
}

#[test]
fn verification_result_renders_every_signature() {
    let data = VerificationData {
        filename: NativeText::Valid("statement.txt".to_string()),
        signatures: vec![plain_signature(), plain_signature()],
    };
    let rec = transform_verification_result(&data).unwrap();
    assert_eq!(rec.filename, Some("statement.txt".to_string()));
    assert_eq!(rec.signatures.len(), 2);
}

#[test]
fn verification_result_fails_on_any_bad_field() {
    let mut bad = plain_signature();
    bad.notations.push(NotationData {
        name: NativeText::NotUtf8,
        value: NativeText::Absent,
        is_human_readable: false,
        is_critical: false,
    });
    let data = VerificationData {
        filename: NativeText::Absent,
        signatures: vec![plain_signature(), bad],
    };
    assert!(transform_verification_result(&data).is_none());
}

#[test]
fn verify_opaque_wraps_report_and_diagnostics() {
    // An engine diagnostic is carried through verbatim.
    let diag = context::verify_opaque(Err("Bad signature".to_string()));
    assert_eq!(diag, Err(BridgeError::Message("Bad signature".to_string())));

    // A result with a field that is not UTF-8 yields the fixed sentinel.
    let broken = VerificationData {
        filename: NativeText::NotUtf8,
        signatures: vec![],
    };
    assert_eq!(
        context::verify_opaque(Ok(broken)),
        Ok(OpResult::Failure(
            "Could not decode cyphertext to utf8".to_string()
        ))
    );
}

#[test]
fn detached_sign_then_verify_scenario() {
    // Sign a message with the detached mode symbol.
    let mode = exgpgme::sign_mode::arg_to_sign_mode(&atom("detached")).unwrap();
    assert_eq!(mode, exgpgme::SignMode::Detached);
    // The engine hands back the detached signature bytes as text.
    let signature = context::decrypt(Ok(b"-----BEGIN PGP SIGNATURE-----".to_vec())).unwrap();
    assert!(matches!(signature, OpResult::Success(_)));

    // Verifying the signature against the original data yields a report
    // with exactly one entry whose validity is a defined symbol.
    let data = VerificationData {
        filename: NativeText::Absent,
        signatures: vec![plain_signature()],
    };
    let report = match context::verify_opaque(Ok(data)) {
        Ok(OpResult::Success(rec)) => rec,
        other => panic!("expected a report, got {:?}", other),
    };
    assert_eq!(report.signatures.len(), 1);
    assert_eq!(report.signatures[0].validity, atom("full"));
}
