//! The enumeration codecs: decoding tables, encoding tables, escape
//! tuples, and the round trips between them.

use exgpgme::HostValue;
use exgpgme::BridgeError;
use exgpgme::Protocol;
use exgpgme::PinentryMode;
use exgpgme::SignMode;
use exgpgme::Validity;
use exgpgme::HashAlgorithm;
use exgpgme::KeyAlgorithm;
use exgpgme::PkaTrust;
use exgpgme::protocol::arg_to_protocol;
use exgpgme::protocol::protocol_to_nif;
use exgpgme::pinentry_mode::arg_to_pinentry_mode;
use exgpgme::pinentry_mode::pinentry_mode_to_term;
use exgpgme::sign_mode::arg_to_sign_mode;
use exgpgme::sign_mode::sign_mode_to_nif;
use exgpgme::validity::arg_to_validity;
use exgpgme::validity::transform_validity;
use exgpgme::hash_algorithm::arg_to_hash_algorithm;
use exgpgme::hash_algorithm::transform_hash_algorithm;
use exgpgme::key_algorithm::arg_to_key_algorithm;
use exgpgme::key_algorithm::transform_key_algorithm;
use exgpgme::pka_trust::arg_to_pka_trust;
use exgpgme::pka_trust::transform_pka_trust;
use exgpgme::encrypt_flags;

fn atom(name: &str) -> HostValue {
    HostValue::Atom(name.to_string())
}

fn other_pair(code: u32) -> HostValue {
    HostValue::Tuple(vec![atom("other"), HostValue::Int(code)])
}

#[test]
fn protocol_named_variants_decode() {
    assert_eq!(arg_to_protocol(&atom("open_pgp")), Ok(Protocol::OpenPgp));
    assert_eq!(arg_to_protocol(&atom("cms")), Ok(Protocol::Cms));
    assert_eq!(arg_to_protocol(&atom("gpg_conf")), Ok(Protocol::GpgConf));
    assert_eq!(arg_to_protocol(&atom("assuan")), Ok(Protocol::Assuan));
    assert_eq!(arg_to_protocol(&atom("g13")), Ok(Protocol::G13));
    assert_eq!(arg_to_protocol(&atom("ui_server")), Ok(Protocol::UiServer));
    assert_eq!(arg_to_protocol(&atom("spawn")), Ok(Protocol::Spawn));
    assert_eq!(arg_to_protocol(&atom("default")), Ok(Protocol::Default));
    assert_eq!(arg_to_protocol(&atom("unknown")), Ok(Protocol::Unknown));
}

#[test]
fn protocol_round_trip_all_named_variants() {
    let variants = [
        Protocol::OpenPgp,
        Protocol::Cms,
        Protocol::GpgConf,
        Protocol::Assuan,
        Protocol::G13,
        Protocol::UiServer,
        Protocol::Spawn,
        Protocol::Default,
        Protocol::Unknown,
    ];
    for v in variants {
        assert_eq!(arg_to_protocol(&protocol_to_nif(&v)), Ok(v));
    }
}

#[test]
fn protocol_round_trip_escape_variant() {
    let encoded = protocol_to_nif(&Protocol::Other(9999));
    assert_eq!(encoded, other_pair(9999));
    assert_eq!(arg_to_protocol(&encoded), Ok(Protocol::Other(9999)));
}

#[test]
fn protocol_rejects_unknown_atom() {
    assert_eq!(arg_to_protocol(&atom("pgp")), Err(BridgeError::BadArg));
    assert_eq!(arg_to_protocol(&atom("")), Err(BridgeError::BadArg));
    // The escape symbol is not accepted as a bare atom.
    assert_eq!(arg_to_protocol(&atom("other")), Err(BridgeError::BadArg));
}

#[test]
fn protocol_rejects_malformed_tuples() {
    // Wrong arity.
    assert_eq!(
        arg_to_protocol(&HostValue::Tuple(vec![atom("other")])),
        Err(BridgeError::BadArg)
    );
    assert_eq!(
        arg_to_protocol(&HostValue::Tuple(vec![
            atom("other"),
            HostValue::Int(1),
            HostValue::Int(2)
        ])),
        Err(BridgeError::BadArg)
    );
    // First element is not the literal symbol `other`.
    assert_eq!(
        arg_to_protocol(&HostValue::Tuple(vec![atom("misc"), HostValue::Int(1)])),
        Err(BridgeError::BadArg)
    );
    // First element is not an atom at all.
    assert_eq!(
        arg_to_protocol(&HostValue::Tuple(vec![
            HostValue::Int(7),
            HostValue::Int(1)
        ])),
        Err(BridgeError::BadArg)
    );
    // Second element is not an unsigned integer.
    assert_eq!(
        arg_to_protocol(&HostValue::Tuple(vec![atom("other"), atom("nine")])),
        Err(BridgeError::BadArg)
    );
}

#[test]
fn protocol_rejects_other_shapes() {
    assert_eq!(arg_to_protocol(&HostValue::Int(1)), Err(BridgeError::BadArg));
    assert_eq!(
        arg_to_protocol(&HostValue::Bool(true)),
        Err(BridgeError::BadArg)
    );
    assert_eq!(
        arg_to_protocol(&HostValue::Text("open_pgp".to_string())),
        Err(BridgeError::BadArg)
    );
    assert_eq!(
        arg_to_protocol(&HostValue::List(vec![atom("open_pgp")])),
        Err(BridgeError::BadArg)
    );
}

#[test]
fn pinentry_mode_round_trip_all_variants() {
    let variants = [
        PinentryMode::Default,
        PinentryMode::Ask,
        PinentryMode::Cancel,
        PinentryMode::Error,
        PinentryMode::Loopback,
        PinentryMode::Other(321),
    ];
    for v in variants {
        assert_eq!(arg_to_pinentry_mode(&pinentry_mode_to_term(&v)), Ok(v));
    }
}

#[test]
fn pinentry_mode_decodes_named_symbols() {
    assert_eq!(arg_to_pinentry_mode(&atom("ask")), Ok(PinentryMode::Ask));
    assert_eq!(
        arg_to_pinentry_mode(&atom("loopback")),
        Ok(PinentryMode::Loopback)
    );
    assert_eq!(arg_to_pinentry_mode(&other_pair(5)), Ok(PinentryMode::Other(5)));
    assert_eq!(arg_to_pinentry_mode(&atom("other")), Err(BridgeError::BadArg));
    assert_eq!(arg_to_pinentry_mode(&atom("pin")), Err(BridgeError::BadArg));
}

#[test]
fn sign_mode_round_trip_all_variants() {
    let variants = [
        SignMode::Normal,
        SignMode::Detached,
        SignMode::Clear,
        SignMode::Other(17),
    ];
    for v in variants {
        assert_eq!(arg_to_sign_mode(&sign_mode_to_nif(&v)), Ok(v));
    }
}

#[test]
fn sign_mode_decodes_named_symbols() {
    assert_eq!(arg_to_sign_mode(&atom("normal")), Ok(SignMode::Normal));
    assert_eq!(arg_to_sign_mode(&atom("detached")), Ok(SignMode::Detached));
    assert_eq!(arg_to_sign_mode(&atom("clear")), Ok(SignMode::Clear));
    assert_eq!(arg_to_sign_mode(&atom("opaque")), Err(BridgeError::BadArg));
}

#[test]
fn validity_round_trip_all_variants() {
    let variants = [
        Validity::Unknown,
        Validity::Undefined,
        Validity::Never,
        Validity::Marginal,
        Validity::Full,
        Validity::Ultimate,
        Validity::Other(42),
    ];
    for v in variants {
        assert_eq!(arg_to_validity(&transform_validity(&v)), Ok(v));
    }
}

#[test]
fn validity_encodes_named_symbols() {
    assert_eq!(transform_validity(&Validity::Full), atom("full"));
    assert_eq!(transform_validity(&Validity::Ultimate), atom("ultimate"));
    assert_eq!(arg_to_validity(&atom("sometimes")), Err(BridgeError::BadArg));
}

#[test]
fn hash_algorithm_round_trip_all_variants() {
    let variants = [
        HashAlgorithm::NoneAlgorithm,
        HashAlgorithm::Md2,
        HashAlgorithm::Md4,
        HashAlgorithm::Md5,
        HashAlgorithm::Sha1,
        HashAlgorithm::Sha224,
        HashAlgorithm::Sha256,
        HashAlgorithm::Sha384,
        HashAlgorithm::Sha512,
        HashAlgorithm::RipeMd160,
        HashAlgorithm::Tiger,
        HashAlgorithm::Haval,
        HashAlgorithm::Crc32,
        HashAlgorithm::Crc32Rfc1510,
        HashAlgorithm::Crc24Rfc2440,
        HashAlgorithm::Other(808),
    ];
    for v in variants {
        assert_eq!(
            arg_to_hash_algorithm(&transform_hash_algorithm(&v).encode()),
            Ok(v)
        );
    }
}

#[test]
fn hash_algorithm_encodes_named_and_escape() {
    assert_eq!(
        transform_hash_algorithm(&HashAlgorithm::Sha256).encode(),
        atom("sha256")
    );
    assert_eq!(
        transform_hash_algorithm(&HashAlgorithm::Other(77)).encode(),
        other_pair(77)
    );
}

#[test]
fn key_algorithm_round_trip_all_variants() {
    let variants = [
        KeyAlgorithm::Rsa,
        KeyAlgorithm::RsaEncrypt,
        KeyAlgorithm::RsaSign,
        KeyAlgorithm::ElgamalEncrypt,
        KeyAlgorithm::Dsa,
        KeyAlgorithm::Ecc,
        KeyAlgorithm::Elgamal,
        KeyAlgorithm::Ecdsa,
        KeyAlgorithm::Ecdh,
        KeyAlgorithm::Eddsa,
        KeyAlgorithm::Other(404),
    ];
    for v in variants {
        assert_eq!(
            arg_to_key_algorithm(&transform_key_algorithm(&v).encode()),
            Ok(v)
        );
    }
}

#[test]
fn key_algorithm_encodes_named_and_escape() {
    assert_eq!(
        transform_key_algorithm(&KeyAlgorithm::Eddsa).encode(),
        atom("eddsa")
    );
    assert_eq!(
        transform_key_algorithm(&KeyAlgorithm::Other(5)).encode(),
        other_pair(5)
    );
}

#[test]
fn pka_trust_round_trip_all_variants() {
    let variants = [
        PkaTrust::Unknown,
        PkaTrust::Bad,
        PkaTrust::Okay,
        PkaTrust::Other(3),
    ];
    for v in variants {
        assert_eq!(arg_to_pka_trust(&transform_pka_trust(&v).encode()), Ok(v));
    }
}

#[test]
fn string_to_flag_exact_bits() {
    let table = [
        ("always_trust", encrypt_flags::ENCRYPT_ALWAYS_TRUST),
        ("expect_sign", encrypt_flags::ENCRYPT_EXPECT_SIGN),
        ("no_compress", encrypt_flags::ENCRYPT_NO_COMPRESS),
        ("no_encrypt_to", encrypt_flags::ENCRYPT_NO_ENCRYPT_TO),
        ("prepare", encrypt_flags::ENCRYPT_PREPARE),
        ("symmetric", encrypt_flags::ENCRYPT_SYMMETRIC),
        ("throw_keyids", encrypt_flags::ENCRYPT_THROW_KEYIDS),
        ("wrap", encrypt_flags::ENCRYPT_WRAP),
    ];
    for (name, bit) in table {
        assert_eq!(encrypt_flags::string_to_flag(&name.to_string()), Ok(bit));
    }
    assert_eq!(encrypt_flags::ENCRYPT_ALWAYS_TRUST, 1);
    assert_eq!(encrypt_flags::ENCRYPT_NO_ENCRYPT_TO, 2);
    assert_eq!(encrypt_flags::ENCRYPT_PREPARE, 4);
    assert_eq!(encrypt_flags::ENCRYPT_EXPECT_SIGN, 8);
    assert_eq!(encrypt_flags::ENCRYPT_NO_COMPRESS, 16);
    assert_eq!(encrypt_flags::ENCRYPT_SYMMETRIC, 32);
    assert_eq!(encrypt_flags::ENCRYPT_THROW_KEYIDS, 64);
    assert_eq!(encrypt_flags::ENCRYPT_WRAP, 128);
    assert_eq!(
        encrypt_flags::string_to_flag(&"trust".to_string()),
        Err(BridgeError::BadArg)
    );
}

#[test]
fn flag_list_decodes_to_union_of_bits() {
    let flags = encrypt_flags::arg_to_protocol(&vec![atom("always_trust"), atom("wrap")]);
    assert_eq!(flags, Ok(129));
    let empty = encrypt_flags::arg_to_protocol(&vec![]);
    assert_eq!(empty, Ok(0));
    let repeated =
        encrypt_flags::arg_to_protocol(&vec![atom("symmetric"), atom("symmetric")]);
    assert_eq!(repeated, Ok(32));
}

#[test]
fn flag_list_fails_fast_on_unknown_symbol() {
    let flags = encrypt_flags::arg_to_protocol(&vec![
        atom("always_trust"),
        atom("trust_nobody"),
        atom("wrap"),
    ]);
    assert_eq!(flags, Err(BridgeError::BadArg));
    let not_an_atom =
        encrypt_flags::arg_to_protocol(&vec![atom("wrap"), HostValue::Int(1)]);
    assert_eq!(not_an_atom, Err(BridgeError::BadArg));
}
