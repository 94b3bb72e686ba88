//! The context state model and the operation surface around it: creation,
//! configuration switches, named flags, validation before engine calls,
//! and the rendering of engine answers.

use exgpgme::HostValue;
use exgpgme::BridgeError;
use exgpgme::OpResult;
use exgpgme::Protocol;
use exgpgme::PinentryMode;
use exgpgme::Validity;
use exgpgme::KeyAlgorithm;
use exgpgme::KeyData;
use exgpgme::keys_not_empty;
use exgpgme::context;
use exgpgme::dispatch::classify;
use exgpgme::dispatch::ExecutionClass;
use exgpgme::dispatch::Operation;
use exgpgme::helpers::decode_context_result;

fn atom(name: &str) -> HostValue {
    HostValue::Atom(name.to_string())
}

fn other_pair(code: u32) -> HostValue {
    HostValue::Tuple(vec![atom("other"), HostValue::Int(code)])
}

fn test_key() -> KeyData {
    KeyData {
        fingerprint: "55D1B5B2F01D2EFD2D5DD7F7ADDACE6EBB02BB23".to_string(),
        validity: Validity::Full,
        key_algorithm: KeyAlgorithm::Rsa,
    }
}

#[test]
fn from_protocol_builds_default_state() {
    let state = context::from_protocol(&atom("open_pgp")).unwrap();
    assert_eq!(state.get_protocol(), Protocol::OpenPgp);
    assert!(!state.armor());
    assert!(!state.text_mode());
    assert!(!state.offline());
    assert_eq!(state.get_pinentry_mode(), PinentryMode::Default);
}

#[test]
fn from_protocol_rejects_bad_argument() {
    assert!(matches!(
        context::from_protocol(&atom("telepathy")),
        Err(BridgeError::BadArg)
    ));
    assert!(matches!(
        context::from_protocol(&HostValue::Int(3)),
        Err(BridgeError::BadArg)
    ));
}

#[test]
fn switches_set_and_read_back() {
    let mut state = context::from_protocol(&atom("open_pgp")).unwrap();
    state.set_armor(true);
    assert!(state.armor());
    state.set_text_mode(true);
    assert!(state.text_mode());
    state.set_offline(true);
    assert!(state.offline());
    state.set_armor(false);
    assert!(!state.armor());
    // The other switches keep their values.
    assert!(state.text_mode());
    assert!(state.offline());
}

#[test]
fn pinentry_mode_sets_and_reads_back() {
    let mut state = context::from_protocol(&atom("open_pgp")).unwrap();
    assert_eq!(state.set_pinentry_mode(&atom("loopback")), Ok(()));
    assert_eq!(state.get_pinentry_mode(), PinentryMode::Loopback);
    // A malformed mode is rejected and the state is untouched.
    assert_eq!(
        state.set_pinentry_mode(&atom("shout")),
        Err(BridgeError::BadArg)
    );
    assert_eq!(state.get_pinentry_mode(), PinentryMode::Loopback);
}

#[test]
fn get_flag_on_unset_name_is_not_set_error() {
    let state = context::from_protocol(&atom("open_pgp")).unwrap();
    let r = state.get_flag(&"auto-key-retrieve".to_string());
    assert!(matches!(r, Err(BridgeError::NotSet)));
}

#[test]
fn set_flag_then_get_flag_returns_value() {
    let mut state = context::from_protocol(&atom("open_pgp")).unwrap();
    state.set_flag(&"trust-model".to_string(), &"tofu".to_string());
    let r = state.get_flag(&"trust-model".to_string()).unwrap();
    assert_eq!(r.flag, "tofu");
    // An unrelated name still reads as not set.
    assert!(matches!(
        state.get_flag(&"no-symkey-cache".to_string()),
        Err(BridgeError::NotSet)
    ));
}

#[test]
fn set_flag_twice_last_value_wins() {
    let mut state = context::from_protocol(&atom("open_pgp")).unwrap();
    state.set_flag(&"trust-model".to_string(), &"pgp".to_string());
    state.set_flag(&"trust-model".to_string(), &"tofu".to_string());
    let r = state.get_flag(&"trust-model".to_string()).unwrap();
    assert_eq!(r.flag, "tofu");
}

#[test]
fn engine_paths_record_what_was_set() {
    let mut state = context::from_protocol(&atom("open_pgp")).unwrap();
    state.set_engine_path("/usr/bin/gpg".to_string());
    state.set_engine_home_dir("/tmp/ring".to_string());
    assert_eq!(state.engine_path, Some("/usr/bin/gpg".to_string()));
    assert_eq!(state.engine_home_dir, Some("/tmp/ring".to_string()));
}

#[test]
fn keys_not_empty_rejects_zero() {
    assert!(matches!(keys_not_empty(0), Err(BridgeError::BadArg)));
    assert_eq!(keys_not_empty(1), Ok(()));
    assert_eq!(keys_not_empty(12), Ok(()));
}

#[test]
fn encrypt_with_empty_recipients_is_argument_error() {
    let no_keys: Vec<KeyData> = vec![];
    let r = context::encrypt_with_flags(&no_keys, &HostValue::List(vec![]));
    assert!(matches!(r, Err(BridgeError::BadArg)));
    // The same holds even when the flag list alone would be fine.
    let r = context::encrypt_with_flags(&no_keys, &HostValue::List(vec![atom("wrap")]));
    assert!(matches!(r, Err(BridgeError::BadArg)));
}

#[test]
fn sign_and_encrypt_with_empty_recipients_is_argument_error() {
    let no_keys: Vec<KeyData> = vec![];
    let r = context::sign_and_encrypt_with_flags(&no_keys, &HostValue::List(vec![]));
    assert!(matches!(r, Err(BridgeError::BadArg)));
}

#[test]
fn encrypt_with_recipients_decodes_flags() {
    let keys = vec![test_key()];
    let r = context::encrypt_with_flags(
        &keys,
        &HostValue::List(vec![atom("always_trust"), atom("no_compress")]),
    );
    assert_eq!(r, Ok(17));
    let none = context::encrypt_with_flags(&keys, &HostValue::List(vec![]));
    assert_eq!(none, Ok(0));
}

#[test]
fn encrypt_rejects_unknown_flag_symbol() {
    let keys = vec![test_key()];
    let r = context::encrypt_with_flags(&keys, &HostValue::List(vec![atom("hurry")]));
    assert!(matches!(r, Err(BridgeError::BadArg)));
    // A flag argument that is not a list at all is rejected too.
    let r = context::encrypt_with_flags(&keys, &atom("always_trust"));
    assert!(matches!(r, Err(BridgeError::BadArg)));
}

#[test]
fn decrypt_renders_engine_answers() {
    // Recovered cleartext is handed back as text.
    let ok = context::decrypt(Ok(b"attack at dawn".to_vec()));
    assert_eq!(ok, Ok(OpResult::Success("attack at dawn".to_string())));
    // An engine diagnostic is carried through verbatim.
    let diag = context::decrypt(Err("No secret key".to_string()));
    assert_eq!(diag, Err(BridgeError::Message("No secret key".to_string())));
    // Cleartext that is not UTF-8 yields the fixed sentinel.
    let bad = context::decrypt(Ok(vec![0xff, 0xfe, 0x01]));
    assert_eq!(
        bad,
        Ok(OpResult::Failure(
            "Could not decode cyphertext to utf8".to_string()
        ))
    );
}

#[test]
fn decode_context_result_distinguishes_utf8() {
    assert_eq!(
        decode_context_result(b"hello".to_vec()),
        OpResult::Success("hello".to_string())
    );
    assert_eq!(
        decode_context_result(vec![0x80]),
        OpResult::Failure("Could not decode cyphertext to utf8".to_string())
    );
    assert_eq!(decode_context_result(vec![]), OpResult::Success(String::new()));
}

#[test]
fn import_renders_report_or_diagnostic() {
    let data = exgpgme::import_result::ImportData {
        fingerprint: Some("ABCD1234".to_string()),
    };
    let rec = context::import(Ok(data)).unwrap();
    assert_eq!(rec.fingerprint, "ABCD1234");
    let diag = context::import(Err("import failed".to_string()));
    assert_eq!(
        diag,
        Err(BridgeError::Message("import failed".to_string()))
    );
}

#[test]
fn classification_table_is_fixed() {
    let inline = [
        Operation::FromProtocol,
        Operation::GetProtocol,
        Operation::Armor,
        Operation::SetArmor,
        Operation::TextMode,
        Operation::SetTextMode,
        Operation::Offline,
        Operation::SetOffline,
        Operation::GetFlag,
        Operation::SetFlag,
        Operation::EngineInfo,
        Operation::SetEnginePath,
        Operation::SetEngineHomeDir,
        Operation::GetPinentryMode,
        Operation::SetPinentryMode,
    ];
    for op in inline {
        assert_eq!(classify(&op), ExecutionClass::Inline);
    }
    let offloaded = [
        Operation::Import,
        Operation::FindKey,
        Operation::DeleteKey,
        Operation::DeleteSecretKey,
        Operation::Decrypt,
        Operation::EncryptWithFlags,
        Operation::SignAndEncryptWithFlags,
        Operation::SignWithMode,
        Operation::VerifyOpaque,
    ];
    for op in offloaded {
        assert_eq!(classify(&op), ExecutionClass::Offloaded);
    }
}

#[test]
fn open_pgp_session_round_trip_scenario() {
    // Create a context for the OpenPGP protocol and turn armor on.
    let mut state = context::from_protocol(&atom("open_pgp")).unwrap();
    state.set_armor(true);
    assert!(state.armor());

    // Import a key: the engine reports the key's fingerprint, and the
    // bridge renders the structured import report.
    let key = test_key();
    let imported = context::import(Ok(exgpgme::import_result::ImportData {
        fingerprint: Some(key.fingerprint.clone()),
    }))
    .unwrap();
    assert_eq!(imported.fingerprint, key.fingerprint);

    // Finding the key yields a record whose validity is a named symbol.
    let validity_term = exgpgme::validity::transform_validity(&key.validity);
    assert_eq!(validity_term, atom("full"));

    // Encrypt "hello" to that key: validation passes and the engine takes
    // over; it answers with the ciphertext bytes, here armored text.
    let flags = context::encrypt_with_flags(
        &vec![key],
        &HostValue::List(vec![atom("always_trust")]),
    )
    .unwrap();
    assert_eq!(flags, exgpgme::encrypt_flags::ENCRYPT_ALWAYS_TRUST);
    let ciphertext = b"-----BEGIN PGP MESSAGE-----\nhQEMA...\n-----END PGP MESSAGE-----\n";
    let encrypted = context::decrypt(Ok(ciphertext.to_vec())).unwrap();
    assert_eq!(
        encrypted,
        OpResult::Success(String::from_utf8(ciphertext.to_vec()).unwrap())
    );

    // Decrypting hands back exactly the engine's recovered plaintext.
    let decrypted = context::decrypt(Ok(b"hello".to_vec())).unwrap();
    assert_eq!(decrypted, OpResult::Success("hello".to_string()));
}

#[test]
fn other_protocol_code_survives_round_trip_scenario() {
    // Request the escape-hatch protocol {other, 9999}.
    let state = context::from_protocol(&other_pair(9999)).unwrap();
    // Reading the protocol back and encoding it yields {other, 9999}.
    let read_back = state.get_protocol();
    assert_eq!(read_back, Protocol::Other(9999));
    assert_eq!(
        exgpgme::protocol::protocol_to_nif(&read_back),
        other_pair(9999)
    );
}
