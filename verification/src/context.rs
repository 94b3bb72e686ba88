//! The bridge's model of one native cryptographic context.
//!
//! A context handle wraps one native context object together with the
//! configuration the bridge manages for it: a protocol selector, the
//! operation-mode switches (armor, text mode, offline), a pinentry mode,
//! named string flags and the engine's path and home directory. Every
//! operation against a handle runs under one exclusive lock per handle, so
//! a caller never observes a half-mutated context; the state transitions
//! here say exactly what each operation does to the configuration.

use vstd::prelude::*;
use crate::error::BridgeError;
use crate::error::OpResult;
use crate::error::try_engine;
use crate::helpers::decode_context_result;
use crate::helpers::utf8_failure_message;
use crate::import_result::ImportData;
use crate::import_result::ImportRecord;
use crate::import_result::transform_import;
use crate::keys::KeyData;
use crate::keys::keys_not_empty;
use crate::pinentry_mode::PinentryMode;
use crate::pinentry_mode::arg_to_pinentry_mode;
use crate::pinentry_mode::spec_arg_to_pinentry_mode;
use crate::protocol::Protocol;
use crate::protocol::arg_to_protocol;
use crate::protocol::spec_arg_to_protocol;
use crate::encrypt_flags::spec_flags_of_list;
use crate::value::HostValue;
use crate::verification::VerificationData;
use crate::verification::VerificationRecord;
use crate::verification::is_verification_record;
use crate::verification::spec_verification_ok;
use crate::verification::transform_verification_result;
use vstd::utf8::decode_utf8;
use vstd::utf8::valid_utf8;

verus! {

/// The configuration state of one native context, as the bridge manages
/// it.
#[derive(Debug, Clone, PartialEq, Eq)]
pub struct ContextState {
    /// The protocol the context was created for.
    pub protocol: Protocol,
    /// Whether output is ASCII-armored.
    pub armor: bool,
    /// Whether the engine treats input as text.
    pub text_mode: bool,
    /// Whether the engine avoids network access.
    pub offline: bool,
    /// How the engine asks for passphrases.
    pub pinentry_mode: PinentryMode,
    /// Named string flags, in the order they were set; a later setting of
    /// the same name shadows an earlier one.
    pub flags: Vec<(String, String)>,
    /// The engine executable path, once set through the bridge.
    pub engine_path: Option<String>,
    /// The engine home directory, once set through the bridge.
    pub engine_home_dir: Option<String>,
}

/// The value a named flag holds in a flag store: that of the latest entry
/// with the name, or nothing if no entry carries it.
pub open spec fn spec_flag_value(flags: Seq<(String, String)>, name: Seq<char>) -> Option<
    Seq<char>,
>
    decreases flags.len(),
{
    if flags.len() == 0 {
        None
    } else if flags.last().0@ == name {
        Some(flags.last().1@)
    } else {
        spec_flag_value(flags.drop_last(), name)
    }
}

/// The successful answer to a flag query.
#[derive(Debug, Clone, PartialEq, Eq)]
pub struct GetFlagResponse {
    /// The flag's value.
    pub flag: String,
}

/// Creates the configuration state for a fresh context bound to the given
/// protocol: a malformed protocol value is rejected before the native
/// engine is asked to initialise anything; otherwise every switch starts
/// at its engine default.
pub fn from_protocol(protocol_arg: &HostValue) -> (r: Result<ContextState, BridgeError>)
    ensures
        match spec_arg_to_protocol(*protocol_arg) {
            Some(p) => r matches Ok(c) && c.protocol == p && c.armor == false && c.text_mode
                == false && c.offline == false && c.pinentry_mode == PinentryMode::Default
                && c.flags@.len() == 0 && c.engine_path is None && c.engine_home_dir is None,
            None => r matches Err(BridgeError::BadArg),
        },
{
    let protocol = arg_to_protocol(protocol_arg)?;
    Ok(
        ContextState {
            protocol,
            armor: false,
            text_mode: false,
            offline: false,
            pinentry_mode: PinentryMode::Default,
            flags: Vec::new(),
            engine_path: None,
            engine_home_dir: None,
        },
    )
}

impl ContextState {
    /// Reads the protocol the context is bound to.
    pub fn get_protocol(&self) -> (r: Protocol)
        ensures
            r == self.protocol,
    {
        self.protocol
    }

    /// Reads the offline switch.
    pub fn offline(&self) -> (r: bool)
        ensures
            r == self.offline,
    {
        self.offline
    }

    /// Sets the offline switch; nothing else changes.
    pub fn set_offline(&mut self, yes: bool)
        ensures
            *final(self) == (ContextState { offline: yes, ..*old(self) }),
    {
        self.offline = yes;
    }

    /// Reads the text-mode switch.
    pub fn text_mode(&self) -> (r: bool)
        ensures
            r == self.text_mode,
    {
        self.text_mode
    }

    /// Sets the text-mode switch; nothing else changes.
    pub fn set_text_mode(&mut self, yes: bool)
        ensures
            *final(self) == (ContextState { text_mode: yes, ..*old(self) }),
    {
        self.text_mode = yes;
    }

    /// Reads the armor switch.
    pub fn armor(&self) -> (r: bool)
        ensures
            r == self.armor,
    {
        self.armor
    }

    /// Sets the armor switch; nothing else changes.
    pub fn set_armor(&mut self, yes: bool)
        ensures
            *final(self) == (ContextState { armor: yes, ..*old(self) }),
    {
        self.armor = yes;
    }

    /// Reads the pinentry mode.
    pub fn get_pinentry_mode(&self) -> (r: PinentryMode)
        ensures
            r == self.pinentry_mode,
    {
        self.pinentry_mode
    }

    /// Decodes and sets the pinentry mode. A malformed mode value is
    /// rejected before the native engine is touched, and the state is left
    /// as it was.
    pub fn set_pinentry_mode(&mut self, mode_arg: &HostValue) -> (r: Result<(), BridgeError>)
        ensures
            match spec_arg_to_pinentry_mode(*mode_arg) {
                Some(m) => r matches Ok(()) && *final(self) == (ContextState {
                    pinentry_mode: m,
                    ..*old(self)
                }),
                None => r matches Err(BridgeError::BadArg) && *final(self) == *old(self),
            },
    {
        match arg_to_pinentry_mode(mode_arg) {
            Ok(mode) => {
                self.pinentry_mode = mode;
                Ok(())
            },
            Err(e) => Err(e),
        }
    }

    /// Reads a named flag. A name that was never set yields the
    /// distinguished not-set error, never a crash and never an empty
    /// stand-in value.
    pub fn get_flag(&self, name: &String) -> (r: Result<GetFlagResponse, BridgeError>)
        ensures
            match spec_flag_value(self.flags@, name@) {
                Some(v) => r matches Ok(resp) && resp.flag@ == v,
                None => r matches Err(BridgeError::NotSet),
            },
    {
        proof {
            assert(self.flags@.take(self.flags@.len() as int) =~= self.flags@);
        }
        let mut i: usize = self.flags.len();
        while i > 0
            invariant
                0 <= i <= self.flags@.len(),
                spec_flag_value(self.flags@, name@) == spec_flag_value(
                    self.flags@.take(i as int),
                    name@,
                ),
            decreases i,
        {
            i = i - 1;
            proof {
                assert(self.flags@.take(i + 1).drop_last() =~= self.flags@.take(i as int));
                assert(self.flags@.take(i + 1).last() == self.flags@[i as int]);
            }
            let pair = &self.flags[i];
            if pair.0 == *name {
                return Ok(GetFlagResponse { flag: pair.1.clone() });
            }
        }
        proof {
            assert(self.flags@.take(0) =~= Seq::<(String, String)>::empty());
        }
        Err(BridgeError::NotSet)
    }

    /// Sets a named flag: the name now reads as the given value, every
    /// other name reads as before, and the rest of the state is unchanged.
    pub fn set_flag(&mut self, name: &String, value: &String)
        ensures
            spec_flag_value(final(self).flags@, name@) == Some(value@),
            forall|n: Seq<char>|
                n != name@ ==> #[trigger] spec_flag_value(final(self).flags@, n)
                    == spec_flag_value(old(self).flags@, n),
            final(self).protocol == old(self).protocol,
            final(self).armor == old(self).armor,
            final(self).text_mode == old(self).text_mode,
            final(self).offline == old(self).offline,
            final(self).pinentry_mode == old(self).pinentry_mode,
            final(self).engine_path == old(self).engine_path,
            final(self).engine_home_dir == old(self).engine_home_dir,
    {
        self.flags.push((name.clone(), value.clone()));
        proof {
            assert(final(self).flags@.drop_last() =~= old(self).flags@);
        }
    }

    /// Records the engine executable path; nothing else changes. The
    /// native engine may still reject the path, in which case its
    /// diagnostic travels back through the envelope.
    pub fn set_engine_path(&mut self, path: String)
        ensures
            final(self).engine_path matches Some(p) && p@ == path@,
            final(self).protocol == old(self).protocol,
            final(self).armor == old(self).armor,
            final(self).text_mode == old(self).text_mode,
            final(self).offline == old(self).offline,
            final(self).pinentry_mode == old(self).pinentry_mode,
            final(self).flags == old(self).flags,
            final(self).engine_home_dir == old(self).engine_home_dir,
    {
        self.engine_path = Some(path);
    }

    /// Records the engine home directory; nothing else changes. The
    /// native engine may still reject the directory, in which case its
    /// diagnostic travels back through the envelope.
    pub fn set_engine_home_dir(&mut self, home_dir: String)
        ensures
            final(self).engine_home_dir matches Some(d) && d@ == home_dir@,
            final(self).protocol == old(self).protocol,
            final(self).armor == old(self).armor,
            final(self).text_mode == old(self).text_mode,
            final(self).offline == old(self).offline,
            final(self).pinentry_mode == old(self).pinentry_mode,
            final(self).flags == old(self).flags,
            final(self).engine_path == old(self).engine_path,
    {
        self.engine_home_dir = Some(home_dir);
    }
}

/// Validates an encrypt call before the native engine sees it: the
/// recipient list must be non-empty and every flag symbol must be known.
/// On success the native flag word is returned for the engine call; on
/// failure the argument error is reported and the engine is never
/// invoked.
pub fn encrypt_with_flags(recipients: &Vec<KeyData>, flags_arg: &HostValue) -> (r: Result<
    u32,
    BridgeError,
>)
    ensures
        recipients@.len() == 0 ==> r matches Err(BridgeError::BadArg),
        recipients@.len() >= 1 ==> match spec_encrypt_flags_arg(*flags_arg) {
            Some(f) => r matches Ok(rf) && rf == f,
            None => r matches Err(BridgeError::BadArg),
        },
{
    keys_not_empty(recipients.len())?;
    match flags_arg {
        HostValue::List(items) => crate::encrypt_flags::arg_to_protocol(items),
        _ => Err(BridgeError::BadArg),
    }
}

/// The flag word an encrypt-flags argument decodes to: the argument must
/// be a list of known flag symbols.
pub open spec fn spec_encrypt_flags_arg(v: HostValue) -> Option<u32> {
    match v {
        HostValue::List(items) => spec_flags_of_list(items@),
        _ => None,
    }
}

/// Validates a combined sign-and-encrypt call exactly as an encrypt call:
/// non-empty recipients, known flag symbols, fail-fast otherwise.
pub fn sign_and_encrypt_with_flags(recipients: &Vec<KeyData>, flags_arg: &HostValue) -> (r: Result<
    u32,
    BridgeError,
>)
    ensures
        recipients@.len() == 0 ==> r matches Err(BridgeError::BadArg),
        recipients@.len() >= 1 ==> match spec_encrypt_flags_arg(*flags_arg) {
            Some(f) => r matches Ok(rf) && rf == f,
            None => r matches Err(BridgeError::BadArg),
        },
{
    encrypt_with_flags(recipients, flags_arg)
}

/// Turns the engine's answer to an import call into the host's report: an
/// engine diagnostic is raised as a message, a native import result is
/// rendered as the structured import report.
pub fn import(outcome: Result<ImportData, String>) -> (r: Result<ImportRecord, BridgeError>)
    requires
        outcome matches Ok(d) ==> d.fingerprint is Some,
    ensures
        outcome matches Err(m) ==> (r matches Err(BridgeError::Message(rm)) && rm == m),
        outcome matches Ok(d) ==> (r matches Ok(rec) && (d.fingerprint matches Some(f)
            ==> rec.fingerprint@ == f@)),
{
    let data = try_engine(outcome)?;
    Ok(transform_import(&data))
}

/// Turns the engine's answer to an opaque verification into the host's
/// envelope: an engine diagnostic is raised as a message, a result whose
/// text fields all decode becomes the structured verification report, and
/// one with a field that is not valid UTF-8 yields the fixed sentinel.
pub fn verify_opaque(outcome: Result<VerificationData, String>) -> (r: Result<
    OpResult<VerificationRecord>,
    BridgeError,
>)
    ensures
        outcome matches Err(m) ==> (r matches Err(BridgeError::Message(rm)) && rm == m),
        outcome matches Ok(d) ==> (r matches Ok(env) && (spec_verification_ok(d) ==> (env matches
            OpResult::Success(rec) && is_verification_record(d, rec))) && (!spec_verification_ok(d)
            ==> (env matches OpResult::Failure(msg) && msg@
            == "Could not decode cyphertext to utf8"@))),
{
    let data = try_engine(outcome)?;
    match transform_verification_result(&data) {
        Some(rec) => Ok(OpResult::Success(rec)),
        None => Ok(OpResult::Failure(utf8_failure_message())),
    }
}

/// Turns the engine's answer to a decrypt call into the host's envelope:
/// an engine diagnostic is raised as a message, recovered cleartext is
/// handed back as UTF-8 text, and cleartext that does not decode yields
/// the fixed sentinel.
pub fn decrypt(outcome: Result<Vec<u8>, String>) -> (r: Result<OpResult<String>, BridgeError>)
    ensures
        outcome matches Err(m) ==> (r matches Err(BridgeError::Message(rm)) && rm == m),
        outcome matches Ok(bytes) ==> (r matches Ok(env) && (valid_utf8(bytes@) ==> (env matches
            OpResult::Success(s) && s@ == decode_utf8(bytes@))) && (!valid_utf8(bytes@)
            ==> (env matches OpResult::Failure(msg) && msg@
            == "Could not decode cyphertext to utf8"@))),
{
    let bytes = try_engine(outcome)?;
    Ok(decode_context_result(bytes))
}

} // verus!
