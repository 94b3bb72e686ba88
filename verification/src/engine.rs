//! The engine information record.
//!
//! The native engine describes itself through a set of text fields
//! (executable path, home directory, version, required version) beside the
//! protocol it serves. Each text field may be absent or may fail to decode
//! as UTF-8; a field that fails to decode turns the whole query into a
//! decode failure, reported through the envelope with the fixed sentinel.

use vstd::prelude::*;
use crate::error::OpResult;
use crate::helpers::utf8_failure_message;
use crate::protocol::Protocol;
use crate::protocol::is_protocol_encoding;
use crate::protocol::protocol_to_nif;
use crate::value::HostValue;
use crate::value::NativeText;

verus! {

/// What the native engine reports about itself, as read from the native
/// object.
#[derive(Debug, Clone, PartialEq, Eq)]
pub struct EngineInfoData {
    /// The protocol this engine serves.
    pub protocol: Protocol,
    /// The engine executable path.
    pub path: NativeText,
    /// The engine home directory.
    pub home_dir: NativeText,
    /// The engine version.
    pub version: NativeText,
    /// The engine version the native library requires.
    pub required_version: NativeText,
}

/// The engine information as handed to the host: the protocol encoded as
/// a host value, each text field as a string, an absent field as the
/// empty string.
#[derive(Debug, PartialEq, Eq)]
pub struct EngineInfoRecord {
    /// The encoded protocol symbol or escape tuple.
    pub protocol: HostValue,
    pub path: String,
    pub home_dir: String,
    pub version: String,
    pub required_version: String,
}

/// Every text field of the report can be rendered for the host.
pub open spec fn spec_engine_info_ok(d: EngineInfoData) -> bool {
    d.path.is_decodable() && d.home_dir.is_decodable() && d.version.is_decodable()
        && d.required_version.is_decodable()
}

/// How a decodable native text field reads as a plain string: present
/// text as that text, an absent field as the empty string.
pub open spec fn spec_text_or_empty(t: NativeText) -> Seq<char>
    recommends
        t.is_decodable(),
{
    match t {
        NativeText::Valid(s) => s@,
        NativeText::Absent => Seq::empty(),
        NativeText::NotUtf8 => Seq::empty(),
    }
}

/// The record renders the report field for field.
pub open spec fn is_engine_info_record(d: EngineInfoData, r: EngineInfoRecord) -> bool {
    &&& is_protocol_encoding(d.protocol, r.protocol)
    &&& r.path@ == spec_text_or_empty(d.path)
    &&& r.home_dir@ == spec_text_or_empty(d.home_dir)
    &&& r.version@ == spec_text_or_empty(d.version)
    &&& r.required_version@ == spec_text_or_empty(d.required_version)
}

/// Renders one text field of the report: present text as the text, an
/// absent field as the empty string, a field that is not valid UTF-8 as a
/// decode failure.
fn get_engine_info(value: &NativeText) -> (r: Option<String>)
    ensures
        r is Some <==> value.is_decodable(),
        r matches Some(t) ==> t@ == spec_text_or_empty(*value),
{
    match value {
        NativeText::Valid(s) => Some(s.clone()),
        NativeText::Absent => Some(String::new()),
        NativeText::NotUtf8 => None,
    }
}

/// Builds the host-facing engine information record; a field that is not
/// valid UTF-8 fails the whole query.
pub fn engine_info_to_term(engine_info: &EngineInfoData) -> (r: Option<EngineInfoRecord>)
    ensures
        r is Some <==> spec_engine_info_ok(*engine_info),
        r matches Some(rec) ==> is_engine_info_record(*engine_info, rec),
{
    let path = match get_engine_info(&engine_info.path) {
        Some(s) => s,
        None => {
            return None;
        },
    };
    let home_dir = match get_engine_info(&engine_info.home_dir) {
        Some(s) => s,
        None => {
            return None;
        },
    };
    let version = match get_engine_info(&engine_info.version) {
        Some(s) => s,
        None => {
            return None;
        },
    };
    let required_version = match get_engine_info(&engine_info.required_version) {
        Some(s) => s,
        None => {
            return None;
        },
    };
    Some(
        EngineInfoRecord {
            protocol: protocol_to_nif(&engine_info.protocol),
            path,
            home_dir,
            version,
            required_version,
        },
    )
}

/// Wraps the engine information query for the host: the record on
/// success, the fixed sentinel when a field does not decode.
pub fn engine_info(data: &EngineInfoData) -> (r: OpResult<EngineInfoRecord>)
    ensures
        spec_engine_info_ok(*data) ==> (r matches OpResult::Success(rec)
            && is_engine_info_record(*data, rec)),
        !spec_engine_info_ok(*data) ==> (r matches OpResult::Failure(m) && m@
            == "Could not decode cyphertext to utf8"@),
{
    match engine_info_to_term(data) {
        Some(rec) => OpResult::Success(rec),
        None => OpResult::Failure(utf8_failure_message()),
    }
}

} // verus!
