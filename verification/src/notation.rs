//! Signature notations attached to verified signatures.

use vstd::prelude::*;
use crate::value::NativeText;
use crate::value::is_opt_text;
use crate::value::string_or_null;

verus! {

/// One signature notation as read from the native object.
#[derive(Debug, Clone, PartialEq, Eq)]
pub struct NotationData {
    /// The notation name; absent for policy URLs.
    pub name: NativeText,
    /// The notation value.
    pub value: NativeText,
    pub is_human_readable: bool,
    pub is_critical: bool,
}

/// One signature notation as handed to the host.
#[derive(Debug, Clone, PartialEq, Eq)]
pub struct NotationRecord {
    pub is_human_readable: bool,
    pub is_critical: bool,
    /// The notation name, or nothing where the native object carries none.
    pub name: Option<String>,
    /// The notation value, or nothing where the native object carries
    /// none.
    pub value: Option<String>,
}

/// Both text fields of the notation can be rendered for the host.
pub open spec fn spec_notation_ok(n: NotationData) -> bool {
    n.name.is_decodable() && n.value.is_decodable()
}

/// The record renders the notation field for field.
pub open spec fn is_notation_record(n: NotationData, r: NotationRecord) -> bool {
    &&& r.is_human_readable == n.is_human_readable
    &&& r.is_critical == n.is_critical
    &&& is_opt_text(n.name, r.name)
    &&& is_opt_text(n.value, r.value)
}

/// Builds the host-facing notation record; a name or value that is not
/// valid UTF-8 fails the query that carries the notation.
pub fn transform_signature_notation(notation: &NotationData) -> (r: Option<NotationRecord>)
    ensures
        r is Some <==> spec_notation_ok(*notation),
        r matches Some(rec) ==> is_notation_record(*notation, rec),
{
    let name = match string_or_null(&notation.name) {
        Some(o) => o,
        None => {
            return None;
        },
    };
    let value = match string_or_null(&notation.value) {
        Some(o) => o,
        None => {
            return None;
        },
    };
    Some(
        NotationRecord {
            is_human_readable: notation.is_human_readable,
            is_critical: notation.is_critical,
            name,
            value,
        },
    )
}

} // verus!
