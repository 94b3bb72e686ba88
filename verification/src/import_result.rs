//! The structured import report.

use vstd::prelude::*;

verus! {

/// The result of an import, as read from the native object. The
/// fingerprint may be missing from the native record; callers must not
/// hand such a record on.
#[derive(Debug, Clone, PartialEq, Eq)]
pub struct ImportData {
    /// The fingerprint of the imported key, if the native object carries
    /// one.
    pub fingerprint: Option<String>,
}

/// The import report as handed to the host.
#[derive(Debug, Clone, PartialEq, Eq)]
pub struct ImportRecord {
    /// The fingerprint of the imported key.
    pub fingerprint: String,
}

/// Builds the host-facing import report from a native import result that
/// carries a fingerprint.
pub fn transform_import(import: &ImportData) -> (r: ImportRecord)
    requires
        import.fingerprint is Some,
    ensures
        import.fingerprint matches Some(f) ==> r.fingerprint@ == f@,
{
    match &import.fingerprint {
        Some(f) => ImportRecord { fingerprint: f.clone() },
        None => vstd::pervasive::unreached(),
    }
}

} // verus!
