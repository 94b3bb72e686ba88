//! Static classification of operations by blocking behaviour.
//!
//! The host runtime schedules many lightweight tasks over a small pool of
//! threads; a native call that blocks on a subprocess round trip must not
//! occupy one of them. The table here is fixed, not inferred at runtime:
//! configuration getters and setters run inline, every operation that
//! invokes the engine's subprocess or performs a bulk cryptographic
//! transform is offloaded to the bounded pool reserved for blocking work.
//! Offloading never relaxes the handle's exclusive lock: it only moves the
//! blocking wait off the host's primary scheduling threads.

use vstd::prelude::*;

verus! {

/// One bridge entry point.
#[derive(Clone, Copy, Debug, PartialEq, Eq, Structural)]
pub enum Operation {
    FromProtocol,
    GetProtocol,
    Armor,
    SetArmor,
    TextMode,
    SetTextMode,
    Offline,
    SetOffline,
    GetFlag,
    SetFlag,
    EngineInfo,
    SetEnginePath,
    SetEngineHomeDir,
    GetPinentryMode,
    SetPinentryMode,
    Import,
    FindKey,
    DeleteKey,
    DeleteSecretKey,
    Decrypt,
    EncryptWithFlags,
    SignAndEncryptWithFlags,
    SignWithMode,
    VerifyOpaque,
}

/// Where an operation executes.
#[derive(Clone, Copy, Debug, PartialEq, Eq, Structural)]
pub enum ExecutionClass {
    /// Runs on the calling scheduler thread; never blocks.
    Inline,
    /// Runs on the bounded worker pool reserved for blocking native
    /// calls.
    Offloaded,
}

/// The operations that invoke the native engine's subprocess or perform a
/// bulk cryptographic transform, and may therefore block without bound.
pub open spec fn spec_invokes_engine_subprocess(op: Operation) -> bool {
    match op {
        Operation::Import => true,
        Operation::FindKey => true,
        Operation::DeleteKey => true,
        Operation::DeleteSecretKey => true,
        Operation::Decrypt => true,
        Operation::EncryptWithFlags => true,
        Operation::SignAndEncryptWithFlags => true,
        Operation::SignWithMode => true,
        Operation::VerifyOpaque => true,
        _ => false,
    }
}

/// The fixed classification: exactly the subprocess-invoking operations
/// are offloaded, everything else runs inline.
pub open spec fn spec_classify(op: Operation) -> ExecutionClass {
    if spec_invokes_engine_subprocess(op) {
        ExecutionClass::Offloaded
    } else {
        ExecutionClass::Inline
    }
}

/// Classifies an operation for execution; the table is fixed, never
/// inferred at runtime.
pub fn classify(op: &Operation) -> (r: ExecutionClass)
    ensures
        r == spec_classify(*op),
        r == ExecutionClass::Offloaded <==> spec_invokes_engine_subprocess(*op),
{
    match op {
        Operation::Import => ExecutionClass::Offloaded,
        Operation::FindKey => ExecutionClass::Offloaded,
        Operation::DeleteKey => ExecutionClass::Offloaded,
        Operation::DeleteSecretKey => ExecutionClass::Offloaded,
        Operation::Decrypt => ExecutionClass::Offloaded,
        Operation::EncryptWithFlags => ExecutionClass::Offloaded,
        Operation::SignAndEncryptWithFlags => ExecutionClass::Offloaded,
        Operation::SignWithMode => ExecutionClass::Offloaded,
        Operation::VerifyOpaque => ExecutionClass::Offloaded,
        _ => ExecutionClass::Inline,
    }
}

} // verus!
