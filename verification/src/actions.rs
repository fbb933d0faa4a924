//! The actions a plan asks the caller to carry out.
//!
//! The orchestrator itself only decides; every filesystem touch and every
//! backend invocation is described by one of these values and carried out
//! by the caller, in order.  Which actions mutate the filesystem is spelled
//! out by `action_writes`, so that the dry-run guarantee can be stated
//! once, over whole plans.

use vstd::prelude::*;
use crate::dispatch::CompileRequest;

verus! {

/// One step of a plan.
pub enum Action {
    /// Load the source model through the external model loader and persist
    /// the derived artifact, recording `record_mtime` in its metadata.
    RebuildDerived { source: String, derived: String, metadata: String, record_mtime: u64 },
    /// Load the source model through the external model loader, without
    /// persisting anything.
    LoadSource { source: String },
    /// Load the derived artifact and reuse it as the model.
    LoadDerived { derived: String },
    /// Invoke the selected backend, as described by the request.
    Compile(CompileRequest),
    /// Create a directory and any missing parents.
    CreateDirAll { path: String },
    /// Create one directory.
    CreateDir { path: String },
    /// Write the declared configuration back to its file.
    WriteConfig { path: String },
    /// Write a blank model file for a new domain.
    WriteBlankModel { path: String, domain: String },
    /// Write the source file that declares a new module.
    WriteModuleFile { path: String, domain: String },
}

/// Whether carrying an action out mutates the filesystem.  A compile
/// request with the dry-run flag set mutates nothing: suppressing all
/// mutation while still validating is the backend capability's own
/// contract.
pub open spec fn action_writes(a: Action) -> bool {
    match a {
        Action::LoadSource { .. } => false,
        Action::LoadDerived { .. } => false,
        Action::Compile(req) => !req.dry_run,
        _ => true,
    }
}

} // verus!
