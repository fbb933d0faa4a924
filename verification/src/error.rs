//! The error taxonomy of the orchestrator, and the distinguished process
//! exit statuses that scripts can branch on.

use vstd::prelude::*;
use vstd::string::*;

verus! {

/// Exit status for a new-module name that is already declared.
pub const MODULE_EXISTS: i32 = -1;

/// Exit status for a missing models directory.
pub const MODULE_DIR_MISSING: i32 = -2;

/// Exit status for an empty declared configuration: nothing to do.
pub const NOTHING_TO_DO: i32 = -3;

/// Exit status for every other failure.
pub const GENERIC_FAILURE: i32 = 1;

/// Everything that can go wrong while orchestrating a run.  Each variant
/// carries the offending path or module name, so that the caller can report
/// an unambiguous message.
#[derive(Debug)]
pub enum OrchestrationError {
    /// The declared configuration is missing or malformed.
    ConfigError(String),
    /// A requested module name is not declared.  Recoverable: the caller
    /// logs it and skips the module.
    ModuleNotFound(String),
    /// A new module's name is already declared.  Fatal to that command.
    ModuleCollision(String),
    /// The source model path does not exist or is not a regular file.
    ModelNotFound(String),
    /// The source model does not carry the recognized model extension.
    UnsupportedFormat(String),
    /// The derived artifact exists but its metadata sidecar is missing or
    /// unreadable.
    MetadataReadError(String),
    /// The models directory is missing.
    ModelDirMissing(String),
    /// The generator backend failed; carries the backend's own report.
    BackendError(String),
    /// The declared configuration is empty and no modules were requested.
    /// Distinguished, not a bug.
    NothingToDo,
}

impl OrchestrationError {
    /// The report for this error: one unambiguous sentence naming the
    /// offending path or module.
    pub open spec fn spec_message(&self) -> Seq<char> {
        match self {
            OrchestrationError::ConfigError(s) => "configuration error: "@ + s@,
            OrchestrationError::ModuleNotFound(s) => "no module named "@ + s@
                + " found in sarzak.toml"@,
            OrchestrationError::ModuleCollision(s) => "module '"@ + s@
                + "' already exists in the configuration"@,
            OrchestrationError::ModelNotFound(s) => "model file does not exist: "@ + s@,
            OrchestrationError::UnsupportedFormat(s) => "not a json model file: "@ + s@,
            OrchestrationError::MetadataReadError(s) => "unable to read model metadata: "@ + s@,
            OrchestrationError::ModelDirMissing(s) => "unable to find models directory: "@ + s@,
            OrchestrationError::BackendError(s) => "model compiler failed: "@ + s@,
            OrchestrationError::NothingToDo => "nothing to do; maybe declare a module in sarzak.toml"@,
        }
    }

    /// The human-readable report for this error.
    pub fn message(&self) -> (m: String)
        ensures
            m@ == self.spec_message(),
    {
        match self {
            OrchestrationError::ConfigError(s) => {
                let mut m = "configuration error: ".to_owned();
                m.append(s.as_str());
                m
            },
            OrchestrationError::ModuleNotFound(s) => {
                let mut m = "no module named ".to_owned();
                m.append(s.as_str());
                m.append(" found in sarzak.toml");
                m
            },
            OrchestrationError::ModuleCollision(s) => {
                let mut m = "module '".to_owned();
                m.append(s.as_str());
                m.append("' already exists in the configuration");
                m
            },
            OrchestrationError::ModelNotFound(s) => {
                let mut m = "model file does not exist: ".to_owned();
                m.append(s.as_str());
                m
            },
            OrchestrationError::UnsupportedFormat(s) => {
                let mut m = "not a json model file: ".to_owned();
                m.append(s.as_str());
                m
            },
            OrchestrationError::MetadataReadError(s) => {
                let mut m = "unable to read model metadata: ".to_owned();
                m.append(s.as_str());
                m
            },
            OrchestrationError::ModelDirMissing(s) => {
                let mut m = "unable to find models directory: ".to_owned();
                m.append(s.as_str());
                m
            },
            OrchestrationError::BackendError(s) => {
                let mut m = "model compiler failed: ".to_owned();
                m.append(s.as_str());
                m
            },
            OrchestrationError::NothingToDo => {
                "nothing to do; maybe declare a module in sarzak.toml".to_owned()
            },
        }
    }

    /// The process exit status for this error.  A module-name collision, a
    /// missing models directory, and an empty configuration each map to
    /// their own status, distinct from generic failure, so that scripts can
    /// branch on them.
    pub fn exit_status(&self) -> (s: i32)
        ensures
            self is ModuleCollision ==> s == MODULE_EXISTS,
            self is ModelDirMissing ==> s == MODULE_DIR_MISSING,
            self is NothingToDo ==> s == NOTHING_TO_DO,
            !(self is ModuleCollision) && !(self is ModelDirMissing) && !(self is NothingToDo)
                ==> s == GENERIC_FAILURE,
    {
        match self {
            OrchestrationError::ModuleCollision(_) => MODULE_EXISTS,
            OrchestrationError::ModelDirMissing(_) => MODULE_DIR_MISSING,
            OrchestrationError::NothingToDo => NOTHING_TO_DO,
            _ => GENERIC_FAILURE,
        }
    }
}

} // verus!
