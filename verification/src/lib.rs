//! The orchestration engine of a source-generation pipeline.
//!
//! Given declaratively configured modules, each backed by a versioned
//! model file, this library resolves which modules a run processes and
//! the effective settings of each, decides whether a module's derived
//! model is stale relative to its source, and dispatches the model to the
//! selected code-generation backend.  The engine only decides: every
//! filesystem touch and every backend invocation is handed back to the
//! caller as an explicit action, which is what makes the dry-run
//! guarantee a theorem rather than a convention.

pub mod actions;
pub mod cache;
pub mod config;
pub mod dispatch;
pub mod error;
pub mod names;
pub mod options;
pub mod orchestrate;
pub mod paths;
pub mod register;
pub mod resolve;
pub mod text;
