//! Staleness detection between a source model and its derived artifact.
//!
//! A derived artifact is rebuilt exactly when it is missing or when the
//! source model's modification time is strictly newer than the time
//! recorded in the artifact's metadata sidecar; otherwise the artifact is
//! reused as-is.  Timestamp granularity coarser than the edit interval is
//! an accepted limitation of this policy.

use vstd::prelude::*;
use vstd::string::*;
use crate::error::OrchestrationError;
use crate::paths::{extension_of, metadata_path, metadata_path_spec};

verus! {

/// What the caller observed of the source model file.
#[derive(Clone, Copy, PartialEq, Eq, Debug)]
pub struct SourceStatus {
    /// Whether the path exists at all.
    pub exists: bool,
    /// Whether the path is a regular file.
    pub is_file: bool,
    /// The file's modification time, as a monotone stamp.  Meaningful only
    /// when the path is a regular file.
    pub mtime: u64,
}

/// What the caller observed of the derived artifact.
#[derive(Clone, Copy, PartialEq, Eq, Debug)]
pub struct DerivedStatus {
    /// Whether the artifact exists.
    pub exists: bool,
    /// The source modification time recorded in the artifact's metadata
    /// sidecar; `None` when the sidecar is missing or unreadable.
    pub recorded_mtime: Option<u64>,
}

/// How to bring the derived artifact up to date.
#[derive(Clone, Copy, PartialEq, Eq, Debug)]
pub enum CachePlan {
    /// Load the source model afresh and overwrite the derived artifact,
    /// recording `record_mtime` as the source time seen at build time.
    Rebuild { record_mtime: u64 },
    /// Reuse the derived artifact as it stands.
    UseCached,
}

impl CachePlan {
    /// Whether this plan rebuilds the derived artifact.
    pub open spec fn spec_was_rebuilt(&self) -> bool {
        self is Rebuild
    }

    /// Whether this plan rebuilds the derived artifact.
    pub fn was_rebuilt(&self) -> (b: bool)
        ensures
            b == self.spec_was_rebuilt(),
    {
        match self {
            CachePlan::Rebuild { .. } => true,
            CachePlan::UseCached => false,
        }
    }
}

/// Whether the source model may be used at all: it exists, is a regular
/// file, and carries the recognized model extension.
pub open spec fn source_model_ok(path: Seq<char>, s: SourceStatus) -> bool {
    s.exists && s.is_file && (extension_of(path) matches Some(e) && e == "json"@)
}

/// Whether the derived artifact exists but its metadata cannot be read.
pub open spec fn metadata_missing(d: DerivedStatus) -> bool {
    d.exists && d.recorded_mtime is None
}

/// The freshness decision, given sound observations: rebuild when the
/// artifact is missing or the source is strictly newer than the recorded
/// time; reuse it otherwise.
pub open spec fn spec_fresh_plan(s: SourceStatus, d: DerivedStatus) -> CachePlan {
    if !d.exists {
        CachePlan::Rebuild { record_mtime: s.mtime }
    } else if d.recorded_mtime matches Some(m) && s.mtime > m {
        CachePlan::Rebuild { record_mtime: s.mtime }
    } else {
        CachePlan::UseCached
    }
}

/// Decide whether the derived artifact of `source_path` must be rebuilt.
///
/// `source` and `derived` are the caller's observations of the source
/// model and of the artifact expected at `derived_path`.  The decision is
/// exactly `spec_fresh_plan`, unless the source model is unusable or the
/// artifact's metadata is unreadable, each of which is the stated error.
pub fn ensure_fresh_plan(
    source_path: &str,
    derived_path: &str,
    source: &SourceStatus,
    derived: &DerivedStatus,
) -> (r: Result<CachePlan, OrchestrationError>)
    ensures
        (!source.exists || !source.is_file) ==> (r matches Err(e)
            && e matches OrchestrationError::ModelNotFound(p) && p@ == source_path@),
        source.exists && source.is_file && !(extension_of(source_path@) matches Some(x)
            && x == "json"@) ==> (r matches Err(e)
            && e matches OrchestrationError::UnsupportedFormat(p) && p@ == source_path@),
        source_model_ok(source_path@, *source) && metadata_missing(*derived)
            ==> (r matches Err(e) && e matches OrchestrationError::MetadataReadError(p)
            && p@ == metadata_path_spec(derived_path@)),
        source_model_ok(source_path@, *source) && !metadata_missing(*derived)
            ==> r == Ok::<CachePlan, OrchestrationError>(spec_fresh_plan(*source, *derived)),
{
    if !source.exists || !source.is_file {
        return Err(OrchestrationError::ModelNotFound(source_path.to_owned()));
    }
    if !crate::paths::has_extension(source_path, "json") {
        return Err(OrchestrationError::UnsupportedFormat(source_path.to_owned()));
    }
    if !derived.exists {
        return Ok(CachePlan::Rebuild { record_mtime: source.mtime });
    }
    match derived.recorded_mtime {
        None => Err(OrchestrationError::MetadataReadError(metadata_path(derived_path))),
        Some(recorded) => {
            if source.mtime > recorded {
                Ok(CachePlan::Rebuild { record_mtime: source.mtime })
            } else {
                Ok(CachePlan::UseCached)
            }
        },
    }
}

/// Staleness correctness: against a derived artifact whose metadata
/// records time `m`, a source moved strictly past `m` is rebuilt, and a
/// source at or before `m` is reused.
pub proof fn lemma_staleness_correct(s: SourceStatus, d: DerivedStatus, m: u64)
    requires
        d.exists,
        d.recorded_mtime == Some(m),
    ensures
        spec_fresh_plan(s, d).spec_was_rebuilt() <==> s.mtime > m,
        s.mtime > m ==> spec_fresh_plan(s, d) == (CachePlan::Rebuild { record_mtime: s.mtime }),
        s.mtime <= m ==> spec_fresh_plan(s, d) == CachePlan::UseCached,
{
}

/// Idempotence of rebuilding: after any rebuild, an artifact whose
/// metadata records the time the rebuild saw is reused as-is on the next
/// run over an unchanged source; no second rebuild happens.
pub proof fn lemma_rebuild_then_cache_hit(s: SourceStatus, d: DerivedStatus, d2: DerivedStatus)
    requires
        spec_fresh_plan(s, d) matches CachePlan::Rebuild { record_mtime },
        d2.exists,
        d2.recorded_mtime == Some(spec_fresh_plan(s, d)->record_mtime),
    ensures
        spec_fresh_plan(s, d2) == CachePlan::UseCached,
        !spec_fresh_plan(s, d2).spec_was_rebuilt(),
{
}

} // verus!
