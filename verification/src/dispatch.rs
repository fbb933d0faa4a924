//! The backend registry and the uniform dispatch of one module to its
//! selected backend.
//!
//! A backend is a single capability: compile one model into generated
//! source under an output root, honoring the dry-run flag.  The registry
//! records which backend kinds have an implementation; dispatching a
//! selection whose kind is not registered is a programming error, never a
//! silent no-op, so `dispatch` demands registration up front.

use vstd::prelude::*;
use vstd::string::*;
use crate::error::OrchestrationError;
use crate::options::{BackendKind, Compiler, DwarfOptions};

verus! {

/// One fully-resolved backend invocation, ready to be carried out: the
/// selection with its options, the identifiers the backend is told, and
/// whether the run is a dry run.
pub struct CompileRequest {
    /// The backend and its options payload.
    pub selection: Compiler,
    /// The name of the package being generated into.
    pub package: String,
    /// The module whose code is generated.
    pub module: String,
    /// The directory root where generated source lands.
    pub output_root: String,
    /// The source model the invocation is about.
    pub model_path: String,
    /// When set, the backend must not touch the filesystem.
    pub dry_run: bool,
}

/// The set of backend kinds that have a registered implementation.
pub struct BackendRegistry {
    /// The registered kinds.
    pub kinds: Vec<BackendKind>,
}

impl BackendRegistry {
    /// Whether `k` has a registered implementation.
    pub open spec fn spec_registered(&self, k: BackendKind) -> bool {
        self.kinds@.contains(k)
    }

    /// A registry with no backends.
    pub fn new() -> (r: BackendRegistry)
        ensures
            r.kinds@.len() == 0,
    {
        BackendRegistry { kinds: Vec::new() }
    }

    /// Register an implementation for `k`.
    pub fn register(&mut self, k: BackendKind)
        ensures
            final(self).kinds@ == old(self).kinds@.push(k),
            final(self).spec_registered(k),
            forall|j: BackendKind| old(self).spec_registered(j)
                ==> final(self).spec_registered(j),
    {
        self.kinds.push(k);
        proof {
            assert(self.kinds@.last() == k);
            assert forall|j: BackendKind| old(self).spec_registered(j)
                implies self.spec_registered(j) by {
                let w = choose|i: int| 0 <= i < old(self).kinds@.len()
                    && old(self).kinds@[i] == j;
                assert(self.kinds@[w] == j);
            }
        }
    }

    /// The registry every ordinary run uses: both backend kinds.
    pub fn with_all_backends() -> (r: BackendRegistry)
        ensures
            r.spec_registered(BackendKind::Grace),
            r.spec_registered(BackendKind::Dwarf),
    {
        let mut r = BackendRegistry::new();
        r.register(BackendKind::Grace);
        r.register(BackendKind::Dwarf);
        r
    }

    /// Whether `k` has a registered implementation.
    pub fn is_registered(&self, k: BackendKind) -> (b: bool)
        ensures
            b == self.spec_registered(k),
    {
        let n = self.kinds.len();
        let mut i: usize = 0;
        while i < n
            invariant
                n == self.kinds@.len(),
                i <= n,
                forall|j: int| 0 <= j < i ==> self.kinds@[j] != k,
            decreases n - i,
        {
            if self.kinds[i] == k {
                return true;
            }
            i += 1;
        }
        proof {
            assert(!self.spec_registered(k)) by {
                if self.kinds@.contains(k) {
                    let w = choose|j: int| 0 <= j < self.kinds@.len()
                        && self.kinds@[j] == k;
                    assert(self.kinds@[w] != k);
                }
            }
        }
        false
    }

    /// Dispatch a selection to its backend: produce the one invocation the
    /// backend capability is to carry out, with that selection's own
    /// options payload.  Passing a selection whose kind is not registered
    /// is a programming error, so registration is required up front.
    pub fn dispatch(
        &self,
        selection: Compiler,
        package: &str,
        module: &str,
        output_root: &str,
        model_path: &str,
        dry_run: bool,
    ) -> (r: CompileRequest)
        requires
            self.spec_registered(selection.kind()),
        ensures
            r.selection == selection,
            r.package@ == package@,
            r.module@ == module@,
            r.output_root@ == output_root@,
            r.model_path@ == model_path@,
            r.dry_run == dry_run,
    {
        CompileRequest {
            selection,
            package: package.to_owned(),
            module: module.to_owned(),
            output_root: output_root.to_owned(),
            model_path: model_path.to_owned(),
            dry_run,
        }
    }
}

/// Invoke the dwarf backend.  The dwarf compiler is not wired up yet:
/// invoking it succeeds without doing anything.
pub fn invoke_dwarf(
    options: &DwarfOptions,
    root: &str,
    model_file: &str,
    test_mode: bool,
    module: &str,
) -> (r: Result<(), OrchestrationError>)
    ensures
        r is Ok,
{
    Ok(())
}

/// Interpret what a backend reported: success stays success, and a
/// failure report is wrapped as a backend error, fatal to the module.
pub fn interpret_backend_result(r: Result<(), String>) -> (out: Result<(), OrchestrationError>)
    ensures
        out is Ok <==> r is Ok,
        r matches Err(m) ==> (out matches Err(e)
            && e matches OrchestrationError::BackendError(msg) && msg@ == m@),
{
    match r {
        Ok(()) => Ok(()),
        Err(m) => Err(OrchestrationError::BackendError(m)),
    }
}

} // verus!
