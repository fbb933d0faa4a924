//! Resolving which modules a run processes, and planning one module's
//! generation.
//!
//! The orchestrator processes modules in a stable order: declaration order
//! when no modules are requested, requested order otherwise.  A requested
//! name that is not declared is skipped, never fatal to the batch; an
//! empty declared configuration with nothing requested is the
//! distinguished "nothing to do" condition.

use vstd::prelude::*;
use vstd::string::*;
use crate::actions::{Action, action_writes};
use crate::cache::{CachePlan, DerivedStatus, SourceStatus, metadata_missing, source_model_ok,
    spec_fresh_plan};
use crate::config::Config;
use crate::dispatch::BackendRegistry;
use crate::error::OrchestrationError;
use crate::options::Compiler;
use crate::paths::{derived_artifact_spec, extension_of, joined, metadata_path_spec,
    model_dir_spec, source_dir_spec, stem_of};

verus! {

/// The index of the declared module of this name.  Meaningful only when
/// the name is declared; unique under well-formedness.
pub open spec fn spec_index_of_name(config: Config, name: Seq<char>) -> int {
    choose|i: int| 0 <= i < config.modules@.len() && config.names()[i] == name
}

/// Under well-formedness, any index that holds `name` is the index of
/// `name`.
pub proof fn lemma_name_index_unique(config: Config, name: Seq<char>, i: int)
    requires
        config.wf(),
        0 <= i < config.modules@.len(),
        config.names()[i] == name,
    ensures
        spec_index_of_name(config, name) == i,
{
    let w = spec_index_of_name(config, name);
    assert(0 <= w < config.modules@.len() && config.names()[w] == name);
    if w < i {
        assert(config.names()[w] != config.names()[i]);
    } else if i < w {
        assert(config.names()[i] != config.names()[w]);
    }
}

/// The indices of the declared modules chosen by a requested name list:
/// for each name in requested order, its module's index when the name is
/// declared; blank and undeclared names contribute nothing.
pub open spec fn spec_chosen(config: Config, names: Seq<Seq<char>>) -> Seq<int>
    decreases names.len(),
{
    if names.len() == 0 {
        Seq::empty()
    } else {
        let prefix = spec_chosen(config, names.drop_last());
        let last = names.last();
        if last.len() == 0 {
            prefix
        } else if config.has_module(last) {
            prefix.push(spec_index_of_name(config, last))
        } else {
            prefix
        }
    }
}

/// The requested names that are not declared, in requested order; these
/// are warned about and skipped.
pub open spec fn spec_missing(config: Config, names: Seq<Seq<char>>) -> Seq<Seq<char>>
    decreases names.len(),
{
    if names.len() == 0 {
        Seq::empty()
    } else {
        let prefix = spec_missing(config, names.drop_last());
        let last = names.last();
        if last.len() == 0 {
            prefix
        } else if config.has_module(last) {
            prefix
        } else {
            prefix.push(last)
        }
    }
}

/// The modules one run processes: indices into the declared configuration
/// in processing order, and the requested names that were skipped because
/// nothing declares them.
pub struct Selection {
    /// Indices of the chosen modules, in processing order.
    pub chosen: Vec<usize>,
    /// Requested names that are not declared, in requested order.
    pub missing: Vec<String>,
}

/// Resolve the modules a run processes.
///
/// With no requested list, every declared module is chosen, in declaration
/// order; an empty declared configuration is the distinguished
/// "nothing to do" condition.  With a requested list, each non-blank name
/// is looked up; declared names are chosen in requested order, the rest
/// are reported back as missing, and an empty result is left to the
/// caller to judge.
pub fn resolve_modules(requested: Option<&Vec<String>>, config: &Config) -> (r: Result<
    Selection,
    OrchestrationError,
>)
    requires
        config.wf(),
    ensures
        requested is None && config.modules@.len() == 0 ==> (r matches Err(e)
            && e is NothingToDo),
        requested is None && config.modules@.len() > 0 ==> (r matches Ok(sel)
            && sel.chosen@.map_values(|u: usize| u as int) == Seq::new(
            config.modules@.len() as nat,
            |i: int| i,
        ) && sel.missing@.len() == 0),
        requested matches Some(names) ==> (r matches Ok(sel) && sel.chosen@.map_values(
            |u: usize| u as int,
        ) == spec_chosen(*config, names.deep_view()) && sel.missing.deep_view() == spec_missing(
            *config,
            names.deep_view(),
        )),
        r matches Ok(sel) ==> forall|k: int|
            0 <= k < sel.chosen@.len() ==> sel.chosen@[k] < config.modules@.len(),
{
    match requested {
        None => {
            let n = config.modules.len();
            if n == 0 {
                return Err(OrchestrationError::NothingToDo);
            }
            let mut chosen: Vec<usize> = Vec::new();
            let mut i: usize = 0;
            while i < n
                invariant
                    n == config.modules@.len(),
                    i <= n,
                    chosen@.len() == i,
                    forall|k: int| 0 <= k < i ==> chosen@[k] == k as usize,
                decreases n - i,
            {
                chosen.push(i);
                i += 1;
            }
            proof {
                let mapped = chosen@.map_values(|u: usize| u as int);
                assert forall|k: int| 0 <= k < n implies #[trigger] mapped[k] == k by {
                    assert(chosen@[k] == k as usize);
                }
                assert(mapped =~= Seq::new(n as nat, |k: int| k));
            }
            Ok(Selection { chosen, missing: Vec::new() })
        },
        Some(names) => {
            let ghost nv = names.deep_view();
            let m = names.len();
            let mut chosen: Vec<usize> = Vec::new();
            let mut missing: Vec<String> = Vec::new();
            let mut j: usize = 0;
            while j < m
                invariant
                    config.wf(),
                    m == names@.len(),
                    nv == names.deep_view(),
                    j <= m,
                    chosen@.map_values(|u: usize| u as int) == spec_chosen(
                        *config,
                        nv.take(j as int),
                    ),
                    missing.deep_view() == spec_missing(*config, nv.take(j as int)),
                    forall|k: int| 0 <= k < chosen@.len() ==> chosen@[k]
                        < config.modules@.len(),
                decreases m - j,
            {
                proof {
                    assert(nv.take(j + 1).drop_last() =~= nv.take(j as int));
                    assert(nv.take(j + 1).last() == nv[j as int]);
                    assert(nv[j as int] == names@[j as int]@);
                }
                let ghost pre_chosen = chosen@;
                let ghost pre_missing = missing@;
                let name = &names[j];
                if !name.as_str().is_empty() {
                    match config.find_module(name.as_str()) {
                        Some(i) => {
                            proof {
                                lemma_name_index_unique(*config, name@, i as int);
                                assert(config.has_module(name@));
                            }
                            chosen.push(i);
                            proof {
                                assert(chosen@ == pre_chosen.push(i));
                                assert(chosen@.map_values(|u: usize| u as int)
                                    =~= pre_chosen.map_values(|u: usize| u as int).push(
                                    i as int,
                                ));
                                assert(spec_chosen(*config, nv.take(j + 1)) == spec_chosen(
                                    *config,
                                    nv.take(j as int),
                                ).push(i as int));
                            }
                        },
                        None => {
                            missing.push(name.clone());
                            proof {
                                assert(missing@ == pre_missing.push(missing@.last()));
                                assert(missing@.last()@ == name@);
                                assert(missing.deep_view() =~= spec_missing(
                                    *config,
                                    nv.take(j + 1),
                                ));
                                assert(chosen@.map_values(|u: usize| u as int)
                                    == spec_chosen(*config, nv.take(j + 1)));
                            }
                        },
                    }
                } else {
                    proof {
                        assert(spec_chosen(*config, nv.take(j + 1)) == spec_chosen(
                            *config,
                            nv.take(j as int),
                        ));
                        assert(spec_missing(*config, nv.take(j + 1)) == spec_missing(
                            *config,
                            nv.take(j as int),
                        ));
                    }
                }
                j += 1;
            }
            proof {
                assert(nv.take(m as int) =~= nv);
            }
            Ok(Selection { chosen, missing })
        },
    }
}

/// Demand that the models directory exists before any module of an
/// explicit request is processed; a missing directory is a structural
/// error that aborts the run before any module is attempted.
pub fn require_model_dir(model_dir_exists: bool, root: &str) -> (r: Result<
    (),
    OrchestrationError,
>)
    ensures
        model_dir_exists ==> r is Ok,
        !model_dir_exists ==> (r matches Err(e)
            && e matches OrchestrationError::ModelDirMissing(p) && p@ == model_dir_spec(root@)),
{
    if model_dir_exists {
        Ok(())
    } else {
        Err(OrchestrationError::ModelDirMissing(crate::paths::model_dir_path(root)))
    }
}

/// Where a requested module's declared model actually lies: at the
/// declared path when something exists there, else under the models
/// directory; a model found at neither place is missing.
pub fn resolve_model_path(
    declared: &str,
    exists_as_given: bool,
    model_dir: &str,
    exists_under_dir: bool,
) -> (r: Result<String, OrchestrationError>)
    ensures
        exists_as_given ==> (r matches Ok(p) && p@ == declared@),
        !exists_as_given && exists_under_dir ==> (r matches Ok(p) && p@ == joined(
            model_dir@,
            declared@,
        )),
        !exists_as_given && !exists_under_dir ==> (r matches Err(e)
            && e matches OrchestrationError::ModelNotFound(p) && p@ == joined(
            model_dir@,
            declared@,
        )),
{
    if exists_as_given {
        Ok(declared.to_owned())
    } else {
        let under = crate::paths::path_join(model_dir, declared);
        if exists_under_dir {
            Ok(under)
        } else {
            Err(OrchestrationError::ModelNotFound(under))
        }
    }
}

/// The plan for one module: whether its derived model was stale, and the
/// actions, in order, that bring it up to date and generate its code.
pub struct ModulePlan {
    /// The module this plan is for.
    pub module: String,
    /// Whether the derived model is rebuilt by this plan.
    pub was_rebuilt: bool,
    /// What to carry out, in order.
    pub actions: Vec<Action>,
}

/// What a successful module plan holds: the staleness decision's action
/// first — a rebuild that persists and records the source time seen, a
/// bare load of the source under dry run, or a load of the cached
/// artifact — then the one backend invocation.
pub open spec fn module_plan_ok(
    p: ModulePlan,
    module: Seq<char>,
    selection: Compiler,
    root: Seq<char>,
    model_path: Seq<char>,
    s: SourceStatus,
    d: DerivedStatus,
    dry_run: bool,
) -> bool {
    let derived = derived_artifact_spec(model_dir_spec(root), stem_of(model_path));
    let plan = spec_fresh_plan(s, d);
    &&& p.module@ == module
    &&& p.was_rebuilt == plan.spec_was_rebuilt()
    &&& p.actions@.len() == 2
    &&& (plan matches CachePlan::Rebuild { record_mtime } ==> (if dry_run {
        p.actions@[0] matches Action::LoadSource { source } && source@ == model_path
    } else {
        p.actions@[0] matches Action::RebuildDerived {
            source,
            derived: dp,
            metadata,
            record_mtime: rm,
        } && source@ == model_path && dp@ == derived && metadata@ == metadata_path_spec(derived)
            && rm == record_mtime
    }))
    &&& (plan is UseCached ==> (p.actions@[0] matches Action::LoadDerived { derived: dp }
        && dp@ == derived))
    &&& (p.actions@[1] matches Action::Compile(req) && req.selection == selection
        && req.package@ == stem_of(root) && req.module@ == module && req.output_root@
        == source_dir_spec(root) && req.model_path@ == model_path && req.dry_run == dry_run)
}

/// Plan one module's generation: check that the source model is usable,
/// that the models directory exists, decide staleness against the derived
/// artifact, and dispatch to the selected backend.
///
/// `source` and `derived` are the caller's observations of the source
/// model at `model_path` and of the derived artifact at its computed
/// location.  Under dry run, no planned action mutates the filesystem.
pub fn plan_module(
    registry: &BackendRegistry,
    module: &str,
    selection: Compiler,
    root: &str,
    model_path: &str,
    model_dir_exists: bool,
    source: &SourceStatus,
    derived: &DerivedStatus,
    dry_run: bool,
) -> (r: Result<ModulePlan, OrchestrationError>)
    requires
        registry.spec_registered(selection.kind()),
    ensures
        (!source.exists || !source.is_file) ==> (r matches Err(e)
            && e matches OrchestrationError::ModelNotFound(p) && p@ == model_path@),
        source.exists && source.is_file && !(extension_of(model_path@) matches Some(x)
            && x == "json"@) ==> (r matches Err(e)
            && e matches OrchestrationError::UnsupportedFormat(p) && p@ == model_path@),
        source_model_ok(model_path@, *source) && !model_dir_exists ==> (r matches Err(e)
            && e matches OrchestrationError::ModelDirMissing(p) && p@ == model_dir_spec(root@)),
        source_model_ok(model_path@, *source) && model_dir_exists && metadata_missing(*derived)
            ==> (r matches Err(e) && e matches OrchestrationError::MetadataReadError(p)
            && p@ == metadata_path_spec(
            derived_artifact_spec(model_dir_spec(root@), stem_of(model_path@)),
        )),
        source_model_ok(model_path@, *source) && model_dir_exists && !metadata_missing(*derived)
            ==> (r matches Ok(p) && module_plan_ok(
            p,
            module@,
            selection,
            root@,
            model_path@,
            *source,
            *derived,
            dry_run,
        )),
        dry_run ==> (r matches Ok(p) ==> forall|k: int|
            0 <= k < p.actions@.len() ==> !action_writes(p.actions@[k])),
{
    if !source.exists || !source.is_file {
        return Err(OrchestrationError::ModelNotFound(model_path.to_owned()));
    }
    if !crate::paths::has_extension(model_path, "json") {
        return Err(OrchestrationError::UnsupportedFormat(model_path.to_owned()));
    }
    let model_dir = crate::paths::model_dir_path(root);
    if !model_dir_exists {
        return Err(OrchestrationError::ModelDirMissing(model_dir));
    }
    let stem = crate::paths::file_stem(model_path);
    let derived_path = crate::paths::derived_artifact_path(model_dir.as_str(), stem.as_str());
    let plan = match crate::cache::ensure_fresh_plan(
        model_path,
        derived_path.as_str(),
        source,
        derived,
    ) {
        Ok(p) => p,
        Err(e) => {
            return Err(e);
        },
    };
    let mut acts: Vec<Action> = Vec::new();
    let rebuilt: bool = plan.was_rebuilt();
    match plan {
        CachePlan::Rebuild { record_mtime } => {
            if dry_run {
                acts.push(Action::LoadSource { source: model_path.to_owned() });
            } else {
                let metadata = crate::paths::metadata_path(derived_path.as_str());
                acts.push(Action::RebuildDerived {
                    source: model_path.to_owned(),
                    derived: derived_path.clone(),
                    metadata,
                    record_mtime,
                });
            }
        },
        CachePlan::UseCached => {
            acts.push(Action::LoadDerived { derived: derived_path.clone() });
        },
    }
    let package = crate::paths::file_stem(root);
    let output_root = crate::paths::source_dir_path(root);
    let req = registry.dispatch(
        selection,
        package.as_str(),
        module,
        output_root.as_str(),
        model_path,
        dry_run,
    );
    acts.push(Action::Compile(req));
    Ok(ModulePlan { module: module.to_owned(), was_rebuilt: rebuilt, actions: acts })
}

/// The progress of one module through a run.  A module advances
/// `Resolved`, `StalenessChecked`, then `Rebuilt` or `CacheHit` as the
/// staleness decision fell, `Dispatched`, `Done`; the error state absorbs
/// a module on its first unhandled error and, like `Done`, is terminal.
#[derive(Clone, Copy, PartialEq, Eq, Structural, Debug)]
pub enum ModuleStage {
    /// The module was resolved from the declared configuration.
    Resolved,
    /// The staleness of its derived model was decided.
    StalenessChecked { rebuild: bool },
    /// The derived model was rebuilt from the source model.
    Rebuilt,
    /// The derived model was reused as it stood.
    CacheHit,
    /// The module was dispatched to its backend.
    Dispatched,
    /// The module is fully processed.
    Done,
    /// The module failed; nothing further happens to it.
    Error,
}

/// The transitions a module may take, one step at a time.
pub open spec fn stage_step_allowed(pre: ModuleStage, post: ModuleStage) -> bool {
    ||| (post is Error && !(pre is Done) && !(pre is Error))
    ||| (pre is Resolved && post is StalenessChecked)
    ||| (pre matches ModuleStage::StalenessChecked { rebuild } && (if rebuild {
        post is Rebuilt
    } else {
        post is CacheHit
    }))
    ||| ((pre is Rebuilt || pre is CacheHit) && post is Dispatched)
    ||| (pre is Dispatched && post is Done)
}

/// A stage with no allowed successor: a module is never touched again
/// once it is done or failed.
pub open spec fn stage_terminal(s: ModuleStage) -> bool {
    s is Done || s is Error
}

/// The terminal stages are exactly those that no step leaves.
pub proof fn lemma_terminal_stages_move_nowhere(pre: ModuleStage, post: ModuleStage)
    ensures
        stage_step_allowed(pre, post) ==> !stage_terminal(pre),
        stage_terminal(pre) ==> !stage_step_allowed(pre, post),
{
}

impl ModuleStage {
    /// A freshly resolved module.
    pub fn start() -> (s: ModuleStage)
        ensures
            s is Resolved,
    {
        ModuleStage::Resolved
    }

    /// Record the staleness decision.
    pub fn check_staleness(self, rebuild: bool) -> (s: ModuleStage)
        requires
            self is Resolved,
        ensures
            s == (ModuleStage::StalenessChecked { rebuild }),
            stage_step_allowed(self, s),
    {
        ModuleStage::StalenessChecked { rebuild }
    }

    /// Record that the decision was carried out: a rebuild or a cache
    /// hit, as decided.
    pub fn apply_cache(self) -> (s: ModuleStage)
        requires
            self is StalenessChecked,
        ensures
            self->rebuild ==> s is Rebuilt,
            !self->rebuild ==> s is CacheHit,
            stage_step_allowed(self, s),
    {
        match self {
            ModuleStage::StalenessChecked { rebuild: true } => ModuleStage::Rebuilt,
            _ => ModuleStage::CacheHit,
        }
    }

    /// Record the backend dispatch.
    pub fn dispatch(self) -> (s: ModuleStage)
        requires
            self is Rebuilt || self is CacheHit,
        ensures
            s is Dispatched,
            stage_step_allowed(self, s),
    {
        ModuleStage::Dispatched
    }

    /// Record completion.
    pub fn finish(self) -> (s: ModuleStage)
        requires
            self is Dispatched,
        ensures
            s is Done,
            stage_step_allowed(self, s),
    {
        ModuleStage::Done
    }

    /// Absorb the module's first unhandled error, from any step short of
    /// a terminal one.
    pub fn fail(self) -> (s: ModuleStage)
        requires
            !stage_terminal(self),
        ensures
            s is Error,
            stage_step_allowed(self, s),
    {
        ModuleStage::Error
    }

    /// Whether nothing further may happen to the module.
    pub fn is_terminal(&self) -> (b: bool)
        ensures
            b == stage_terminal(*self),
    {
        match self {
            ModuleStage::Done => true,
            ModuleStage::Error => true,
            _ => false,
        }
    }
}

/// Idempotence of generation: when a run rebuilt a module's derived
/// artifact and the rebuild was carried out — the artifact now exists and
/// its metadata records the source time the rebuild saw — then any later
/// plan over the unchanged source performs zero rebuilds: it loads the
/// cached artifact, and its first action writes nothing.
pub proof fn lemma_second_run_cache_hit(
    p2: ModulePlan,
    module: Seq<char>,
    selection: Compiler,
    root: Seq<char>,
    model_path: Seq<char>,
    s: SourceStatus,
    d1: DerivedStatus,
    d2: DerivedStatus,
    dry_run: bool,
)
    requires
        spec_fresh_plan(s, d1).spec_was_rebuilt(),
        d2.exists,
        d2.recorded_mtime == Some(spec_fresh_plan(s, d1)->record_mtime),
        module_plan_ok(p2, module, selection, root, model_path, s, d2, dry_run),
    ensures
        !p2.was_rebuilt,
        p2.actions@[0] matches Action::LoadDerived { .. },
        !action_writes(p2.actions@[0]),
{
    crate::cache::lemma_rebuild_then_cache_hit(s, d1, d2);
}

} // verus!
