use sarzak_cli::actions::Action;
use sarzak_cli::cache::{DerivedStatus, SourceStatus};
use sarzak_cli::config::{Config, ModuleConfig};
use sarzak_cli::dispatch::{interpret_backend_result, invoke_dwarf, BackendRegistry};
use sarzak_cli::error::{OrchestrationError, MODULE_DIR_MISSING, NOTHING_TO_DO};
use sarzak_cli::options::{BackendKind, Compiler, DwarfOptions, GraceOptions};
use sarzak_cli::orchestrate::{
    plan_module, require_model_dir, resolve_model_path, resolve_modules, ModuleStage,
};

fn two_module_config() -> Config {
    let mut config = Config::empty();
    config.insert_module(
        String::from("alpha"),
        ModuleConfig {
            model: String::from("models/alpha.json"),
            compiler: Compiler::Grace(GraceOptions::default()),
        },
    );
    config.insert_module(
        String::from("beta"),
        ModuleConfig {
            model: String::from("models/beta.json"),
            compiler: Compiler::Grace(GraceOptions::default()),
        },
    );
    config
}

#[test]
fn no_request_processes_every_module_in_declaration_order() {
    let config = two_module_config();
    let sel = resolve_modules(None, &config).unwrap();
    assert_eq!(sel.chosen, vec![0, 1]);
    assert!(sel.missing.is_empty());
}

#[test]
fn empty_config_with_no_request_is_nothing_to_do() {
    let config = Config::empty();
    match resolve_modules(None, &config) {
        Err(e) => {
            assert!(matches!(e, OrchestrationError::NothingToDo));
            assert_eq!(e.exit_status(), NOTHING_TO_DO);
        },
        Ok(_) => panic!("an empty configuration must be nothing to do"),
    }
}

#[test]
fn requested_names_are_chosen_in_requested_order() {
    let config = two_module_config();
    let requested = vec![String::from("beta"), String::from("alpha")];
    let sel = resolve_modules(Some(&requested), &config).unwrap();
    assert_eq!(sel.chosen, vec![1, 0]);
    assert!(sel.missing.is_empty());
}

#[test]
fn undeclared_name_is_skipped_not_fatal() {
    let config = two_module_config();
    let requested = vec![String::from("gamma")];
    let sel = resolve_modules(Some(&requested), &config).unwrap();
    assert!(sel.chosen.is_empty());
    assert_eq!(sel.missing, vec![String::from("gamma")]);
}

#[test]
fn blank_names_are_skipped() {
    let config = two_module_config();
    let requested = vec![String::new(), String::from("alpha"), String::new()];
    let sel = resolve_modules(Some(&requested), &config).unwrap();
    assert_eq!(sel.chosen, vec![0]);
    assert!(sel.missing.is_empty());
}

#[test]
fn missing_model_dir_is_a_structural_error() {
    match require_model_dir(false, "proot") {
        Err(OrchestrationError::ModelDirMissing(p)) => {
            assert_eq!(p, "proot/models");
        },
        _ => panic!("expected ModelDirMissing"),
    }
    assert!(require_model_dir(true, "proot").is_ok());
    assert_eq!(
        OrchestrationError::ModelDirMissing(String::from("proot/models")).exit_status(),
        MODULE_DIR_MISSING
    );
}

#[test]
fn declared_model_path_is_tried_as_given_then_under_the_models_dir() {
    let as_given = resolve_model_path("models/alpha.json", true, "proot/models", false).unwrap();
    assert_eq!(as_given, "models/alpha.json");
    let under = resolve_model_path("alpha.json", false, "proot/models", true).unwrap();
    assert_eq!(under, "proot/models/alpha.json");
    match resolve_model_path("alpha.json", false, "proot/models", false) {
        Err(OrchestrationError::ModelNotFound(p)) => {
            assert_eq!(p, "proot/models/alpha.json")
        },
        _ => panic!("expected ModelNotFound"),
    }
}

fn plan_one(
    source: SourceStatus,
    derived: DerivedStatus,
    dry_run: bool,
) -> Result<sarzak_cli::orchestrate::ModulePlan, OrchestrationError> {
    let registry = BackendRegistry::with_all_backends();
    plan_module(
        &registry,
        "alpha",
        Compiler::Grace(GraceOptions::default()),
        "work/proot",
        "models/alpha.json",
        true,
        &source,
        &derived,
        dry_run,
    )
}

#[test]
fn first_run_rebuilds_and_dispatches() {
    let source = SourceStatus { exists: true, is_file: true, mtime: 42 };
    let derived = DerivedStatus { exists: false, recorded_mtime: None };
    let plan = plan_one(source, derived, false).unwrap();
    assert_eq!(plan.module, "alpha");
    assert!(plan.was_rebuilt);
    assert_eq!(plan.actions.len(), 2);
    match &plan.actions[0] {
        Action::RebuildDerived { source, derived, metadata, record_mtime } => {
            assert_eq!(source, "models/alpha.json");
            assert_eq!(derived, "work/proot/models/alpha.v2.json");
            assert_eq!(metadata, "work/proot/models/alpha.v2.json/metadata.json");
            assert_eq!(*record_mtime, 42);
        },
        _ => panic!("a first run must rebuild the derived artifact"),
    }
    match &plan.actions[1] {
        Action::Compile(req) => {
            assert!(matches!(req.selection, Compiler::Grace(_)));
            assert_eq!(req.package, "proot");
            assert_eq!(req.module, "alpha");
            assert_eq!(req.output_root, "work/proot/src");
            assert_eq!(req.model_path, "models/alpha.json");
            assert!(!req.dry_run);
        },
        _ => panic!("the last action must dispatch to the backend"),
    }
}

#[test]
fn second_run_reuses_the_artifact_and_rebuilds_nothing() {
    let source = SourceStatus { exists: true, is_file: true, mtime: 42 };
    let first = plan_one(source, DerivedStatus { exists: false, recorded_mtime: None }, false)
        .unwrap();
    let recorded = match &first.actions[0] {
        Action::RebuildDerived { record_mtime, .. } => *record_mtime,
        _ => panic!("a first run must rebuild the derived artifact"),
    };
    let second = plan_one(
        source,
        DerivedStatus { exists: true, recorded_mtime: Some(recorded) },
        false,
    )
    .unwrap();
    assert!(!second.was_rebuilt);
    match &second.actions[0] {
        Action::LoadDerived { derived } => {
            assert_eq!(derived, "work/proot/models/alpha.v2.json")
        },
        _ => panic!("a second run must reuse the derived artifact"),
    }
}

#[test]
fn touched_source_rebuilds_untouched_source_does_not() {
    let derived = DerivedStatus { exists: true, recorded_mtime: Some(42) };
    let touched = SourceStatus { exists: true, is_file: true, mtime: 43 };
    assert!(plan_one(touched, derived, false).unwrap().was_rebuilt);
    let untouched = SourceStatus { exists: true, is_file: true, mtime: 42 };
    assert!(!plan_one(untouched, derived, false).unwrap().was_rebuilt);
}

#[test]
fn dry_run_plans_no_filesystem_mutation() {
    let stale_cases = vec![
        DerivedStatus { exists: false, recorded_mtime: None },
        DerivedStatus { exists: true, recorded_mtime: Some(1) },
        DerivedStatus { exists: true, recorded_mtime: Some(99) },
    ];
    for derived in stale_cases {
        let source = SourceStatus { exists: true, is_file: true, mtime: 42 };
        let plan = plan_one(source, derived, true).unwrap();
        for action in &plan.actions {
            match action {
                Action::LoadSource { .. } | Action::LoadDerived { .. } => {},
                Action::Compile(req) => assert!(req.dry_run),
                _ => panic!("a dry run must not plan a write"),
            }
        }
    }
}

#[test]
fn whole_run_processes_both_modules_in_order_with_two_successes() {
    let config = two_module_config();
    let registry = BackendRegistry::with_all_backends();
    let sel = resolve_modules(None, &config).unwrap();
    assert!(sel.missing.is_empty());
    let mut outcomes: Vec<(String, bool)> = Vec::new();
    for &index in &sel.chosen {
        let entry = &config.modules[index];
        let source = SourceStatus { exists: true, is_file: true, mtime: 7 };
        let derived = DerivedStatus { exists: false, recorded_mtime: None };
        let selection = match &entry.config.compiler {
            Compiler::Grace(_) => Compiler::Grace(GraceOptions::default()),
            Compiler::Dwarf(_) => Compiler::Dwarf(DwarfOptions {}),
        };
        let plan = plan_module(
            &registry,
            &entry.name,
            selection,
            "proot",
            &entry.config.model,
            true,
            &source,
            &derived,
            false,
        )
        .unwrap();
        let backend_report: Result<(), String> = Ok(());
        assert!(interpret_backend_result(backend_report).is_ok());
        outcomes.push((plan.module.clone(), plan.was_rebuilt));
    }
    assert_eq!(
        outcomes,
        vec![(String::from("alpha"), true), (String::from("beta"), true)]
    );
}

#[test]
fn unknown_backend_kind_is_never_dispatched_silently() {
    let mut registry = BackendRegistry::new();
    assert!(!registry.is_registered(BackendKind::Grace));
    assert!(!registry.is_registered(BackendKind::Dwarf));
    registry.register(BackendKind::Grace);
    assert!(registry.is_registered(BackendKind::Grace));
    assert!(!registry.is_registered(BackendKind::Dwarf));
}

#[test]
fn backend_failure_is_wrapped_fatal_to_the_module() {
    match interpret_backend_result(Err(String::from("model exploded"))) {
        Err(OrchestrationError::BackendError(m)) => assert_eq!(m, "model exploded"),
        _ => panic!("expected BackendError"),
    }
    assert!(interpret_backend_result(Ok(())).is_ok());
}

#[test]
fn module_lifecycle_runs_resolved_to_done() {
    let stage = ModuleStage::start();
    assert!(!stage.is_terminal());
    let stage = stage.check_staleness(true);
    let stage = stage.apply_cache();
    assert_eq!(stage, ModuleStage::Rebuilt);
    let stage = stage.dispatch();
    let stage = stage.finish();
    assert_eq!(stage, ModuleStage::Done);
    assert!(stage.is_terminal());

    let cached = ModuleStage::start().check_staleness(false).apply_cache();
    assert_eq!(cached, ModuleStage::CacheHit);
}

#[test]
fn first_unhandled_error_absorbs_the_module() {
    let failed = ModuleStage::start().fail();
    assert_eq!(failed, ModuleStage::Error);
    assert!(failed.is_terminal());
    let late = ModuleStage::start().check_staleness(true).apply_cache().fail();
    assert_eq!(late, ModuleStage::Error);
}

#[test]
fn dwarf_backend_succeeds_without_effect() {
    let r = invoke_dwarf(&DwarfOptions {}, "proot", "models/alpha.json", false, "alpha");
    assert!(r.is_ok());
}
