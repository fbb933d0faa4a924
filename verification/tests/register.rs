use heck::ToSnakeCase;
use sarzak_cli::actions::Action;
use sarzak_cli::config::{Config, ModuleConfig};
use sarzak_cli::error::{OrchestrationError, MODULE_EXISTS};
use sarzak_cli::options::{Compiler, GraceOptions};
use sarzak_cli::register::{plan_new_module, register_new_module};

fn config_with(name: &str) -> Config {
    let mut config = Config::empty();
    config.insert_module(
        String::from(name),
        ModuleConfig {
            model: String::from("models/alpha.json"),
            compiler: Compiler::Grace(GraceOptions::default()),
        },
    );
    config
}

#[test]
fn registering_a_fresh_name_produces_default_settings() {
    let config = Config::empty();
    let (name, module) = register_new_module(&config, "alpha", None).unwrap();
    assert_eq!(name, "alpha");
    assert_eq!(module.model, "models/alpha.json");
    match module.compiler {
        Compiler::Grace(options) => {
            assert!(options.imported_domains.is_none());
            assert!(!options.doc_tests);
            assert!(!options.meta_domain);
        },
        Compiler::Dwarf(_) => panic!("the default backend is grace"),
    }
}

#[test]
fn module_and_model_names_are_snake_cased() {
    let config = Config::empty();
    let (name, module) = register_new_module(&config, "My Shiny Domain", None).unwrap();
    assert_eq!(name, "my_shiny_domain");
    assert_eq!(name, "My Shiny Domain".to_snake_case());
    assert_eq!(module.model, "models/my_shiny_domain.json");
}

#[test]
fn explicit_module_name_wins_over_domain_name() {
    let config = Config::empty();
    let module_arg = String::from("OtherName");
    let (name, module) = register_new_module(&config, "My Domain", Some(&module_arg)).unwrap();
    assert_eq!(name, "other_name");
    assert_eq!(module.model, "models/my_domain.json");
}

#[test]
fn colliding_name_always_fails_with_module_collision() {
    let config = config_with("alpha");
    match register_new_module(&config, "Alpha", None) {
        Err(e) => {
            match &e {
                OrchestrationError::ModuleCollision(n) => assert_eq!(n, "alpha"),
                _ => panic!("expected ModuleCollision"),
            }
            assert_eq!(e.exit_status(), MODULE_EXISTS);
        },
        Ok(_) => panic!("a declared name must collide"),
    }
}

#[test]
fn collision_mutates_nothing() {
    let mut config = config_with("alpha");
    let r = plan_new_module(&mut config, "Alpha", None, "proot", false);
    assert!(matches!(r, Err(OrchestrationError::ModuleCollision(_))));
    assert_eq!(config.modules.len(), 1);
    assert_eq!(config.modules[0].name, "alpha");
    assert_eq!(config.modules[0].config.model, "models/alpha.json");
}

#[test]
fn planning_a_new_module_lays_out_the_scaffolding_in_order() {
    let mut config = Config::empty();
    let plan = plan_new_module(&mut config, "My Domain", None, "proot", false).unwrap();
    assert_eq!(plan.module_name, "my_domain");
    assert_eq!(config.modules.len(), 1);
    assert_eq!(config.modules[0].name, "my_domain");
    assert_eq!(config.modules[0].config.model, "models/my_domain.json");
    assert_eq!(plan.actions.len(), 5);
    match &plan.actions[0] {
        Action::WriteConfig { path } => assert_eq!(path, "proot/sarzak.toml"),
        _ => panic!("the configuration is written first"),
    }
    match &plan.actions[1] {
        Action::CreateDirAll { path } => assert_eq!(path, "proot/models"),
        _ => panic!("the models directory comes next"),
    }
    match &plan.actions[2] {
        Action::WriteBlankModel { path, domain } => {
            assert_eq!(path, "proot/models/my_domain.json");
            assert_eq!(domain, "My Domain");
        },
        _ => panic!("the blank model comes next"),
    }
    match &plan.actions[3] {
        Action::CreateDir { path } => assert_eq!(path, "proot/src/my_domain"),
        _ => panic!("the module directory comes next"),
    }
    match &plan.actions[4] {
        Action::WriteModuleFile { path, domain } => {
            assert_eq!(path, "proot/src/my_domain.rs");
            assert_eq!(domain, "My Domain");
        },
        _ => panic!("the module file comes last"),
    }
}

#[test]
fn test_mode_still_validates_but_plans_nothing() {
    let mut taken = config_with("alpha");
    let r = plan_new_module(&mut taken, "Alpha", None, "proot", true);
    assert!(matches!(r, Err(OrchestrationError::ModuleCollision(_))));

    let mut config = Config::empty();
    let plan = plan_new_module(&mut config, "My Domain", None, "proot", true).unwrap();
    assert_eq!(plan.module_name, "my_domain");
    assert!(plan.actions.is_empty());
    assert_eq!(config.modules.len(), 1);
}
