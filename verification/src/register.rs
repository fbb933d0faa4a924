//! The new-module workflow: validate the name, register default settings,
//! and lay out the scaffolding writes.

use vstd::prelude::*;
use vstd::string::*;
use crate::actions::{Action, action_writes};
use crate::config::{Config, ModuleConfig};
use crate::error::OrchestrationError;
use crate::names::{snake_of, to_snake_case};
use crate::options::{Compiler, default_grace_options};
use crate::paths::{config_file_spec, default_model_decl_spec, joined, model_dir_spec,
    module_dir_spec, module_rs_spec};

verus! {

/// What registering resolves to, for the would-be module name `name`: a
/// collision with a declared module always fails and yields nothing; a
/// fresh name gets the default settings — the grace backend with default
/// options — and the deterministic model location derived from the
/// domain's file name.
pub open spec fn register_result_ok(
    config: Config,
    domain: Seq<char>,
    r: Result<(String, ModuleConfig), OrchestrationError>,
    name: Seq<char>,
) -> bool {
    &&& config.has_module(name) ==> (r matches Err(e)
        && e matches OrchestrationError::ModuleCollision(n) && n@ == name)
    &&& !config.has_module(name) ==> (r matches Ok(nm) && nm.0@ == name && nm.1.model@
        == default_model_decl_spec(snake_of(domain)) && nm.1.compiler == Compiler::Grace(
        default_grace_options(),
    ))
}

/// Register a new module: the module's name is the snake-cased module
/// argument when one is given, else the snake-cased domain name.  Fails
/// with a collision when the name is already declared; otherwise produces
/// the default settings.  The declared configuration is read, never
/// changed.
pub fn register_new_module(config: &Config, domain: &str, module: Option<&String>) -> (r: Result<
    (String, ModuleConfig),
    OrchestrationError,
>)
    ensures
        module matches Some(m) ==> register_result_ok(*config, domain@, r, snake_of(m@)),
        module is None ==> register_result_ok(*config, domain@, r, snake_of(domain@)),
{
    let rust_name = to_snake_case(domain);
    let module_name = match module {
        Some(m) => to_snake_case(m.as_str()),
        None => rust_name.clone(),
    };
    match config.find_module(module_name.as_str()) {
        Some(i) => {
            proof {
                assert(config.has_module(module_name@));
            }
            Err(OrchestrationError::ModuleCollision(module_name))
        },
        None => {
            let model = crate::paths::default_model_decl(rust_name.as_str());
            Ok((module_name, ModuleConfig { model, compiler: Compiler::default_selection() }))
        },
    }
}

/// The plan for creating a new module.
pub struct NewModulePlan {
    /// The name of the new module.
    pub module_name: String,
    /// What to carry out, in order.
    pub actions: Vec<Action>,
}

/// The scaffolding writes of a real (non-test) new-module run, in order:
/// persist the updated configuration, make sure the models directory
/// exists, write a blank model for the domain, create the module's
/// directory, and write the source file that declares the module.
pub open spec fn new_module_actions_ok(
    acts: Seq<Action>,
    root: Seq<char>,
    domain: Seq<char>,
    rust_name: Seq<char>,
    module_name: Seq<char>,
) -> bool {
    &&& acts.len() == 5
    &&& (acts[0] matches Action::WriteConfig { path } && path@ == config_file_spec(root))
    &&& (acts[1] matches Action::CreateDirAll { path } && path@ == model_dir_spec(root))
    &&& (acts[2] matches Action::WriteBlankModel { path, domain: d } && path@ == joined(
        model_dir_spec(root),
        rust_name + ".json"@,
    ) && d@ == domain)
    &&& (acts[3] matches Action::CreateDir { path } && path@ == module_dir_spec(
        root,
        module_name,
    ))
    &&& (acts[4] matches Action::WriteModuleFile { path, domain: d } && path@ == module_rs_spec(
        root,
        module_name,
    ) && d@ == domain)
}

/// What planning a new module resolves to, for the would-be name `name`:
/// a collision fails and leaves the declared configuration untouched; a
/// fresh name is appended to the configuration with default settings, and
/// the scaffolding writes are planned — none of them in test mode, which
/// validates all the same but never mutates.
pub open spec fn plan_new_result_ok(
    oldc: Config,
    newc: Config,
    domain: Seq<char>,
    root: Seq<char>,
    test_mode: bool,
    r: Result<NewModulePlan, OrchestrationError>,
    name: Seq<char>,
) -> bool {
    &&& oldc.has_module(name) ==> (r matches Err(e)
        && e matches OrchestrationError::ModuleCollision(n) && n@ == name && newc == oldc)
    &&& !oldc.has_module(name) ==> (r matches Ok(p) && p.module_name@ == name
        && newc.modules@.len() == oldc.modules@.len() + 1 && newc.modules@.subrange(
        0,
        oldc.modules@.len() as int,
    ) == oldc.modules@ && newc.modules@.last().name@ == name
        && newc.modules@.last().config.model@ == default_model_decl_spec(snake_of(domain))
        && newc.modules@.last().config.compiler == Compiler::Grace(default_grace_options())
        && (test_mode ==> p.actions@.len() == 0) && (!test_mode ==> new_module_actions_ok(
        p.actions@,
        root,
        domain,
        snake_of(domain),
        name,
    )))
}

/// Plan the creation of a new module under `root`.
///
/// The name is validated against the declared configuration first, in
/// test mode too: a collision is fatal to the command and changes
/// nothing.  On success the module is appended to the configuration, and
/// the scaffolding writes are laid out in order; in test mode the plan is
/// empty, so nothing is ever written.
pub fn plan_new_module(
    config: &mut Config,
    domain: &str,
    module: Option<&String>,
    root: &str,
    test_mode: bool,
) -> (r: Result<NewModulePlan, OrchestrationError>)
    requires
        old(config).wf(),
    ensures
        final(config).wf(),
        r is Err ==> *final(config) == *old(config),
        module matches Some(m) ==> plan_new_result_ok(
            *old(config),
            *final(config),
            domain@,
            root@,
            test_mode,
            r,
            snake_of(m@),
        ),
        module is None ==> plan_new_result_ok(
            *old(config),
            *final(config),
            domain@,
            root@,
            test_mode,
            r,
            snake_of(domain@),
        ),
        test_mode ==> (r matches Ok(p) ==> forall|k: int|
            0 <= k < p.actions@.len() ==> !action_writes(p.actions@[k])),
{
    match register_new_module(config, domain, module) {
        Err(e) => Err(e),
        Ok((module_name, mc)) => {
            let rust_name = to_snake_case(domain);
            let name_copy = module_name.clone();
            config.insert_module(module_name, mc);
            let mut acts: Vec<Action> = Vec::new();
            if !test_mode {
                acts.push(Action::WriteConfig { path: crate::paths::config_file_path(root) });
                let model_dir = crate::paths::model_dir_path(root);
                let mut file = rust_name;
                file.append(".json");
                let blank = crate::paths::path_join(model_dir.as_str(), file.as_str());
                acts.push(Action::CreateDirAll { path: model_dir });
                acts.push(Action::WriteBlankModel { path: blank, domain: domain.to_owned() });
                acts.push(Action::CreateDir {
                    path: crate::paths::module_dir_path(root, name_copy.as_str()),
                });
                acts.push(Action::WriteModuleFile {
                    path: crate::paths::module_rs_path(root, name_copy.as_str()),
                    domain: domain.to_owned(),
                });
            }
            Ok(NewModulePlan { module_name: name_copy, actions: acts })
        },
    }
}

} // verus!
