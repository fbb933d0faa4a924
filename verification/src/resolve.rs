//! Three-tier resolution of configuration values.

use vstd::prelude::*;
use crate::options::Compiler;

verus! {

/// Resolve one configuration value from its three possible sources, with
/// strict precedence: an explicit invocation value wins over a persisted
/// per-module value, which wins over the hardcoded default.
pub fn resolve_option<T>(explicit: Option<T>, persisted: Option<T>, default: T) -> (r: T)
    ensures
        explicit matches Some(e) ==> r == e,
        explicit is None ==> (persisted matches Some(p) ==> r == p),
        explicit is None && persisted is None ==> r == default,
{
    match explicit {
        Some(v) => v,
        None => match persisted {
            Some(v) => v,
            None => default,
        },
    }
}

/// The backend selection in effect for one module: an explicit selection
/// from the command invocation overrides the module's persisted one, for
/// this run only — it is never written back to the declared
/// configuration.
pub fn effective_selection(explicit: Option<Compiler>, declared: Compiler) -> (r: Compiler)
    ensures
        explicit matches Some(c) ==> r == c,
        explicit is None ==> r == declared,
{
    resolve_option(explicit, None, declared)
}

} // verus!
