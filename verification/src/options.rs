//! Backend selections and their option payloads.
//!
//! A module is generated by exactly one backend per invocation.  Each backend
//! kind carries its own options payload; kinds and payloads are never mixed.

use vstd::prelude::*;

verus! {

/// Options payload for the grace backend.
pub struct GraceOptions {
    /// Domains whose types may be referenced across domain boundaries.
    pub imported_domains: Option<Vec<String>>,
    /// Emit documentation tests alongside the generated types.
    pub doc_tests: bool,
    /// Treat the domain being compiled as a meta-domain.
    pub meta_domain: bool,
}

/// The grace options used when a module does not persist any of its own.
pub open spec fn default_grace_options() -> GraceOptions {
    GraceOptions { imported_domains: None, doc_tests: false, meta_domain: false }
}

impl Default for GraceOptions {
    fn default() -> (r: Self)
        ensures
            r == default_grace_options(),
    {
        GraceOptions { imported_domains: None, doc_tests: false, meta_domain: false }
    }
}

/// Options payload for the dwarf backend, which has no settings of its own.
pub struct DwarfOptions {}

impl Default for DwarfOptions {
    fn default() -> (r: Self)
        ensures
            r == (DwarfOptions {}),
    {
        DwarfOptions {}
    }
}

/// A backend selection: the backend kind together with that kind's options.
pub enum Compiler {
    /// The grace model compiler.
    Grace(GraceOptions),
    /// The dwarf language compiler.
    Dwarf(DwarfOptions),
}

/// The canonical tag that identifies a backend kind, independent of any
/// options payload.  The registry is keyed by this tag.
#[derive(Clone, Copy, PartialEq, Eq, Structural, Debug)]
pub enum BackendKind {
    Grace,
    Dwarf,
}

impl Compiler {
    /// The kind of backend this selection names.
    pub open spec fn kind(&self) -> BackendKind {
        match self {
            Compiler::Grace(_) => BackendKind::Grace,
            Compiler::Dwarf(_) => BackendKind::Dwarf,
        }
    }

    /// The canonical tag of this selection.
    pub fn kind_tag(&self) -> (k: BackendKind)
        ensures
            k == self.kind(),
    {
        match self {
            Compiler::Grace(_) => BackendKind::Grace,
            Compiler::Dwarf(_) => BackendKind::Dwarf,
        }
    }

    /// The selection used for a freshly registered module: the grace backend
    /// with its default options.
    pub fn default_selection() -> (r: Compiler)
        ensures
            r == Compiler::Grace(default_grace_options()),
    {
        Compiler::Grace(GraceOptions::default())
    }
}

} // verus!
