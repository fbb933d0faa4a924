//! The declared configuration: the set of modules a user has declared,
//! keyed by name, in declaration order.

use vstd::prelude::*;
use crate::options::Compiler;
use crate::text::str_eq;

verus! {

/// One declared module: the path of its source model, relative to the
/// package root, and the backend selected for it.
pub struct ModuleConfig {
    /// Path to the model file.
    pub model: String,
    /// The compiler to use for this module.
    pub compiler: Compiler,
}

/// A named entry of the declared configuration.
pub struct ModuleEntry {
    /// The module's name: the stable key in the module set.
    pub name: String,
    /// The module's declared settings.
    pub config: ModuleConfig,
}

/// The declared configuration: every module the user has declared, in
/// declaration order.  Names are unique; a collision is an error at the
/// point of registration, so a well-formed value never holds one.
pub struct Config {
    /// The declared modules, in declaration order.
    pub modules: Vec<ModuleEntry>,
}

impl Config {
    /// The declared names, in declaration order.
    pub open spec fn names(&self) -> Seq<Seq<char>> {
        self.modules@.map_values(|e: ModuleEntry| e.name@)
    }

    /// Well-formedness: no name is declared twice.
    pub open spec fn wf(&self) -> bool {
        forall|i: int, j: int|
            0 <= i < j < self.modules@.len() ==> self.names()[i] != self.names()[j]
    }

    /// Whether a module of this name is declared.
    pub open spec fn has_module(&self, name: Seq<char>) -> bool {
        exists|i: int| 0 <= i < self.modules@.len() && self.names()[i] == name
    }

    /// An empty configuration.
    pub fn empty() -> (r: Config)
        ensures
            r.modules@.len() == 0,
            r.wf(),
    {
        Config { modules: Vec::new() }
    }

    /// Look a name up in the declared set: the index of its entry, in
    /// declaration order, if the name is declared.
    pub fn find_module(&self, name: &str) -> (r: Option<usize>)
        ensures
            r matches Some(i) ==> i < self.modules@.len()
                && self.names()[i as int] == name@,
            r is None ==> !self.has_module(name@),
    {
        let n = self.modules.len();
        let mut i: usize = 0;
        while i < n
            invariant
                n == self.modules@.len(),
                i <= n,
                forall|j: int| 0 <= j < i ==> self.names()[j] != name@,
            decreases n - i,
        {
            if str_eq(self.modules[i].name.as_str(), name) {
                return Some(i);
            }
            i += 1;
        }
        proof {
            assert(!self.has_module(name@)) by {
                if self.has_module(name@) {
                    let w = choose|j: int|
                        0 <= j < self.modules@.len() && self.names()[j] == name@;
                    assert(self.names()[w] != name@);
                }
            }
        }
        None
    }

    /// Append a module under a name that is not yet declared.  Every
    /// earlier entry keeps its place, so declaration order is preserved,
    /// and the configuration stays well-formed.
    pub fn insert_module(&mut self, name: String, module: ModuleConfig)
        requires
            old(self).wf(),
            !old(self).has_module(name@),
        ensures
            final(self).modules@.len() == old(self).modules@.len() + 1,
            final(self).modules@[old(self).modules@.len() as int].name@ == name@,
            final(self).modules@[old(self).modules@.len() as int].config == module,
            final(self).modules@.subrange(0, old(self).modules@.len() as int)
                == old(self).modules@,
            final(self).wf(),
    {
        self.modules.push(ModuleEntry { name, config: module });
        proof {
            let n = old(self).modules@.len() as int;
            assert(self.modules@.subrange(0, n) =~= old(self).modules@);
            assert forall|i: int, j: int|
                0 <= i < j < self.modules@.len() implies self.names()[i] != self.names()[j] by {
                assert(self.names()[i] == self.modules@[i].name@);
                assert(self.names()[j] == self.modules@[j].name@);
                if j < n {
                    assert(self.modules@[i] == old(self).modules@[i]);
                    assert(self.modules@[j] == old(self).modules@[j]);
                    assert(old(self).names()[i] == old(self).modules@[i].name@);
                    assert(old(self).names()[j] == old(self).modules@[j].name@);
                } else {
                    if self.names()[i] == self.names()[j] {
                        assert(self.modules@[i] == old(self).modules@[i]);
                        assert(old(self).names()[i] == old(self).modules@[i].name@);
                        assert(old(self).has_module(self.names()[j]));
                    }
                }
            }
        }
    }
}

} // verus!
