//! Pure path computations.
//!
//! Every target path is computed as a function of the package root, the
//! module, and the kind of file wanted; no shared path value is ever
//! mutated in place.  Paths are plain strings with `/` as the separator.

use vstd::prelude::*;
use vstd::string::*;
use crate::text::find_last_char;

verus! {

/// `dir` and `name`, joined by the path separator.
pub open spec fn joined(dir: Seq<char>, name: Seq<char>) -> Seq<char> {
    dir + "/"@ + name
}

/// The final path component: everything after the last separator, or the
/// whole path when it has no separator.
pub open spec fn final_component(p: Seq<char>) -> Seq<char> {
    match p.index_of_last('/') {
        Some(i) => p.subrange(i + 1, p.len() as int),
        None => p,
    }
}

/// The stem of the final component: everything before its last dot, when a
/// dot stands at an inner position; otherwise the whole component.
pub open spec fn stem_of(p: Seq<char>) -> Seq<char> {
    let comp = final_component(p);
    match comp.index_of_last('.') {
        Some(i) => if i > 0 { comp.subrange(0, i) } else { comp },
        None => comp,
    }
}

/// The extension of the final component: everything after its last dot,
/// when a dot stands at an inner position.
pub open spec fn extension_of(p: Seq<char>) -> Option<Seq<char>> {
    let comp = final_component(p);
    match comp.index_of_last('.') {
        Some(i) => if i > 0 {
            Some(comp.subrange(i + 1, comp.len() as int))
        } else {
            None
        },
        None => None,
    }
}

/// Join `dir` and `name` with the separator.
pub fn path_join(dir: &str, name: &str) -> (r: String)
    ensures
        r@ == joined(dir@, name@),
{
    let mut r = dir.to_owned();
    r.append("/");
    r.append(name);
    r
}

/// The final component of `p`, as a fresh string.
pub fn last_component(p: &str) -> (r: String)
    ensures
        r@ == final_component(p@),
{
    let n = p.unicode_len();
    match find_last_char(p, '/') {
        Some(i) => p.substring_char(i + 1, n).to_owned(),
        None => p.to_owned(),
    }
}

/// The stem of the final component of `p`, as a fresh string.
pub fn file_stem(p: &str) -> (r: String)
    ensures
        r@ == stem_of(p@),
{
    let comp = last_component(p);
    match find_last_char(comp.as_str(), '.') {
        Some(i) => {
            if i > 0 {
                comp.as_str().substring_char(0, i).to_owned()
            } else {
                comp
            }
        },
        None => comp,
    }
}

/// The models directory under a package root.
pub open spec fn model_dir_spec(root: Seq<char>) -> Seq<char> {
    joined(root, "models"@)
}

/// The models directory under a package root.
pub fn model_dir_path(root: &str) -> (r: String)
    ensures
        r@ == model_dir_spec(root@),
{
    path_join(root, "models")
}

/// The derived artifact for a model stem: the stem plus a fixed versioned
/// suffix, under the models directory.
pub open spec fn derived_artifact_spec(model_dir: Seq<char>, stem: Seq<char>) -> Seq<char> {
    joined(model_dir, stem + ".v2.json"@)
}

/// The derived artifact path for a model stem.
pub fn derived_artifact_path(model_dir: &str, stem: &str) -> (r: String)
    ensures
        r@ == derived_artifact_spec(model_dir@, stem@),
{
    let mut r = path_join(model_dir, stem);
    r.append(".v2.json");
    proof {
        assert(r@ =~= derived_artifact_spec(model_dir@, stem@));
    }
    r
}

/// The rebuild-metadata sidecar of a derived artifact.
pub open spec fn metadata_path_spec(derived: Seq<char>) -> Seq<char> {
    joined(derived, "metadata.json"@)
}

/// The rebuild-metadata sidecar of a derived artifact.
pub fn metadata_path(derived: &str) -> (r: String)
    ensures
        r@ == metadata_path_spec(derived@),
{
    path_join(derived, "metadata.json")
}

/// The source directory under a package root, where generated code lands.
pub open spec fn source_dir_spec(root: Seq<char>) -> Seq<char> {
    joined(root, "src"@)
}

/// The source directory under a package root.
pub fn source_dir_path(root: &str) -> (r: String)
    ensures
        r@ == source_dir_spec(root@),
{
    path_join(root, "src")
}

/// The directory that holds a module's generated code.
pub open spec fn module_dir_spec(root: Seq<char>, module: Seq<char>) -> Seq<char> {
    joined(source_dir_spec(root), module)
}

/// The directory that holds a module's generated code.
pub fn module_dir_path(root: &str, module: &str) -> (r: String)
    ensures
        r@ == module_dir_spec(root@, module@),
{
    let src = source_dir_path(root);
    path_join(src.as_str(), module)
}

/// The `.rs` file that declares a module.
pub open spec fn module_rs_spec(root: Seq<char>, module: Seq<char>) -> Seq<char> {
    module_dir_spec(root, module) + ".rs"@
}

/// The `.rs` file that declares a module.
pub fn module_rs_path(root: &str, module: &str) -> (r: String)
    ensures
        r@ == module_rs_spec(root@, module@),
{
    let mut r = module_dir_path(root, module);
    r.append(".rs");
    r
}

/// The model-file location declared for a freshly registered module:
/// derived deterministically from the module's file name, relative to the
/// package root.
pub open spec fn default_model_decl_spec(stem: Seq<char>) -> Seq<char> {
    "models/"@ + stem + ".json"@
}

/// The declared model-file location for a freshly registered module.
pub fn default_model_decl(stem: &str) -> (r: String)
    ensures
        r@ == default_model_decl_spec(stem@),
{
    let mut r = String::new();
    r.append("models/");
    r.append(stem);
    r.append(".json");
    proof {
        assert(r@ =~= default_model_decl_spec(stem@));
    }
    r
}

/// The declared-configuration file under a package root.
pub open spec fn config_file_spec(root: Seq<char>) -> Seq<char> {
    joined(root, "sarzak.toml"@)
}

/// The declared-configuration file under a package root.
pub fn config_file_path(root: &str) -> (r: String)
    ensures
        r@ == config_file_spec(root@),
{
    path_join(root, "sarzak.toml")
}

/// Whether the final component of `p` carries the given extension.
pub fn has_extension(p: &str, ext: &str) -> (b: bool)
    ensures
        b == (extension_of(p@) matches Some(e) && e == ext@),
{
    let comp = last_component(p);
    let m = comp.as_str().unicode_len();
    match find_last_char(comp.as_str(), '.') {
        Some(i) => {
            if i > 0 {
                let tail = comp.as_str().substring_char(i + 1, m);
                crate::text::str_eq(tail, ext)
            } else {
                false
            }
        },
        None => false,
    }
}

} // verus!
