//! Resolving a path written in a configuration file against the directory of
//! that file. Paths are carried as their text.

use vstd::prelude::*;

use std::path::Path;

verus! {

/// The text of `std::path::Path::parent` of the path with this text, if it
/// has a parent.
pub uninterp spec fn path_parent(path: Seq<char>) -> Option<Seq<char>>;

/// Whether `std::path::Path::is_relative` holds of the path with this text.
pub uninterp spec fn path_is_relative(path: Seq<char>) -> bool;

/// The text of `std::path::Path::join` of `base` with `path`.
pub uninterp spec fn path_joined(base: Seq<char>, path: Seq<char>) -> Seq<char>;

/// `std::path::Path::is_relative` of the path with text `path`: the result
/// depends only on that text (and on the platform the crate is built for).
#[verifier::external_body]
fn is_relative(path: &str) -> (b: bool)
    ensures
        b == path_is_relative(path@),
{
    Path::new(path).is_relative()
}

/// `std::path::Path::join` of `base` with `path`, as text: the result depends
/// only on the two texts. Both inputs are UTF-8 and the separator it inserts
/// is ASCII, so the conversion back to text loses nothing.
#[verifier::external_body]
fn join(base: &str, path: &str) -> (r: String)
    ensures
        r@ == path_joined(base@, path@),
{
    Path::new(base).join(path).to_string_lossy().into_owned()
}

/// `std::path::Path::parent` of the path with text `path`, as text: the
/// result depends only on that text, and being part of a UTF-8 text it
/// converts back without loss.
#[verifier::external_body]
fn parent(path: &str) -> (r: Option<String>)
    ensures
        r is Some <==> path_parent(path@) is Some,
        r matches Some(p) ==> path_parent(path@) == Some(p@),
{
    Path::new(path).parent().map(|p| p.to_string_lossy().into_owned())
}

/// The directory a configuration file at `config_path` is in: its parent,
/// or the current directory `.` for a path without one.
pub open spec fn config_dir_of(config_path: Seq<char>) -> Seq<char> {
    match path_parent(config_path) {
        Some(d) => d,
        None => "."@,
    }
}

/// The directory a configuration file at `config_path` is in.
pub fn config_dir(config_path: &str) -> (d: String)
    ensures
        d@ == config_dir_of(config_path@),
{
    match parent(config_path) {
        Some(d) => d,
        None => ".".to_string(),
    }
}

/// Where a path written in a file in directory `base_dir` points: a relative
/// path is taken from that directory, an absolute one is kept.
pub open spec fn resolved(base_dir: Seq<char>, path: Seq<char>) -> Seq<char> {
    if path_is_relative(path) {
        path_joined(base_dir, path)
    } else {
        path
    }
}

/// Resolves `path`, written in a configuration file that lives in `base_dir`:
/// a relative path becomes `base_dir` joined with it, an absolute path is
/// kept as it is.
pub fn resolve_csv(path: &str, base_dir: &str) -> (r: String)
    ensures
        r@ == resolved(base_dir@, path@),
{
    if is_relative(path) {
        join(base_dir, path)
    } else {
        path.to_string()
    }
}

} // verus!
