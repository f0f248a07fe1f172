//! Paths, as far as the library needs them: the directory of a path, its
//! final component, and a name put under a directory. The rules for
//! separators, roots and prefixes are those of `std::path` on the platform
//! the library is built for; what they give is named here.

use vstd::prelude::*;
use crate::text::optional_view;

verus! {

/// The path without its final component, as `std::path::Path::parent`
/// gives it: `None` where the path ends in a root or prefix, or is empty.
pub uninterp spec fn parent_of(path: Seq<char>) -> Option<Seq<char>>;

/// The final component of the path, as `std::path::Path::file_name` gives
/// it: `None` where the path ends in `..` or has no component.
pub uninterp spec fn final_component(path: Seq<char>) -> Option<Seq<char>>;

/// The path of `name` under `directory`, as `std::path::Path::join` gives
/// it; an absolute `name` replaces the directory.
pub uninterp spec fn joined(directory: Seq<char>, name: Seq<char>) -> Seq<char>;

/// Calls `std::path::Path::parent` on the path and hands the result out as
/// text. The contract only names the outcome.
#[verifier::external_body]
pub(crate) fn parent_directory(path: &str) -> (parent: Option<String>)
    ensures
        optional_view(parent) == parent_of(path@),
{
    match std::path::Path::new(path).parent() {
        Some(p) => Some(p.to_string_lossy().to_string()),
        None => None,
    }
}

/// Calls `std::path::Path::file_name` on the path and hands the result out
/// as text. The contract only names the outcome.
#[verifier::external_body]
pub(crate) fn last_component(path: &str) -> (name: Option<String>)
    ensures
        optional_view(name) == final_component(path@),
{
    match std::path::Path::new(path).file_name() {
        Some(n) => Some(n.to_string_lossy().to_string()),
        None => None,
    }
}

/// Calls `std::path::Path::join` and hands the result out as text. The
/// contract only names the outcome.
#[verifier::external_body]
pub(crate) fn join_path(directory: &str, name: &str) -> (path: String)
    ensures
        path@ == joined(directory@, name@),
{
    std::path::Path::new(directory).join(name).to_string_lossy().to_string()
}

} // verus!
