//! Application directory naming: debug builds keep their files apart by a `.dev`
//! suffix on the last path component.

use vstd::prelude::*;

use crate::text::concat2;

verus! {

/// The last component of a path, as `std::path::Path::file_name` gives it.
pub uninterp spec fn path_file_name(p: Seq<char>) -> Option<Seq<char>>;

/// The path without its last component, as `std::path::Path::parent` gives it.
pub uninterp spec fn path_parent(p: Seq<char>) -> Option<Seq<char>>;

/// A path extended by one component, as `std::path::Path::join` gives it.
pub uninterp spec fn path_join(base: Seq<char>, name: Seq<char>) -> Seq<char>;

/// Calls `std::path::Path::file_name`; the claim is that the result is a function
/// of the path, named `path_file_name`.
#[verifier::external_body]
fn file_name_of(p: &str) -> (r: Option<String>)
    ensures
        r is Some <==> path_file_name(p@) is Some,
        r matches Some(s) ==> path_file_name(p@) == Some(s@),
{
    std::path::Path::new(p).file_name().map(|n| n.to_string_lossy().into_owned())
}

/// Calls `std::path::Path::parent`; the claim is that the result is a function of
/// the path, named `path_parent`.
#[verifier::external_body]
fn parent_of(p: &str) -> (r: Option<String>)
    ensures
        r is Some <==> path_parent(p@) is Some,
        r matches Some(s) ==> path_parent(p@) == Some(s@),
{
    std::path::Path::new(p).parent().map(|q| q.to_string_lossy().into_owned())
}

/// Calls `std::path::Path::join`; the claim is that the result is a function of
/// its arguments, named `path_join`.
#[verifier::external_body]
fn join_path(base: &str, name: &str) -> (r: String)
    ensures
        r@ == path_join(base@, name@),
{
    std::path::Path::new(base).join(name).to_string_lossy().into_owned()
}

/// The directory name of a debug build: the name followed by `.dev`.
pub fn debug_dir_name(name: &str) -> (r: String)
    ensures
        r@ == name@ + ".dev"@,
{
    concat2(name, ".dev")
}

/// The debug variant of an application directory: `.dev` appended to its last
/// component. A path without a last component or without a parent is returned as is.
pub fn modify_app_dir_for_debug(path: String) -> (r: String)
    ensures
        r@ == (match (path_file_name(path@), path_parent(path@)) {
            (Some(name), Some(parent)) => path_join(parent, name + ".dev"@),
            _ => path@,
        }),
{
    if let Some(dir_name) = file_name_of(path.as_str()) {
        let new_dir_name = debug_dir_name(dir_name.as_str());
        if let Some(parent) = parent_of(path.as_str()) {
            return join_path(parent.as_str(), new_dir_name.as_str());
        }
    }
    path
}

} // verus!
