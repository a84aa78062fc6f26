//! The few operations on file system paths that opening a patch needs.
//!
//! They are those of `std::path`, on paths written as strings: what each gives back is named
//! here, and only the library's own use of them is verified. `std::path` follows the path
//! conventions of the platform that the library is compiled for; within one build, each of
//! them answers the same for the same strings.

use vstd::prelude::*;

verus! {

/// The final component of `path`, if there is one (`Path::file_name`).
pub uninterp spec fn path_file_name(path: Seq<char>) -> Option<Seq<char>>;

/// The path without its final component, if it has one (`Path::parent`).
pub uninterp spec fn path_parent(path: Seq<char>) -> Option<Seq<char>>;

/// Whether `path` is absolute (`Path::is_absolute`).
pub uninterp spec fn path_is_absolute(path: Seq<char>) -> bool;

/// `rest` appended to `base` (`Path::join`).
pub uninterp spec fn path_join(base: Seq<char>, rest: Seq<char>) -> Seq<char>;

/// `path` without its final component, or `path` itself when it has none (`PathBuf::pop`).
pub uninterp spec fn path_pop(path: Seq<char>) -> Seq<char>;

/// Whether two paths are equal as `std::path::Path` compares them: by their components.
pub uninterp spec fn path_eq(a: Seq<char>, b: Seq<char>) -> bool;

/// Compares two paths with `==` on `std::path::Path`, which compares their components, so
/// that `a/b` and `a/b/` are the same path. The contract claims that the answer is a function
/// of the two paths, and that equal strings are equal paths (`Path` implements `Eq`).
#[verifier::external_body]
pub(crate) fn same_path(a: &str, b: &str) -> (r: bool)
    ensures
        r == path_eq(a@, b@),
        a@ == b@ ==> r,
{
    std::path::Path::new(a) == std::path::Path::new(b)
}

/// Calls `std::path::Path::file_name`: the final component of `path`, if there is one. The
/// contract claims only that the answer is a function of the path.
#[verifier::external_body]
pub(crate) fn file_name_of(path: &str) -> (r: Option<String>)
    ensures
        match r {
            Some(name) => path_file_name(path@) == Some(name@),
            None => path_file_name(path@) is None,
        },
{
    match std::path::Path::new(path).file_name() {
        Some(name) => Some(name.to_string_lossy().into_owned()),
        None => None,
    }
}

/// Calls `std::path::Path::parent`: `path` without its final component, if it has one. The
/// contract claims only that the answer is a function of the path.
#[verifier::external_body]
pub(crate) fn parent_of(path: &str) -> (r: Option<String>)
    ensures
        match r {
            Some(parent) => path_parent(path@) == Some(parent@),
            None => path_parent(path@) is None,
        },
{
    match std::path::Path::new(path).parent() {
        Some(parent) => Some(parent.to_string_lossy().into_owned()),
        None => None,
    }
}

/// Calls `std::path::Path::is_absolute`. The contract claims only that the answer is a
/// function of the path.
#[verifier::external_body]
pub(crate) fn is_absolute(path: &str) -> (r: bool)
    ensures
        r == path_is_absolute(path@),
{
    std::path::Path::new(path).is_absolute()
}

/// Calls `std::path::Path::join`: `rest` appended to `base`. The contract claims only that the
/// answer is a function of the two paths.
#[verifier::external_body]
pub(crate) fn join(base: &str, rest: &str) -> (r: String)
    ensures
        r@ == path_join(base@, rest@),
{
    std::path::Path::new(base).join(rest).to_string_lossy().into_owned()
}

/// Calls `std::path::PathBuf::pop`: `path` without its final component. The contract claims
/// only that the answer is a function of the path.
#[verifier::external_body]
pub(crate) fn pop(path: &str) -> (r: String)
    ensures
        r@ == path_pop(path@),
{
    let mut buffer = std::path::PathBuf::from(path);
    buffer.pop();
    buffer.to_string_lossy().into_owned()
}

} // verus!
