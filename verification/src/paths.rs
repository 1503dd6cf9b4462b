//! Paths as text, built and compared by the standard library.
//!
//! The browser holds every path as a string and leaves the rules of paths
//! to `std::path`, by those of the platform that the library is built for.
//! So the contracts here only give names to what `std::path` returns; the
//! rest of the library states what it asks of the file system over those
//! names.

use vstd::prelude::*;

verus! {

/// The path of `name` inside the directory `dir`, as `Path::join` builds it.
pub uninterp spec fn path_join(dir: Seq<char>, name: Seq<char>) -> Seq<char>;

/// The directory that holds `dir`, or `dir` itself where nothing holds it,
/// as `PathBuf::pop` leaves it.
pub uninterp spec fn path_parent(dir: Seq<char>) -> Seq<char>;

/// Whether `a` and `b` are equal as paths, by the `==` of `Path`.
pub uninterp spec fn path_same(a: Seq<char>, b: Seq<char>) -> bool;

/// Calls `Path::join` on `dir` with `name`. The contract only names the
/// resulting text.
#[verifier::external_body]
pub(crate) fn join(dir: &str, name: &str) -> (path: String)
    ensures
        path@ == path_join(dir@, name@),
{
    std::path::Path::new(dir).join(name).to_string_lossy().into_owned()
}

/// Calls `PathBuf::pop` on the path `dir`, which cuts off the last
/// component if there is a parent and leaves the path as it is otherwise.
/// The contract only names the resulting text.
#[verifier::external_body]
pub(crate) fn parent(dir: &str) -> (path: String)
    ensures
        path@ == path_parent(dir@),
{
    let mut path = std::path::PathBuf::from(dir);
    path.pop();
    path.to_string_lossy().into_owned()
}

/// Compares `a` and `b` with the `==` of `Path`, which compares them
/// component by component. The contract only names the answer.
#[verifier::external_body]
pub(crate) fn same(a: &str, b: &str) -> (equal: bool)
    ensures
        equal == path_same(a@, b@),
{
    std::path::Path::new(a) == std::path::Path::new(b)
}

} // verus!
