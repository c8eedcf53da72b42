//! Path arithmetic, delegated to the standard library's path type.
//!
//! Paths travel through this library as text. How a path splits into
//! directory and final component, how a file name is appended, and how a path
//! is quoted for a message are the standard library's rules; this module
//! calls them and gives each result a name that contracts can speak of.

use vstd::prelude::*;

verus! {

/// What `std::path::Path::parent` returns for the path with this text: the
/// text of the path without its final component, or `None` where the path
/// ends in a root or is empty.
pub uninterp spec fn path_parent(path: Seq<char>) -> Option<Seq<char>>;

/// The text of the path that `std::path::PathBuf::push` leaves when `name` is
/// pushed onto the path with the text `dir`.
pub uninterp spec fn path_join(dir: Seq<char>, name: Seq<char>) -> Seq<char>;

/// What the `Debug` formatting of `std::path::Path` prints for the path with
/// this text: the text in double quotes, with escapes.
pub uninterp spec fn path_debug(path: Seq<char>) -> Seq<char>;

/// Calls `std::path::Path::parent`. Trusted: the result is the text of the
/// parent that the standard library computes, named `path_parent`; nothing
/// more is claimed of it.
#[verifier::external_body]
pub(crate) fn parent_of(path: &str) -> (res: Option<String>)
    ensures
        match res {
            Some(dir) => path_parent(path@) == Some(dir@),
            None => path_parent(path@).is_none(),
        },
{
    match std::path::Path::new(path).parent() {
        Some(dir) => Some(dir.to_string_lossy().into_owned()),
        None => None,
    }
}

/// Calls `std::path::PathBuf::push` on a path made from `dir`. Trusted: the
/// result is the text of the path that the standard library builds, named
/// `path_join`; nothing more is claimed of it.
#[verifier::external_body]
pub(crate) fn join(dir: &str, name: &str) -> (res: String)
    ensures
        res@ == path_join(dir@, name@),
{
    let mut joined = std::path::PathBuf::from(dir);
    joined.push(name);
    joined.to_string_lossy().into_owned()
}

/// Formats a path with the `Debug` implementation of `std::path::Path`.
/// Trusted: the result is what the standard library prints, named
/// `path_debug`; nothing more is claimed of it.
#[verifier::external_body]
pub(crate) fn quoted(path: &str) -> (res: String)
    ensures
        res@ == path_debug(path@),
{
    format!("{:?}", std::path::Path::new(path))
}

} // verus!
