//! File-system paths as strings, and the calls into `std::path` the library
//! makes. The names given to the results of the pure path operations stand
//! for the path rules of the platform the library is built for; what a
//! path names on disk is never named.
use vstd::prelude::*;

verus! {

/// The path `std::path::Path::join` forms from `dir` and `name`.
pub uninterp spec fn joined_path(dir: Seq<char>, name: Seq<char>) -> Seq<char>;

/// `Path::new(dir).join(name)`, as a string. Its result is named
/// `joined_path`; nothing more is stated about it.
#[verifier::external_body]
pub(crate) fn join_path(dir: &str, name: &str) -> (r: String)
    ensures
        r@ == joined_path(dir@, name@),
{
    std::path::Path::new(dir).join(name).to_string_lossy().into_owned()
}

/// `Path::is_file`: whether a regular file exists at `path` right now. The
/// answer depends on the disk, so nothing is stated about it.
#[verifier::external_body]
pub(crate) fn is_file(path: &str) -> bool {
    std::path::Path::new(path).is_file()
}

/// The parent `std::path::Path::parent` gives for `p`.
pub uninterp spec fn parent_path(p: Seq<char>) -> Option<Seq<char>>;

/// The final component `std::path::Path::file_name` gives for `p`.
pub uninterp spec fn file_name_of(p: Seq<char>) -> Option<Seq<char>>;

/// Whether `std::path::Path::is_absolute` holds of `p`.
pub uninterp spec fn is_absolute_path(p: Seq<char>) -> bool;

/// `Path::new(p).parent()`, as a string; its result is named `parent_path`.
#[verifier::external_body]
pub(crate) fn path_parent(p: &str) -> (r: Option<String>)
    ensures
        match r {
            Some(q) => parent_path(p@) == Some(q@),
            None => parent_path(p@) is None,
        },
{
    std::path::Path::new(p).parent().map(|q| q.to_string_lossy().into_owned())
}

/// `Path::new(p).file_name()`, as a string; its result is named
/// `file_name_of`.
#[verifier::external_body]
pub(crate) fn path_file_name(p: &str) -> (r: Option<String>)
    ensures
        match r {
            Some(q) => file_name_of(p@) == Some(q@),
            None => file_name_of(p@) is None,
        },
{
    std::path::Path::new(p).file_name().map(|q| q.to_string_lossy().into_owned())
}

/// `Path::new(p).is_absolute()`; its result is named `is_absolute_path`.
#[verifier::external_body]
pub(crate) fn path_is_absolute(p: &str) -> (r: bool)
    ensures
        r == is_absolute_path(p@),
{
    std::path::Path::new(p).is_absolute()
}

/// `Path::new(p).canonicalize()`, as a string: the absolute path with links
/// resolved, `None` when that fails. The answer depends on the disk, so
/// nothing is stated about it.
#[verifier::external_body]
pub(crate) fn canonicalize(p: &str) -> Option<String> {
    std::path::Path::new(p).canonicalize().ok().map(|q| q.to_string_lossy().into_owned())
}

/// The file name of `path`, or the whole path when it has none.
pub fn short_filename(path: &str) -> (r: String)
    ensures
        r@ == match file_name_of(path@) {
            Some(f) => f,
            None => path@,
        },
{
    match path_file_name(path) {
        Some(f) => f,
        None => crate::text::owned(path),
    }
}

} // verus!
