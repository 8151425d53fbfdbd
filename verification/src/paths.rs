//! The operations of `std::path` that the engine uses, on UTF-8 paths.
//!
//! The rules by which std splits a path into components (separators,
//! leading dots, `..`) are std's own; their results are named here and
//! the engine's logic is stated over those names.

use vstd::prelude::*;
use std::path::Path;

verus! {

/// What `Path::file_stem` gives for a path: the file name without its
/// last extension, or none when the path has no file name.
pub uninterp spec fn file_stem_of(path: Seq<char>) -> Option<Seq<char>>;

/// What `Path::extension` gives for a path: the text after the file name's
/// last dot, or none.
pub uninterp spec fn extension_of(path: Seq<char>) -> Option<Seq<char>>;

/// What `Path::with_file_name` gives: the path with its file name replaced.
pub uninterp spec fn with_file_name_of(path: Seq<char>, name: Seq<char>) -> Seq<char>;

/// What `Path::join` gives: the path with `rest` appended (or `rest` itself
/// when it is absolute).
pub uninterp spec fn joined_path(base: Seq<char>, rest: Seq<char>) -> Seq<char>;

/// The view of an optional string.
pub open spec fn opt_view(o: Option<String>) -> Option<Seq<char>> {
    match o {
        Some(s) => Some(s@),
        None => None,
    }
}

/// Calls `Path::file_stem` on `path`; a stem of a UTF-8 path is UTF-8, so the
/// conversion back to a `String` is exact. The result is named `file_stem_of`.
#[verifier::external_body]
pub(crate) fn path_file_stem(path: &str) -> (r: Option<String>)
    ensures
        opt_view(r) == file_stem_of(path@),
{
    Path::new(path).file_stem().map(|s| s.to_string_lossy().into_owned())
}

/// Calls `Path::extension` on `path`; the result is named `extension_of`.
#[verifier::external_body]
pub(crate) fn path_extension(path: &str) -> (r: Option<String>)
    ensures
        opt_view(r) == extension_of(path@),
{
    Path::new(path).extension().map(|s| s.to_string_lossy().into_owned())
}

/// Calls `Path::with_file_name`; the result is named `with_file_name_of`.
#[verifier::external_body]
pub(crate) fn path_with_file_name(path: &str, name: &str) -> (r: String)
    ensures
        r@ == with_file_name_of(path@, name@),
{
    Path::new(path).with_file_name(name).to_string_lossy().into_owned()
}

/// Calls `Path::join`; the result is named `joined_path`.
#[verifier::external_body]
pub(crate) fn path_join(base: &str, rest: &str) -> (r: String)
    ensures
        r@ == joined_path(base@, rest@),
{
    Path::new(base).join(rest).to_string_lossy().into_owned()
}

} // verus!
