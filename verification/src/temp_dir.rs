//! What the library relies on of `tempfile::TempDir`.

use tempfile::TempDir;
use vstd::prelude::*;

verus! {

/// `tempfile::TempDir`: a directory that is removed when the value is dropped.
#[verifier::external_type_specification]
#[verifier::external_body]
pub struct ExTempDir(TempDir);

/// The path that `TempDir::path` returns for `dir`, as text: `None` where the
/// path is not valid UTF-8. A `TempDir` keeps the path that it was made with.
pub uninterp spec fn temp_dir_path(dir: TempDir) -> Option<Seq<char>>;

/// Calls `TempDir::path` and turns the path into text.
///
/// Trusted: the path is a function of `dir` alone, and the text is its content
/// when the path is valid UTF-8 and absent when it is not.
#[verifier::external_body]
pub(crate) fn path_text(dir: &TempDir) -> (path: Option<String>)
    ensures
        match path {
            Some(text) => temp_dir_path(*dir) == Some(text@),
            None => temp_dir_path(*dir) is None,
        },
{
    dir.path().to_str().map(str::to_owned)
}

} // verus!
