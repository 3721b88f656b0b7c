//! Useful file utilities.

use vstd::prelude::*;

verus! {

/// The final component of the given path, if there is one: a name for what
/// `std::path::Path::file_name` answers on it.
pub uninterp spec fn spec_file_name(path: Seq<char>) -> Option<Seq<char>>;

/// Returns the final component of the path, if there is one.
///
/// If the path is a normal file, this is the file name. If it's the path of
/// a directory, this is the directory name. Returns [`None`] if the path
/// terminates in `..`.
///
/// Relies on std's `Path::file_name` for the platform's path syntax; the
/// surrounding calls only convert the argument and the result.
#[verifier::external_body]
pub fn file_name_from_file_path(path: &str) -> (r: Option<String>)
    ensures
        match r {
            Some(name) => spec_file_name(path@) == Some(name@),
            None => spec_file_name(path@) is None,
        },
{
    let p: &std::path::Path = path.as_ref();
    p.file_name().map(|s| s.to_string_lossy().into_owned())
}

} // verus!
