//! The display name of a document: the final component of its path.

use vstd::prelude::*;
use vstd::string::*;

verus! {

/// The final component of a path, as `std::path::Path::file_name` finds it
/// under the path syntax of the platform the library is built for; `None`
/// where the path has none (it is empty, a root, or ends in `..`).
pub uninterp spec fn path_file_name(path: Seq<char>) -> Option<Seq<char>>;

/// The name a document is shown under: the final component of its path, or
/// the whole path where there is no such component.
pub open spec fn display_name(path: Seq<char>) -> Seq<char> {
    match path_file_name(path) {
        Some(name) => name,
        None => path,
    }
}

/// Calls `std::path::Path::file_name` on `path`. Nothing is proved of it:
/// the contract only gives the outcome its name, `path_file_name`.
#[verifier::external_body]
pub(crate) fn file_name_of<'a>(path: &'a str) -> (name: Option<&'a str>)
    ensures
        match name {
            Some(n) => path_file_name(path@) == Some(n@),
            None => path_file_name(path@) is None,
        },
{
    std::path::Path::new(path).file_name().and_then(|n| n.to_str())
}

/// The display name of the document at `path`.
pub fn display_name_of(path: &str) -> (name: String)
    ensures
        name@ == display_name(path@),
{
    match file_name_of(path) {
        Some(n) => n.to_owned(),
        None => path.to_owned(),
    }
}

} // verus!
