//! Files attached to a message that is being written.

use vstd::prelude::*;
use crate::text::is_piece_of;

verus! {

/// A file picked for sending.
#[derive(Debug, Clone)]
pub struct AttachedFile {
    pub path: String,
    pub name: String,
}

/// `Path::file_name`, as text: the last component of the path, where the
/// path has one that is text. Where a component begins and ends depends on
/// the platform, so of the name only this is stated, that it is a part of
/// the path in one piece.
#[verifier::external_body]
fn file_name_of(path: &str) -> (out: Option<String>)
    ensures
        out matches Some(name) ==> is_piece_of(name@, path@),
{
    std::path::Path::new(path).file_name().and_then(|n| n.to_str()).map(|n| n.to_owned())
}

impl AttachedFile {
    /// The file at `path`, under the name that the platform gives the path's
    /// last component, or under its whole path where it has none. Either
    /// way the name is a part of the path in one piece, and the path is kept
    /// as it was given.
    pub fn new(path: &str) -> (file: AttachedFile)
        ensures
            file.path@ == path@,
            is_piece_of(file.name@, path@),
    {
        let file_name = file_name_of(path);
        proof {
            assert(path@ == path@.subrange(0, path@.len() as int));
        }
        Self::named(path, file_name)
    }

    /// The file at `path` under the name `file_name`, or under its whole path
    /// where it has no name of its own.
    pub fn named(path: &str, file_name: Option<String>) -> (file: AttachedFile)
        ensures
            file.path@ == path@,
            file.name@ == match file_name {
                Some(name) => name@,
                None => path@,
            },
    {
        let name = match file_name {
            Some(name) => name,
            None => path.to_owned(),
        };
        AttachedFile { path: path.to_owned(), name }
    }
}

} // verus!
