//! Which files the clean-up after a job removes from the download
//! directory.
//!
//! The external process leaves an index file in every directory that it
//! has written to. After it has ended these files are removed, and so are
//! the directories that this leaves empty.

use vstd::prelude::*;
use crate::text::same_text;

verus! {

/// The name of the index file that the external process leaves behind.
pub open spec fn index_file_name() -> Seq<char> {
    "_index.sldl"@
}

/// Whether the clean-up has a directory to go through: the path of the
/// download directory is set.
pub fn wants_cleanup(downloads_path: &str) -> (r: bool)
    ensures
        r == (downloads_path@.len() > 0),
{
    !downloads_path.is_empty()
}

/// Whether a file of this name is one that the clean-up removes.
pub fn is_metadata_file(name: &str) -> (r: bool)
    ensures
        r == (name@ == index_file_name()),
{
    same_text(name, "_index.sldl")
}

} // verus!
