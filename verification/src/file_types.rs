//! Classification of a directory entry into a closed set of kinds.
//!
//! The kind of each entry is decided once, at snapshot time, from the three
//! mutually informative flags the filesystem reports for a node; it is never
//! re-derived from a stale snapshot.

use vstd::prelude::*;

verus! {

/// The closed set of classifications for a directory entry.
///
/// `OTHER` covers anything that does not cleanly resolve to the first three
/// kinds, such as unknown node types.
#[derive(Clone, Copy, Debug, PartialEq, Eq, Structural)]
pub enum FileType {
    FILE,
    DIR,
    SYMLINK,
    OTHER,
}

/// The kind a node with the given flags classifies to: a directory flag wins,
/// then a regular-file flag, then a symlink flag; anything else is `OTHER`.
pub open spec fn spec_classify(is_dir: bool, is_file: bool, is_symlink: bool) -> FileType {
    if is_dir {
        FileType::DIR
    } else if is_file {
        FileType::FILE
    } else if is_symlink {
        FileType::SYMLINK
    } else {
        FileType::OTHER
    }
}

impl FileType {
    /// Classifies a filesystem node from the flags the platform reports for it.
    pub fn classify(is_dir: bool, is_file: bool, is_symlink: bool) -> (t: FileType)
        ensures
            t == spec_classify(is_dir, is_file, is_symlink),
    {
        if is_dir {
            FileType::DIR
        } else if is_file {
            FileType::FILE
        } else if is_symlink {
            FileType::SYMLINK
        } else {
            FileType::OTHER
        }
    }
}

} // verus!
