//! The record that is kept for each path.

use vstd::prelude::*;
use crate::timestamp::Timestamp;

verus! {

/// The last known state of one file: where it is, the fingerprint of its
/// content, and when it was last modified.
#[derive(Clone, Debug, PartialEq, Eq)]
pub struct PathInfo {
    pub path: String,
    pub hash: String,
    pub last_modified: Timestamp,
}

/// What a `PathInfo` says, as plain mathematical values.
pub struct Record {
    pub path: Seq<char>,
    pub hash: Seq<char>,
    pub last_modified: Timestamp,
}

impl View for PathInfo {
    type V = Record;

    open spec fn view(&self) -> Record {
        Record { path: self.path@, hash: self.hash@, last_modified: self.last_modified }
    }
}

} // verus!
