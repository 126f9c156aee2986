//! Files that the user picked in a file input.

use vstd::prelude::*;

verus! {

/// What the host reports of a picked file.
#[derive(Clone, Debug, PartialEq, Eq)]
pub struct FileInfo {
    pub name: String,
    pub mime: String,
    pub size: u64,
    pub last_modified: u64,
}

} // verus!
