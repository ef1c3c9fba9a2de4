//! One file-system entry as a query observed it.
use vstd::prelude::*;

verus! {

/// A snapshot of one file or directory: where it is, its final path
/// component, its byte length and whether it is a directory.
#[derive(Debug, Clone)]
pub struct FileOperation {
    pub path: String,
    pub name: String,
    pub size: u64,
    pub is_dir: bool,
}

/// The size and kind of an entry, as the operating system reported them.
#[derive(Debug, Clone, Copy, PartialEq, Eq)]
pub struct EntryMetadata {
    pub size: u64,
    pub is_dir: bool,
}

} // verus!
