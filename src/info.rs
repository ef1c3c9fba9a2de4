//! Metadata of a single entry.
use vstd::prelude::*;

use crate::entry::{EntryMetadata, FileOperation};
use crate::errors::FileError;
use crate::paths::{file_name_of, final_component};

verus! {

/// The name an entry is shown under when its path has no final component.
pub const UNKNOWN_NAME: &'static str = "unknown";

/// The entry for `path`, named `file_name` where there is one and `unknown`
/// where there is none.
pub fn entry_from_parts(file_path: String, file_name: Option<String>, metadata: EntryMetadata) -> (r:
    FileOperation)
    ensures
        r.path@ == file_path@,
        r.size == metadata.size,
        r.is_dir == metadata.is_dir,
        match file_name {
            Some(n) => r.name@ == n@,
            None => r.name@ == UNKNOWN_NAME@,
        },
{
    let name = match file_name {
        Some(n) => n,
        None => UNKNOWN_NAME.to_owned(),
    };
    FileOperation { path: file_path, name, size: metadata.size, is_dir: metadata.is_dir }
}

/// The entry for `file_path` from what the operating system reported of
/// it: its metadata, or the error with which the lookup failed. The name is
/// the path's final component, or `unknown` where it has none.
pub fn get_file_info(file_path: String, metadata: Result<EntryMetadata, String>) -> (r: Result<
    FileOperation,
    FileError,
>)
    ensures
        match metadata {
            Ok(m) => r matches Ok(e) && e.path@ == file_path@ && e.size == m.size && e.is_dir
                == m.is_dir && match file_name_of(file_path@) {
                Some(n) => e.name@ == n,
                None => e.name@ == UNKNOWN_NAME@,
            },
            Err(d) => r == Err::<FileOperation, FileError>(FileError::Metadata(d)),
        },
{
    match metadata {
        Ok(m) => {
            let file_name = final_component(file_path.as_str());
            Ok(entry_from_parts(file_path, file_name, m))
        },
        Err(d) => Err(FileError::Metadata(d)),
    }
}

} // verus!
