//! The default folder for new documents, and the user's documents folder.
use vstd::prelude::*;

use crate::errors::FileError;
use crate::paths::{join_path, joined_path_of};

verus! {

/// The folder under the home directory that holds documents by default.
pub const DOCUMENTS_DIR: &'static str = "Documents";

/// The shell's settings: the folder chosen for new documents, empty while
/// none has been chosen.
pub struct FileManagerState {
    pub default_md_folder: String,
}

/// The state of the editor window: the file being edited, empty if none.
pub struct AppState {
    pub current_file: String,
}

/// The documents folder under a home directory.
pub open spec fn documents_folder_in(home: Seq<char>) -> Seq<char> {
    joined_path_of(home, DOCUMENTS_DIR@)
}

/// The default folder when `stored` has been set (empty if never) and the
/// home directory is `home` (none if it could not be found); none when it
/// cannot be determined.
pub open spec fn resolved_default(stored: Seq<char>, home: Option<Seq<char>>) -> Option<Seq<char>> {
    if stored.len() > 0 {
        Some(stored)
    } else {
        match home {
            Some(h) => Some(documents_folder_in(h)),
            None => None,
        }
    }
}

/// The text of a home directory, if one was found.
pub open spec fn home_text(home: Option<String>) -> Option<Seq<char>> {
    match home {
        Some(h) => Some(h@),
        None => None,
    }
}

/// `r` is what a query of the default folder returns when it resolves to
/// `resolved`: that folder, or the error for an unknown home directory.
pub open spec fn default_outcome(r: Result<String, FileError>, resolved: Option<Seq<char>>) -> bool {
    match resolved {
        Some(p) => r matches Ok(q) && q@ == p,
        None => r == Err::<String, FileError>(FileError::HomeDirectoryUnresolved),
    }
}

/// A path is accepted as default folder when it names an existing
/// directory; the empty path names none.
pub open spec fn accepted_folder(path: Seq<char>, is_dir: bool) -> bool {
    is_dir && path.len() > 0
}

/// The stored folder after an attempt to set it to `path`.
pub open spec fn stored_after_set(stored: Seq<char>, path: Seq<char>, is_dir: bool) -> Seq<char> {
    if accepted_folder(path, is_dir) {
        path
    } else {
        stored
    }
}

impl FileManagerState {
    /// Settings in which no default folder has been chosen.
    pub fn new() -> (r: FileManagerState)
        ensures
            r.default_md_folder@ == Seq::<char>::empty(),
    {
        FileManagerState { default_md_folder: String::new() }
    }
}

impl Default for FileManagerState {
    fn default() -> (r: FileManagerState)
        ensures
            r.default_md_folder@ == Seq::<char>::empty(),
    {
        FileManagerState::new()
    }
}

impl Default for AppState {
    fn default() -> (r: AppState)
        ensures
            r.current_file@ == Seq::<char>::empty(),
    {
        AppState { current_file: String::new() }
    }
}

/// Relies on `dirs::home_dir`: the home directory of the current user, read
/// from the environment or the user database, or none.
#[verifier::external_body]
fn home_dir() -> (r: Option<String>) {
    dirs::home_dir().map(|h| h.to_string_lossy().to_string())
}

/// The documents folder under the home directory `home`, or the error for a
/// home directory that could not be found.
pub fn documents_folder_from(home: Option<String>) -> (r: Result<String, FileError>)
    ensures
        match home {
            Some(h) => r matches Ok(p) && p@ == documents_folder_in(h@),
            None => r == Err::<String, FileError>(FileError::HomeDirectoryUnresolved),
        },
{
    match home {
        Some(h) => Ok(join_path(h.as_str(), DOCUMENTS_DIR)),
        None => Err(FileError::HomeDirectoryUnresolved),
    }
}

/// The user's documents folder: `Documents` under whatever home directory
/// the environment gives.
pub fn get_documents_folder() -> (r: Result<String, FileError>)
    ensures
        match r {
            Ok(p) => exists|h: Seq<char>| p@ == documents_folder_in(h),
            Err(e) => e == FileError::HomeDirectoryUnresolved,
        },
{
    documents_folder_from(home_dir())
}

/// The default folder given the settings and the home directory `home`:
/// the chosen folder if there is one, else the documents folder.
pub fn default_folder_from(state: &FileManagerState, home: Option<String>) -> (r: Result<
    String,
    FileError,
>)
    ensures
        default_outcome(r, resolved_default(state.default_md_folder@, home_text(home))),
{
    if !state.default_md_folder.as_str().is_empty() {
        Ok(state.default_md_folder.clone())
    } else {
        documents_folder_from(home)
    }
}

/// The default folder: the chosen folder if there is one; else the
/// documents folder under whatever home directory the environment gives.
pub fn get_default_md_folder(state: &FileManagerState) -> (r: Result<String, FileError>)
    ensures
        exists|home: Option<Seq<char>>|
            default_outcome(r, #[trigger] resolved_default(state.default_md_folder@, home)),
        state.default_md_folder@.len() > 0 ==> (r matches Ok(p) && p@ == state.default_md_folder@),
        state.default_md_folder@.len() == 0 ==> match r {
            Ok(p) => exists|h: Seq<char>| p@ == documents_folder_in(h),
            Err(e) => e == FileError::HomeDirectoryUnresolved,
        },
{
    let home = if state.default_md_folder.as_str().is_empty() {
        home_dir()
    } else {
        None
    };
    let r = default_folder_from(state, home);
    assert(default_outcome(r, resolved_default(state.default_md_folder@, home_text(home))));
    r
}

/// Chooses `folder_path` as default folder, where `is_dir` tells whether it
/// names an existing directory. A path that does not is refused with
/// `InvalidFolder`, and the settings are left as they were.
pub fn set_default_md_folder(state: &mut FileManagerState, folder_path: String, is_dir: bool) -> (r:
    Result<(), FileError>)
    ensures
        r is Ok <==> accepted_folder(folder_path@, is_dir),
        r is Err ==> r == Err::<(), FileError>(FileError::InvalidFolder) && *final(state)
            == *old(state),
        final(state).default_md_folder@ == stored_after_set(
            old(state).default_md_folder@,
            folder_path@,
            is_dir,
        ),
{
    if is_dir && !folder_path.as_str().is_empty() {
        state.default_md_folder = folder_path;
        Ok(())
    } else {
        Err(FileError::InvalidFolder)
    }
}

/// With no folder ever chosen, the default folder is `Documents` under the
/// home directory; once a directory has been chosen, it is that directory;
/// and a refused choice leaves the stored folder as it was.
pub proof fn lemma_default_folder(
    stored: Seq<char>,
    home: Option<Seq<char>>,
    path: Seq<char>,
    is_dir: bool,
)
    ensures
        resolved_default(Seq::empty(), home) == match home {
            Some(h) => Some(documents_folder_in(h)),
            None => None::<Seq<char>>,
        },
        accepted_folder(path, is_dir) ==> resolved_default(
            stored_after_set(stored, path, is_dir),
            home,
        ) == Some(path),
        !accepted_folder(path, is_dir) ==> stored_after_set(stored, path, is_dir) == stored,
{
}

} // verus!
