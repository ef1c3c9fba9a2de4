//! The failures that a command reports to the UI, and their texts.
use vstd::prelude::*;
use vstd::string::*;

verus! {

/// A command-level failure, carrying the operating system's own diagnostic
/// where there is one.
#[derive(Debug, Clone)]
pub enum FileError {
    /// The user's home directory could not be determined.
    HomeDirectoryUnresolved,
    /// The path given as default folder is not an existing directory.
    InvalidFolder,
    /// The dialog's answer could not be received.
    Dialog(String),
    /// A file could not be read.
    FileRead(String),
    /// A file could not be written.
    FileWrite(String),
    /// A new document could not be written.
    FileCreate(String),
    /// A folder could not be opened for listing.
    DirectoryRead(String),
    /// The metadata of a single entry could not be read.
    Metadata(String),
    /// The system file browser could not be started; `in_finder` tells
    /// whether the entry was to be selected in it or opened.
    SystemCommand { detail: String, in_finder: bool },
}

/// The text that the UI shows for an error.
pub open spec fn message_of(e: FileError) -> Seq<char> {
    match e {
        FileError::HomeDirectoryUnresolved => "Unable to find home directory"@,
        FileError::InvalidFolder => "Invalid folder path"@,
        FileError::Dialog(d) => "Dialog cancelled or error: "@ + d@,
        FileError::FileRead(d) => "Error reading file: "@ + d@,
        FileError::FileWrite(d) => "Error writing file: "@ + d@,
        FileError::FileCreate(d) => "Error creating file: "@ + d@,
        FileError::DirectoryRead(d) => "Error reading folder: "@ + d@,
        FileError::Metadata(d) => "Error getting file info: "@ + d@,
        FileError::SystemCommand { detail, in_finder } => if in_finder {
            "Error opening Finder: "@ + detail@
        } else {
            "Error opening folder: "@ + detail@
        },
    }
}

fn prefixed(prefix: &str, detail: &String) -> (r: String)
    ensures
        r@ == prefix@ + detail@,
{
    let mut r = prefix.to_owned();
    r.append(detail.as_str());
    r
}

impl FileError {
    /// The human-readable text of this error.
    pub fn message(&self) -> (r: String)
        ensures
            r@ == message_of(*self),
    {
        match self {
            FileError::HomeDirectoryUnresolved => "Unable to find home directory".to_owned(),
            FileError::InvalidFolder => "Invalid folder path".to_owned(),
            FileError::Dialog(d) => prefixed("Dialog cancelled or error: ", d),
            FileError::FileRead(d) => prefixed("Error reading file: ", d),
            FileError::FileWrite(d) => prefixed("Error writing file: ", d),
            FileError::FileCreate(d) => prefixed("Error creating file: ", d),
            FileError::DirectoryRead(d) => prefixed("Error reading folder: ", d),
            FileError::Metadata(d) => prefixed("Error getting file info: ", d),
            FileError::SystemCommand { detail, in_finder } => if *in_finder {
                prefixed("Error opening Finder: ", detail)
            } else {
                prefixed("Error opening folder: ", detail)
            },
        }
    }
}

} // verus!
