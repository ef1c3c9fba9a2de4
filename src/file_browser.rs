//! Showing an entry in the system's file browser.
use vstd::prelude::*;

verus! {

/// The program that opens files and folders in the system's file browser.
pub const REVEAL_PROGRAM: &'static str = "open";

/// The flag that asks the file browser to select the entry rather than open it.
pub const SELECT_FLAG: &'static str = "-R";

/// The arguments given to the file-browser program for `file_path`: with
/// `select_in_finder`, the entry is selected in its folder; without, it is
/// opened.
pub fn reveal_arguments(file_path: &str, select_in_finder: bool) -> (r: Vec<String>)
    ensures
        select_in_finder ==> r@.len() == 2 && r@[0]@ == SELECT_FLAG@ && r@[1]@ == file_path@,
        !select_in_finder ==> r@.len() == 1 && r@[0]@ == file_path@,
{
    let mut r: Vec<String> = Vec::new();
    if select_in_finder {
        r.push(SELECT_FLAG.to_owned());
    }
    r.push(file_path.to_owned());
    r
}

} // verus!
