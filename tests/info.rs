use md_file_manager::entry::{EntryMetadata, FileOperation};
use md_file_manager::errors::FileError;
use md_file_manager::info::{entry_from_parts, get_file_info, UNKNOWN_NAME};

#[test]
fn file_info_takes_the_final_component() {
    let e = get_file_info("/home/u/notes/today.md".to_string(), Ok(EntryMetadata { size: 42, is_dir: false })).unwrap();
    assert_eq!(e.path, "/home/u/notes/today.md");
    assert_eq!(e.name, "today.md");
    assert_eq!(e.size, 42);
    assert!(!e.is_dir);
}

#[test]
fn file_info_of_a_folder_with_trailing_separator() {
    let e = get_file_info("/home/u/notes/".to_string(), Ok(EntryMetadata { size: 0, is_dir: true })).unwrap();
    assert_eq!(e.name, "notes");
    assert!(e.is_dir);
}

#[test]
fn file_info_of_root_is_named_unknown() {
    let e = get_file_info("/".to_string(), Ok(EntryMetadata { size: 4096, is_dir: true })).unwrap();
    assert_eq!(e.name, "unknown");
    assert_eq!(e.path, "/");
    assert_eq!(e.size, 4096);
}

#[test]
fn file_info_of_parent_reference_is_named_unknown() {
    let e = get_file_info("notes/..".to_string(), Ok(EntryMetadata { size: 0, is_dir: true })).unwrap();
    assert_eq!(e.name, UNKNOWN_NAME);
}

#[test]
fn file_info_failure_carries_the_diagnostic() {
    let r = get_file_info("/missing".to_string(), Err("No such file or directory (os error 2)".to_string()));
    match r {
        Err(e) => {
            assert!(matches!(e, FileError::Metadata(_)));
            assert_eq!(e.message(), "Error getting file info: No such file or directory (os error 2)");
        }
        Ok(_) => panic!("expected an error"),
    }
}

#[test]
fn entry_parts_without_name_use_fallback() {
    let e: FileOperation = entry_from_parts("x".to_string(), None, EntryMetadata { size: 1, is_dir: false });
    assert_eq!(e.name, "unknown");
    let e = entry_from_parts("x".to_string(), Some("y".to_string()), EntryMetadata { size: 1, is_dir: false });
    assert_eq!(e.name, "y");
}
