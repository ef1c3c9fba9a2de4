use md_file_manager::errors::FileError;
use md_file_manager::settings::{
    default_folder_from, documents_folder_from, get_default_md_folder, get_documents_folder, set_default_md_folder,
    AppState, FileManagerState, DOCUMENTS_DIR,
};

#[test]
fn default_folder_falls_back_to_documents() {
    let state = FileManagerState::new();
    let r = default_folder_from(&state, Some("/home/alice".to_string())).unwrap();
    assert_eq!(r, "/home/alice/Documents");
}

#[test]
fn default_folder_without_home_fails() {
    let state = FileManagerState::default();
    let r = default_folder_from(&state, None);
    match r {
        Err(e) => {
            assert!(matches!(e, FileError::HomeDirectoryUnresolved));
            assert_eq!(e.message(), "Unable to find home directory");
        }
        Ok(_) => panic!("expected an error"),
    }
}

#[test]
fn default_folder_after_set_is_that_folder() {
    let mut state = FileManagerState::new();
    set_default_md_folder(&mut state, "/srv/notes".to_string(), true).unwrap();
    assert_eq!(default_folder_from(&state, Some("/home/alice".to_string())).unwrap(), "/srv/notes");
    assert_eq!(default_folder_from(&state, None).unwrap(), "/srv/notes");
    assert_eq!(get_default_md_folder(&state).unwrap(), "/srv/notes");
}

#[test]
fn setting_a_file_as_folder_is_refused() {
    let mut state = FileManagerState::new();
    set_default_md_folder(&mut state, "/srv/notes".to_string(), true).unwrap();
    let r = set_default_md_folder(&mut state, "/srv/notes/a.md".to_string(), false);
    match r {
        Err(e) => {
            assert!(matches!(e, FileError::InvalidFolder));
            assert_eq!(e.message(), "Invalid folder path");
        }
        Ok(_) => panic!("expected an error"),
    }
    assert_eq!(state.default_md_folder, "/srv/notes");
}

#[test]
fn setting_the_empty_path_is_refused() {
    let mut state = FileManagerState::new();
    assert!(set_default_md_folder(&mut state, String::new(), true).is_err());
    assert_eq!(state.default_md_folder, "");
}

#[test]
fn setting_replaces_the_previous_folder() {
    let mut state = FileManagerState::new();
    set_default_md_folder(&mut state, "/a".to_string(), true).unwrap();
    set_default_md_folder(&mut state, "/b".to_string(), true).unwrap();
    assert_eq!(state.default_md_folder, "/b");
}

#[test]
fn documents_folder_joins_home() {
    assert_eq!(documents_folder_from(Some("/home/bob/".to_string())).unwrap(), "/home/bob/Documents");
    assert_eq!(DOCUMENTS_DIR, "Documents");
    assert!(matches!(documents_folder_from(None), Err(FileError::HomeDirectoryUnresolved)));
}

#[test]
fn documents_folder_of_environment_ends_in_documents() {
    if let Ok(p) = get_documents_folder() {
        assert!(p.ends_with("Documents"));
    }
    let state = FileManagerState::new();
    if let Ok(p) = get_default_md_folder(&state) {
        assert!(p.ends_with("Documents"));
    }
}

#[test]
fn app_state_starts_without_file() {
    let s = AppState::default();
    assert_eq!(s.current_file, "");
}
