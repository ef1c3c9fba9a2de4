use md_file_manager::errors::FileError;
use md_file_manager::file_browser::{reveal_arguments, REVEAL_PROGRAM};
use md_file_manager::menu::MenuCommand;

#[test]
fn reveal_selects_in_finder() {
    assert_eq!(reveal_arguments("/a/b.md", true), vec!["-R".to_string(), "/a/b.md".to_string()]);
    assert_eq!(REVEAL_PROGRAM, "open");
}

#[test]
fn reveal_opens_elsewhere() {
    assert_eq!(reveal_arguments("/a/b.md", false), vec!["/a/b.md".to_string()]);
}

#[test]
fn menu_ids_map_to_events() {
    let cases = [
        ("preferences", "show-preferences"),
        ("open", "menu-open"),
        ("save_as", "menu-save-as"),
        ("format", "menu-format"),
        ("toggle_sidebar", "menu-toggle-sidebar"),
        ("toggle_fullscreen", "menu-toggle-fullscreen"),
        ("zoom_in", "menu-zoom-in"),
        ("zoom_out", "menu-zoom-out"),
    ];
    for (id, event) in cases {
        let c = MenuCommand::from_id(id).unwrap();
        assert_eq!(c.id(), id);
        assert_eq!(c.event(), event);
    }
}

#[test]
fn unknown_menu_id_has_no_command() {
    assert!(MenuCommand::from_id("quit").is_none());
    assert!(MenuCommand::from_id("").is_none());
    assert!(MenuCommand::from_id("Open").is_none());
}

#[test]
fn error_messages() {
    assert_eq!(FileError::Dialog("x".to_string()).message(), "Dialog cancelled or error: x");
    assert_eq!(FileError::FileRead("x".to_string()).message(), "Error reading file: x");
    assert_eq!(FileError::FileWrite("x".to_string()).message(), "Error writing file: x");
    assert_eq!(
        FileError::SystemCommand { detail: "x".to_string(), in_finder: true }.message(),
        "Error opening Finder: x"
    );
    assert_eq!(
        FileError::SystemCommand { detail: "x".to_string(), in_finder: false }.message(),
        "Error opening folder: x"
    );
}
