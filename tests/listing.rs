use md_file_manager::entry::FileOperation;
use md_file_manager::errors::FileError;
use md_file_manager::listing::{list_files, name_le, sort_listing};

fn entry(name: &str, size: u64, is_dir: bool) -> FileOperation {
    FileOperation { path: format!("/docs/{}", name), name: name.to_string(), size, is_dir }
}

fn names(v: &[FileOperation]) -> Vec<&str> {
    v.iter().map(|e| e.name.as_str()).collect()
}

#[test]
fn listing_is_sorted_by_name() {
    let raw = vec![
        Some(entry("zeta.md", 10, false)),
        Some(entry("alpha", 0, true)),
        Some(entry("Beta.md", 3, false)),
        Some(entry("alpha.md", 7, false)),
        Some(entry("_notes", 0, true)),
    ];
    let v = list_files(Ok(raw)).unwrap();
    assert_eq!(names(&v), vec!["Beta.md", "_notes", "alpha", "alpha.md", "zeta.md"]);
    for w in v.windows(2) {
        assert!(w[0].name <= w[1].name);
    }
}

#[test]
fn listing_is_case_sensitive() {
    let raw = vec![Some(entry("b", 1, false)), Some(entry("B", 1, false)), Some(entry("a", 1, false)), Some(entry("A", 1, false))];
    let v = sort_listing(raw);
    assert_eq!(names(&v), vec!["A", "B", "a", "b"]);
}

#[test]
fn listing_orders_non_ascii_names_as_strings_do() {
    let raw = vec![Some(entry("é.md", 1, false)), Some(entry("z.md", 1, false)), Some(entry("ü", 1, false))];
    let v = sort_listing(raw);
    assert_eq!(names(&v), vec!["z.md", "é.md", "ü"]);
}

#[test]
fn listing_keeps_every_readable_child() {
    let raw: Vec<Option<FileOperation>> = (0..20u64).rev().map(|i| Some(entry(&format!("f{:02}", i), i, i % 3 == 0))).collect();
    let v = list_files(Ok(raw)).unwrap();
    assert_eq!(v.len(), 20);
    assert_eq!(v[0].name, "f00");
    assert_eq!(v[19].name, "f19");
    assert_eq!(v[19].size, 19);
    assert!(v[3].is_dir);
    assert_eq!(v[5].path, "/docs/f05");
}

#[test]
fn listing_skips_an_unreadable_child() {
    let raw = vec![Some(entry("c", 1, false)), None, Some(entry("a", 2, false)), Some(entry("b", 3, true))];
    let v = list_files(Ok(raw)).unwrap();
    assert_eq!(names(&v), vec!["a", "b", "c"]);
}

#[test]
fn listing_of_only_unreadable_children_is_empty() {
    let v = list_files(Ok(vec![None, None])).unwrap();
    assert!(v.is_empty());
}

#[test]
fn listing_of_empty_folder_is_empty() {
    let v = list_files(Ok(Vec::new())).unwrap();
    assert!(v.is_empty());
}

#[test]
fn listing_keeps_equal_names() {
    let raw = vec![Some(entry("same", 1, false)), Some(entry("other", 2, false)), Some(entry("same", 3, true))];
    let v = sort_listing(raw);
    assert_eq!(names(&v), vec!["other", "same", "same"]);
    let mut sizes: Vec<u64> = v.iter().map(|e| e.size).collect();
    sizes.sort();
    assert_eq!(sizes, vec![1, 2, 3]);
}

#[test]
fn listing_of_unopenable_folder_fails() {
    let r = list_files(Err("No such file or directory (os error 2)".to_string()));
    match r {
        Err(e) => {
            assert!(matches!(e, FileError::DirectoryRead(_)));
            assert_eq!(e.message(), "Error reading folder: No such file or directory (os error 2)");
        }
        Ok(_) => panic!("expected an error"),
    }
}

#[test]
fn name_comparison_matches_string_order() {
    let pairs = [("a", "b"), ("b", "a"), ("a", "a"), ("", "a"), ("a", ""), ("ab", "a"), ("a", "ab"), ("Z", "a"), ("é", "z")];
    for (x, y) in pairs {
        assert_eq!(name_le(&x.to_string(), &y.to_string()), x <= y, "{} {}", x, y);
    }
}
