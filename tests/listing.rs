use dogmv::listing::{load_directory_items, FileItem};
use dogmv::paths::{extension_of, extension_of_name};
use dogmv::text::{same_text, text_before};

fn item(path: &str, is_dir: bool) -> FileItem {
    FileItem::new(path, is_dir, false).unwrap()
}

fn names(items: &[FileItem]) -> Vec<String> {
    items.iter().map(|i| i.name.clone()).collect()
}

#[test]
fn hidden_entries_are_left_out() {
    let entries = vec![item("/d/.git", true), item("/d/a.md", false), item("/d/.env", false)];
    let listed = load_directory_items(Some(entries));
    assert_eq!(names(&listed), vec!["a.md".to_string()]);
}

#[test]
fn directories_come_first_then_names_ignoring_case() {
    let entries = vec![
        item("/d/Banana", false),
        item("/d/zeta", true),
        item("/d/apple", false),
        item("/d/Alpha", true),
        item("/d/cherry.md", false),
    ];
    let listed = load_directory_items(Some(entries));
    assert_eq!(
        names(&listed),
        vec!["Alpha", "zeta", "apple", "Banana", "cherry.md"]
            .into_iter()
            .map(String::from)
            .collect::<Vec<_>>()
    );
    assert!(listed[0].is_dir && listed[1].is_dir && !listed[2].is_dir);
}

#[test]
fn unreadable_directory_lists_nothing() {
    assert!(load_directory_items(None).is_empty());
    assert!(load_directory_items(Some(Vec::new())).is_empty());
}

#[test]
fn equal_names_keep_their_order() {
    let entries = vec![item("/a/README", false), item("/b/readme", false)];
    let listed = load_directory_items(Some(entries));
    assert_eq!(listed.len(), 2);
    assert_eq!(listed[0].path, "/a/README");
    assert_eq!(listed[1].path, "/b/readme");
}

#[test]
fn file_item_from_path() {
    let it = FileItem::new("/docs/notes.md", false, true).unwrap();
    assert_eq!(it.name, "notes.md");
    assert_eq!(it.path_buf(), "/docs/notes.md");
    assert!(it.is_symlink);
    assert!(!it.is_expandable());
    assert!(FileItem::new("/", true, false).is_none());
    assert!(FileItem::new("/docs", true, false).unwrap().is_expandable());
}

#[test]
fn extensions_follow_the_file_name() {
    assert_eq!(extension_of("/a/b.tar.gz"), Some("gz".to_string()));
    assert_eq!(extension_of("/a/.profile"), None);
    assert_eq!(extension_of("/a.d/file"), None);
    assert_eq!(extension_of("x."), Some(String::new()));
    assert_eq!(extension_of("/"), None);
    assert_eq!(extension_of_name(".a.b"), Some("b".to_string()));
}

#[test]
fn text_comparisons() {
    assert!(same_text("abc", "abc"));
    assert!(!same_text("abc", "abd"));
    assert!(!same_text("ab", "abc"));
    assert!(text_before("apple", "banana"));
    assert!(text_before("ab", "abc"));
    assert!(!text_before("abc", "ab"));
    assert!(!text_before("same", "same"));
    assert!(text_before("B", "a"));
}

#[test]
fn spec_example_listing_order() {
    let entries = vec![
        item("/d/Banana", false),
        item("/d/apple", false),
        item("/d/.hidden", false),
        item("/d/zoo", true),
    ];
    let listed = load_directory_items(Some(entries));
    assert_eq!(names(&listed), vec!["zoo".to_string(), "apple".to_string(), "Banana".to_string()]);
}
