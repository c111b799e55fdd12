use file_browser::paths::grandparent;
use file_browser::paths::parent_path;

#[test]
fn parent_of_nested_path() {
    assert_eq!(parent_path("/a/b/c"), Some(String::from("/a/b")));
}

#[test]
fn parent_of_top_level_entry_is_root() {
    assert_eq!(parent_path("/a"), Some(String::from("/")));
}

#[test]
fn root_has_no_parent() {
    assert_eq!(parent_path("/"), None);
}

#[test]
fn path_without_separator_has_no_parent() {
    assert_eq!(parent_path("abc"), None);
}

#[test]
fn grandparent_takes_two_steps_up() {
    assert_eq!(grandparent("/a/b/c"), Some(String::from("/a")));
    assert_eq!(grandparent("/a/b"), Some(String::from("/")));
}

#[test]
fn grandparent_of_top_level_entry_is_none() {
    assert_eq!(grandparent("/a"), None);
    assert_eq!(grandparent("/"), None);
}
