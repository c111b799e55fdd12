use file_browser::browser::Action;
use file_browser::browser::Browser;
use file_browser::browser::Key;
use file_browser::stateful_table::DirEntry;

fn entry(name: &str, path: &str, is_dir: bool) -> DirEntry {
    DirEntry { name: String::from(name), path: String::from(path), is_dir }
}

fn start_listing() -> Vec<DirEntry> {
    vec![entry("dirA", "/top/dirA", true), entry("file1.txt", "/top/file1.txt", false)]
}

#[test]
fn enter_on_directory_descends_and_resets() {
    let mut browser = Browser::new(start_listing(), String::new());
    assert_eq!(browser.table.selected_index(), Some(0));
    let act = browser.handle_key(Key::Enter);
    assert_eq!(act, Action::Descend(String::from("/top/dirA")));
    // The caller reads the named directory and applies what it found.
    browser.apply_listing(vec![entry("inner.txt", "/top/dirA/inner.txt", false)]);
    assert_eq!(browser.table.selected_index(), Some(0));
    assert_eq!(browser.viewer.get_mut_state().get_offset(), 0);
    assert_eq!(browser.table.items()[0].name, "inner.txt");
}

#[test]
fn enter_on_plain_file_changes_nothing() {
    let mut browser = Browser::new(start_listing(), String::new());
    browser.handle_key(Key::Down);
    let act = browser.handle_key(Key::Enter);
    assert_eq!(act, Action::Stay);
    assert_eq!(browser.table.selected_index(), Some(1));
}

#[test]
fn down_steps_selection_and_resets_scroll() {
    let mut browser = Browser::new(start_listing(), String::from("a\nb\nc"));
    browser.handle_key(Key::PageDown);
    assert_eq!(browser.viewer.get_mut_state().get_offset(), 1);
    let act = browser.handle_key(Key::Down);
    assert_eq!(act, Action::Stay);
    assert_eq!(browser.table.selected_index(), Some(1));
    assert_eq!(browser.viewer.get_mut_state().get_offset(), 0);
}

#[test]
fn up_steps_selection_and_resets_scroll() {
    let mut browser = Browser::new(start_listing(), String::from("a\nb\nc"));
    browser.handle_key(Key::PageDown);
    let act = browser.handle_key(Key::Up);
    assert_eq!(act, Action::Stay);
    assert_eq!(browser.table.selected_index(), Some(1));
    assert_eq!(browser.viewer.get_mut_state().get_offset(), 0);
}

#[test]
fn backspace_asks_to_ascend_from_the_selected_path() {
    let mut browser = Browser::new(start_listing(), String::new());
    let act = browser.handle_key(Key::Backspace);
    assert_eq!(act, Action::Ascend(String::from("/top/dirA")));
}

#[test]
fn backspace_on_empty_listing_stays() {
    let mut browser = Browser::new(Vec::new(), String::new());
    let act = browser.handle_key(Key::Backspace);
    assert_eq!(act, Action::Stay);
    assert_eq!(browser.table.selected_index(), None);
}

#[test]
fn page_keys_scroll_without_touching_the_listing() {
    let mut browser = Browser::new(start_listing(), String::from("a\nb"));
    assert_eq!(browser.handle_key(Key::PageDown), Action::Stay);
    assert_eq!(browser.viewer.get_mut_state().get_offset(), 1);
    assert_eq!(browser.table.selected_index(), Some(0));
    assert_eq!(browser.handle_key(Key::PageUp), Action::Stay);
    assert_eq!(browser.viewer.get_mut_state().get_offset(), 0);
}

#[test]
fn quit_stops_the_session() {
    let mut browser = Browser::new(start_listing(), String::new());
    assert_eq!(browser.handle_key(Key::Quit), Action::Stop);
}

#[test]
fn set_document_keeps_scroll_offset() {
    let mut browser = Browser::new(start_listing(), String::from("a\nb\nc"));
    browser.handle_key(Key::PageDown);
    browser.set_document(String::from("x\ny\nz"));
    assert_eq!(browser.viewer.get_mut_state().get_offset(), 1);
    assert_eq!(browser.viewer.get_lines()[0], "x");
}
