use file_browser::stateful_table::DirEntry;
use file_browser::stateful_table::NavError;
use file_browser::stateful_table::StatefulTable;

fn entry(name: &str, path: &str, is_dir: bool) -> DirEntry {
    DirEntry { name: String::from(name), path: String::from(path), is_dir }
}

fn three_entries() -> Vec<DirEntry> {
    vec![
        entry("a.txt", "/top/a.txt", false),
        entry("b.txt", "/top/b.txt", false),
        entry("sub", "/top/sub", true),
    ]
}

#[test]
fn new_table_selects_first_entry() {
    let table = StatefulTable::new(three_entries());
    assert_eq!(table.selected_index(), Some(0));
    assert_eq!(table.len(), 3);
}

#[test]
fn next_steps_forward() {
    let mut table = StatefulTable::new(three_entries());
    table.next();
    assert_eq!(table.selected_index(), Some(1));
    table.next();
    assert_eq!(table.selected_index(), Some(2));
}

#[test]
fn next_on_last_index_wraps_to_zero() {
    let mut table = StatefulTable::new(three_entries());
    table.next();
    table.next();
    assert_eq!(table.selected_index(), Some(2));
    table.next();
    assert_eq!(table.selected_index(), Some(0));
}

#[test]
fn prev_on_index_zero_wraps_to_last() {
    let mut table = StatefulTable::new(three_entries());
    table.prev();
    assert_eq!(table.selected_index(), Some(2));
}

#[test]
fn next_then_prev_returns_to_start() {
    let mut table = StatefulTable::new(three_entries());
    table.next();
    assert_eq!(table.selected_index(), Some(1));
    table.next();
    table.prev();
    assert_eq!(table.selected_index(), Some(1));
    table.prev();
    table.next();
    assert_eq!(table.selected_index(), Some(1));
}

#[test]
fn wrap_round_trip_on_single_entry() {
    let mut table = StatefulTable::new(vec![entry("only", "/top/only", false)]);
    table.next();
    assert_eq!(table.selected_index(), Some(0));
    table.prev();
    assert_eq!(table.selected_index(), Some(0));
}

#[test]
fn empty_listing_has_no_selection() {
    let table = StatefulTable::new(Vec::new());
    assert_eq!(table.selected_index(), None);
    match table.get_selected() {
        Err(e) => assert_eq!(e, NavError::NoSelection),
        Ok(_) => panic!("selection on an empty listing"),
    }
}

#[test]
fn empty_listing_steps_are_no_ops() {
    let mut table = StatefulTable::new(Vec::new());
    table.next();
    assert_eq!(table.selected_index(), None);
    table.prev();
    assert_eq!(table.selected_index(), None);
}

#[test]
fn get_selected_returns_current_entry() {
    let mut table = StatefulTable::new(three_entries());
    table.next();
    let selected = table.get_selected().unwrap();
    assert_eq!(selected.name, "b.txt");
    assert_eq!(selected.path, "/top/b.txt");
    assert!(!selected.is_dir);
}

#[test]
fn set_items_replaces_listing_and_resets_selection() {
    let mut table = StatefulTable::new(three_entries());
    table.next();
    table.set_items(vec![entry("x", "/other/x", false), entry("y", "/other/y", true)]);
    assert_eq!(table.selected_index(), Some(0));
    assert_eq!(table.len(), 2);
    assert_eq!(table.items()[0].name, "x");
}

#[test]
fn set_items_with_empty_listing_clears_selection() {
    let mut table = StatefulTable::new(three_entries());
    table.set_items(Vec::new());
    assert_eq!(table.selected_index(), None);
}

#[test]
fn enter_target_on_directory_is_its_path() {
    let mut table = StatefulTable::new(three_entries());
    table.next();
    table.next();
    assert_eq!(table.enter_target(), Some(String::from("/top/sub")));
}

#[test]
fn enter_target_on_plain_file_is_none() {
    let table = StatefulTable::new(three_entries());
    assert_eq!(table.enter_target(), None);
}

#[test]
fn enter_target_on_empty_listing_is_none() {
    let table = StatefulTable::new(Vec::new());
    assert_eq!(table.enter_target(), None);
}
