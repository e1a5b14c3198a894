use slidegrid::ui::list::{ListKind, ListState, NO_SELECTION};

fn rows(selected: i32) -> ListState<&'static str> {
    ListState::new(vec!["a", "b", "c", "d"], selected)
}

#[test]
fn new_list_state_holds_what_it_was_given() {
    let list = ListState::new(vec![1, 2, 3], 2);
    assert_eq!(list.items, vec![1, 2, 3]);
    assert_eq!(list.selected, 2);
    assert_eq!(NO_SELECTION, -1);
}

#[test]
fn add_appends_and_keeps_the_selection() {
    let mut list = rows(1);
    list.add("e");
    assert_eq!(list.items, vec!["a", "b", "c", "d", "e"]);
    assert_eq!(list.selected, 1);
    let mut empty: ListState<&str> = ListState::new(Vec::new(), -1);
    empty.add("x");
    assert_eq!(empty.items, vec!["x"]);
    assert_eq!(empty.selected, -1);
}

#[test]
fn remove_selected_takes_the_row_out() {
    let mut list = rows(1);
    assert!(list.remove_selected());
    assert_eq!(list.items, vec!["a", "c", "d"]);
    assert_eq!(list.selected, -1);
    let mut list = rows(0);
    assert!(list.remove_selected());
    assert_eq!(list.items, vec!["b", "c", "d"]);
    let mut list = rows(3);
    assert!(list.remove_selected());
    assert_eq!(list.items, vec!["a", "b", "c"]);
    assert_eq!(list.selected, -1);
}

#[test]
fn remove_selected_without_a_row_changes_nothing() {
    let mut list = rows(-1);
    assert!(!list.remove_selected());
    assert_eq!(list.items, vec!["a", "b", "c", "d"]);
    assert_eq!(list.selected, -1);
    let mut list = rows(4);
    assert!(!list.remove_selected());
    assert_eq!(list.items, vec!["a", "b", "c", "d"]);
    assert_eq!(list.selected, 4);
    let mut list = rows(i32::MIN);
    assert!(!list.remove_selected());
    assert_eq!(list.selected, i32::MIN);
    let mut empty: ListState<&str> = ListState::new(Vec::new(), 0);
    assert!(!empty.remove_selected());
    assert_eq!(empty.selected, 0);
}

#[test]
fn move_up_exchanges_with_the_row_above() {
    let mut list = rows(2);
    assert!(list.move_up());
    assert_eq!(list.items, vec!["a", "c", "b", "d"]);
    assert_eq!(list.selected, 1);
    assert!(list.move_up());
    assert_eq!(list.items, vec!["c", "a", "b", "d"]);
    assert_eq!(list.selected, 0);
    let mut list = rows(3);
    assert!(list.move_up());
    assert_eq!(list.items, vec!["a", "b", "d", "c"]);
    assert_eq!(list.selected, 2);
}

#[test]
fn move_up_at_the_top_changes_nothing() {
    let mut list = rows(0);
    assert!(!list.move_up());
    assert_eq!(list.items, vec!["a", "b", "c", "d"]);
    assert_eq!(list.selected, 0);
    let mut list = rows(-1);
    assert!(!list.move_up());
    assert_eq!(list.items, vec!["a", "b", "c", "d"]);
    assert_eq!(list.selected, -1);
}

#[test]
fn move_down_exchanges_with_the_row_below() {
    let mut list = rows(1);
    assert!(list.move_down());
    assert_eq!(list.items, vec!["a", "c", "b", "d"]);
    assert_eq!(list.selected, 2);
    assert!(list.move_down());
    assert_eq!(list.items, vec!["a", "c", "d", "b"]);
    assert_eq!(list.selected, 3);
    let mut list = rows(0);
    assert!(list.move_down());
    assert_eq!(list.items, vec!["b", "a", "c", "d"]);
    assert_eq!(list.selected, 1);
}

#[test]
fn move_down_at_the_bottom_changes_nothing() {
    let mut list = rows(3);
    assert!(!list.move_down());
    assert_eq!(list.items, vec!["a", "b", "c", "d"]);
    assert_eq!(list.selected, 3);
    let mut list = rows(-1);
    assert!(!list.move_down());
    assert_eq!(list.selected, -1);
    let mut list = rows(7);
    assert!(!list.move_down());
    assert_eq!(list.items, vec!["a", "b", "c", "d"]);
    assert_eq!(list.selected, 7);
    let mut empty: ListState<&str> = ListState::new(Vec::new(), 0);
    assert!(!empty.move_down());
    assert!(empty.items.is_empty());
    let mut full: ListState<&str> = ListState::new(vec!["a"], i32::MAX);
    assert!(!full.move_down());
    assert_eq!(full.selected, i32::MAX);
}

#[test]
fn move_up_then_down_restores_the_list() {
    let mut list = rows(2);
    assert!(list.move_up());
    assert!(list.move_down());
    assert_eq!(list.items, vec!["a", "b", "c", "d"]);
    assert_eq!(list.selected, 2);
    assert!(list.move_down());
    assert!(list.move_up());
    assert_eq!(list.items, vec!["a", "b", "c", "d"]);
    assert_eq!(list.selected, 2);
}

#[test]
fn clear_empties_the_list() {
    let mut list = rows(2);
    list.clear();
    assert!(list.items.is_empty());
    assert_eq!(list.selected, -1);
    list.clear();
    assert!(list.items.is_empty());
    assert_eq!(list.selected, -1);
}

#[test]
fn new_rows_start_with_a_sample() {
    assert_eq!(ListKind::Grids.new_row(), "(0,0), (1920x1080)");
    assert_eq!(ListKind::Content.new_row(), "/path/to/image.jpg");
    assert_eq!(ListKind::Highlights.new_row(), "/path/to/highlight.jpg");
}
