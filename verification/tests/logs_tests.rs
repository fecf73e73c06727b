use workwatch::logs::SessionLogs;

fn store_of(entries: &[&str]) -> SessionLogs {
    let mut logs = SessionLogs::new();
    for e in entries {
        logs.append(e.to_string());
    }
    logs
}

#[test]
fn empty_store_has_no_selection() {
    let logs = SessionLogs::new();
    assert_eq!(logs.len(), 0);
    assert_eq!(logs.selected_index(), None);
}

#[test]
fn first_append_selects_index_zero() {
    let mut logs = SessionLogs::new();
    logs.append("a".to_string());
    assert_eq!(logs.len(), 1);
    assert_eq!(logs.selected_index(), Some(0));
    logs.append("b".to_string());
    assert_eq!(logs.len(), 2);
    assert_eq!(logs.selected_index(), Some(0));
}

#[test]
fn append_then_edit_round_trip() {
    let mut logs = SessionLogs::new();
    logs.append("x".to_string());
    assert_eq!(logs.selected_index(), Some(0));
    let before = logs.len();
    logs.edit_selected("y".to_string());
    assert_eq!(logs.len(), before);
    assert_eq!(logs.entry_at(0), "y");
    assert_eq!(logs.selected_index(), Some(0));
}

#[test]
fn delete_steps_selection_back() {
    let mut logs = store_of(&["a", "b", "c"]);
    logs.select_down();
    logs.select_down();
    assert_eq!(logs.selected_index(), Some(2));
    logs.delete_selected();
    assert_eq!(logs.len(), 2);
    assert_eq!(logs.entry_at(0), "a");
    assert_eq!(logs.entry_at(1), "b");
    assert_eq!(logs.selected_index(), Some(1));
}

#[test]
fn delete_last_entry_clears_selection() {
    let mut logs = store_of(&["a"]);
    assert_eq!(logs.selected_index(), Some(0));
    logs.delete_selected();
    assert_eq!(logs.len(), 0);
    assert_eq!(logs.selected_index(), None);
}

#[test]
fn delete_first_entry_keeps_selection_at_start() {
    let mut logs = store_of(&["a", "b", "c"]);
    assert_eq!(logs.selected_index(), Some(0));
    logs.delete_selected();
    assert_eq!(logs.len(), 2);
    assert_eq!(logs.entry_at(0), "b");
    assert_eq!(logs.selected_index(), Some(0));
}

#[test]
fn navigation_wraps_both_ways() {
    let mut logs = store_of(&["a", "b", "c"]);
    assert_eq!(logs.selected_index(), Some(0));
    logs.select_up();
    assert_eq!(logs.selected_index(), Some(2));
    logs.select_down();
    assert_eq!(logs.selected_index(), Some(0));
    logs.select_down();
    assert_eq!(logs.selected_index(), Some(1));
}

#[test]
fn navigation_on_empty_store_is_a_no_op() {
    let mut logs = SessionLogs::new();
    logs.select_up();
    logs.select_down();
    assert_eq!(logs.selected_index(), None);
    assert_eq!(logs.len(), 0);
}

#[test]
fn empty_string_entries_are_permitted() {
    let mut logs = SessionLogs::new();
    logs.append(String::new());
    assert_eq!(logs.len(), 1);
    assert_eq!(logs.entry_at(0), "");
}
