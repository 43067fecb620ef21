use kraken_tui::list::StatefulList;

fn three_items() -> StatefulList<String> {
    let mut l: StatefulList<String> = StatefulList::new();
    l.push("a".to_string());
    l.push("b".to_string());
    l.push("c".to_string());
    l
}

#[test]
fn test_next_cycles_back_to_start() {
    // On a non-empty list of length N, N `next` calls return the selection
    // to its starting index.
    let mut l = three_items();
    l.next();
    assert_eq!(l.state.selected(), Some(0));
    l.next();
    l.next();
    l.next();
    assert_eq!(l.state.selected(), Some(0));
}

#[test]
fn test_previous_inverts_next() {
    let mut l = three_items();
    l.next();
    l.next();
    assert_eq!(l.state.selected(), Some(1));
    l.next();
    l.previous();
    assert_eq!(l.state.selected(), Some(1));
    l.previous();
    l.next();
    assert_eq!(l.state.selected(), Some(1));
}

#[test]
fn test_next_wraps_and_previous_wraps() {
    let mut l = three_items();
    l.next();
    l.next();
    l.next();
    assert_eq!(l.state.selected(), Some(2));
    l.next();
    assert_eq!(l.state.selected(), Some(0));
    l.previous();
    assert_eq!(l.state.selected(), Some(2));
}

#[test]
fn test_unselect_then_next_selects_zero() {
    let mut l = three_items();
    l.next();
    l.next();
    l.unselect();
    assert_eq!(l.state.selected(), None);
    l.next();
    assert_eq!(l.state.selected(), Some(0));
}

#[test]
fn test_next_on_empty_is_noop() {
    let mut l: StatefulList<String> = StatefulList::new();
    l.next();
    assert_eq!(l.state.selected(), None);
    l.previous();
    assert_eq!(l.state.selected(), None);
    assert_eq!(l.items.len(), 0);
}

#[test]
fn test_remove_selected_clears_selection() {
    let mut l = three_items();
    l.next();
    l.next();
    assert_eq!(l.state.selected(), Some(1));
    l.remove(1);
    assert_eq!(l.state.selected(), None);
    assert_eq!(l.items, vec!["a".to_string(), "c".to_string()]);
}

#[test]
fn test_remove_non_selected_keeps_valid_selection() {
    let mut l = three_items();
    l.next();
    assert_eq!(l.state.selected(), Some(0));
    l.remove(2);
    assert_eq!(l.state.selected(), Some(0));
    assert_eq!(l.items, vec!["a".to_string(), "b".to_string()]);
}

#[test]
fn test_remove_non_selected_clears_out_of_range_selection() {
    let mut l = three_items();
    l.next();
    l.next();
    l.next();
    assert_eq!(l.state.selected(), Some(2));
    l.remove(0);
    // the old selection value 2 no longer indexes an item of length 2
    assert_eq!(l.state.selected(), None);
    assert_eq!(l.items, vec!["b".to_string(), "c".to_string()]);
}

#[test]
fn test_clear_empties_and_unselects() {
    let mut l = three_items();
    l.next();
    l.clear();
    assert_eq!(l.items.len(), 0);
    assert_eq!(l.state.selected(), None);
}

#[test]
fn test_push_keeps_selection() {
    let mut l = three_items();
    l.next();
    l.push("d".to_string());
    assert_eq!(l.state.selected(), Some(0));
    assert_eq!(l.items.len(), 4);
}
