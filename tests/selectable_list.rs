use lazylogger::OptionList;

fn strings(items: &[&str]) -> Vec<String> {
    items.iter().map(|s| s.to_string()).collect()
}

#[test]
fn new_list_is_empty_with_no_selection() {
    let l = OptionList::new();
    assert!(l.is_empty());
    assert_eq!(l.selected_index(), None);
    assert_eq!(l.selected(), None);
    let d = OptionList::default();
    assert!(d.is_empty());
    assert_eq!(d.selected_index(), None);
}

#[test]
fn installing_items_selects_first() {
    let l = OptionList::from_items(strings(&["a", "b", "c"]));
    assert_eq!(l.len(), 3);
    assert_eq!(l.selected_index(), Some(0));
    assert_eq!(l.selected().map(|s| s.as_str()), Some("a"));
}

#[test]
fn installing_nothing_selects_nothing() {
    let l = OptionList::from_items(Vec::new());
    assert_eq!(l.selected_index(), None);
    assert_eq!(l.selected(), None);
}

#[test]
fn next_moves_down_and_reports_change() {
    let mut l = OptionList::from_items(strings(&["a", "b", "c"]));
    assert!(l.next());
    assert_eq!(l.selected_index(), Some(1));
    assert!(l.next());
    assert_eq!(l.selected().map(|s| s.as_str()), Some("c"));
}

#[test]
fn next_on_last_index_is_a_no_op() {
    let mut l = OptionList::from_items(strings(&["a", "b"]));
    l.next();
    assert!(!l.next());
    assert_eq!(l.selected_index(), Some(1));
}

#[test]
fn previous_on_first_index_is_a_no_op() {
    let mut l = OptionList::from_items(strings(&["a", "b"]));
    assert!(!l.previous());
    assert_eq!(l.selected_index(), Some(0));
    l.next();
    assert!(l.previous());
    assert_eq!(l.selected_index(), Some(0));
}

#[test]
fn moving_without_selection_selects_first() {
    let mut l = OptionList::from_items(strings(&["a", "b"]));
    l.unselect();
    assert_eq!(l.selected_index(), None);
    assert!(l.next());
    assert_eq!(l.selected_index(), Some(0));
    l.unselect();
    assert!(l.previous());
    assert_eq!(l.selected_index(), Some(0));
}

#[test]
fn moving_in_an_empty_list_changes_nothing() {
    let mut l = OptionList::new();
    assert!(!l.next());
    assert!(!l.previous());
    assert_eq!(l.selected_index(), None);
}
