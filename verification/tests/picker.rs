use fzweb::Selection;

#[test]
fn cancelled_picker_is_aborted() {
    assert_eq!(Selection::from_picker(true, vec![]), Selection::Aborted);
}

#[test]
fn cancelled_picker_is_aborted_even_with_items() {
    assert_eq!(Selection::from_picker(true, vec!["a".to_string()]), Selection::Aborted);
}

#[test]
fn confirmed_without_items_is_no_selection() {
    assert_eq!(Selection::from_picker(false, vec![]), Selection::NoSelection);
}

#[test]
fn first_picked_item_is_chosen() {
    assert_eq!(
        Selection::from_picker(false, vec!["b".to_string(), "a".to_string()]),
        Selection::Chosen("b".to_string())
    );
}
