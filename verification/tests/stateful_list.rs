use git_ex::util::StatefulList;

fn words(list: &[&str]) -> Vec<String> {
    list.iter().map(|w| w.to_string()).collect()
}

#[test]
fn test_selected() {
    let mut list = StatefulList::with_items(
        vec!["hoge", "foo", "bar"]
            .into_iter()
            .map(ToOwned::to_owned)
            .collect(),
    );
    assert_eq!(list.selected(), Some(&"hoge".to_owned()));

    list.state.select(Some(1));

    assert_eq!(list.selected(), Some(&"foo".to_owned()));
}

#[test]
fn new_list_is_empty_and_unselected() {
    let list: StatefulList<String> = StatefulList::new();
    assert!(list.items.is_empty());
    assert_eq!(list.state.selected(), None);
    assert_eq!(list.selected(), None);
}

#[test]
fn set_items_puts_cursor_on_first() {
    let mut list = StatefulList::new();
    list.set_items(words(&["a", "b"]));
    assert_eq!(list.state.selected(), Some(0));
    assert_eq!(list.selected(), Some(&"a".to_owned()));
    list.set_items(Vec::new());
    assert_eq!(list.state.selected(), None);
    assert_eq!(list.selected(), None);
}

#[test]
fn next_wraps_from_last_to_first() {
    let mut list = StatefulList::new();
    list.set_items(words(&["a", "b", "c"]));
    list.next();
    assert_eq!(list.state.selected(), Some(1));
    list.next();
    assert_eq!(list.state.selected(), Some(2));
    list.next();
    assert_eq!(list.state.selected(), Some(0));
}

#[test]
fn previous_wraps_from_first_to_last() {
    let mut list = StatefulList::new();
    list.set_items(words(&["a", "b", "c"]));
    list.previous();
    assert_eq!(list.state.selected(), Some(2));
    list.previous();
    assert_eq!(list.state.selected(), Some(1));
    list.previous();
    assert_eq!(list.state.selected(), Some(0));
}

#[test]
fn navigation_on_empty_list_leaves_cursor_unset() {
    let mut list: StatefulList<String> = StatefulList::new();
    list.next();
    assert_eq!(list.state.selected(), None);
    list.previous();
    assert_eq!(list.state.selected(), None);
}

#[test]
fn with_items_puts_cursor_on_first() {
    let list = StatefulList::with_items(words(&["a", "b"]));
    assert_eq!(list.state.selected(), Some(0));
    assert_eq!(list.selected(), Some(&"a".to_owned()));
    let empty: StatefulList<String> = StatefulList::with_items(Vec::new());
    assert_eq!(empty.state.selected(), None);
    assert_eq!(empty.selected(), None);
}

#[test]
fn navigation_without_cursor_is_a_no_op() {
    let mut list = StatefulList::with_items(words(&["a", "b"]));
    list.unselect();
    list.next();
    assert_eq!(list.state.selected(), None);
    list.previous();
    assert_eq!(list.state.selected(), None);
}

#[test]
fn single_item_list_keeps_cursor_on_it() {
    let mut list = StatefulList::new();
    list.set_items(words(&["only"]));
    list.next();
    assert_eq!(list.state.selected(), Some(0));
    list.previous();
    assert_eq!(list.state.selected(), Some(0));
}

#[test]
fn cursor_beyond_the_items_selects_nothing() {
    let mut list = StatefulList::with_items(words(&["a", "b"]));
    list.state.select(Some(7));
    assert_eq!(list.selected(), None);
    list.next();
    assert_eq!(list.state.selected(), Some(0));
}

#[test]
fn stale_cursor_on_emptied_list_is_dropped() {
    let mut list: StatefulList<String> = StatefulList::new();
    list.state.select(Some(3));
    list.next();
    assert_eq!(list.state.selected(), None);
    list.state.select(Some(3));
    list.previous();
    assert_eq!(list.state.selected(), None);
}

#[test]
fn unselect_clears_the_cursor() {
    let mut list = StatefulList::new();
    list.set_items(words(&["a"]));
    list.unselect();
    assert_eq!(list.state.selected(), None);
    assert_eq!(list.items, words(&["a"]));
}

#[test]
fn clone_keeps_items_and_cursor() {
    let mut list = StatefulList::new();
    list.set_items(words(&["a", "b"]));
    list.next();
    let copy = list.clone();
    assert_eq!(copy.items, words(&["a", "b"]));
    assert_eq!(copy.state.selected(), Some(1));
}
