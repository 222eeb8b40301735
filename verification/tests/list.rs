use todo_tui::item::TodoItem;
use todo_tui::todo::TodoList;

#[test]
fn item_new_starts_not_done() {
    let it = TodoItem::new("milk", "2%");
    assert!(!it.done);
    assert_eq!(it.name, "milk");
    assert_eq!(it.desc, "2%");
}

#[test]
fn default_seeds_four_items_first_selected() {
    let list = TodoList::default();
    assert_eq!(list.items.len(), 4);
    assert_eq!(list.items[0].name, "item1");
    assert_eq!(list.items[1].name, "item2");
    assert_eq!(list.items[2].name, "item3");
    assert_eq!(list.items[3].name, "item4");
    assert_eq!(list.items[0].desc, "content1");
    assert_eq!(list.items[1].desc, "content2");
    assert_eq!(list.items[2].desc, "content3");
    assert_eq!(list.items[3].desc, "content4");
    assert!(list.items.iter().all(|it| !it.done));
    assert_eq!(list.selected, Some(0));
}

#[test]
fn empty_list_navigation_changes_nothing() {
    let mut list = TodoList::new();
    assert_eq!(list.len(), 0);
    list.select_next();
    assert_eq!(list.selected, None);
    list.select_previous();
    assert_eq!(list.selected, None);
    list.select_at(0);
    assert_eq!(list.selected, None);
}

#[test]
fn select_next_walks_down_and_clamps() {
    let mut list = TodoList::default();
    list.select_next();
    assert_eq!(list.selected, Some(1));
    list.select_next();
    assert_eq!(list.selected, Some(2));
    list.select_next();
    assert_eq!(list.selected, Some(3));
    list.select_next();
    assert_eq!(list.selected, Some(3));
}

#[test]
fn select_next_from_none_selects_first() {
    let mut list = TodoList {
        items: vec![TodoItem::new("a", "1"), TodoItem::new("b", "2")],
        selected: None,
    };
    list.select_next();
    assert_eq!(list.selected, Some(0));
}

#[test]
fn select_previous_walks_up_and_clamps() {
    let mut list = TodoList::default();
    list.select_at(2);
    list.select_previous();
    assert_eq!(list.selected, Some(1));
    list.select_previous();
    assert_eq!(list.selected, Some(0));
    list.select_previous();
    assert_eq!(list.selected, Some(0));
}

#[test]
fn select_previous_from_none_selects_last() {
    let mut list = TodoList {
        items: vec![TodoItem::new("a", "1"), TodoItem::new("b", "2")],
        selected: None,
    };
    list.select_previous();
    assert_eq!(list.selected, Some(1));
}

#[test]
fn select_at_out_of_bounds_is_ignored() {
    let mut list = TodoList::default();
    list.select_at(1);
    assert_eq!(list.selected, Some(1));
    list.select_at(4);
    assert_eq!(list.selected, Some(1));
    list.select_at(usize::MAX);
    assert_eq!(list.selected, Some(1));
}

#[test]
fn toggle_done_twice_restores_flag() {
    let mut list = TodoList::default();
    assert!(!list.items[2].done);
    list.toggle_done(2);
    assert!(list.items[2].done);
    list.toggle_done(2);
    assert!(!list.items[2].done);
}

#[test]
fn toggle_done_out_of_bounds_is_ignored() {
    let mut list = TodoList::default();
    list.toggle_done(4);
    list.toggle_done(usize::MAX);
    assert_eq!(list.items.len(), 4);
    assert!(list.items.iter().all(|it| !it.done));
}

#[test]
fn append_adds_at_end_without_moving_selection() {
    let mut list = TodoList::default();
    list.select_at(3);
    list.append(TodoItem::new("bread", "rye"));
    assert_eq!(list.items.len(), 5);
    assert_eq!(list.items[4].name, "bread");
    assert_eq!(list.items[4].desc, "rye");
    assert!(!list.items[4].done);
    assert_eq!(list.selected, Some(3));
}

#[test]
fn selected_description_follows_selection() {
    let mut list = TodoList::default();
    assert_eq!(list.selected_description(), "content1");
    list.select_at(2);
    assert_eq!(list.selected_description(), "content3");
}

#[test]
fn selected_description_empty_without_valid_selection() {
    let mut list = TodoList::default();
    list.selected = None;
    assert_eq!(list.selected_description(), "");
    list.selected = Some(10);
    assert_eq!(list.selected_description(), "");
}
