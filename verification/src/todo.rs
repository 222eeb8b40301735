//! The ordered todo list with its selection cursor, and the spec functions
//! that pin down every operation on it.

use vstd::prelude::*;
use crate::item::{ItemModel, TodoItem};

verus! {

/// The mathematical view of a [`TodoList`]: the item models in display
/// order, and the selection cursor as an optional index.
#[verifier::ext_equal]
pub ghost struct ListModel {
    pub items: Seq<ItemModel>,
    pub selected: Option<int>,
}

/// The selection cursor, when present, points at an existing item.
pub open spec fn valid_selection(m: ListModel) -> bool {
    m.selected matches Some(i) ==> 0 <= i < m.items.len()
}

/// Where the cursor lands when moving one item down: the first item when
/// nothing is selected yet, one step down otherwise, clamped at the last
/// item. An empty list leaves the cursor untouched.
pub open spec fn next_selection(sel: Option<int>, len: int) -> Option<int> {
    if len <= 0 {
        sel
    } else {
        match sel {
            None => Some(0),
            Some(i) => if i + 1 < len { Some(i + 1) } else { Some(len - 1) },
        }
    }
}

/// Where the cursor lands when moving one item up: the last item when
/// nothing is selected yet, one step up otherwise, clamped at the first
/// item. An empty list leaves the cursor untouched.
pub open spec fn prev_selection(sel: Option<int>, len: int) -> Option<int> {
    if len <= 0 {
        sel
    } else {
        match sel {
            None => Some(len - 1),
            Some(i) => if i <= 0 {
                Some(0)
            } else if i - 1 < len {
                Some(i - 1)
            } else {
                Some(len - 1)
            },
        }
    }
}

/// The list after a direct selection at `i`: the cursor moves only when `i`
/// is in range; everything else stays as it was.
pub open spec fn selected_at(m: ListModel, i: int) -> ListModel {
    if 0 <= i < m.items.len() {
        ListModel { selected: Some(i), ..m }
    } else {
        m
    }
}

/// The items after flipping the completion flag at `i`; an out-of-range
/// index changes nothing.
pub open spec fn toggled(items: Seq<ItemModel>, i: int) -> Seq<ItemModel> {
    if 0 <= i < items.len() {
        items.update(i, ItemModel { done: !items[i].done, ..items[i] })
    } else {
        items
    }
}

/// The content pane text owed by a list: the selected item's description,
/// or nothing when the cursor is absent or out of range.
pub open spec fn shown_description(m: ListModel) -> Seq<char> {
    match m.selected {
        Some(i) => if 0 <= i < m.items.len() {
            m.items[i].desc
        } else {
            Seq::empty()
        },
        None => Seq::empty(),
    }
}

/// The four demonstration items every run starts with.
pub open spec fn seeded_items() -> Seq<ItemModel> {
    seq![
        ItemModel { done: false, name: "item1"@, desc: "content1"@ },
        ItemModel { done: false, name: "item2"@, desc: "content2"@ },
        ItemModel { done: false, name: "item3"@, desc: "content3"@ },
        ItemModel { done: false, name: "item4"@, desc: "content4"@ },
    ]
}

/// The ordered todo list plus the currently selected index, if any.
/// Insertion order is display order, top to bottom; items are never removed.
pub struct TodoList {
    pub items: Vec<TodoItem>,
    pub selected: Option<usize>,
}

impl View for TodoList {
    type V = ListModel;

    open spec fn view(&self) -> ListModel {
        ListModel {
            items: self.items@.map_values(|it: TodoItem| it@),
            selected: match self.selected {
                Some(i) => Some(i as int),
                None => None,
            },
        }
    }
}

impl TodoList {
    /// An empty list with no selection.
    pub fn new() -> (r: Self)
        ensures
            r@.items.len() == 0,
            r@.selected is None,
    {
        TodoList { items: Vec::new(), selected: None }
    }

    /// How many items the list holds.
    pub fn len(&self) -> (n: usize)
        ensures
            n == self@.items.len(),
    {
        self.items.len()
    }

    /// Move the selection one item down, as [`next_selection`] says.
    pub fn select_next(&mut self)
        ensures
            final(self)@.items == old(self)@.items,
            final(self)@.selected == next_selection(
                old(self)@.selected,
                old(self)@.items.len() as int,
            ),
    {
        let len = self.items.len();
        if len > 0 {
            let j: usize = match self.selected {
                None => 0,
                Some(i) => if i >= len - 1 {
                    len - 1
                } else {
                    i + 1
                },
            };
            self.selected = Some(j);
        }
    }

    /// Move the selection one item up, as [`prev_selection`] says.
    pub fn select_previous(&mut self)
        ensures
            final(self)@.items == old(self)@.items,
            final(self)@.selected == prev_selection(
                old(self)@.selected,
                old(self)@.items.len() as int,
            ),
    {
        let len = self.items.len();
        if len > 0 {
            let j: usize = match self.selected {
                None => len - 1,
                Some(i) => if i == 0 {
                    0
                } else if i - 1 < len {
                    i - 1
                } else {
                    len - 1
                },
            };
            self.selected = Some(j);
        }
    }

    /// Set the selection directly to `i`; an out-of-range index is ignored,
    /// so a pointer press below the rendered list changes nothing.
    pub fn select_at(&mut self, i: usize)
        ensures
            final(self)@ == selected_at(old(self)@, i as int),
    {
        if i < self.items.len() {
            self.selected = Some(i);
        }
    }

    /// Flip the completion flag of the item at `i`; an out-of-range index
    /// is ignored.
    pub fn toggle_done(&mut self, i: usize)
        ensures
            final(self)@.items == toggled(old(self)@.items, i as int),
            final(self)@.selected == old(self)@.selected,
    {
        if i < self.items.len() {
            let d = self.items[i].done;
            self.items[i].done = !d;
            proof {
                assert(self@.items =~= toggled(old(self)@.items, i as int));
            }
        }
    }

    /// Add a new item at the end; the selection cursor does not move.
    pub fn append(&mut self, item: TodoItem)
        ensures
            final(self)@.items == old(self)@.items.push(item@),
            final(self)@.selected == old(self)@.selected,
    {
        self.items.push(item);
        proof {
            assert(self@.items =~= old(self)@.items.push(item@));
        }
    }

    /// The text for the content pane, as [`shown_description`] says.
    pub fn selected_description(&self) -> (r: String)
        ensures
            r@ == shown_description(self@),
    {
        match self.selected {
            Some(i) => if i < self.items.len() {
                self.items[i].desc.clone()
            } else {
                String::new()
            },
            None => String::new(),
        }
    }
}

impl Default for TodoList {
    /// The demonstration list: the four seeded items, none of them done,
    /// with the first item selected so navigation starts at the top.
    fn default() -> (r: Self)
        ensures
            r@.items == seeded_items(),
            r@.selected == Some(0int),
    {
        let mut items: Vec<TodoItem> = Vec::new();
        items.push(TodoItem::new("item1", "content1"));
        items.push(TodoItem::new("item2", "content2"));
        items.push(TodoItem::new("item3", "content3"));
        items.push(TodoItem::new("item4", "content4"));
        let r = TodoList { items, selected: Some(0) };
        proof {
            assert(r@.items =~= seeded_items());
        }
        r
    }
}

} // verus!
