//! A single todo entry and its mathematical model.

use vstd::prelude::*;

verus! {

/// The mathematical view of a [`TodoItem`]: its strings as character
/// sequences.
#[verifier::ext_equal]
pub ghost struct ItemModel {
    pub done: bool,
    pub name: Seq<char>,
    pub desc: Seq<char>,
}

/// One entry of the todo list: a name shown in the list pane, a longer
/// description shown in the content pane, and a completion flag.
pub struct TodoItem {
    pub done: bool,
    pub name: String,
    pub desc: String,
}

impl View for TodoItem {
    type V = ItemModel;

    open spec fn view(&self) -> ItemModel {
        ItemModel { done: self.done, name: self.name@, desc: self.desc@ }
    }
}

impl TodoItem {
    /// A fresh, not-yet-done item with the given name and description.
    pub fn new(name: &str, desc: &str) -> (r: Self)
        ensures
            r@ == (ItemModel { done: false, name: name@, desc: desc@ }),
    {
        Self { done: false, name: name.to_owned(), desc: desc.to_owned() }
    }
}

} // verus!
