//! The controller: the four-state input machine, its draft buffers, and the
//! complete transition relation for every input event.

use vstd::prelude::*;
use vstd::string::StringExecFns;
use crate::event::{InputEvent, Key, PointerEvent, PointerKind};
use crate::item::{ItemModel, TodoItem};
use crate::todo::{
    ListModel, TodoList, next_selection, prev_selection, seeded_items, selected_at, toggled,
};

verus! {

/// The four-way mode governing how keyboard input is interpreted: idle
/// navigation, the two steps of entering a new item, or leaving the loop.
#[derive(Clone, Copy, Debug, PartialEq, Eq, Structural)]
pub enum InputState {
    Idle,
    EnteringName,
    EnteringDescription,
    Exiting,
}

/// The mathematical view of a [`Tui`]: its mode, the list model, and the two
/// draft buffers as character sequences.
#[verifier::ext_equal]
pub ghost struct TuiModel {
    pub state: InputState,
    pub todo: ListModel,
    pub draft_name: Seq<char>,
    pub draft_desc: Seq<char>,
}

/// A draft buffer with its last character removed; an empty buffer stays
/// empty.
pub open spec fn without_last(s: Seq<char>) -> Seq<char> {
    if s.len() == 0 {
        s
    } else {
        s.drop_last()
    }
}

/// The item committed when description entry finishes: not done, with the
/// two drafts as its name and description.
pub open spec fn drafted_item(t: TuiModel) -> ItemModel {
    ItemModel { done: false, name: t.draft_name, desc: t.draft_desc }
}

/// The complete key transition. Printable characters and Backspace edit the
/// draft of the current entry step; Backspace while idle toggles the
/// selected item; Esc always moves to `Exiting`; Up and Down move the
/// cursor in every mode; Enter walks the entry flow and, on its last step,
/// commits the drafted item and clears both buffers.
pub open spec fn key_step(t: TuiModel, k: Key) -> TuiModel {
    match k {
        Key::Char(c) => match t.state {
            InputState::EnteringName => TuiModel { draft_name: t.draft_name.push(c), ..t },
            InputState::EnteringDescription => TuiModel {
                draft_desc: t.draft_desc.push(c),
                ..t
            },
            _ => t,
        },
        Key::Backspace => match t.state {
            InputState::EnteringName => TuiModel { draft_name: without_last(t.draft_name), ..t },
            InputState::EnteringDescription => TuiModel {
                draft_desc: without_last(t.draft_desc),
                ..t
            },
            InputState::Idle => match t.todo.selected {
                Some(i) => TuiModel {
                    todo: ListModel { items: toggled(t.todo.items, i), ..t.todo },
                    ..t
                },
                None => t,
            },
            InputState::Exiting => t,
        },
        Key::Esc => TuiModel { state: InputState::Exiting, ..t },
        Key::Down => TuiModel {
            todo: ListModel {
                selected: next_selection(t.todo.selected, t.todo.items.len() as int),
                ..t.todo
            },
            ..t
        },
        Key::Up => TuiModel {
            todo: ListModel {
                selected: prev_selection(t.todo.selected, t.todo.items.len() as int),
                ..t.todo
            },
            ..t
        },
        Key::Enter => match t.state {
            InputState::Idle => TuiModel { state: InputState::EnteringName, ..t },
            InputState::EnteringName => TuiModel { state: InputState::EnteringDescription, ..t },
            InputState::EnteringDescription => TuiModel {
                state: InputState::Idle,
                todo: ListModel { items: t.todo.items.push(drafted_item(t)), ..t.todo },
                draft_name: Seq::empty(),
                draft_desc: Seq::empty(),
            },
            InputState::Exiting => t,
        },
        Key::Other => t,
    }
}

/// The list index a pointer row maps to: one less than the row, for the
/// pane's top border; row 0 maps to the first item.
pub open spec fn pointer_row_index(row: u16) -> int {
    if row >= 1 {
        row - 1
    } else {
        0
    }
}

/// The pointer transition: only a press acts, moving the selection to the
/// row's item when that item exists; everything else changes nothing.
pub open spec fn pointer_step(t: TuiModel, p: PointerEvent) -> TuiModel {
    if p.kind is Press {
        TuiModel { todo: selected_at(t.todo, pointer_row_index(p.row)), ..t }
    } else {
        t
    }
}

/// One step of the controller for an arbitrary input event.
pub open spec fn event_step(t: TuiModel, e: InputEvent) -> TuiModel {
    match e {
        InputEvent::Key(k) => key_step(t, k),
        InputEvent::Pointer(p) => pointer_step(t, p),
        InputEvent::Other => t,
    }
}

/// The status pane text: the in-progress draft behind its prompt while
/// entering an item, and the key help line otherwise.
pub open spec fn status_line(t: TuiModel) -> Seq<char> {
    match t.state {
        InputState::EnteringName => "Item name: "@ + t.draft_name,
        InputState::EnteringDescription => "Item description: "@ + t.draft_desc,
        _ => "[Enter] to enter item title, [Enter] again to add description, [Esc] to exit"@,
    }
}

/// The controller state: input mode, todo list, and the transient draft
/// buffers used while a new item is being entered.
pub struct Tui {
    pub state: InputState,
    pub todo: TodoList,
    pub draft_name: String,
    pub draft_desc: String,
}

impl View for Tui {
    type V = TuiModel;

    open spec fn view(&self) -> TuiModel {
        TuiModel {
            state: self.state,
            todo: self.todo@,
            draft_name: self.draft_name@,
            draft_desc: self.draft_desc@,
        }
    }
}

impl Tui {
    /// A fresh controller: idle, over the seeded demonstration list, with
    /// both draft buffers empty.
    pub fn new() -> (r: Self)
        ensures
            r@.state == InputState::Idle,
            r@.todo.items == seeded_items(),
            r@.todo.selected == Some(0int),
            r@.draft_name.len() == 0,
            r@.draft_desc.len() == 0,
    {
        Self {
            state: InputState::Idle,
            todo: TodoList::default(),
            draft_name: String::new(),
            draft_desc: String::new(),
        }
    }

    /// Dispatch one key press, exactly as [`key_step`] says.
    pub fn handle_key(&mut self, key: Key)
        ensures
            final(self)@ == key_step(old(self)@, key),
    {
        match key {
            Key::Char(c) => match self.state {
                InputState::EnteringName => self.draft_name.push(c),
                InputState::EnteringDescription => self.draft_desc.push(c),
                _ => {},
            },
            Key::Backspace => match self.state {
                InputState::EnteringName => {
                    self.draft_name.pop();
                },
                InputState::EnteringDescription => {
                    self.draft_desc.pop();
                },
                InputState::Idle => {
                    if let Some(i) = self.todo.selected {
                        self.todo.toggle_done(i);
                    }
                },
                InputState::Exiting => {},
            },
            Key::Esc => {
                self.state = InputState::Exiting;
            },
            Key::Down => {
                self.todo.select_next();
            },
            Key::Up => {
                self.todo.select_previous();
            },
            Key::Enter => match self.state {
                InputState::Idle => {
                    self.state = InputState::EnteringName;
                },
                InputState::EnteringName => {
                    self.state = InputState::EnteringDescription;
                },
                InputState::EnteringDescription => {
                    self.state = InputState::Idle;
                    let item = TodoItem::new(self.draft_name.as_str(), self.draft_desc.as_str());
                    self.todo.append(item);
                    self.draft_name = String::new();
                    self.draft_desc = String::new();
                },
                InputState::Exiting => {},
            },
            Key::Other => {},
        }
    }

    /// Dispatch one pointer event, exactly as [`pointer_step`] says.
    pub fn handle_pointer(&mut self, p: PointerEvent)
        ensures
            final(self)@ == pointer_step(old(self)@, p),
    {
        match p.kind {
            PointerKind::Press => {
                let i: usize = if p.row >= 1 {
                    (p.row - 1) as usize
                } else {
                    0
                };
                self.todo.select_at(i);
            },
            PointerKind::Release => {},
            PointerKind::Move => {},
        }
    }

    /// Dispatch one input event, exactly as [`event_step`] says.
    pub fn handle_event(&mut self, e: InputEvent)
        ensures
            final(self)@ == event_step(old(self)@, e),
    {
        match e {
            InputEvent::Key(k) => self.handle_key(k),
            InputEvent::Pointer(p) => self.handle_pointer(p),
            InputEvent::Other => {},
        }
    }

    /// Whether the event loop should stop: true exactly in `Exiting`.
    pub fn should_exit(&self) -> (r: bool)
        ensures
            r == (self@.state is Exiting),
    {
        matches!(self.state, InputState::Exiting)
    }

    /// The status pane text, as [`status_line`] says.
    pub fn status_text(&self) -> (r: String)
        ensures
            r@ == status_line(self@),
    {
        match self.state {
            InputState::EnteringName => {
                let mut s = "Item name: ".to_owned();
                s.append(self.draft_name.as_str());
                s
            },
            InputState::EnteringDescription => {
                let mut s = "Item description: ".to_owned();
                s.append(self.draft_desc.as_str());
                s
            },
            _ => {
                "[Enter] to enter item title, [Enter] again to add description, [Esc] to exit".to_owned()
            },
        }
    }
}

} // verus!
