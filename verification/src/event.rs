//! The plain input events the controller consumes: key presses and pointer
//! events, stripped down to exactly what the logic reads.

use vstd::prelude::*;

verus! {

/// A key press, reduced to the keys the controller reacts to. Every other
/// key arrives as `Other` and is ignored.
#[derive(Clone, Copy, Debug, PartialEq, Eq, Structural)]
pub enum Key {
    /// A printable character.
    Char(char),
    Backspace,
    Enter,
    Esc,
    Up,
    Down,
    /// Any key the controller does not react to.
    Other,
}

/// What kind of pointer event occurred. Only presses act on the list;
/// releases and movement are ignored.
#[derive(Clone, Copy, Debug, PartialEq, Eq, Structural)]
pub enum PointerKind {
    Press,
    Release,
    Move,
}

/// A pointer event with its screen coordinates. Row 0 is the top border of
/// the list pane; row `r >= 1` lies over the item at index `r - 1`.
#[derive(Clone, Copy, Debug, PartialEq, Eq, Structural)]
pub struct PointerEvent {
    pub kind: PointerKind,
    pub row: u16,
    pub column: u16,
}

/// One input event, as handed to the controller by the event loop.
#[derive(Clone, Copy, Debug, PartialEq, Eq, Structural)]
pub enum InputEvent {
    Key(Key),
    Pointer(PointerEvent),
    /// Any event the controller does not react to (resize, focus, paste).
    Other,
}

} // verus!
