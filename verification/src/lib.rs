//! A small, fully specified todo-list controller for a terminal user
//! interface: a four-state input machine, an ordered list of items with a
//! selection cursor, and the pure computations behind each rendered frame.

pub mod event;
pub mod item;
pub mod laws;
pub mod text;
pub mod todo;
pub mod tui;
