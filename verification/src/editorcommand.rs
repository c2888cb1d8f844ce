//! An earlier, flat shape of the command set, kept for collaborators that
//! still deliver it.

use vstd::prelude::*;
use crate::size::Size;

verus! {

/// A cursor movement direction.
#[derive(Debug, Clone, Copy, PartialEq, Eq, Structural)]
pub enum Direction {
    PageUp,
    PageDown,
    Home,
    End,
    Up,
    Left,
    Right,
    Down,
}

/// A command in the flat shape.
#[derive(Debug, Clone, Copy, PartialEq, Eq, Structural)]
pub enum EditorCommand {
    Move(Direction),
    Resize(Size),
    Quit,
    Insert(char),
    Delete,
    Backspace,
    Enter,
    Save,
}

} // verus!
