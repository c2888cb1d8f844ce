//! The closed set of abstract commands an input-decoding collaborator
//! delivers to the editor core.

use vstd::prelude::*;
use crate::size::Size;

verus! {

/// A cursor movement.
#[derive(Debug, Clone, Copy, PartialEq, Eq, Structural)]
pub enum Move {
    Up,
    Down,
    Left,
    Right,
    PageUp,
    PageDown,
    Home,
    End,
}

/// A system-level command.
#[derive(Debug, Clone, Copy, PartialEq, Eq, Structural)]
pub enum System {
    Save,
    Resize(Size),
    Quit,
    Dismiss,
}

/// An edit of the document or of the command bar's value.
#[derive(Debug, Clone, Copy, PartialEq, Eq, Structural)]
pub enum Edit {
    Delete,
    Insert(char),
    InsertNewline,
    DeleteBackward,
}

/// Any command the editor core executes.
#[derive(Debug, Clone, Copy, PartialEq, Eq, Structural)]
pub enum Command {
    Move(Move),
    Edit(Edit),
    System(System),
}

} // verus!
