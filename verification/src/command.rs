use vstd::prelude::*;

use crate::geometry::Size;

verus! {

/// Cursor-movement commands, as decoded by an external input parser.
#[derive(Clone, Copy, PartialEq, Eq, Structural, Debug)]
pub enum Move {
    Up,
    Down,
    Left,
    Right,
    PageUp,
    PageDown,
    StartOfLine,
    EndOfLine,
}

/// Text-editing commands.
#[derive(Clone, Copy, PartialEq, Eq, Structural, Debug)]
pub enum Edit {
    Insert(char),
    Delete,
    DeleteBackward,
    InsertNewline,
}

/// Session-level commands.
#[derive(Clone, Copy, PartialEq, Eq, Structural, Debug)]
pub enum System {
    Quit,
    Resize(Size),
    Save,
    Dismiss,
    Search,
}

/// Any decoded input command.
#[derive(Clone, Copy, PartialEq, Eq, Structural, Debug)]
pub enum Command {
    Move(Move),
    Edit(Edit),
    System(System),
}

} // verus!
