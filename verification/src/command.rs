//! The decoded input alphabet of the editor: editing, cursor movement and
//! system commands, independent of how keystrokes are mapped to them.

use vstd::prelude::*;

use crate::size::Size;

verus! {

/// A command that mutates text: either the document or a prompt buffer.
#[derive(Copy, Clone, Debug, PartialEq, Eq, Structural)]
pub enum Edit {
    /// Insert one character at the caret.
    Insert(char),
    /// Confirm / break the line at the caret.
    InsertNewline,
    /// Delete the grapheme under the caret.
    Delete,
    /// Delete the grapheme before the caret.
    DeleteBackward,
}

/// A cursor movement command.
#[derive(Copy, Clone, Debug, PartialEq, Eq, Structural)]
pub enum Move {
    Up,
    Down,
    Left,
    Right,
    PageUp,
    PageDown,
    Home,
    End,
    /// To the first line of the document.
    StartOfDocument,
    /// To the last line of the document.
    EndOfDocument,
}

/// A command addressed to the editor itself rather than to the text.
#[derive(Copy, Clone, Debug, PartialEq, Eq, Structural)]
pub enum System {
    /// Request to leave the editor; repeated confirmation may be required.
    Quit,
    /// Write the document to disk.
    Save,
    /// Begin composing a search query.
    Search,
    /// Leave the current prompt, discarding its pending input.
    Dismiss,
    /// The terminal was resized to the given dimensions.
    Resize(Size),
}

/// One decoded input event.
#[derive(Copy, Clone, Debug, PartialEq, Eq, Structural)]
pub enum Command {
    Edit(Edit),
    Move(Move),
    System(System),
}

} // verus!
