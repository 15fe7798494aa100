//! A caret position on the terminal.

use vstd::prelude::*;

verus! {

/// A column/row cell position, zero-based from the top-left corner.
#[derive(Copy, Clone, Debug, Default, PartialEq, Eq, Structural)]
pub struct Position {
    pub x: u16,
    pub y: u16,
}

} // verus!
