//! Terminal dimensions.

use vstd::prelude::*;

verus! {

/// A width and height in character cells.
#[derive(Copy, Clone, Debug, Default, PartialEq, Eq, Structural)]
pub struct Size {
    pub width: u16,
    pub height: u16,
}

} // verus!
