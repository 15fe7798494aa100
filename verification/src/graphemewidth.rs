//! The two column-width classes a rendered grapheme cluster can have.

use vstd::prelude::*;

verus! {

/// Column width class of one grapheme cluster on the terminal: `Half` takes
/// one column, `Full` takes two.
#[derive(Copy, Clone, Debug, PartialEq, Eq, Structural)]
pub enum GraphemeWidth {
    Half,
    Full,
}

impl GraphemeWidth {
    /// The number of terminal columns this width class occupies.
    pub open spec fn columns(self) -> nat {
        match self {
            GraphemeWidth::Half => 1,
            GraphemeWidth::Full => 2,
        }
    }

    /// Adds this width to a running column count, stopping at `usize::MAX`.
    pub fn saturating_add(self, other: usize) -> (r: usize)
        ensures
            other + self.columns() <= usize::MAX ==> r == other + self.columns(),
            other + self.columns() > usize::MAX ==> r == usize::MAX,
    {
        match self {
            GraphemeWidth::Half => other.saturating_add(1),
            GraphemeWidth::Full => other.saturating_add(2),
        }
    }
}

impl core::convert::From<GraphemeWidth> for usize {
    fn from(val: GraphemeWidth) -> (r: usize) {
        match val {
            GraphemeWidth::Half => 1,
            GraphemeWidth::Full => 2,
        }
    }
}

impl vstd::std_specs::convert::FromSpecImpl<GraphemeWidth> for usize {
    open spec fn obeys_from_spec() -> bool {
        true
    }

    open spec fn from_spec(v: GraphemeWidth) -> usize {
        v.columns() as usize
    }
}

} // verus!
