//! How full a cell is, and where it lies relative to the centerline.

use vstd::prelude::*;

verus! {

/// How much of a character cell is filled, from the centerline outward.
/// The levels are ordered: `Empty < Third < Half < TwoThird < Full`.
#[derive(Debug, Clone, Copy, PartialEq, Eq, PartialOrd, Ord, Structural)]
pub enum BlockFullness {
    Empty,
    Third,
    Half,
    TwoThird,
    Full,
}

/// Whether a row lies above the centerline, below it, or is the centerline.
#[derive(Debug, Clone, Copy, PartialEq, Eq, Structural)]
pub enum Position {
    Upper,
    Lower,
    Middle,
}

impl BlockFullness {
    /// The place of a level in the order, 0 for `Empty` up to 4 for `Full`.
    pub open spec fn rank_of(self) -> nat {
        match self {
            BlockFullness::Empty => 0,
            BlockFullness::Third => 1,
            BlockFullness::Half => 2,
            BlockFullness::TwoThird => 3,
            BlockFullness::Full => 4,
        }
    }

    /// The place of this level in the order.
    pub fn rank(self) -> (r: u8)
        ensures
            r == self.rank_of(),
    {
        match self {
            BlockFullness::Empty => 0,
            BlockFullness::Third => 1,
            BlockFullness::Half => 2,
            BlockFullness::TwoThird => 3,
            BlockFullness::Full => 4,
        }
    }

    /// The fuller of two levels; the first where they are equal.
    pub open spec fn fuller_of(self, other: BlockFullness) -> BlockFullness {
        if self.rank_of() >= other.rank_of() {
            self
        } else {
            other
        }
    }

    /// The fuller of two levels.
    pub fn fuller(self, other: BlockFullness) -> (r: BlockFullness)
        ensures
            r == self.fuller_of(other),
    {
        if self.rank() >= other.rank() {
            self
        } else {
            other
        }
    }
}

} // verus!
