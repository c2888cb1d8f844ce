//! A point expressed as x and y offsets, with a saturating difference.

use vstd::prelude::*;

verus! {

#[derive(Debug, Clone, Copy, PartialEq, Eq, Structural)]
pub struct Location {
    pub x: usize,
    pub y: usize,
}

impl Location {
    /// Componentwise difference, stopping at zero.
    pub fn subtract(&self, other: &Self) -> (r: Self)
        ensures
            r.x == if self.x >= other.x {
                self.x - other.x
            } else {
                0
            },
            r.y == if self.y >= other.y {
                self.y - other.y
            } else {
                0
            },
    {
        Location { x: self.x.saturating_sub(other.x), y: self.y.saturating_sub(other.y) }
    }
}

impl Default for Location {
    /// The origin.
    fn default() -> (l: Location)
        ensures
            l.x == 0 && l.y == 0,
    {
        Location { x: 0, y: 0 }
    }
}

} // verus!
