//! A physical screen coordinate: column and row.

use vstd::prelude::*;

verus! {

#[derive(Debug, Clone, Copy, PartialEq, Eq, Structural)]
pub struct Position {
    pub col: usize,
    pub row: usize,
}

impl Position {
    /// Componentwise difference, stopping at zero.
    pub fn saturating_sub(self, other: Self) -> (r: Self)
        ensures
            r.col == if self.col >= other.col {
                self.col - other.col
            } else {
                0
            },
            r.row == if self.row >= other.row {
                self.row - other.row
            } else {
                0
            },
    {
        Position {
            col: self.col.saturating_sub(other.col),
            row: self.row.saturating_sub(other.row),
        }
    }
}

impl Default for Position {
    /// The top-left corner.
    fn default() -> (p: Position)
        ensures
            p.col == 0 && p.row == 0,
    {
        Position { col: 0, row: 0 }
    }
}

} // verus!
