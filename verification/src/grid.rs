//! Grid cells: integer coordinates on the game board.

use vstd::prelude::*;

verus! {

/// One discrete cell of board space. Coordinates are unbounded here; the
/// movement functions normalize positions into the board's range by
/// wraparound.
#[derive(Clone, Copy, PartialEq, Eq, Structural, Debug)]
pub struct GridPosition {
    pub x: i32,
    pub y: i32,
}

impl GridPosition {
    pub fn new(x: i32, y: i32) -> (r: GridPosition)
        ensures
            r.x == x,
            r.y == y,
    {
        GridPosition { x, y }
    }

    /// True when the position lies on a board of the given dimensions.
    pub open spec fn in_range(self, dims: (i32, i32)) -> bool {
        0 <= self.x < dims.0 && 0 <= self.y < dims.1
    }

    /// The off-board placeholder cell that fresh tail segments occupy until
    /// the head has moved often enough to pull them onto the board. It lies
    /// outside every board, whatever the dimensions.
    pub open spec fn sentinel() -> GridPosition {
        GridPosition { x: -1i32, y: -1i32 }
    }
}

} // verus!
