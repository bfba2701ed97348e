//! The four movement directions and the direction-between-positions relation
//! used by the reversal guard.

use vstd::prelude::*;

verus! {

use crate::grid::GridPosition;

/// A movement direction on the grid. The y axis grows downward, so `Down`
/// increases y and `Up` decreases it.
#[derive(Clone, Copy, PartialEq, Eq, Structural, Debug)]
pub enum Direction {
    Up,
    Down,
    Left,
    Right,
}

impl Direction {
    /// The direction in which `to` lies from `from`: determined by sign only,
    /// so any axis-aligned offset counts, not just unit steps. `None` for
    /// equal positions and for diagonal offsets.
    pub open spec fn spec_between(from: GridPosition, to: GridPosition) -> Option<Direction> {
        if to.y == from.y && to.x > from.x {
            Some(Direction::Right)
        } else if to.y == from.y && to.x < from.x {
            Some(Direction::Left)
        } else if to.x == from.x && to.y > from.y {
            Some(Direction::Down)
        } else if to.x == from.x && to.y < from.y {
            Some(Direction::Up)
        } else {
            None
        }
    }

    pub fn between(from: &GridPosition, to: &GridPosition) -> (r: Option<Direction>)
        ensures
            r == Direction::spec_between(*from, *to),
    {
        if to.y == from.y && to.x > from.x {
            Some(Direction::Right)
        } else if to.y == from.y && to.x < from.x {
            Some(Direction::Left)
        } else if to.x == from.x && to.y > from.y {
            Some(Direction::Down)
        } else if to.x == from.x && to.y < from.y {
            Some(Direction::Up)
        } else {
            None
        }
    }
}

} // verus!
