//! Tail segments and the one-tick-lag propagation rule that makes each
//! segment trail the one ahead of it.

use vstd::prelude::*;

verus! {

use crate::grid::GridPosition;

/// One tail segment. `index` is its place in the chain (0 trails the head,
/// `i` trails segment `i - 1`). `next_position` caches the most recently
/// observed cell of the segment it follows; `position` is the cell it
/// occupies now.
#[derive(Clone, Copy, PartialEq, Eq, Structural, Debug)]
pub struct SnakeTail {
    pub index: usize,
    pub next_position: GridPosition,
    pub position: GridPosition,
}

/// One propagation step of a single segment, given the current cell of the
/// segment it follows: only when that cell differs from the cached one does
/// the segment move into the cached cell and re-cache. This conditional is
/// what produces the one-tick lag.
pub open spec fn spec_node_after(node: SnakeTail, target: GridPosition) -> SnakeTail {
    if target != node.next_position {
        SnakeTail { index: node.index, next_position: target, position: node.next_position }
    } else {
        node
    }
}

/// Creates a fresh tail segment: it starts off-board and will begin trailing
/// from the given cell of the segment it follows.
pub fn spawn_node(tail_index: usize, follow_target_pos: GridPosition) -> (r: SnakeTail)
    ensures
        r.index == tail_index,
        r.next_position == follow_target_pos,
        r.position == GridPosition::sentinel(),
{
    SnakeTail { index: tail_index, next_position: follow_target_pos, position: GridPosition { x: -1, y: -1 } }
}

/// Advances one segment for this tick, reading the current cell of the
/// segment it follows.
pub fn tick_position(tail: &mut SnakeTail, target_grid_pos: &GridPosition)
    ensures
        *final(tail) == spec_node_after(*old(tail), *target_grid_pos),
{
    if *target_grid_pos != tail.next_position {
        tail.position = tail.next_position;
        tail.next_position = *target_grid_pos;
    }
}

} // verus!
