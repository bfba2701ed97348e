//! The head of the chain: its cell on the grid plus its movement state.

use vstd::prelude::*;

verus! {

use crate::board::{Desc, WorldPosition};
use crate::direction::Direction;
use crate::grid::GridPosition;
use crate::snake::controller::MovementController;

/// The leading segment. It owns the movement state: the current direction
/// and the cell occupied before the most recent move.
#[derive(Clone, Copy, PartialEq, Eq, Structural, Debug)]
pub struct SnakeHead {
    pub position: GridPosition,
    pub controller: MovementController,
}

/// Creates a head at the start position, facing right, with the previous
/// position equal to the start so that no move has happened yet.
pub fn spawn(start_position: GridPosition) -> (r: SnakeHead)
    ensures
        r.position == start_position,
        r.controller.direction == Direction::Right,
        r.controller.previous_position == start_position,
{
    SnakeHead {
        position: start_position,
        controller: MovementController { direction: Direction::Right, previous_position: start_position },
    }
}

/// Where the head should be drawn this frame: its grid cell converted to
/// world units.
pub fn tick_position(game_board: &Desc, grid_pos: &GridPosition) -> (r: WorldPosition)
    ensures
        r == game_board.spec_grid_to_world(*grid_pos),
{
    game_board.grid_pos_to_world_pos(grid_pos)
}

} // verus!
