//! Per-tick decisions for the chain: steering with the reversal guard,
//! moving the head, and the food and self-collision checks.

use vstd::prelude::*;

verus! {

use crate::board::Desc;
use crate::direction::Direction;
use crate::grid::GridPosition;
use crate::movement::{move_grid_position, spec_move};
use crate::snake::Snake;
use crate::snake::tail::SnakeTail;

/// The head's movement state: where it is going and the cell it occupied
/// before its most recent move.
#[derive(Clone, Copy, PartialEq, Eq, Structural, Debug)]
pub struct MovementController {
    pub direction: Direction,
    pub previous_position: GridPosition,
}

/// The steering decision after a player intent, with the reversal guard
/// applied: the new direction is taken unless one step that way would land
/// exactly on the cell the head just vacated.
pub open spec fn spec_steered(
    controller: MovementController,
    new_direction: Direction,
    grid_pos: GridPosition,
    grid_size: (i32, i32),
) -> MovementController {
    if spec_move(grid_pos, new_direction, grid_size) != controller.previous_position {
        MovementController { direction: new_direction, previous_position: controller.previous_position }
    } else {
        controller
    }
}

/// Applies a direction intent to the head's movement state. A step that
/// would move the head straight back into the cell it came from is rejected
/// and the current direction kept; anything else is accepted.
pub fn handle_input(
    game_board: &Desc,
    new_direction: Direction,
    grid_pos: &GridPosition,
    controller: &mut MovementController,
)
    requires
        game_board.wf(),
    ensures
        *final(controller) == spec_steered(*old(controller), new_direction, *grid_pos, game_board.grid_size),
{
    let predicted_position = move_grid_position(*grid_pos, new_direction, game_board.grid_size);
    if predicted_position != controller.previous_position {
        controller.direction = new_direction;
    }
}

/// Moves the head one cell in its current direction, wrapping around the
/// board, and records the vacated cell as the previous position.
pub fn move_head(game_board: &Desc, grid_pos: &mut GridPosition, movement: &mut MovementController)
    requires
        game_board.wf(),
    ensures
        final(movement).previous_position == *old(grid_pos),
        final(movement).direction == old(movement).direction,
        *final(grid_pos) == spec_move(*old(grid_pos), old(movement).direction, game_board.grid_size),
        final(grid_pos).in_range(game_board.grid_size),
{
    movement.previous_position = *grid_pos;
    let updated_position = move_grid_position(*grid_pos, movement.direction, game_board.grid_size);
    *grid_pos = updated_position;
}

/// True exactly when the head stands on the food cell. Both positions live
/// in grid space, so the comparison is exact integer equality.
pub fn check_collide_with_food(head_position: &GridPosition, food_position: &GridPosition) -> (r: bool)
    ensures
        r == (head_position == food_position),
{
    head_position.x == food_position.x && head_position.y == food_position.y
}

/// The cell a newly grown segment starts trailing from, given the tail and
/// the head cell: the current end of the chain, which is the head itself
/// while the chain has no tail yet.
pub open spec fn spec_grow_target_of(tail: Seq<SnakeTail>, head_position: GridPosition) -> GridPosition {
    if tail.len() == 0 {
        head_position
    } else {
        tail.last().position
    }
}

/// The cell a newly grown segment starts trailing from.
pub open spec fn spec_grow_target(snake: Snake) -> GridPosition {
    spec_grow_target_of(snake.tail@, snake.head.position)
}

/// Grows the chain after the head has eaten: appends one tail segment at the
/// end of the chain. The new segment starts off-board and trails from the
/// cell of the previous last segment, not from the head.
pub fn consume_food(snake: &mut Snake)
    requires
        old(snake).wf(),
    ensures
        final(snake).head == old(snake).head,
        final(snake).tail@ == old(snake).tail@.push(
            (SnakeTail {
                index: old(snake).tail@.len() as usize,
                next_position: spec_grow_target(*old(snake)),
                position: GridPosition::sentinel(),
            }),
        ),
        final(snake).wf(),
{
    let next_index: usize = snake.tail.len();
    let follow_target_pos: GridPosition = if snake.tail.len() == 0 {
        snake.head.position
    } else {
        snake.tail[snake.tail.len() - 1].position
    };
    let node = crate::snake::tail::spawn_node(next_index, follow_target_pos);
    snake.tail.push(node);
}

/// True exactly when the head has bitten the chain: some tail segment
/// occupies the head's cell. The caller switches the game phase on a true
/// result.
pub fn check_for_bite_self(snake: &Snake) -> (r: bool)
    ensures
        r == snake.occupies_spec(snake.head.position),
{
    snake.occupies(&snake.head.position)
}

} // verus!
