//! The simulation context: one explicit struct that owns the board, the
//! chain, the food and the game phase, advanced by the tick controller in a
//! fixed order once per simulation step.

use vstd::prelude::*;

verus! {

use crate::board::Desc;
use crate::direction::Direction;
use crate::food;
use crate::food::find_next_position;
use crate::grid::GridPosition;
use crate::movement::spec_move;
use crate::phase::{GameOverTimer, GameState};
use crate::snake::controller;
use crate::snake::controller::{spec_grow_target_of, spec_steered};
use crate::snake::tail::SnakeTail;
use crate::snake::{add_snake, spec_is_reset_snake, spec_propagate, Snake};

/// Chain configuration: the fixed simulation step, where the head starts,
/// and how many tail segments a fresh chain has.
#[derive(Clone, Copy, PartialEq, Eq, Structural, Debug)]
pub struct InitParams {
    pub movement_time_step_ms: u64,
    pub start_position: GridPosition,
    pub initial_tail_length: usize,
}

/// The whole game state, owned by the host loop and threaded through the
/// tick calls. All mutation happens inside `set_intent`, `tick` and
/// `update`.
#[derive(Debug)]
pub struct Simulation {
    pub game_board: Desc,
    pub snake: Snake,
    pub food_position: GridPosition,
    pub phase: GameState,
    pub game_over_timer: GameOverTimer,
    pub snake_params: InitParams,
    pub food_params: food::InitParams,
}

/// Every cell the chain occupies: the head first, then each tail segment in
/// chain order. Food is never spawned on any of these.
pub open spec fn spec_occupied_cells(snake: Snake) -> Seq<GridPosition> {
    seq![snake.head.position] + snake.tail@.map_values(|t: SnakeTail| t.position)
}

/// Collects the cells the chain occupies, head first.
fn occupied_cells(snake: &Snake) -> (r: Vec<GridPosition>)
    ensures
        r@ == spec_occupied_cells(*snake),
{
    let mut cells: Vec<GridPosition> = Vec::new();
    cells.push(snake.head.position);
    let mut i: usize = 0;
    while i < snake.tail.len()
        invariant
            i <= snake.tail@.len(),
            cells@.len() == i + 1,
            cells@[0] == snake.head.position,
            forall|j: int| 0 <= j < i ==> cells@[j + 1] == snake.tail@[j].position,
        decreases snake.tail@.len() - i,
    {
        cells.push(snake.tail[i].position);
        i = i + 1;
    }
    proof {
        assert(cells@ =~= spec_occupied_cells(*snake));
    }
    cells
}

impl Simulation {
    /// Everything the methods rely on: a usable board, dense chain indices,
    /// and a timer that has not run past its duration.
    pub open spec fn wf(self) -> bool {
        &&& self.game_board.wf()
        &&& self.snake.wf()
        &&& self.game_over_timer.wf()
    }

    /// The two configuration records and the board never change after
    /// construction.
    pub open spec fn same_config(self, other: Simulation) -> bool {
        &&& self.game_board == other.game_board
        &&& self.snake_params == other.snake_params
        &&& self.food_params == other.food_params
        &&& self.game_over_timer.duration_ms == other.game_over_timer.duration_ms
    }

    /// Field-for-field equality of the changing game state.
    pub open spec fn same_state(self, other: Simulation) -> bool {
        &&& self.same_config(other)
        &&& self.snake.head == other.snake.head
        &&& self.snake.tail@ == other.snake.tail@
        &&& self.food_position == other.food_position
        &&& self.phase == other.phase
        &&& self.game_over_timer == other.game_over_timer
    }

    /// Starts a game: phase `RUNNING`, a fresh chain, the food at its
    /// configured start cell, and the game-over cooldown armed but idle.
    pub fn new(
        game_board: Desc,
        snake_params: InitParams,
        food_params: food::InitParams,
        game_over_pause_ms: u64,
    ) -> (r: Simulation)
        requires
            game_board.wf(),
        ensures
            r.wf(),
            r.game_board == game_board,
            r.snake_params == snake_params,
            r.food_params == food_params,
            r.phase == GameState::RUNNING,
            spec_is_reset_snake(r.snake, snake_params.start_position, snake_params.initial_tail_length as int),
            r.food_position == food_params.start_position,
            r.game_over_timer.duration_ms == game_over_pause_ms,
            r.game_over_timer.elapsed_ms == 0,
    {
        Simulation {
            game_board,
            snake: add_snake(snake_params.start_position, snake_params.initial_tail_length),
            food_position: food_params.start_position,
            phase: GameState::RUNNING,
            game_over_timer: GameOverTimer::new(game_over_pause_ms),
            snake_params,
            food_params,
        }
    }

    /// Feeds one player intent to the chain. Only the running game listens;
    /// the reversal guard decides whether the direction is taken. When
    /// several intents arrive between two ticks, the last call wins, since
    /// each call overwrites the direction for the next tick.
    pub fn set_intent(&mut self, direction: Direction)
        requires
            old(self).wf(),
        ensures
            final(self).wf(),
            old(self).same_config(*final(self)),
            final(self).snake.tail@ == old(self).snake.tail@,
            final(self).snake.head.position == old(self).snake.head.position,
            final(self).food_position == old(self).food_position,
            final(self).phase == old(self).phase,
            final(self).game_over_timer == old(self).game_over_timer,
            old(self).phase == GameState::RUNNING ==> final(self).snake.head.controller == spec_steered(
                old(self).snake.head.controller,
                direction,
                old(self).snake.head.position,
                old(self).game_board.grid_size,
            ),
            old(self).phase != GameState::RUNNING ==> final(self).snake.head.controller == old(self).snake.head.controller,
    {
        if self.phase == GameState::RUNNING {
            controller::handle_input(
                &self.game_board,
                direction,
                &self.snake.head.position,
                &mut self.snake.head.controller,
            );
        }
    }

    /// One simulation step of the running game, in fixed order: the head
    /// moves, the tail propagates, food collision is resolved (grow the
    /// chain, then respawn the food away from every occupied cell, or keep
    /// it when the board is full), and last the self-collision check runs on
    /// the post-move positions: the phase flips to `DEAD` exactly when the
    /// head has landed on a cell a tail segment occupies, and the cooldown
    /// starts. A dead game does not tick.
    pub fn tick(&mut self)
        requires
            old(self).wf(),
        ensures
            final(self).wf(),
            old(self).same_config(*final(self)),
            old(self).phase != GameState::RUNNING ==> old(self).same_state(*final(self)),
            old(self).phase == GameState::RUNNING ==> ({
                let new_head = spec_move(
                    old(self).snake.head.position,
                    old(self).snake.head.controller.direction,
                    old(self).game_board.grid_size,
                );
                let advanced = spec_propagate(old(self).snake.tail@, new_head);
                let ate = new_head == old(self).food_position;
                let bitten = final(self).snake.occupies_spec(new_head);
                &&& final(self).snake.head.position == new_head
                &&& final(self).snake.head.controller.previous_position == old(self).snake.head.position
                &&& final(self).snake.head.controller.direction == old(self).snake.head.controller.direction
                &&& (!ate ==> final(self).snake.tail@ == advanced && final(self).food_position == old(self).food_position)
                &&& (ate ==> final(self).snake.tail@ == advanced.push(
                    (SnakeTail {
                        index: advanced.len() as usize,
                        next_position: spec_grow_target_of(advanced, new_head),
                        position: GridPosition::sentinel(),
                    }),
                ))
                &&& (ate ==> (final(self).food_position.in_range(old(self).game_board.grid_size)
                    && !spec_occupied_cells(final(self).snake).contains(final(self).food_position)) || (
                final(self).food_position == old(self).food_position && spec_occupied_cells(
                    final(self).snake,
                ).len() >= old(self).game_board.grid_size.0 * old(self).game_board.grid_size.1))
                &&& final(self).phase == (if bitten {
                    GameState::DEAD
                } else {
                    GameState::RUNNING
                })
                &&& (bitten ==> final(self).game_over_timer.elapsed_ms == 0)
                &&& (!bitten ==> final(self).game_over_timer == old(self).game_over_timer)
            }),
    {
        if self.phase != GameState::RUNNING {
            return;
        }
        self.snake.advance(&self.game_board);
        let ate = controller::check_collide_with_food(&self.snake.head.position, &self.food_position);
        if ate {
            controller::consume_food(&mut self.snake);
            let occupied = occupied_cells(&self.snake);
            match find_next_position(&self.game_board, &occupied) {
                Ok(next_position) => {
                    self.food_position = next_position;
                },
                Err(_) => {
                    // The board is full: decline to respawn and leave the
                    // food where it was.
                },
            }
        }
        if controller::check_for_bite_self(&self.snake) {
            self.phase = GameState::DEAD;
            self.game_over_timer.reset();
        }
    }

    /// Accounts real time while the game is dead: the cooldown accumulates
    /// elapsed milliseconds, and the moment the accumulated time reaches the
    /// configured pause the game restarts, with the chain fully reset, the
    /// food back on its start cell and the phase `RUNNING` again. Time
    /// passing has no effect on a running game.
    pub fn update(&mut self, delta_ms: u64)
        requires
            old(self).wf(),
        ensures
            final(self).wf(),
            old(self).same_config(*final(self)),
            old(self).phase != GameState::DEAD ==> old(self).same_state(*final(self)),
            old(self).phase == GameState::DEAD ==> ({
                let fires = old(self).game_over_timer.elapsed_ms + delta_ms >= old(self).game_over_timer.duration_ms;
                &&& final(self).phase == (if fires {
                    GameState::RUNNING
                } else {
                    GameState::DEAD
                })
                &&& (!fires ==> final(self).snake.head == old(self).snake.head && final(self).snake.tail@
                    == old(self).snake.tail@ && final(self).food_position == old(self).food_position
                    && final(self).game_over_timer.elapsed_ms == old(self).game_over_timer.elapsed_ms
                    + delta_ms)
                &&& (fires ==> spec_is_reset_snake(
                    final(self).snake,
                    old(self).snake_params.start_position,
                    old(self).snake_params.initial_tail_length as int,
                ) && final(self).food_position == old(self).food_params.start_position && final(self).game_over_timer.elapsed_ms == 0)
            }),
    {
        if self.phase == GameState::DEAD {
            let finished = self.game_over_timer.tick(delta_ms);
            if finished {
                self.snake = add_snake(self.snake_params.start_position, self.snake_params.initial_tail_length);
                self.food_position = self.food_params.start_position;
                self.game_over_timer.reset();
                self.phase = GameState::RUNNING;
            }
        }
    }
}

} // verus!
