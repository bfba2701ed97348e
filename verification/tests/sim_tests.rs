use snake_core::board::Desc;
use snake_core::direction::Direction;
use snake_core::food::InitParams as FoodInitParams;
use snake_core::grid::GridPosition;
use snake_core::phase::{GameOverTimer, GameState};
use snake_core::sim::{InitParams, Simulation};

fn gp(x: i32, y: i32) -> GridPosition {
    GridPosition { x, y }
}

fn make_sim(
    grid_size: (i32, i32),
    start: GridPosition,
    tail_length: usize,
    food: GridPosition,
    pause_ms: u64,
) -> Simulation {
    Simulation::new(
        Desc { grid_size, cell_size: 1 },
        InitParams { movement_time_step_ms: 100, start_position: start, initial_tail_length: tail_length },
        FoodInitParams { start_position: food },
        pause_ms,
    )
}

#[test]
fn switch_from_dead_to_running_after_time() {
    let mut sim = make_sim((15, 15), gp(0, 7), 3, gp(7, 7), 1000);
    assert_eq!(sim.phase, GameState::RUNNING);
    sim.phase = GameState::DEAD;
    sim.game_over_timer.reset();
    assert_eq!(sim.phase, GameState::DEAD);
    sim.update(500);
    assert_eq!(sim.phase, GameState::DEAD);
    sim.update(500);
    assert_eq!(sim.phase, GameState::RUNNING);
}

#[test]
fn phase_timing_boundary() {
    // Starting DEAD with a 1000 ms cooldown: the phase stays DEAD for every
    // cumulative elapsed time strictly below 1000 ms and flips to RUNNING
    // the moment 1000 ms are reached, with the chain and food fully reset.
    let mut sim = make_sim((15, 15), gp(0, 7), 3, gp(7, 7), 1000);
    sim.tick();
    sim.tick();
    assert_ne!(sim.snake.head.position, gp(0, 7));
    sim.phase = GameState::DEAD;
    sim.game_over_timer.reset();

    sim.update(999);
    assert_eq!(sim.phase, GameState::DEAD);
    sim.update(1);
    assert_eq!(sim.phase, GameState::RUNNING);

    // The chain is reset to its configured start and the food respawned at
    // its configured start cell.
    assert_eq!(sim.snake.head.position, gp(0, 7));
    assert_eq!(sim.snake.tail.len(), 3);
    for node in sim.snake.tail.iter() {
        assert_eq!(node.position, gp(-1, -1));
    }
    assert_eq!(sim.food_position, gp(7, 7));
    assert_eq!(sim.game_over_timer.elapsed_ms, 0);
}

#[test]
fn update_does_nothing_while_running() {
    let mut sim = make_sim((15, 15), gp(0, 7), 3, gp(7, 7), 1000);
    let head_before = sim.snake.head.position;
    sim.update(5000);
    assert_eq!(sim.phase, GameState::RUNNING);
    assert_eq!(sim.snake.head.position, head_before);
}

#[test]
fn self_collision_flips_phase_exactly_on_reentry() {
    // Deterministic loop on a 5x5 board with a chain of length 6: after the
    // opening Right the moves Right, Down, Left, Left, Up, Right bring the
    // head back onto the cell it visited at tick 1, which segment 5 still
    // occupies at tick 7. The phase must stay RUNNING through tick 6 and
    // flip to DEAD exactly at tick 7, never earlier. (The start cell itself
    // is never tail-occupied: fresh segments spawn off-board, so a loop
    // closing on the very first cell does not collide.)
    let mut sim = make_sim((5, 5), gp(0, 0), 6, gp(4, 4), 1000);
    let intents = [
        None,
        None,
        Some(Direction::Down),
        Some(Direction::Left),
        None,
        Some(Direction::Up),
        Some(Direction::Right),
    ];
    let expected_heads = [gp(1, 0), gp(2, 0), gp(2, 1), gp(1, 1), gp(0, 1), gp(0, 0), gp(1, 0)];
    for (step, intent) in intents.iter().enumerate() {
        if let Some(direction) = intent {
            sim.set_intent(*direction);
        }
        sim.tick();
        assert_eq!(sim.snake.head.position, expected_heads[step]);
        if step < 6 {
            assert_eq!(sim.phase, GameState::RUNNING, "died too early at tick {}", step + 1);
        } else {
            assert_eq!(sim.phase, GameState::DEAD);
        }
    }
    // The cooldown was rearmed on death.
    assert_eq!(sim.game_over_timer.elapsed_ms, 0);
}

#[test]
fn dead_game_ignores_ticks_and_intents() {
    let mut sim = make_sim((15, 15), gp(0, 7), 3, gp(7, 7), 1000);
    sim.phase = GameState::DEAD;
    let head_before = sim.snake.head.position;
    let direction_before = sim.snake.head.controller.direction;
    sim.set_intent(Direction::Down);
    sim.tick();
    assert_eq!(sim.snake.head.position, head_before);
    assert_eq!(sim.snake.head.controller.direction, direction_before);
    assert_eq!(sim.phase, GameState::DEAD);
}

#[test]
fn consuming_food_grows_chain_and_respawns_food() {
    // Food one step to the right of the head: the first tick eats it, the
    // chain grows by one segment, and fresh food appears inside the board on
    // a cell the chain does not occupy.
    let mut sim = make_sim((3, 3), gp(0, 0), 1, gp(1, 0), 1000);
    sim.tick();
    assert_eq!(sim.snake.head.position, gp(1, 0));
    assert_eq!(sim.snake.tail.len(), 2);
    assert_eq!(sim.phase, GameState::RUNNING);

    let food = sim.food_position;
    assert!(food.x >= 0 && food.x < 3 && food.y >= 0 && food.y < 3);
    assert_ne!(food, sim.snake.head.position);
    for node in sim.snake.tail.iter() {
        assert_ne!(food, node.position);
    }
}

#[test]
fn game_over_timer_boundary() {
    let mut timer = GameOverTimer::new(100);
    assert!(!timer.tick(99));
    assert_eq!(timer.elapsed_ms, 99);
    assert!(timer.tick(1));
    assert_eq!(timer.elapsed_ms, 100);
    timer.reset();
    assert_eq!(timer.elapsed_ms, 0);
    assert!(timer.tick(100));
}
