use snake_core::board::{Desc, WorldPosition};
use snake_core::direction::Direction;
use snake_core::direction::Direction::{Down, Left, Right, Up};
use snake_core::grid::GridPosition;
use snake_core::movement::{move_grid_position, wrap};

fn gp(x: i32, y: i32) -> GridPosition {
    GridPosition { x, y }
}

#[test]
fn direction_between() {
    assert_eq!(Direction::between(&gp(0, 0), &gp(0, -1)), Some(Up));
    assert_eq!(Direction::between(&gp(0, 0), &gp(0, 1)), Some(Down));
    assert_eq!(Direction::between(&gp(0, 0), &gp(-1, 0)), Some(Left));
    assert_eq!(Direction::between(&gp(0, 0), &gp(1, 0)), Some(Right));
    assert_eq!(Direction::between(&gp(0, 0), &gp(10, 0)), Some(Right));

    // same positions
    assert_eq!(Direction::between(&gp(0, 0), &gp(0, 0)), None);
    // diagonal
    assert_eq!(Direction::between(&gp(0, 0), &gp(1, 1)), None);
}

#[test]
fn move_grid_position_normal() {
    assert_eq!(move_grid_position(gp(3, 2), Direction::Up, (5, 5)), gp(3, 1));
    assert_eq!(move_grid_position(gp(3, 2), Direction::Down, (5, 5)), gp(3, 3));
    assert_eq!(move_grid_position(gp(3, 2), Direction::Left, (5, 5)), gp(2, 2));
    assert_eq!(move_grid_position(gp(3, 2), Direction::Right, (5, 5)), gp(4, 2));
}

#[test]
fn move_grid_position_wrap() {
    assert_eq!(move_grid_position(gp(3, 0), Direction::Up, (5, 5)), gp(3, 4));
    assert_eq!(move_grid_position(gp(3, 4), Direction::Down, (5, 5)), gp(3, 0));
    assert_eq!(move_grid_position(gp(0, 2), Direction::Left, (5, 5)), gp(4, 2));
    assert_eq!(move_grid_position(gp(4, 2), Direction::Right, (5, 5)), gp(0, 2));
}

#[test]
fn wrap_lands_in_range_and_keeps_in_range_inputs() {
    // Far outside on both axes, including negatives.
    assert_eq!(wrap(gp(-7, 12), (5, 5)), gp(3, 2));
    assert_eq!(wrap(gp(-1, -1), (3, 4)), gp(2, 3));
    assert_eq!(wrap(gp(-5, 5), (5, 5)), gp(0, 0));
    // Already in range: untouched.
    assert_eq!(wrap(gp(0, 0), (5, 5)), gp(0, 0));
    assert_eq!(wrap(gp(4, 3), (5, 5)), gp(4, 3));
    // Exhaustive range check on a small board.
    for x in -9..9 {
        for y in -9..9 {
            let r = wrap(gp(x, y), (4, 3));
            assert!(r.x >= 0 && r.x < 4 && r.y >= 0 && r.y < 3);
        }
    }
}

#[test]
fn world_dimensions() {
    assert_eq!(Desc { grid_size: (5, 5), cell_size: 10 }.world_dimensions(), (50, 50));
    assert_eq!(Desc { grid_size: (15, 8), cell_size: 18 }.world_dimensions(), (270, 144));
}

#[test]
fn grid_pos_to_world_pos() {
    let board = Desc { grid_size: (5, 5), cell_size: 10 };

    assert_eq!(board.grid_pos_to_world_pos(&gp(5, 2)), WorldPosition { x: 50, y: -20 });
    assert_eq!(board.grid_pos_to_world_pos(&gp(7, -2)), WorldPosition { x: 70, y: 20 });

    let board = Desc { grid_size: (5, 5), cell_size: 8 };

    assert_eq!(board.grid_pos_to_world_pos(&gp(5, 2)), WorldPosition { x: 40, y: -16 });
    assert_eq!(board.grid_pos_to_world_pos(&gp(7, -2)), WorldPosition { x: 56, y: 16 });
}

#[test]
fn world_pos_to_grid_pos() {
    let board = Desc { grid_size: (5, 5), cell_size: 10 };

    assert_eq!(board.world_pos_to_grid_pos(&WorldPosition { x: 50, y: -20 }), gp(5, 2));
    assert_eq!(board.world_pos_to_grid_pos(&WorldPosition { x: 70, y: 20 }), gp(7, 2));

    let board = Desc { grid_size: (5, 5), cell_size: 8 };

    assert_eq!(board.world_pos_to_grid_pos(&WorldPosition { x: 40, y: -16 }), gp(5, 2));
    assert_eq!(board.world_pos_to_grid_pos(&WorldPosition { x: 56, y: 16 }), gp(7, 2));
}

#[test]
fn grid_world_round_trip() {
    // Converting to world units and back is stable: a second grid-to-world
    // conversion reproduces the first.
    for cell_size in [1, 8, 10, 15] {
        let board = Desc { grid_size: (5, 5), cell_size };
        for x in 0..5 {
            for y in 0..5 {
                let w = board.grid_pos_to_world_pos(&gp(x, y));
                let back = board.world_pos_to_grid_pos(&w);
                assert_eq!(back, gp(x, y));
                assert_eq!(board.grid_pos_to_world_pos(&back), w);
            }
        }
    }
}
