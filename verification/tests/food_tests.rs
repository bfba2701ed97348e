use snake_core::board::Desc;
use snake_core::food::{find_next_position, SpawnError};
use snake_core::grid::GridPosition;

#[test]
fn find_next_position_fills_all() {
    let board = Desc { grid_size: (2, 2), cell_size: 1 };
    let mut picked_positions = Vec::new();
    for _ in std::iter::repeat(()).take(4) {
        picked_positions.push(find_next_position(&board, &picked_positions).unwrap());
    }
    assert_eq!(picked_positions.len(), 4);
    assert!(picked_positions.contains(&GridPosition { x: 0, y: 0 }));
    assert!(picked_positions.contains(&GridPosition { x: 1, y: 0 }));
    assert!(picked_positions.contains(&GridPosition { x: 0, y: 1 }));
    assert!(picked_positions.contains(&GridPosition { x: 1, y: 1 }));
}

#[test]
fn find_next_position_fails_eventually() {
    let board = Desc { grid_size: (2, 2), cell_size: 1 };
    let mut picked_positions = Vec::new();
    for _ in std::iter::repeat(()).take(4) {
        picked_positions.push(find_next_position(&board, &picked_positions).unwrap());
    }

    assert_eq!(
        find_next_position(&board, &picked_positions),
        Err(SpawnError::AllPositionsOccupied)
    );
}

#[test]
fn find_next_position_always_within_board() {
    let board = Desc { grid_size: (30, 20), cell_size: 1 };
    let mut picked_positions = Vec::new();
    while let Ok(next_position) = find_next_position(&board, &picked_positions) {
        assert!(next_position.x >= 0);
        assert!(next_position.x < board.grid_size.0);
        assert!(next_position.y >= 0);
        assert!(next_position.y < board.grid_size.1);
        picked_positions.push(next_position);
    }
    assert_eq!(picked_positions.len(), (board.grid_size.0 * board.grid_size.1) as usize);
}

#[test]
fn spawn_exhaustion_on_full_board() {
    // On a 2x2 board with all four cells occupied, a spawn attempt reports
    // the distinguishable failure instead of searching forever.
    let board = Desc { grid_size: (2, 2), cell_size: 1 };
    let occupied = vec![
        GridPosition { x: 0, y: 0 },
        GridPosition { x: 1, y: 0 },
        GridPosition { x: 0, y: 1 },
        GridPosition { x: 1, y: 1 },
    ];
    assert_eq!(find_next_position(&board, &occupied), Err(SpawnError::AllPositionsOccupied));
}

#[test]
fn spawn_avoids_disallowed_cells() {
    // With three of four cells ruled out, the one remaining cell comes back.
    let board = Desc { grid_size: (2, 2), cell_size: 1 };
    let occupied = vec![
        GridPosition { x: 0, y: 0 },
        GridPosition { x: 1, y: 0 },
        GridPosition { x: 0, y: 1 },
    ];
    assert_eq!(find_next_position(&board, &occupied), Ok(GridPosition { x: 1, y: 1 }));
}
