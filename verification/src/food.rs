//! Food placement: picking a random free cell, with a distinguishable
//! failure when the board has no free cell left.

use vstd::prelude::*;

verus! {

use crate::board::Desc;
use crate::grid::GridPosition;
use vstd::arithmetic::div_mod::{
    lemma_div_pos_is_pos,
    lemma_fundamental_div_mod,
    lemma_mod_bound,
    lemma_multiply_divide_lt,
};
use vstd::seq_lib::seq_to_set_is_finite;
use vstd::set_lib::{lemma_int_range, lemma_len_subset, set_int_range};

/// Food configuration: where the first food item is placed.
#[derive(Clone, Copy, PartialEq, Eq, Structural, Debug)]
pub struct InitParams {
    pub start_position: GridPosition,
}

/// The failure a spawn attempt reports instead of searching forever when
/// every cell of the board is ruled out.
#[derive(Clone, Copy, PartialEq, Eq, Structural, Debug)]
pub enum SpawnError {
    AllPositionsOccupied,
}

/// Relies on `rand::random`: draws one arbitrary value of the type; nothing
/// is assumed about which value comes back.
pub assume_specification<T>[ rand::random::<T> ]() -> (r: T)
    where
        rand::distributions::Standard: rand::distributions::Distribution<T>,
;

/// Whether the sequence of cells holds the given cell.
fn contains_position(positions: &Vec<GridPosition>, pos: &GridPosition) -> (r: bool)
    ensures
        r == positions@.contains(*pos),
{
    let mut i: usize = 0;
    while i < positions.len()
        invariant
            i <= positions@.len(),
            forall|j: int| 0 <= j < i ==> positions@[j] != *pos,
        decreases positions@.len() - i,
    {
        if positions[i].x == pos.x && positions[i].y == pos.y {
            return true;
        }
        i = i + 1;
    }
    false
}

/// If every cell of the board occurs in `disallowed`, then `disallowed` has
/// at least one entry per cell.
proof fn lemma_covered_board_len(disallowed: Seq<GridPosition>, dims: (i32, i32))
    requires
        dims.0 > 0,
        dims.1 > 0,
        forall|p: GridPosition| p.in_range(dims) ==> disallowed.contains(p),
    ensures
        disallowed.len() >= dims.0 * dims.1,
{
    let w = dims.0 as int;
    let h = dims.1 as int;
    let ids = disallowed.map_values(|p: GridPosition| p.x * (dims.1 as int) + p.y);
    assert forall|k: int| 0 <= k < w * h implies ids.to_set().contains(k) by {
        lemma_fundamental_div_mod(k, h);
        lemma_mod_bound(k, h);
        lemma_div_pos_is_pos(k, h);
        assert(k < h * w) by (nonlinear_arith)
            requires
                k < w * h,
        ;
        lemma_multiply_divide_lt(k, h, w);
        let xx = k / h;
        let yy = k % h;
        let p = GridPosition { x: xx as i32, y: yy as i32 };
        assert(p.in_range(dims));
        assert(disallowed.contains(p));
        let j = choose|j: int| 0 <= j < disallowed.len() && disallowed[j] == p;
        assert(ids[j] == p.x * h + p.y);
        assert(p.x * h + p.y == h * xx + yy) by (nonlinear_arith)
            requires
                p.x == xx,
                p.y == yy,
        ;
        assert(ids[j] == k);
        assert(ids.contains(k));
    }
    lemma_int_range(0, w * h);
    assert(set_int_range(0, w * h) <= ids.to_set());
    seq_to_set_is_finite(ids);
    lemma_len_subset(set_int_range(0, w * h), ids.to_set());
    ids.lemma_cardinality_of_set();
}

/// Picks a random free cell of the board: a position inside the grid that
/// does not occur in `disallowed_positions`. Fails with
/// `AllPositionsOccupied`, rather than searching forever, exactly when
/// `disallowed_positions` has at least one entry per board cell.
pub fn find_next_position(game_board: &Desc, disallowed_positions: &Vec<GridPosition>) -> (r: Result<
    GridPosition,
    SpawnError,
>)
    requires
        game_board.wf(),
    ensures
        match r {
            Ok(pos) => disallowed_positions@.len() < game_board.grid_size.0 * game_board.grid_size.1
                && pos.in_range(game_board.grid_size) && !disallowed_positions@.contains(pos),
            Err(e) => e == SpawnError::AllPositionsOccupied && disallowed_positions@.len()
                >= game_board.grid_size.0 * game_board.grid_size.1,
        },
{
    let w: i32 = game_board.grid_size.0;
    let h: i32 = game_board.grid_size.1;
    proof {
        assert((w as int) * (h as int) < 0x4000_0000_0000_0000) by (nonlinear_arith)
            requires
                0 < w as int,
                (w as int) < 0x8000_0000,
                0 < h as int,
                (h as int) < 0x8000_0000,
        ;
    }
    let max_positions: u64 = (w as u64) * (h as u64);
    if disallowed_positions.len() as u64 >= max_positions {
        return Err(SpawnError::AllPositionsOccupied);
    }
    let mut free: Vec<GridPosition> = Vec::new();
    let mut x: i32 = 0;
    while x < w
        invariant
            0 <= x <= w,
            game_board.wf(),
            w == game_board.grid_size.0,
            h == game_board.grid_size.1,
            forall|j: int|
                0 <= j < free@.len() ==> (#[trigger] free@[j]).in_range(game_board.grid_size)
                    && !disallowed_positions@.contains(free@[j]),
            forall|p: GridPosition|
                p.in_range(game_board.grid_size) && p.x < x && !disallowed_positions@.contains(p)
                    ==> free@.contains(p),
        decreases w - x,
    {
        let mut y: i32 = 0;
        while y < h
            invariant
                0 <= x < w,
                0 <= y <= h,
                game_board.wf(),
                w == game_board.grid_size.0,
                h == game_board.grid_size.1,
                forall|j: int|
                    0 <= j < free@.len() ==> (#[trigger] free@[j]).in_range(game_board.grid_size)
                        && !disallowed_positions@.contains(free@[j]),
                forall|p: GridPosition|
                    p.in_range(game_board.grid_size) && (p.x < x || (p.x == x && p.y < y))
                        && !disallowed_positions@.contains(p) ==> free@.contains(p),
            decreases h - y,
        {
            let cell = GridPosition { x, y };
            if !contains_position(disallowed_positions, &cell) {
                let ghost free_before = free@;
                free.push(cell);
                proof {
                    assert(free@[free@.len() - 1] == cell);
                    assert forall|p: GridPosition| free_before.contains(p) implies free@.contains(p) by {
                        let idx = choose|idx: int| 0 <= idx < free_before.len() && free_before[idx] == p;
                        assert(free@[idx] == p);
                    }
                }
            }
            y = y + 1;
        }
        x = x + 1;
    }
    if free.len() == 0 {
        proof {
            assert forall|p: GridPosition| p.in_range(game_board.grid_size) implies disallowed_positions@.contains(
                p,
            ) by {
                if !disallowed_positions@.contains(p) {
                    assert(free@.contains(p));
                }
            }
            lemma_covered_board_len(disallowed_positions@, game_board.grid_size);
            assert(false);
        }
        return Err(SpawnError::AllPositionsOccupied);
    }
    let draw: usize = rand::random::<usize>();
    let k: usize = draw % free.len();
    proof {
        lemma_mod_bound(draw as int, free@.len() as int);
    }
    Ok(free[k])
}

} // verus!
