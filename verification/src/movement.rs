//! Wraparound normalization and single-cell displacement: every move lands
//! back inside `[0, width) x [0, height)`, also when it crosses an edge.

use vstd::prelude::*;

verus! {

use crate::direction::Direction;
use crate::grid::GridPosition;
use vstd::arithmetic::div_mod::{lemma_fundamental_div_mod, lemma_fundamental_div_mod_converse};

/// Mathematical wraparound of a single coordinate: the Euclidean remainder,
/// non-negative and strictly below `w` for positive `w`.
pub open spec fn spec_wrap_axis(x: int, w: int) -> int
    recommends
        w > 0,
{
    x % w
}

/// Both coordinates of `pos` wrapped into the board given by `dims`.
pub open spec fn spec_wrap(pos: GridPosition, dims: (i32, i32)) -> GridPosition
    recommends
        dims.0 > 0 && dims.1 > 0,
{
    GridPosition {
        x: spec_wrap_axis(pos.x as int, dims.0 as int) as i32,
        y: spec_wrap_axis(pos.y as int, dims.1 as int) as i32,
    }
}

/// The cell one step from `pos` in `direction`, before wraparound, as a pair
/// of unbounded coordinates.
pub open spec fn spec_displace(pos: GridPosition, direction: Direction) -> (int, int) {
    match direction {
        Direction::Up => (pos.x as int, pos.y as int - 1),
        Direction::Down => (pos.x as int, pos.y as int + 1),
        Direction::Left => (pos.x as int - 1, pos.y as int),
        Direction::Right => (pos.x as int + 1, pos.y as int),
    }
}

/// One unit step in `direction` followed by wraparound into the board.
pub open spec fn spec_move(pos: GridPosition, direction: Direction, grid_size: (i32, i32)) -> GridPosition
    recommends
        grid_size.0 > 0 && grid_size.1 > 0,
{
    GridPosition {
        x: spec_wrap_axis(spec_displace(pos, direction).0, grid_size.0 as int) as i32,
        y: spec_wrap_axis(spec_displace(pos, direction).1, grid_size.1 as int) as i32,
    }
}

/// Wraps one coordinate into `[0, w)`. Works on the widened value so that a
/// displacement one step outside the `i32` range is still handled.
fn wrap_axis(x: i64, w: i32) -> (r: i32)
    requires
        w > 0,
        x > i64::MIN,
    ensures
        r == spec_wrap_axis(x as int, w as int),
        0 <= r < w,
{
    let m: u64 = w as u64;
    if x >= 0 {
        let rem: u64 = (x as u64) % m;
        proof {
            lemma_fundamental_div_mod(x as int, m as int);
        }
        rem as i32
    } else {
        let neg: i64 = -x;
        let nrem: u64 = (neg as u64) % m;
        if nrem == 0 {
            proof {
                lemma_fundamental_div_mod(neg as int, m as int);
                let q: int = neg as int / m as int;
                assert(x as int == (-q) * m as int + 0) by (nonlinear_arith)
                    requires
                        neg as int == m as int * q + 0,
                        x as int == -(neg as int),
                ;
                lemma_fundamental_div_mod_converse(x as int, m as int, -q, 0);
            }
            0
        } else {
            proof {
                lemma_fundamental_div_mod(neg as int, m as int);
                let q: int = neg as int / m as int;
                assert(x as int == (-q - 1) * m as int + (m as int - nrem as int)) by (nonlinear_arith)
                    requires
                        neg as int == m as int * q + nrem as int,
                        x as int == -(neg as int),
                ;
                lemma_fundamental_div_mod_converse(x as int, m as int, -q - 1, m as int - nrem as int);
            }
            (m - nrem) as i32
        }
    }
}

/// Normalizes a position into the board: each axis becomes its Euclidean
/// remainder, so the result always lies in range, and a position already in
/// range comes back unchanged.
pub fn wrap(pos: GridPosition, dims: (i32, i32)) -> (r: GridPosition)
    requires
        dims.0 > 0,
        dims.1 > 0,
    ensures
        r == spec_wrap(pos, dims),
        r.in_range(dims),
        pos.in_range(dims) ==> r == pos,
{
    let r = GridPosition { x: wrap_axis(pos.x as i64, dims.0), y: wrap_axis(pos.y as i64, dims.1) };
    proof {
        if pos.in_range(dims) {
            lemma_mod_in_range_identity(pos.x as int, dims.0 as int);
            lemma_mod_in_range_identity(pos.y as int, dims.1 as int);
        }
    }
    r
}

/// A value already in `[0, w)` is its own remainder.
proof fn lemma_mod_in_range_identity(x: int, w: int)
    requires
        0 <= x < w,
    ensures
        x % w == x,
{
    lemma_fundamental_div_mod_converse(x, w, 0, x);
}

/// Moves a position one cell in the given direction and wraps the result
/// around the board edges.
pub fn move_grid_position(grid_pos: GridPosition, direction: Direction, grid_size: (i32, i32)) -> (r: GridPosition)
    requires
        grid_size.0 > 0,
        grid_size.1 > 0,
    ensures
        r == spec_move(grid_pos, direction, grid_size),
        r.in_range(grid_size),
{
    let mut tx: i64 = grid_pos.x as i64;
    let mut ty: i64 = grid_pos.y as i64;
    match direction {
        Direction::Up => {
            ty = ty - 1;
        },
        Direction::Down => {
            ty = ty + 1;
        },
        Direction::Left => {
            tx = tx - 1;
        },
        Direction::Right => {
            tx = tx + 1;
        },
    }
    GridPosition { x: wrap_axis(tx, grid_size.0), y: wrap_axis(ty, grid_size.1) }
}

} // verus!
