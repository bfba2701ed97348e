//! Board geometry: grid dimensions, cell size, and the conversion between
//! grid cells and world coordinates used by a renderer.

use vstd::prelude::*;

verus! {

use crate::grid::GridPosition;
use vstd::arithmetic::div_mod::lemma_div_by_multiple;

/// A position in world units. The board's origin sits at the top left: x
/// grows to the right and the world y axis points up, so a grid row `y`
/// maps to the world coordinate `-(y * cell_size)`.
#[derive(Clone, Copy, PartialEq, Eq, Structural, Debug)]
pub struct WorldPosition {
    pub x: i64,
    pub y: i64,
}

/// Board configuration: dimensions in cells and the side length of one cell
/// in world units. Read-only after construction.
#[derive(Clone, Copy, Debug)]
pub struct Desc {
    pub grid_size: (i32, i32),
    pub cell_size: i32,
}

/// The grid coordinate that one world coordinate falls into: magnitude taken,
/// clamped to the `i32` range, then divided by the cell size.
pub open spec fn spec_world_axis_to_grid(w: int, cell: int) -> int
    recommends
        cell > 0,
{
    let magnitude = if w < 0 {
        -w
    } else {
        w
    };
    let clamped = if magnitude > 0x7fff_ffff {
        0x7fff_ffff
    } else {
        magnitude
    };
    clamped / cell
}

impl Desc {
    /// A usable configuration: positive dimensions and a positive cell size.
    pub open spec fn wf(self) -> bool {
        self.grid_size.0 > 0 && self.grid_size.1 > 0 && self.cell_size > 0
    }

    pub open spec fn spec_grid_to_world(self, grid_pos: GridPosition) -> WorldPosition {
        WorldPosition {
            x: (grid_pos.x as int * self.cell_size as int) as i64,
            y: (-(grid_pos.y as int * self.cell_size as int)) as i64,
        }
    }

    pub open spec fn spec_world_to_grid(self, translation: WorldPosition) -> GridPosition
        recommends
            self.cell_size > 0,
    {
        GridPosition {
            x: spec_world_axis_to_grid(translation.x as int, self.cell_size as int) as i32,
            y: spec_world_axis_to_grid(translation.y as int, self.cell_size as int) as i32,
        }
    }

    /// Where the top-left corner of a grid cell sits in world units.
    pub fn grid_pos_to_world_pos(&self, grid_pos: &GridPosition) -> (r: WorldPosition)
        ensures
            r == self.spec_grid_to_world(*grid_pos),
    {
        proof {
            lemma_i32_product_fits_i64(grid_pos.x as int, self.cell_size as int);
            lemma_i32_product_fits_i64(grid_pos.y as int, self.cell_size as int);
        }
        WorldPosition {
            x: (grid_pos.x as i64) * (self.cell_size as i64),
            y: -((grid_pos.y as i64) * (self.cell_size as i64)),
        }
    }

    /// The grid cell that a world position falls into.
    pub fn world_pos_to_grid_pos(&self, translation: &WorldPosition) -> (r: GridPosition)
        requires
            self.cell_size > 0,
        ensures
            r == self.spec_world_to_grid(*translation),
    {
        GridPosition {
            x: world_axis_to_grid(translation.x, self.cell_size),
            y: world_axis_to_grid(translation.y, self.cell_size),
        }
    }

    /// The full board extent in world units: `(width, height)`.
    pub fn world_dimensions(&self) -> (r: (i64, i64))
        ensures
            r.0 == self.grid_size.0 as int * self.cell_size as int,
            r.1 == self.grid_size.1 as int * self.cell_size as int,
    {
        proof {
            lemma_i32_product_fits_i64(self.grid_size.0 as int, self.cell_size as int);
            lemma_i32_product_fits_i64(self.grid_size.1 as int, self.cell_size as int);
        }
        ((self.grid_size.0 as i64) * (self.cell_size as i64), (self.grid_size.1 as i64) * (self.cell_size as i64))
    }
}

/// The product of two `i32` values always fits in an `i64`.
proof fn lemma_i32_product_fits_i64(a: int, b: int)
    requires
        -0x8000_0000 <= a <= 0x7fff_ffff,
        -0x8000_0000 <= b <= 0x7fff_ffff,
    ensures
        -0x4000_0000_0000_0000 <= a * b <= 0x4000_0000_0000_0000,
{
    assert(-0x4000_0000_0000_0000 <= a * b <= 0x4000_0000_0000_0000) by (nonlinear_arith)
        requires
            -0x8000_0000 <= a <= 0x8000_0000,
            -0x8000_0000 <= b <= 0x8000_0000,
    ;
}

fn world_axis_to_grid(w: i64, cell: i32) -> (r: i32)
    requires
        cell > 0,
    ensures
        r == spec_world_axis_to_grid(w as int, cell as int),
{
    let magnitude: u64 = if w >= 0 {
        w as u64
    } else if w == i64::MIN {
        9223372036854775808u64
    } else {
        (-w) as u64
    };
    let clamped: u64 = if magnitude > 2147483647u64 {
        2147483647u64
    } else {
        magnitude
    };
    let quotient: u64 = clamped / (cell as u64);
    proof {
        lemma_nonneg_div_le(clamped as int, cell as int);
    }
    quotient as i32
}

/// Dividing a non-negative value by a positive one never increases it.
proof fn lemma_nonneg_div_le(a: int, b: int)
    requires
        0 <= a,
        1 <= b,
    ensures
        0 <= a / b <= a,
{
    assert(0 <= a / b <= a) by (nonlinear_arith)
        requires
            0 <= a,
            1 <= b,
    ;
}

/// Converting a grid position to world units and back returns the same grid
/// position, and a second conversion to world units therefore reproduces the
/// first, as long as the position is on the non-negative quadrant and its
/// world coordinates stay in the `i32` range. Positions with a negative
/// coordinate, such as the off-board sentinel, lose their sign in the world
/// magnitude and are not recovered.
pub proof fn lemma_grid_world_round_trip(desc: Desc, p: GridPosition)
    requires
        desc.cell_size > 0,
        0 <= p.x,
        0 <= p.y,
        p.x * desc.cell_size <= 0x7fff_ffff,
        p.y * desc.cell_size <= 0x7fff_ffff,
    ensures
        desc.spec_world_to_grid(desc.spec_grid_to_world(p)) == p,
        desc.spec_grid_to_world(desc.spec_world_to_grid(desc.spec_grid_to_world(p))) == desc.spec_grid_to_world(p),
{
    let c = desc.cell_size as int;
    assert(0 <= p.x * c && 0 <= p.y * c) by (nonlinear_arith)
        requires
            0 <= p.x,
            0 <= p.y,
            0 < c,
    ;
    lemma_div_by_multiple(p.x as int, c);
    lemma_div_by_multiple(p.y as int, c);
}

} // verus!
