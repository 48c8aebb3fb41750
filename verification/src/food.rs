//! Food: a cell in the far half of the grid that the snake can eat.

use vstd::prelude::*;
use crate::geometry::{Grid, Position};

verus! {

/// Food, known by the cell it lies on.
#[derive(Copy, Clone, Debug, PartialEq, Eq, Structural)]
pub struct Food(pub Position);

/// Folds an arbitrary draw into the far half `[extent / 2, extent)` of an axis.
pub open spec fn far_half_coord(extent: int, draw: int) -> int {
    extent / 2 + draw % (extent - extent / 2)
}

/// A folded draw always lands in the far half of its axis.
pub proof fn far_half_coord_in_range(extent: int, draw: int)
    requires
        0 < extent,
    ensures
        extent / 2 <= far_half_coord(extent, draw) < extent,
{
    let span = extent - extent / 2;
    assert(0 <= draw % span < span) by (nonlinear_arith)
        requires
            0 < span,
    ;
}

/// Calls `rand::random::<i16>()`, which draws a value from the thread-local
/// generator. Nothing is claimed of the value drawn.
#[verifier::external_body]
fn draw_i16() -> (r: i16) {
    rand::random::<i16>()
}

fn fold_into_far_half(extent: i16, draw: i16) -> (c: i16)
    requires
        0 < extent,
    ensures
        c == far_half_coord(extent as int, draw as int),
        extent / 2 <= c < extent,
{
    let half: i16 = extent / 2;
    let span: i16 = extent - half;
    proof {
        far_half_coord_in_range(extent as int, draw as int);
    }
    match draw.checked_rem_euclid(span) {
        Some(r) => half + r,
        None => vstd::pervasive::unreached(),
    }
}

impl Food {
    /// Both coordinates lie in the far half of their axis.
    pub open spec fn in_far_half(self, grid: Grid) -> bool {
        &&& grid.width / 2 <= self.0.x < grid.width
        &&& grid.height / 2 <= self.0.y < grid.height
    }

    pub fn is_in_far_half(&self, grid: Grid) -> (r: bool)
        ensures
            r == self.in_far_half(grid),
    {
        grid.width / 2 <= self.0.x && self.0.x < grid.width && grid.height / 2 <= self.0.y
            && self.0.y < grid.height
    }

    /// The food that a pair of draws stands for on `grid`.
    pub open spec fn placed(grid: Grid, draw_x: int, draw_y: int) -> Food {
        Food(
            Position {
                x: far_half_coord(grid.width as int, draw_x) as i16,
                y: far_half_coord(grid.height as int, draw_y) as i16,
            },
        )
    }

    /// Places food from two given draws, one per axis.
    pub fn from_draws(grid: Grid, draw_x: i16, draw_y: i16) -> (f: Food)
        requires
            grid.valid(),
        ensures
            f == Food::placed(grid, draw_x as int, draw_y as int),
            f.in_far_half(grid),
    {
        let x: i16 = fold_into_far_half(grid.width, draw_x);
        let y: i16 = fold_into_far_half(grid.height, draw_y);
        Food(Position::new(x, y))
    }

    /// Places food at random. Whatever is drawn, the food lies in the far
    /// half of the grid on both axes.
    pub fn new(grid: Grid) -> (f: Food)
        requires
            grid.valid(),
        ensures
            f.in_far_half(grid),
    {
        let draw_x: i16 = draw_i16();
        let draw_y: i16 = draw_i16();
        Food::from_draws(grid, draw_x, draw_y)
    }
}

} // verus!
