//! Grid coordinates, headings and bounds.

use vstd::prelude::*;

verus! {

/// One of the four headings on the grid.
#[derive(Copy, Clone, Debug, PartialEq, Eq, Structural)]
pub enum Direction {
    Up,
    Down,
    Left,
    Right,
}

impl Direction {
    /// The heading that points the other way.
    pub open spec fn spec_opposite(self) -> Direction {
        match self {
            Direction::Up => Direction::Down,
            Direction::Down => Direction::Up,
            Direction::Left => Direction::Right,
            Direction::Right => Direction::Left,
        }
    }

    /// Change in `x` of one step with this heading.
    pub open spec fn dx(self) -> int {
        match self {
            Direction::Left => -1,
            Direction::Right => 1,
            _ => 0,
        }
    }

    /// Change in `y` of one step with this heading; `y` grows downwards.
    pub open spec fn dy(self) -> int {
        match self {
            Direction::Up => -1,
            Direction::Down => 1,
            _ => 0,
        }
    }

    pub fn opposite(&self) -> (r: Direction)
        ensures
            r == self.spec_opposite(),
    {
        match self {
            Direction::Up => Direction::Down,
            Direction::Down => Direction::Up,
            Direction::Left => Direction::Right,
            Direction::Right => Direction::Left,
        }
    }
}

/// `opposite` is an involution without a fixed point.
pub proof fn opposite_is_involutive(d: Direction)
    ensures
        d.spec_opposite().spec_opposite() == d,
        d.spec_opposite() != d,
{
}

/// Extent of the grid in cells along each axis.
#[derive(Copy, Clone, Debug, PartialEq, Eq, Structural)]
pub struct Grid {
    pub width: i16,
    pub height: i16,
}

impl Grid {
    /// A grid has at least one cell per axis, and one step past its far edge
    /// is still a coordinate.
    pub open spec fn valid(self) -> bool {
        &&& 0 < self.width < i16::MAX
        &&& 0 < self.height < i16::MAX
    }

    pub fn square(size: i16) -> (g: Grid)
        ensures
            g == (Grid { width: size, height: size }),
    {
        Grid { width: size, height: size }
    }
}

/// A cell of the grid, or a coordinate just outside it.
#[derive(Copy, Clone, Debug, PartialEq, Eq, Structural)]
pub struct Position {
    pub x: i16,
    pub y: i16,
}

impl Position {
    pub fn new(x: i16, y: i16) -> (p: Position)
        ensures
            p == (Position { x, y }),
    {
        Position { x, y }
    }

    /// A coordinate is out of bounds when it is negative or exceeds the
    /// grid's extent on either axis. The extent itself counts as inside.
    pub open spec fn spec_out_of_bounds(self, grid: Grid) -> bool {
        self.x < 0 || self.y < 0 || self.x > grid.width || self.y > grid.height
    }

    #[verifier::when_used_as_spec(spec_out_of_bounds)]
    pub fn out_of_bounds(self, grid: Grid) -> (r: bool)
        ensures
            r == self.spec_out_of_bounds(grid),
    {
        self.x < 0 || self.y < 0 || self.x > grid.width || self.y > grid.height
    }

    /// Whether the neighbour in heading `d` is a representable coordinate.
    pub open spec fn can_step(self, d: Direction) -> bool {
        &&& i16::MIN <= self.x + d.dx() <= i16::MAX
        &&& i16::MIN <= self.y + d.dy() <= i16::MAX
    }

    /// The neighbour one cell away in heading `d`.
    pub open spec fn spec_step(self, d: Direction) -> Position {
        Position { x: (self.x + d.dx()) as i16, y: (self.y + d.dy()) as i16 }
    }

    #[verifier::when_used_as_spec(spec_step)]
    pub fn step(self, d: Direction) -> (p: Position)
        requires
            self.can_step(d),
        ensures
            p == self.spec_step(d),
            p.x == self.x + d.dx(),
            p.y == self.y + d.dy(),
    {
        match d {
            Direction::Up => Position::new(self.x, self.y - 1),
            Direction::Down => Position::new(self.x, self.y + 1),
            Direction::Left => Position::new(self.x - 1, self.y),
            Direction::Right => Position::new(self.x + 1, self.y),
        }
    }
}

/// A position inside the grid can always take one step, in any heading.
pub proof fn in_bounds_can_step(p: Position, grid: Grid, d: Direction)
    requires
        grid.valid(),
        !p.spec_out_of_bounds(grid),
    ensures
        p.can_step(d),
{
}

} // verus!
