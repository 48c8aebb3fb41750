//! The snake: an ordered run of cells, head first, and a heading.

use vstd::prelude::*;
use crate::geometry::{Direction, Grid, Position};

verus! {

/// Mathematical model of a snake.
pub struct SnakeModel {
    pub length: nat,
    pub segments: Seq<Position>,
    pub direction: Direction,
}

impl SnakeModel {
    /// The recorded length is the number of segments, and there is a head.
    pub open spec fn wf(self) -> bool {
        self.length == self.segments.len() && self.length >= 1
    }

    pub open spec fn head(self) -> Position {
        self.segments[0]
    }

    /// The cell that the head enters on the next move.
    pub open spec fn next_head(self) -> Position {
        self.head().spec_step(self.direction)
    }

    pub open spec fn can_move(self) -> bool {
        self.head().can_step(self.direction)
    }

    /// Move one cell: the new head in front, the old tail dropped.
    pub open spec fn advanced(self) -> SnakeModel {
        SnakeModel {
            length: self.length,
            segments: seq![self.next_head()] + self.segments.drop_last(),
            direction: self.direction,
        }
    }

    /// Move one cell and grow: the new head in front, every old segment kept.
    pub open spec fn grown(self) -> SnakeModel {
        SnakeModel {
            length: self.length + 1,
            segments: seq![self.next_head()] + self.segments,
            direction: self.direction,
        }
    }

    /// Take the requested heading unless it reverses the current one.
    pub open spec fn turned(self, requested: Direction) -> SnakeModel {
        SnakeModel {
            direction: if self.direction != requested.spec_opposite() {
                requested
            } else {
                self.direction
            },
            ..self
        }
    }

    /// The head shares its cell with another segment.
    pub open spec fn self_intersect(self) -> bool {
        exists|i: int|
            1 <= i < self.segments.len() && (#[trigger] self.segments[i]) == self.segments[0]
    }

    pub open spec fn out_of_bounds(self, grid: Grid) -> bool {
        self.head().spec_out_of_bounds(grid)
    }
}

#[derive(Clone, Debug)]
pub struct Snake {
    pub length: usize,
    pub segments: Vec<Position>,
    pub direction: Direction,
}

impl View for Snake {
    type V = SnakeModel;

    open spec fn view(&self) -> SnakeModel {
        SnakeModel {
            length: self.length as nat,
            segments: self.segments@,
            direction: self.direction,
        }
    }
}

impl Snake {
    /// A snake of one segment at `start`, heading right.
    pub fn new(start: Position) -> (s: Snake)
        ensures
            s@ == (SnakeModel { length: 1, segments: seq![start], direction: Direction::Right }),
            s@.wf(),
    {
        let mut segments: Vec<Position> = Vec::new();
        segments.push(start);
        proof {
            assert(segments@ =~= seq![start]);
        }
        Snake { length: 1, segments, direction: Direction::Right }
    }

    pub fn get_eat(&self) -> (p: Position)
        requires
            self@.wf(),
            self@.can_move(),
        ensures
            p == self@.next_head(),
    {
        self.segments[0].step(self.direction)
    }

    pub fn advance(&mut self)
        requires
            old(self)@.wf(),
            old(self)@.can_move(),
        ensures
            final(self)@ == old(self)@.advanced(),
            final(self)@.wf(),
    {
        let head = self.get_eat();
        self.segments.insert(0, head);
        self.segments.pop();
        proof {
            assert(self.segments@ =~= seq![head] + old(self).segments@.drop_last());
        }
    }

    pub fn grow(&mut self)
        requires
            old(self)@.wf(),
            old(self)@.can_move(),
        ensures
            final(self)@ == old(self)@.grown(),
            final(self)@.wf(),
    {
        let head = self.get_eat();
        self.segments.insert(0, head);
        self.length = self.segments.len();
        proof {
            assert(self.segments@ =~= seq![head] + old(self).segments@);
        }
    }

    /// Apply a requested heading; a request to reverse is dropped.
    pub fn turn(&mut self, requested: Direction)
        ensures
            final(self)@ == old(self)@.turned(requested),
    {
        if self.direction != requested.opposite() {
            self.direction = requested;
        }
    }

    pub fn out_of_bounds(&self, grid: Grid) -> (r: bool)
        requires
            self@.wf(),
        ensures
            r == self@.out_of_bounds(grid),
    {
        self.segments[0].out_of_bounds(grid)
    }

    pub fn self_intersect(&self) -> (r: bool)
        ensures
            r == self@.self_intersect(),
    {
        let n: usize = self.segments.len();
        let mut i: usize = 1;
        while i < n
            invariant
                n == self.segments@.len(),
                1 <= i,
                forall|j: int|
                    1 <= j < i && j < n ==> #[trigger] self.segments@[j] != self.segments@[0],
            decreases n - i,
        {
            if self.segments[i] == self.segments[0] {
                assert(self@.segments[i as int] == self@.segments[0]);
                return true;
            }
            i += 1;
        }
        false
    }
}

impl Default for Snake {
    /// The snake that a session on the standard grid starts with.
    fn default() -> (s: Snake)
        ensures
            s@ == (SnakeModel {
                length: 1,
                segments: seq![Position { x: 10, y: 10 }],
                direction: Direction::Right,
            }),
            s@.wf(),
    {
        Snake::new(Position::new(10, 10))
    }
}

} // verus!
