//! The three systems of a tick, in the order in which a tick runs them:
//! movement and consumption, input arbitration, terminal state.

use vstd::prelude::*;
use crate::food::Food;
use crate::geometry::{Direction, Grid};
use crate::snake::SnakeModel;
use crate::store::EntityStore;

verus! {

/// What the player asks for: a heading, and whether the game is paused.
#[derive(Copy, Clone, Debug, PartialEq, Eq, Structural)]
pub struct Input {
    pub direction: Direction,
    pub pause: bool,
}

impl Default for Input {
    fn default() -> (i: Input)
        ensures
            i == (Input { direction: Direction::Right, pause: false }),
    {
        Input { direction: Direction::Right, pause: false }
    }
}

/// Whether the session is still being played; `false` once it is lost.
#[derive(Copy, Clone, Debug, PartialEq, Eq, Structural)]
pub struct Playing(pub bool);

impl Default for Playing {
    fn default() -> (p: Playing)
        ensures
            p == Playing(true),
    {
        Playing(true)
    }
}

/// A snake plays on while its head is on the grid and on no other segment.
pub open spec fn still_playing(snake: SnakeModel, grid: Grid) -> bool {
    !(snake.self_intersect() || snake.out_of_bounds(grid))
}

/// Movement and consumption. The snake enters the next cell. If live food
/// lies there the snake grows, the food is marked for deletion and `fresh`
/// is handed in for creation; otherwise the snake drops its tail.
pub fn snake_system(store: &mut EntityStore, fresh: Food)
    requires
        old(store)@.wf(),
        old(store)@.snake.can_move(),
    ensures
        final(store)@ == old(store)@.moved(fresh),
        final(store)@.wf(),
{
    let target = store.snake.get_eat();
    match store.find_food(target) {
        Some(i) => {
            proof {
                crate::store::find_food_is_first(store@, target);
            }
            store.snake.grow();
            store.delete(i);
            store.create(fresh);
        },
        None => {
            store.snake.advance();
        },
    }
}

/// Input arbitration: the requested heading is taken unless it reverses
/// the snake; a reversing request is dropped.
pub fn input_system(store: &mut EntityStore, input: &Input)
    ensures
        final(store)@ == old(store)@.steered(input.direction),
{
    store.snake.turn(input.direction);
}

/// Terminal state, computed afresh from where the snake now is.
pub fn bound_system(store: &EntityStore, grid: Grid) -> (p: Playing)
    requires
        store@.wf(),
    ensures
        p.0 == still_playing(store@.snake, grid),
{
    Playing(!(store.snake.self_intersect() || store.snake.out_of_bounds(grid)))
}

} // verus!
