//! The entity store: the snake, the food entities, and the deletions and
//! creations that wait for the next commit.

use vstd::prelude::*;
use crate::food::Food;
use crate::geometry::{Direction, Position};
use crate::snake::{Snake, SnakeModel};

verus! {

/// The food entities that outlive a commit: those not marked for deletion,
/// in their old order.
pub open spec fn survivors(foods: Seq<Food>, doomed: Seq<bool>) -> Seq<Food>
    decreases foods.len(),
{
    if foods.len() == 0 || doomed.len() != foods.len() {
        Seq::empty()
    } else {
        let rest = survivors(foods.drop_last(), doomed.drop_last());
        if doomed.last() {
            rest
        } else {
            rest.push(foods.last())
        }
    }
}

/// Mathematical model of the store.
pub struct StoreModel {
    pub snake: SnakeModel,
    /// The committed food entities; an entity is known by its index.
    pub foods: Seq<Food>,
    /// Which of them are marked for deletion at the next commit.
    pub doomed: Seq<bool>,
    /// Food created since the last commit.
    pub spawned: Seq<Food>,
}

impl StoreModel {
    pub open spec fn wf(self) -> bool {
        self.snake.wf() && self.doomed.len() == self.foods.len()
    }

    /// Entity `i` exists and is not marked for deletion.
    pub open spec fn live(self, i: int) -> bool {
        0 <= i < self.foods.len() && !self.doomed[i]
    }

    /// Entity `i` is live food on cell `p`.
    pub open spec fn live_at(self, i: int, p: Position) -> bool {
        self.live(i) && self.foods[i].0 == p
    }

    /// The least index from `k` on of live food on `p`; the number of
    /// entities if there is none.
    pub open spec fn first_live_from(self, p: Position, k: int) -> int
        decreases self.foods.len() - k,
    {
        if k < 0 || k >= self.foods.len() {
            self.foods.len() as int
        } else if self.live_at(k, p) {
            k
        } else {
            self.first_live_from(p, k + 1)
        }
    }

    /// The first live food on `p`, if any.
    pub open spec fn find_food(self, p: Position) -> Option<int> {
        let i = self.first_live_from(p, 0);
        if i < self.foods.len() {
            Some(i)
        } else {
            None
        }
    }

    /// No pending deletion or creation.
    pub open spec fn settled(self) -> bool {
        &&& self.spawned.len() == 0
        &&& forall|i: int| 0 <= i < self.doomed.len() ==> !#[trigger] self.doomed[i]
    }

    /// Entity `i` marked for deletion.
    pub open spec fn deleted(self, i: int) -> StoreModel {
        StoreModel { doomed: self.doomed.update(i, true), ..self }
    }

    /// One more food waiting to be created.
    pub open spec fn created(self, food: Food) -> StoreModel {
        StoreModel { spawned: self.spawned.push(food), ..self }
    }

    /// The snake eats entity `i`: it grows, the entity is marked for
    /// deletion and `fresh` waits to take its place.
    pub open spec fn eaten(self, i: int, fresh: Food) -> StoreModel {
        StoreModel { snake: self.snake.grown(), ..self.deleted(i).created(fresh) }
    }

    /// Movement and consumption: the snake eats the first live food on the
    /// cell it enters, or else moves on without growing.
    pub open spec fn moved(self, fresh: Food) -> StoreModel {
        match self.find_food(self.snake.next_head()) {
            Some(i) => self.eaten(i, fresh),
            None => StoreModel { snake: self.snake.advanced(), ..self },
        }
    }

    /// Input arbitration: the snake takes the requested heading unless that
    /// would reverse it.
    pub open spec fn steered(self, requested: Direction) -> StoreModel {
        StoreModel { snake: self.snake.turned(requested), ..self }
    }

    /// All pending deletions and creations applied at once.
    pub open spec fn committed(self) -> StoreModel {
        let foods = survivors(self.foods, self.doomed) + self.spawned;
        StoreModel {
            snake: self.snake,
            foods,
            doomed: Seq::new(foods.len(), |i: int| false),
            spawned: Seq::empty(),
        }
    }
}

/// What `find_food` returns is live food on the cell asked for, and no
/// entity before it is; where it returns nothing, no live food is there.
pub proof fn find_food_is_first(s: StoreModel, p: Position)
    ensures
        match s.find_food(p) {
            Some(i) => s.live_at(i, p) && forall|j: int| 0 <= j < i ==> !s.live_at(j, p),
            None => forall|j: int| !s.live_at(j, p),
        },
{
    first_live_from_is_first(s, p, 0);
}

proof fn first_live_from_is_first(s: StoreModel, p: Position, k: int)
    requires
        0 <= k,
    ensures
        k <= s.first_live_from(p, k) || s.first_live_from(p, k) == s.foods.len(),
        s.first_live_from(p, k) <= s.foods.len(),
        s.first_live_from(p, k) < s.foods.len() ==> s.live_at(s.first_live_from(p, k), p),
        forall|j: int| k <= j < s.first_live_from(p, k) ==> !s.live_at(j, p),
    decreases s.foods.len() - k,
{
    if k < s.foods.len() && !s.live_at(k, p) {
        first_live_from_is_first(s, p, k + 1);
    }
}

/// Movement and consumption leave the committed food entities as they
/// were: what the snake eats stays in the store, marked, until the commit,
/// so that the store never stands without food in the middle of a tick.
pub proof fn movement_defers_changes(s: StoreModel, fresh: Food)
    ensures
        s.moved(fresh).foods == s.foods,
{
}

/// Food that was eaten is not found again, on any cell, even before the
/// commit that deletes it: nothing is eaten twice.
pub proof fn eaten_food_is_gone(s: StoreModel, i: int, fresh: Food, p: Position)
    requires
        s.wf(),
        s.live(i),
    ensures
        !s.eaten(i, fresh).live(i),
        s.eaten(i, fresh).find_food(p) != Some(i),
        s.eaten(i, fresh).foods == s.foods,
{
    find_food_is_first(s.eaten(i, fresh), p);
}

#[derive(Clone, Debug)]
pub struct EntityStore {
    pub snake: Snake,
    pub foods: Vec<Food>,
    pub doomed: Vec<bool>,
    pub spawned: Vec<Food>,
}

impl View for EntityStore {
    type V = StoreModel;

    open spec fn view(&self) -> StoreModel {
        StoreModel {
            snake: self.snake@,
            foods: self.foods@,
            doomed: self.doomed@,
            spawned: self.spawned@,
        }
    }
}

impl EntityStore {
    /// A store that holds the snake and one food entity, nothing pending.
    pub fn new(snake: Snake, food: Food) -> (s: EntityStore)
        requires
            snake@.wf(),
        ensures
            s@ == (StoreModel {
                snake: snake@,
                foods: seq![food],
                doomed: seq![false],
                spawned: Seq::empty(),
            }),
            s@.wf(),
            s@.settled(),
    {
        let mut foods: Vec<Food> = Vec::new();
        foods.push(food);
        let mut doomed: Vec<bool> = Vec::new();
        doomed.push(false);
        proof {
            assert(foods@ =~= seq![food]);
            assert(doomed@ =~= seq![false]);
        }
        EntityStore { snake, foods, doomed, spawned: Vec::new() }
    }

    /// Index of the first live food on `p`.
    pub fn find_food(&self, p: Position) -> (r: Option<usize>)
        requires
            self@.wf(),
        ensures
            match r {
                Some(i) => self@.find_food(p) == Some(i as int),
                None => self@.find_food(p).is_none(),
            },
    {
        let n: usize = self.foods.len();
        let mut i: usize = 0;
        while i < n
            invariant
                self@.wf(),
                n == self.foods@.len(),
                i <= n,
                self@.first_live_from(p, 0) == self@.first_live_from(p, i as int),
            decreases n - i,
        {
            if !self.doomed[i] && self.foods[i].0 == p {
                return Some(i);
            }
            i += 1;
        }
        None
    }

    /// Marks live entity `i` for deletion at the next commit.
    pub fn delete(&mut self, i: usize)
        requires
            old(self)@.wf(),
            old(self)@.live(i as int),
        ensures
            final(self)@ == old(self)@.deleted(i as int),
            final(self)@.wf(),
    {
        self.doomed[i] = true;
    }

    /// Hands in food to be created at the next commit.
    pub fn create(&mut self, food: Food)
        ensures
            final(self)@ == old(self)@.created(food),
    {
        self.spawned.push(food);
    }

    /// Commits every pending deletion and creation in one step.
    pub fn maintain(&mut self)
        requires
            old(self)@.wf(),
        ensures
            final(self)@ == old(self)@.committed(),
            final(self)@.wf(),
            final(self)@.settled(),
    {
        let n: usize = self.foods.len();
        let mut kept: Vec<Food> = Vec::new();
        let mut i: usize = 0;
        while i < n
            invariant
                *self == *old(self),
                n == self.foods@.len(),
                n == self.doomed@.len(),
                i <= n,
                kept@ == survivors(self.foods@.take(i as int), self.doomed@.take(i as int)),
            decreases n - i,
        {
            proof {
                assert(self.foods@.take(i + 1).drop_last() =~= self.foods@.take(i as int));
                assert(self.doomed@.take(i + 1).drop_last() =~= self.doomed@.take(i as int));
            }
            if !self.doomed[i] {
                kept.push(self.foods[i]);
            }
            i += 1;
        }
        proof {
            assert(self.foods@.take(n as int) =~= self.foods@);
            assert(self.doomed@.take(n as int) =~= self.doomed@);
        }
        kept.append(&mut self.spawned);
        let m: usize = kept.len();
        let mut flags: Vec<bool> = Vec::new();
        let mut j: usize = 0;
        while j < m
            invariant
                j <= m,
                flags@.len() == j,
                forall|k: int| 0 <= k < j ==> !#[trigger] flags@[k],
            decreases m - j,
        {
            flags.push(false);
            j += 1;
        }
        proof {
            assert(flags@ =~= Seq::new(kept@.len(), |k: int| false));
        }
        self.foods = kept;
        self.doomed = flags;
    }
}

} // verus!
