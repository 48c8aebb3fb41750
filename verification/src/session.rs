//! The game session: configuration, the fixed-step scheduler and the tick.

use vstd::prelude::*;
use crate::food::Food;
use crate::geometry::{Direction, Grid, Position, in_bounds_can_step};
use crate::snake::Snake;
use crate::store::{EntityStore, StoreModel, survivors};
use crate::systems::{Input, Playing, bound_system, input_system, snake_system, still_playing};

verus! {

/// What a session is built from. Time is counted in microseconds.
#[derive(Copy, Clone, Debug, PartialEq, Eq, Structural)]
pub struct Config {
    pub grid: Grid,
    /// Where the snake starts.
    pub start: Position,
    /// Time between two ticks.
    pub tick_duration: u64,
}

/// Why a configuration is turned down.
#[derive(Copy, Clone, Debug, PartialEq, Eq, Structural)]
pub enum ConfigError {
    /// The grid has no cell along some axis.
    EmptyGrid,
    /// One step past the grid's far edge is no longer a coordinate.
    GridTooLarge,
    /// The snake would start off the grid.
    StartOutOfBounds,
}

impl ConfigError {
    /// The text that describes each fault.
    pub open spec fn spec_message(self) -> Seq<char> {
        match self {
            ConfigError::EmptyGrid => "the grid must have at least one cell along each axis"@,
            ConfigError::GridTooLarge => "the grid is too large for its coordinates"@,
            ConfigError::StartOutOfBounds => "the start position lies outside the grid"@,
        }
    }

    pub fn message(&self) -> (m: &'static str)
        ensures
            m@ == self.spec_message(),
    {
        match self {
            ConfigError::EmptyGrid => "the grid must have at least one cell along each axis",
            ConfigError::GridTooLarge => "the grid is too large for its coordinates",
            ConfigError::StartOutOfBounds => "the start position lies outside the grid",
        }
    }
}

impl Config {
    /// The first fault of the configuration, if it has one.
    pub open spec fn spec_validate(self) -> Result<(), ConfigError> {
        if self.grid.width <= 0 || self.grid.height <= 0 {
            Err(ConfigError::EmptyGrid)
        } else if self.grid.width == i16::MAX || self.grid.height == i16::MAX {
            Err(ConfigError::GridTooLarge)
        } else if self.start.spec_out_of_bounds(self.grid) {
            Err(ConfigError::StartOutOfBounds)
        } else {
            Ok(())
        }
    }

    /// A grid of 30 by 30 cells, the snake at (10, 10), ten ticks a second.
    pub fn standard() -> (c: Config)
        ensures
            c == (Config {
                grid: Grid { width: 30, height: 30 },
                start: Position { x: 10, y: 10 },
                tick_duration: 100_000,
            }),
            c.spec_validate().is_ok(),
    {
        Config { grid: Grid::square(30), start: Position::new(10, 10), tick_duration: 100_000 }
    }

    pub fn validate(&self) -> (r: Result<(), ConfigError>)
        ensures
            r == self.spec_validate(),
    {
        if self.grid.width <= 0 || self.grid.height <= 0 {
            Err(ConfigError::EmptyGrid)
        } else if self.grid.width == i16::MAX || self.grid.height == i16::MAX {
            Err(ConfigError::GridTooLarge)
        } else if self.start.out_of_bounds(self.grid) {
            Err(ConfigError::StartOutOfBounds)
        } else {
            Ok(())
        }
    }
}

/// A key as the session understands it; every key it has no use for is
/// `Other`.
#[derive(Copy, Clone, Debug, PartialEq, Eq, Structural)]
pub enum Key {
    Up,
    Down,
    Left,
    Right,
    Space,
    Escape,
    Other,
}

/// A call that the driver of a session can make, with the food that
/// appears if the call lets the snake eat.
pub enum Call {
    Advance { elapsed: u64, fresh: Food },
    SetDirection(Direction),
    TogglePause,
}

impl Call {
    /// Whether the call lets time pass.
    pub open spec fn is_advance(self) -> bool {
        self is Advance
    }

    /// The food that the call brings, if any, lies in the far half of `grid`.
    pub open spec fn fits(self, grid: Grid) -> bool {
        match self {
            Call::Advance { elapsed, fresh } => fresh.in_far_half(grid),
            _ => true,
        }
    }
}

/// The sum of two times, held at the largest time that can be counted.
pub open spec fn capped_sum(a: u64, b: u64) -> u64 {
    if a + b > u64::MAX {
        u64::MAX
    } else {
        (a + b) as u64
    }
}

/// Mathematical model of a session.
pub struct SessionModel {
    pub config: Config,
    pub store: StoreModel,
    pub input: Input,
    pub playing: bool,
    /// Time gathered since the last tick came due.
    pub dt: u64,
    /// How often a tick has come due, paused or not.
    pub frames: u64,
    /// Whether the loss has been handed to the driver.
    pub reported: bool,
}

impl SessionModel {
    /// What holds of a session between any two calls: its configuration is
    /// sound, the snake's length is its number of segments, exactly one food
    /// entity exists, in the far half of the grid, nothing is pending, and
    /// while the session is played the snake's head is on the grid.
    pub open spec fn wf(self) -> bool {
        &&& self.config.spec_validate().is_ok()
        &&& self.store.wf()
        &&& self.store.settled()
        &&& self.store.foods.len() == 1
        &&& self.store.foods[0].in_far_half(self.config.grid)
        &&& self.playing ==> !self.store.snake.out_of_bounds(self.config.grid)
    }

    /// The session as it starts, with `food` as its first food.
    pub open spec fn initial(config: Config, food: Food) -> SessionModel {
        SessionModel {
            config,
            store: StoreModel {
                snake: crate::snake::SnakeModel {
                    length: 1,
                    segments: seq![config.start],
                    direction: Direction::Right,
                },
                foods: seq![food],
                doomed: seq![false],
                spawned: Seq::empty(),
            },
            input: Input { direction: Direction::Right, pause: false },
            playing: true,
            dt: 0,
            frames: 0,
            reported: false,
        }
    }

    /// One tick: movement and consumption, then input arbitration, then the
    /// terminal state, then the commit of what the tick deleted and created.
    pub open spec fn ticked(self, fresh: Food) -> SessionModel {
        let stepped = self.store.moved(fresh).steered(self.input.direction);
        SessionModel {
            store: stepped.committed(),
            playing: still_playing(stepped.snake, self.config.grid),
            ..self
        }
    }

    /// Whether a tick comes due once `elapsed` more time has passed.
    pub open spec fn due(self, elapsed: u64) -> bool {
        capped_sum(self.dt, elapsed) >= self.config.tick_duration
    }

    /// The scheduler. A lost session stays as it is. Otherwise the time is
    /// gathered; when a tick comes due one tick's time is taken off, and the
    /// tick is run unless the session is paused. `fresh` is the food that
    /// appears if the snake eats.
    pub open spec fn advanced(self, elapsed: u64, fresh: Food) -> SessionModel {
        if !self.playing {
            self
        } else if self.due(elapsed) {
            let timed = SessionModel {
                dt: (capped_sum(self.dt, elapsed) - self.config.tick_duration) as u64,
                frames: capped_sum(self.frames, 1),
                ..self
            };
            if self.input.pause {
                timed
            } else {
                timed.ticked(fresh)
            }
        } else {
            SessionModel { dt: capped_sum(self.dt, elapsed), ..self }
        }
    }

    /// Whether the call of `advanced` lets the snake eat.
    pub open spec fn eats(self, elapsed: u64) -> bool {
        &&& self.playing
        &&& self.due(elapsed)
        &&& !self.input.pause
        &&& self.store.find_food(self.store.snake.next_head()).is_some()
    }

    /// The session after one call.
    pub open spec fn after_call(self, call: Call) -> SessionModel {
        match call {
            Call::Advance { elapsed, fresh } => self.advanced(elapsed, fresh),
            Call::SetDirection(d) => self.with_direction(d),
            Call::TogglePause => self.with_pause_toggled(),
        }
    }

    /// The session after a run of calls, in their order.
    pub open spec fn after_calls(self, calls: Seq<Call>) -> SessionModel
        decreases calls.len(),
    {
        if calls.len() == 0 {
            self
        } else {
            self.after_calls(calls.drop_last()).after_call(calls.last())
        }
    }

    pub open spec fn with_direction(self, d: Direction) -> SessionModel {
        SessionModel { input: Input { direction: d, ..self.input }, ..self }
    }

    pub open spec fn with_pause_toggled(self) -> SessionModel {
        SessionModel { input: Input { pause: !self.input.pause, ..self.input }, ..self }
    }

    /// An arrow key asks for its heading, the space bar toggles the pause,
    /// and any other key changes nothing.
    pub open spec fn after_key(self, key: Key) -> SessionModel {
        match key {
            Key::Up => self.with_direction(Direction::Up),
            Key::Down => self.with_direction(Direction::Down),
            Key::Left => self.with_direction(Direction::Left),
            Key::Right => self.with_direction(Direction::Right),
            Key::Space => self.with_pause_toggled(),
            _ => self,
        }
    }
}

/// A tick of a well-formed session that is being played leaves it
/// well-formed: the length is the number of segments and exactly one food
/// entity exists, in the far half of the grid.
pub proof fn tick_keeps_wf(s: SessionModel, fresh: Food)
    requires
        s.wf(),
        s.playing,
        fresh.in_far_half(s.config.grid),
    ensures
        s.ticked(fresh).wf(),
        s.ticked(fresh).store.snake.length == s.ticked(fresh).store.snake.segments.len(),
        s.ticked(fresh).store.foods.len() == 1,
        s.ticked(fresh).store.foods[0].in_far_half(s.config.grid),
{
    reveal_with_fuel(survivors, 3);
    reveal_with_fuel(StoreModel::first_live_from, 3);
    let stepped = s.store.moved(fresh).steered(s.input.direction);
    let target = s.store.snake.next_head();
    assert(s.store.foods.drop_last().len() == 0);
    match s.store.find_food(target) {
        Some(i) => {
            assert(i == 0);
            assert(stepped.doomed =~= seq![true]);
            assert(stepped.spawned =~= seq![fresh]);
            assert(survivors(stepped.foods, stepped.doomed) =~= Seq::<Food>::empty());
            assert(stepped.committed().foods =~= seq![fresh]);
        },
        None => {
            assert(stepped.doomed == s.store.doomed);
            assert(!stepped.doomed.last());
            assert(survivors(stepped.foods, stepped.doomed) =~= s.store.foods);
            assert(stepped.committed().foods =~= s.store.foods);
        },
    }
}

/// `advanced` keeps a well-formed session well-formed, whatever time passes:
/// the snake's length is its number of segments, and exactly one food
/// entity exists, in the far half of the grid on both axes.
pub proof fn advance_keeps_wf(s: SessionModel, elapsed: u64, fresh: Food)
    requires
        s.wf(),
        fresh.in_far_half(s.config.grid),
    ensures
        s.advanced(elapsed, fresh).wf(),
        s.advanced(elapsed, fresh).store.snake.length == s.advanced(
            elapsed,
            fresh,
        ).store.snake.segments.len(),
        s.advanced(elapsed, fresh).store.foods.len() == 1,
        s.advanced(elapsed, fresh).store.foods[0].in_far_half(s.config.grid),
{
    if s.playing && s.due(elapsed) && !s.input.pause {
        let timed = SessionModel {
            dt: (capped_sum(s.dt, elapsed) - s.config.tick_duration) as u64,
            frames: capped_sum(s.frames, 1),
            ..s
        };
        tick_keeps_wf(timed, fresh);
    }
}

/// A tick in which the snake eats makes it longer by exactly one: the new
/// head comes in front and every segment from before the tick stays, the
/// tail included.
pub proof fn eating_grows_by_one(s: SessionModel, fresh: Food)
    requires
        s.wf(),
        s.store.find_food(s.store.snake.next_head()).is_some(),
    ensures
        s.ticked(fresh).store.snake.length == s.store.snake.length + 1,
        s.ticked(fresh).store.snake.segments == seq![s.store.snake.next_head()]
            + s.store.snake.segments,
        s.ticked(fresh).store.snake.segments.last() == s.store.snake.segments.last(),
{
}

/// A tick in which the snake does not eat moves it: the new head comes in
/// front of the old segments without their tail, and the length stays.
pub proof fn moving_drops_tail(s: SessionModel, fresh: Food)
    requires
        s.wf(),
        s.store.find_food(s.store.snake.next_head()).is_none(),
    ensures
        s.ticked(fresh).store.snake.length == s.store.snake.length,
        s.ticked(fresh).store.snake.segments == seq![s.store.snake.next_head()]
            + s.store.snake.segments.subrange(0, s.store.snake.length - 1),
{
    assert(s.store.snake.segments.drop_last() =~= s.store.snake.segments.subrange(
        0,
        s.store.snake.length - 1,
    ));
}

/// A request to reverse, followed by a tick, leaves the heading as it was.
pub proof fn reversal_is_dropped(s: SessionModel, fresh: Food)
    ensures
        s.with_direction(s.store.snake.direction.spec_opposite()).ticked(
            fresh,
        ).store.snake.direction == s.store.snake.direction,
{
    crate::geometry::opposite_is_involutive(s.store.snake.direction);
}

/// A request for any heading but the reverse is taken by the tick that
/// follows, so that the movement after it goes that way.
pub proof fn turn_is_taken(s: SessionModel, d: Direction, fresh: Food)
    requires
        d != s.store.snake.direction.spec_opposite(),
    ensures
        s.with_direction(d).ticked(fresh).store.snake.direction == d,
        s.with_direction(d).ticked(fresh).store.snake.next_head() == s.with_direction(d).ticked(
            fresh,
        ).store.snake.head().spec_step(d),
{
    crate::geometry::opposite_is_involutive(d);
    crate::geometry::opposite_is_involutive(s.store.snake.direction);
}

/// Every state that a run of calls can reach from a well-formed session
/// is well-formed: the snake's length is its number of segments, and
/// exactly one food entity exists, in the far half of the grid on both axes.
pub proof fn calls_keep_wf(s: SessionModel, calls: Seq<Call>)
    requires
        s.wf(),
        forall|i: int| 0 <= i < calls.len() ==> (#[trigger] calls[i]).fits(s.config.grid),
    ensures
        s.after_calls(calls).wf(),
        s.after_calls(calls).config == s.config,
        s.after_calls(calls).store.snake.length == s.after_calls(calls).store.snake.segments.len(),
        s.after_calls(calls).store.foods.len() == 1,
        s.after_calls(calls).store.foods[0].in_far_half(s.config.grid),
    decreases calls.len(),
{
    if calls.len() > 0 {
        let before = s.after_calls(calls.drop_last());
        let earlier = calls.drop_last();
        assert forall|i: int| 0 <= i < earlier.len() implies (#[trigger] earlier[i]).fits(
            s.config.grid,
        ) by {
            assert(earlier[i] == calls[i]);
        }
        calls_keep_wf(s, calls.drop_last());
        assert(calls.last().fits(s.config.grid));
        match calls.last() {
            Call::Advance { elapsed, fresh } => {
                advance_keeps_wf(before, elapsed, fresh);
            },
            _ => {},
        }
    }
}

/// The same holds of every state that can be reached from the start of a
/// session with a sound configuration.
pub proof fn reachable_states_are_wf(config: Config, food: Food, calls: Seq<Call>)
    requires
        config.spec_validate().is_ok(),
        food.in_far_half(config.grid),
        forall|i: int| 0 <= i < calls.len() ==> (#[trigger] calls[i]).fits(config.grid),
    ensures
        SessionModel::initial(config, food).after_calls(calls).wf(),
{
    calls_keep_wf(SessionModel::initial(config, food), calls);
}

/// While a session is paused, no run of calls that let time pass changes
/// the snake, the food or whether the session is played, however much time
/// passes in all.
pub proof fn paused_advance_freezes(s: SessionModel, calls: Seq<Call>)
    requires
        s.input.pause,
        forall|i: int| 0 <= i < calls.len() ==> (#[trigger] calls[i]).is_advance(),
    ensures
        s.after_calls(calls).store == s.store,
        s.after_calls(calls).playing == s.playing,
        s.after_calls(calls).input == s.input,
    decreases calls.len(),
{
    if calls.len() > 0 {
        let earlier = calls.drop_last();
        assert forall|i: int| 0 <= i < earlier.len() implies (#[trigger] earlier[i]).is_advance() by {
            assert(earlier[i] == calls[i]);
        }
        paused_advance_freezes(s, calls.drop_last());
        assert(calls.last().is_advance());
    }
}

/// Where a session gets to depends on where it was and on the calls made,
/// the food they bring included, and on nothing else: equal sessions that
/// are given the same calls end up equal.
pub proof fn calls_are_deterministic(a: Session, b: Session, calls: Seq<Call>)
    requires
        a@ == b@,
    ensures
        a@.after_calls(calls) == b@.after_calls(calls),
{
}

#[derive(Clone, Debug)]
pub struct Session {
    pub config: Config,
    pub store: EntityStore,
    pub input: Input,
    pub playing: Playing,
    pub dt: u64,
    pub frames: u64,
    pub reported: bool,
}

impl View for Session {
    type V = SessionModel;

    open spec fn view(&self) -> SessionModel {
        SessionModel {
            config: self.config,
            store: self.store@,
            input: self.input,
            playing: self.playing.0,
            dt: self.dt,
            frames: self.frames,
            reported: self.reported,
        }
    }
}

/// What the presentation layer draws: the state after the last commit.
#[derive(Clone, Debug)]
pub struct Snapshot {
    pub segments: Vec<Position>,
    pub length: usize,
    pub food: Position,
}

impl Session {
    /// Starts a session with `food` as its first food. A faulty
    /// configuration is turned down and no session is made.
    pub fn with_food(config: Config, food: Food) -> (r: Result<Session, ConfigError>)
        requires
            config.spec_validate().is_ok() ==> food.in_far_half(config.grid),
        ensures
            match r {
                Ok(s) => config.spec_validate().is_ok() && s@ == SessionModel::initial(config, food)
                    && s@.wf(),
                Err(e) => config.spec_validate() == Err::<(), ConfigError>(e),
            },
    {
        match config.validate() {
            Err(e) => Err(e),
            Ok(()) => {
                let snake = Snake::new(config.start);
                let store = EntityStore::new(snake, food);
                Ok(
                    Session {
                        config,
                        store,
                        input: Input::default(),
                        playing: Playing::default(),
                        dt: 0,
                        frames: 0,
                        reported: false,
                    },
                )
            },
        }
    }

    /// Starts a session with its first food placed at random. A faulty
    /// configuration is turned down and no session is made.
    pub fn new(config: Config) -> (r: Result<Session, ConfigError>)
        ensures
            match r {
                Ok(s) => config.spec_validate().is_ok() && s@.wf() && exists|food: Food|
                    #[trigger] food.in_far_half(config.grid) && s@ == SessionModel::initial(
                        config,
                        food,
                    ),
                Err(e) => config.spec_validate() == Err::<(), ConfigError>(e),
            },
    {
        match config.validate() {
            Err(e) => Err(e),
            Ok(()) => {
                let food = Food::new(config.grid);
                Session::with_food(config, food)
            },
        }
    }

    /// Whether the session is well-formed, for callers that cannot know it
    /// otherwise.
    pub fn is_well_formed(&self) -> (r: bool)
        ensures
            r == self@.wf(),
    {
        if self.config.validate().is_err() {
            return false;
        }
        if self.store.snake.length != self.store.snake.segments.len() || self.store.snake.length
            < 1 {
            return false;
        }
        if self.store.foods.len() != 1 || self.store.doomed.len() != 1 || self.store.spawned.len()
            != 0 {
            return false;
        }
        if self.store.doomed[0] || !self.store.foods[0].is_in_far_half(self.config.grid) {
            return false;
        }
        !self.playing.0 || !self.store.snake.out_of_bounds(self.config.grid)
    }

    /// Sets the heading that the next tick will ask the snake to take.
    pub fn set_direction(&mut self, d: Direction)
        ensures
            final(self)@ == old(self)@.with_direction(d),
    {
        self.input.direction = d;
    }

    pub fn toggle_pause(&mut self)
        ensures
            final(self)@ == old(self)@.with_pause_toggled(),
    {
        self.input.pause = !self.input.pause;
    }

    /// Takes a key press. Returns whether the key asks to quit, which only
    /// the escape key does.
    pub fn key_down(&mut self, key: Key) -> (quit: bool)
        ensures
            final(self)@ == old(self)@.after_key(key),
            quit == (key == Key::Escape),
    {
        match key {
            Key::Up => self.set_direction(Direction::Up),
            Key::Down => self.set_direction(Direction::Down),
            Key::Left => self.set_direction(Direction::Left),
            Key::Right => self.set_direction(Direction::Right),
            Key::Space => self.toggle_pause(),
            Key::Escape => {
                return true;
            },
            Key::Other => {},
        }
        false
    }

    pub fn is_playing(&self) -> (r: bool)
        ensures
            r == self@.playing,
    {
        self.playing.0
    }

    /// Tells the driver of the loss, once: `true` on the first call after
    /// the session was lost, `false` before and ever after.
    pub fn take_game_over(&mut self) -> (r: bool)
        ensures
            r == (!old(self)@.playing && !old(self)@.reported),
            final(self)@ == (SessionModel {
                reported: old(self)@.reported || !old(self)@.playing,
                ..old(self)@
            }),
    {
        if !self.playing.0 && !self.reported {
            self.reported = true;
            true
        } else {
            false
        }
    }

    /// The snake's segments and length and the food's cell, as committed.
    pub fn snapshot(&self) -> (r: Snapshot)
        requires
            self@.wf(),
        ensures
            r.segments@ == self@.store.snake.segments,
            r.length == self@.store.snake.length,
            r.food == self@.store.foods[0].0,
    {
        let n: usize = self.store.snake.segments.len();
        let mut segments: Vec<Position> = Vec::new();
        let mut i: usize = 0;
        while i < n
            invariant
                n == self.store.snake.segments@.len(),
                i <= n,
                segments@ == self.store.snake.segments@.take(i as int),
            decreases n - i,
        {
            segments.push(self.store.snake.segments[i]);
            proof {
                assert(segments@ =~= self.store.snake.segments@.take(i + 1));
            }
            i += 1;
        }
        proof {
            assert(self.store.snake.segments@.take(n as int) =~= self.store.snake.segments@);
        }
        Snapshot { segments, length: self.store.snake.length, food: self.store.foods[0].0 }
    }

    /// Runs one tick, with `fresh` as the food that appears if the snake
    /// eats.
    pub fn tick(&mut self, fresh: Food)
        requires
            old(self)@.wf(),
            old(self)@.playing,
            fresh.in_far_half(old(self)@.config.grid),
        ensures
            final(self)@ == old(self)@.ticked(fresh),
            final(self)@.wf(),
    {
        proof {
            in_bounds_can_step(
                self@.store.snake.head(),
                self.config.grid,
                self@.store.snake.direction,
            );
            tick_keeps_wf(self@, fresh);
        }
        snake_system(&mut self.store, fresh);
        input_system(&mut self.store, &self.input);
        self.playing = bound_system(&self.store, self.config.grid);
        self.store.maintain();
    }

    /// Whether a call of `advance` with `elapsed` lets the snake eat.
    pub fn will_eat(&self, elapsed: u64) -> (r: bool)
        requires
            self@.wf(),
        ensures
            r == self@.eats(elapsed),
    {
        if !self.playing.0 || self.input.pause {
            return false;
        }
        if self.dt.saturating_add(elapsed) < self.config.tick_duration {
            return false;
        }
        proof {
            in_bounds_can_step(
                self@.store.snake.head(),
                self.config.grid,
                self@.store.snake.direction,
            );
        }
        let target = self.store.snake.get_eat();
        self.store.find_food(target).is_some()
    }

    /// Lets `elapsed` microseconds pass, with `fresh` as the food that
    /// appears if the snake eats: at most one tick is run.
    pub fn advance_with(&mut self, elapsed: u64, fresh: Food)
        requires
            old(self)@.wf(),
            fresh.in_far_half(old(self)@.config.grid),
        ensures
            final(self)@ == old(self)@.advanced(elapsed, fresh),
            final(self)@.wf(),
    {
        if !self.playing.0 {
            return;
        }
        let gathered: u64 = self.dt.saturating_add(elapsed);
        if gathered >= self.config.tick_duration {
            self.dt = gathered - self.config.tick_duration;
            self.frames = self.frames.saturating_add(1);
            if !self.input.pause {
                self.tick(fresh);
            }
        } else {
            self.dt = gathered;
        }
    }

    /// Lets `elapsed` microseconds pass: at most one tick is run. If the
    /// snake eats, the food that appears is placed at random; whatever is
    /// drawn, the session moves on as `advanced` says for some food in the
    /// far half of the grid.
    pub fn advance(&mut self, elapsed: u64)
        requires
            old(self)@.wf(),
        ensures
            final(self)@.wf(),
            exists|fresh: Food|
                #[trigger] fresh.in_far_half(old(self)@.config.grid) && final(self)@ == old(
                    self,
                )@.advanced(elapsed, fresh),
            !old(self)@.eats(elapsed) ==> final(self)@ == old(self)@.advanced(
                elapsed,
                old(self)@.store.foods[0],
            ),
    {
        if self.will_eat(elapsed) {
            let fresh = Food::new(self.config.grid);
            self.advance_with(elapsed, fresh);
        } else {
            let present = self.store.foods[0];
            self.advance_with(elapsed, present);
        }
    }
}

} // verus!
