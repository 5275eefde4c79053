//! The simulation as one value that owns the clock, the snake, the food
//! and the growth signals, and the frame step that runs its parts in their
//! fixed order.

use vstd::prelude::*;
use crate::clock::TickClock;
use crate::direction::{resolved, Direction, HeldKeys};
use crate::food::{draw, eat, eaten_at, leftover, sampled_cell, spawn_at};
use crate::position::Position;
use crate::snake::{shifted, Snake};

verus! {

/// The notice that the snake ate one piece of food and is owed one segment.
#[derive(Clone, Copy, Debug)]
pub struct GrowthSignal;

/// The whole state of the simulation.
pub struct Game {
    clock: TickClock,
    snake: Snake,
    foods: Vec<Position>,
    signals: Vec<GrowthSignal>,
}

/// The state of the simulation as plain mathematical values.
pub struct GameView {
    pub clock: TickClock,
    pub cells: Seq<Position>,
    pub heading: Direction,
    pub tail_mark: Option<Position>,
    pub foods: Seq<Position>,
    pub pending: nat,
}

impl GameView {
    /// The snake has a head and a segment behind it, and a segment is owed
    /// only once the tail has left a cell for it.
    pub open spec fn wf(self) -> bool {
        &&& self.cells.len() >= 2
        &&& self.pending > 0 ==> self.tail_mark.is_some()
    }

    /// Both timers advanced by `dt` nanoseconds.
    pub open spec fn ticked(self, dt: u64) -> GameView {
        GameView { clock: self.clock.advanced(dt), ..self }
    }

    /// The head turned as the held keys ask, a half turn refused.
    pub open spec fn steered(self, keys: HeldKeys) -> GameView {
        GameView { heading: resolved(keys, self.heading), ..self }
    }

    /// If the movement timer has just fired, the snake moved by one cell
    /// and the cell that the tail left remembered.
    pub open spec fn moved(self) -> GameView {
        if self.clock.movement.just_fired {
            GameView {
                cells: shifted(self.cells, self.heading),
                tail_mark: Some(self.cells.last()),
                ..self
            }
        } else {
            self
        }
    }

    /// If the movement timer has just fired, the food on the head's cell
    /// removed and one signal queued for each piece.
    pub open spec fn collided(self) -> GameView {
        if self.clock.movement.just_fired {
            GameView {
                foods: leftover(self.foods, self.cells[0]),
                pending: self.pending + eaten_at(self.foods, self.cells[0]),
                ..self
            }
        } else {
            self
        }
    }

    /// If a signal is pending, one of them taken and one segment appended
    /// at the cell that the tail left.
    pub open spec fn grown(self) -> GameView {
        if self.pending > 0 {
            GameView {
                cells: self.cells.push(self.tail_mark.unwrap()),
                pending: (self.pending - 1) as nat,
                ..self
            }
        } else {
            self
        }
    }

    /// If the food timer has just fired, one piece of food added on the
    /// cell that the samples pick.
    pub open spec fn fed(self, sample_x: u32, sample_y: u32) -> GameView {
        if self.clock.food.just_fired {
            GameView { foods: self.foods.push(sampled_cell(sample_x, sample_y)), ..self }
        } else {
            self
        }
    }

    /// One whole frame: the clock, the turn, the move, the collision, the
    /// growth and the new food, in this order.
    pub open spec fn next(self, dt: u64, keys: HeldKeys, sample_x: u32, sample_y: u32) -> GameView {
        self.ticked(dt).steered(keys).moved().collided().grown().fed(sample_x, sample_y)
    }

    /// Whether the machine integers can hold what a frame of `dt`
    /// nanoseconds with these keys computes: the time gathered by the
    /// timers and, if the snake is to move, the head's new cell.
    pub open spec fn can_run(self, dt: u64, keys: HeldKeys) -> bool {
        &&& self.clock.can_advance(dt)
        &&& self.clock.advanced(dt).movement.just_fired ==> self.cells[0].can_step(
            resolved(keys, self.heading),
        )
    }
}

impl View for Game {
    type V = GameView;

    closed spec fn view(&self) -> GameView {
        GameView {
            clock: self.clock,
            cells: self.snake.cells(),
            heading: self.snake.heading(),
            tail_mark: self.snake.tail_mark(),
            foods: self.foods@,
            pending: self.signals@.len(),
        }
    }
}

impl Game {
    /// The simulation at its start: a fresh clock, the snake as it spawns,
    /// no food and no signal.
    pub fn new() -> (g: Game)
        ensures
            g@.wf(),
            g@.clock == TickClock::fresh(),
            g@.cells == seq![Position { x: 3, y: 3 }, Position { x: 3, y: 2 }],
            g@.heading == Direction::Up,
            g@.tail_mark.is_none(),
            g@.foods == Seq::<Position>::empty(),
            g@.pending == 0,
    {
        Game { clock: TickClock::new(), snake: Snake::spawn(), foods: Vec::new(), signals: Vec::new() }
    }

    /// A simulation that starts with the given snake and food, a fresh
    /// clock and no signal.
    pub fn with_state(snake: Snake, foods: Vec<Position>) -> (g: Game)
        requires
            snake.wf(),
        ensures
            g@.wf(),
            g@.clock == TickClock::fresh(),
            g@.cells == snake.cells(),
            g@.heading == snake.heading(),
            g@.tail_mark == snake.tail_mark(),
            g@.foods == foods@,
            g@.pending == 0,
    {
        Game { clock: TickClock::new(), snake, foods, signals: Vec::new() }
    }

    /// The clock.
    pub fn clock(&self) -> (c: TickClock)
        ensures
            c == self@.clock,
    {
        self.clock
    }

    /// The snake.
    pub fn snake(&self) -> (s: &Snake)
        ensures
            s.cells() == self@.cells,
            s.heading() == self@.heading,
            s.tail_mark() == self@.tail_mark,
    {
        &self.snake
    }

    /// The cells that hold food, oldest first.
    pub fn foods(&self) -> (f: &Vec<Position>)
        ensures
            f@ == self@.foods,
    {
        &self.foods
    }

    /// The number of growth signals that wait to be handled.
    pub fn pending_growth(&self) -> (n: usize)
        ensures
            n == self@.pending,
    {
        self.signals.len()
    }

    /// Tells whether a frame of `dt` nanoseconds with these keys stays
    /// within the machine integers.
    pub fn fits_frame(&self, dt: u64, keys: HeldKeys) -> (r: bool)
        requires
            self@.wf(),
        ensures
            r == self@.can_run(dt, keys),
    {
        if !self.clock.fits_advance(dt) {
            return false;
        }
        let mut ahead = self.clock;
        ahead.advance(dt);
        if ahead.movement_just_fired() {
            let d = crate::direction::resolve(keys, self.snake.direction());
            self.snake.head().fits_step(d)
        } else {
            true
        }
    }

    /// Advances both timers by the time that the frame took.
    pub fn tick(&mut self, dt: u64)
        requires
            old(self)@.clock.can_advance(dt),
        ensures
            final(self)@ == old(self)@.ticked(dt),
    {
        self.clock.advance(dt);
    }

    /// Turns the head as the held keys ask. This happens in every frame,
    /// whether or not the snake moves in it.
    pub fn steer(&mut self, keys: HeldKeys)
        ensures
            final(self)@ == old(self)@.steered(keys),
            final(self)@.heading != old(self)@.heading.spec_opposite(),
    {
        self.snake.turn(keys);
    }

    /// Moves the snake by one cell if the movement timer has just fired,
    /// and leaves it where it is otherwise.
    pub fn step(&mut self)
        requires
            old(self)@.wf(),
            old(self)@.clock.movement.just_fired ==> old(self)@.cells[0].can_step(
                old(self)@.heading,
            ),
        ensures
            final(self)@ == old(self)@.moved(),
            final(self)@.wf(),
    {
        if self.clock.movement_just_fired() {
            self.snake.advance();
        }
    }

    /// If the movement timer has just fired, removes the food that lies on
    /// the head's cell and queues one growth signal for each piece removed.
    pub fn check_collision(&mut self)
        requires
            old(self)@.wf(),
            old(self)@.clock.movement.just_fired ==> old(self)@.tail_mark.is_some(),
        ensures
            final(self)@ == old(self)@.collided(),
            final(self)@.wf(),
    {
        if self.clock.movement_just_fired() {
            let head = self.snake.head();
            let eaten = eat(&mut self.foods, head);
            let mut queued: usize = 0;
            while queued < eaten
                invariant
                    queued <= eaten,
                    self.signals@.len() == old(self).signals@.len() + queued,
                    self.clock == old(self).clock,
                    self.snake == old(self).snake,
                    self.foods@ == leftover(old(self).foods@, head),
                decreases eaten - queued,
            {
                self.signals.push(GrowthSignal);
                queued = queued + 1;
            }
        }
    }

    /// Handles at most one growth signal: if one is pending it is taken
    /// from the queue and the snake gets one more segment, at the cell that
    /// the tail held before the last move. Signals beyond the first wait
    /// for later calls.
    pub fn apply_growth(&mut self)
        requires
            old(self)@.wf(),
        ensures
            final(self)@ == old(self)@.grown(),
            final(self)@.wf(),
            old(self)@.pending > 0 ==> {
                &&& final(self)@.cells.len() == old(self)@.cells.len() + 1
                &&& final(self)@.cells.last() == old(self)@.tail_mark.unwrap()
                &&& final(self)@.pending == old(self)@.pending - 1
            },
    {
        if self.signals.len() > 0 {
            self.signals.pop();
            self.snake.grow();
        }
    }

    /// If the food timer has just fired, puts one piece of food on the cell
    /// that the two samples pick.
    pub fn maybe_spawn_at(&mut self, sample_x: u32, sample_y: u32)
        ensures
            final(self)@ == old(self)@.fed(sample_x, sample_y),
    {
        if self.clock.food_just_fired() {
            spawn_at(&mut self.foods, sample_x, sample_y);
        }
    }

    /// Runs one frame of `dt` nanoseconds with the given keys held, the
    /// two samples deciding where food appears if the food timer fires.
    pub fn frame_with(&mut self, dt: u64, keys: HeldKeys, sample_x: u32, sample_y: u32)
        requires
            old(self)@.wf(),
            old(self)@.can_run(dt, keys),
        ensures
            final(self)@ == old(self)@.next(dt, keys, sample_x, sample_y),
            final(self)@.wf(),
    {
        self.tick(dt);
        self.steer(keys);
        self.step();
        self.check_collision();
        self.apply_growth();
        self.maybe_spawn_at(sample_x, sample_y);
    }

    /// If the food timer has just fired, puts one piece of food on a cell of
    /// the arena drawn at random. Which cell it is depends on the draw: the
    /// state is what `maybe_spawn_at` gives for some pair of samples.
    pub fn maybe_spawn(&mut self)
        ensures
            exists|sample_x: u32, sample_y: u32|
                final(self)@ == #[trigger] old(self)@.fed(sample_x, sample_y),
            !old(self)@.clock.food.just_fired ==> final(self)@ == old(self)@,
    {
        if self.clock.food_just_fired() {
            let sample_x = draw();
            let sample_y = draw();
            spawn_at(&mut self.foods, sample_x, sample_y);
            assert(self@ == old(self)@.fed(sample_x, sample_y));
        } else {
            assert(self@ == old(self)@.fed(0, 0));
        }
    }

    /// Runs one frame of `dt` nanoseconds with the given keys held. If the
    /// food timer fires, the cell of the new food is drawn at random; all
    /// else is as `frame_with` has it.
    pub fn frame(&mut self, dt: u64, keys: HeldKeys)
        requires
            old(self)@.wf(),
            old(self)@.can_run(dt, keys),
        ensures
            final(self)@.wf(),
            exists|sample_x: u32, sample_y: u32|
                final(self)@ == #[trigger] old(self)@.next(dt, keys, sample_x, sample_y),
    {
        self.tick(dt);
        self.steer(keys);
        self.step();
        self.check_collision();
        self.apply_growth();
        let ghost before = self@;
        self.maybe_spawn();
        proof {
            let (sample_x, sample_y) = choose|sample_x: u32, sample_y: u32|
                self@ == #[trigger] before.fed(sample_x, sample_y);
            assert(self@ == old(self)@.next(dt, keys, sample_x, sample_y));
        }
    }
}

/// A frame keeps the state well formed, and the snake never gets shorter in
/// it: it keeps its length or gains exactly one segment.
pub proof fn frame_never_shrinks(
    v: GameView,
    dt: u64,
    keys: HeldKeys,
    sample_x: u32,
    sample_y: u32,
)
    requires
        v.wf(),
    ensures
        v.next(dt, keys, sample_x, sample_y).wf(),
        v.cells.len() <= v.next(dt, keys, sample_x, sample_y).cells.len() <= v.cells.len() + 1,
{
}

/// No growth signal is lost or handled twice: the signals that wait after a
/// frame, and the segment gained in it if there is one, are the signals
/// that waited before and one for each piece of food eaten in the frame.
pub proof fn signals_are_conserved(
    v: GameView,
    dt: u64,
    keys: HeldKeys,
    sample_x: u32,
    sample_y: u32,
)
    requires
        v.wf(),
    ensures
        ({
            let before = v.ticked(dt).steered(keys).moved();
            let after = v.next(dt, keys, sample_x, sample_y);
            let eaten = if before.clock.movement.just_fired {
                eaten_at(before.foods, before.cells[0])
            } else {
                0
            };
            after.pending + (after.cells.len() - v.cells.len()) == v.pending + eaten
        }),
{
}

} // verus!
