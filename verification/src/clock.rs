//! Repeating countdown timers, and the pair of them that paces the
//! simulation. Time is counted in whole nanoseconds.

use vstd::prelude::*;

verus! {

/// The period of the movement timer: 0.15 s.
pub const MOVEMENT_PERIOD_NANOS: u64 = 150_000_000;

/// The period of the food timer: 1 s.
pub const FOOD_PERIOD_NANOS: u64 = 1_000_000_000;

/// A repeating timer. `just_fired` speaks of the latest call of `advance`
/// only.
#[derive(Clone, Copy, Debug, PartialEq, Eq, Structural)]
pub struct Timer {
    pub period: u64,
    pub accumulated: u64,
    pub just_fired: bool,
}

impl Timer {
    /// Whether the time gathered so far and `dt` more fit the machine
    /// integer that holds them.
    pub open spec fn can_advance(self, dt: u64) -> bool {
        self.accumulated + dt <= u64::MAX
    }

    /// The timer after `dt` more nanoseconds: the time is added, and if a
    /// whole period has gathered the timer fires and one period is taken
    /// off, so that what is left over counts towards the next firing.
    pub open spec fn advanced(self, dt: u64) -> Timer {
        let total = self.accumulated + dt;
        if total >= self.period {
            Timer { period: self.period, accumulated: (total - self.period) as u64, just_fired: true }
        } else {
            Timer { period: self.period, accumulated: total as u64, just_fired: false }
        }
    }

    /// A timer of the given period that has gathered no time and has not
    /// fired.
    pub fn new(period: u64) -> (t: Timer)
        ensures
            t == (Timer { period, accumulated: 0, just_fired: false }),
    {
        Timer { period, accumulated: 0, just_fired: false }
    }

    /// Tells whether `dt` more nanoseconds can be added.
    pub fn fits_advance(&self, dt: u64) -> (r: bool)
        ensures
            r == self.can_advance(dt),
    {
        dt <= u64::MAX - self.accumulated
    }

    /// Adds `dt` nanoseconds. The timer fires exactly when the time
    /// gathered reaches its period, and then keeps what is over.
    pub fn advance(&mut self, dt: u64)
        requires
            old(self).can_advance(dt),
        ensures
            *final(self) == old(self).advanced(dt),
            final(self).just_fired <==> old(self).accumulated + dt >= old(self).period,
            final(self).period == old(self).period,
    {
        let total: u64 = self.accumulated + dt;
        if total >= self.period {
            self.accumulated = total - self.period;
            self.just_fired = true;
        } else {
            self.accumulated = total;
            self.just_fired = false;
        }
    }
}

/// The two timers of the simulation. They run independently of each other.
#[derive(Clone, Copy, Debug, PartialEq, Eq, Structural)]
pub struct TickClock {
    pub movement: Timer,
    pub food: Timer,
}

impl TickClock {
    /// Whether both timers can take `dt` more nanoseconds.
    pub open spec fn can_advance(self, dt: u64) -> bool {
        self.movement.can_advance(dt) && self.food.can_advance(dt)
    }

    /// The clock after `dt` more nanoseconds: each timer advanced by
    /// itself.
    pub open spec fn advanced(self, dt: u64) -> TickClock {
        TickClock { movement: self.movement.advanced(dt), food: self.food.advanced(dt) }
    }

    /// The clock at the start: a movement timer of 0.15 s and a food timer
    /// of 1 s, neither with any time gathered.
    pub open spec fn fresh() -> TickClock {
        TickClock {
            movement: Timer { period: MOVEMENT_PERIOD_NANOS, accumulated: 0, just_fired: false },
            food: Timer { period: FOOD_PERIOD_NANOS, accumulated: 0, just_fired: false },
        }
    }

    /// Makes the clock as it is at the start.
    pub fn new() -> (c: TickClock)
        ensures
            c == TickClock::fresh(),
    {
        TickClock {
            movement: Timer::new(MOVEMENT_PERIOD_NANOS),
            food: Timer::new(FOOD_PERIOD_NANOS),
        }
    }

    /// Tells whether both timers can take `dt` more nanoseconds.
    pub fn fits_advance(&self, dt: u64) -> (r: bool)
        ensures
            r == self.can_advance(dt),
    {
        self.movement.fits_advance(dt) && self.food.fits_advance(dt)
    }

    /// Advances both timers by the time that the frame took.
    pub fn advance(&mut self, dt: u64)
        requires
            old(self).can_advance(dt),
        ensures
            *final(self) == old(self).advanced(dt),
    {
        self.movement.advance(dt);
        self.food.advance(dt);
    }

    /// Whether the movement timer fired in the latest call of `advance`.
    pub fn movement_just_fired(&self) -> (r: bool)
        ensures
            r == self.movement.just_fired,
    {
        self.movement.just_fired
    }

    /// Whether the food timer fired in the latest call of `advance`.
    pub fn food_just_fired(&self) -> (r: bool)
        ensures
            r == self.food.just_fired,
    {
        self.food.just_fired
    }
}

} // verus!
