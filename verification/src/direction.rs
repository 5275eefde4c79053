//! Movement directions and the reduction of held keys to one direction.

use vstd::prelude::*;

verus! {

/// One of the four directions in which the head can face.
#[derive(Clone, Copy, Debug, PartialEq, Eq, Structural)]
pub enum Direction {
    Left,
    Up,
    Right,
    Down,
}

/// Which of the four directional keys are held during one frame.
#[derive(Clone, Copy, Debug, PartialEq, Eq, Structural)]
pub struct HeldKeys {
    pub left: bool,
    pub up: bool,
    pub right: bool,
    pub down: bool,
}

impl Direction {
    /// The direction that points the other way: left and right swap, and
    /// so do up and down.
    pub open spec fn spec_opposite(self) -> Direction {
        match self {
            Direction::Left => Direction::Right,
            Direction::Right => Direction::Left,
            Direction::Up => Direction::Down,
            Direction::Down => Direction::Up,
        }
    }

    /// Returns the direction that points the other way.
    #[verifier::when_used_as_spec(spec_opposite)]
    pub fn opposite(self) -> (r: Direction)
        ensures
            r == self.spec_opposite(),
    {
        match self {
            Direction::Left => Direction::Right,
            Direction::Right => Direction::Left,
            Direction::Up => Direction::Down,
            Direction::Down => Direction::Up,
        }
    }
}

impl HeldKeys {
    /// The snapshot in which no key is held.
    pub fn none() -> (r: HeldKeys)
        ensures
            r == (HeldKeys { left: false, up: false, right: false, down: false }),
    {
        HeldKeys { left: false, up: false, right: false, down: false }
    }
}

/// The direction that the held keys ask for. When several keys are held the
/// first of left, down, up, right wins; when none is held the current
/// direction is asked for again.
pub open spec fn candidate_of(keys: HeldKeys, current: Direction) -> Direction {
    if keys.left {
        Direction::Left
    } else if keys.down {
        Direction::Down
    } else if keys.up {
        Direction::Up
    } else if keys.right {
        Direction::Right
    } else {
        current
    }
}

/// The head's direction after one resolution: the candidate, unless it is
/// the exact reverse of the current direction, which is then kept.
pub open spec fn resolved(keys: HeldKeys, current: Direction) -> Direction {
    let wanted = candidate_of(keys, current);
    if wanted == current.spec_opposite() {
        current
    } else {
        wanted
    }
}

/// Picks the direction that the held keys ask for, by fixed priority.
pub fn candidate(keys: HeldKeys, current: Direction) -> (r: Direction)
    ensures
        r == candidate_of(keys, current),
{
    if keys.left {
        Direction::Left
    } else if keys.down {
        Direction::Down
    } else if keys.up {
        Direction::Up
    } else if keys.right {
        Direction::Right
    } else {
        current
    }
}

/// Resolves the held keys against the current direction and returns the
/// direction that the head has afterwards. A half turn is never taken.
pub fn resolve(keys: HeldKeys, current: Direction) -> (r: Direction)
    ensures
        r == resolved(keys, current),
        r != current.spec_opposite(),
{
    let wanted = candidate(keys, current);
    if wanted == current.opposite() {
        current
    } else {
        wanted
    }
}

/// Taking the opposite twice gives the direction back.
pub proof fn opposite_is_involutive(d: Direction)
    ensures
        d.spec_opposite().spec_opposite() == d,
{
}

/// Whatever keys are held, one resolution never turns the head to the
/// reverse of the direction it had before.
pub proof fn resolve_never_reverses(keys: HeldKeys, current: Direction)
    ensures
        resolved(keys, current) != current.spec_opposite(),
{
}

/// With no key held the direction stays as it is.
pub proof fn resolve_without_keys(current: Direction)
    ensures
        resolved(HeldKeys { left: false, up: false, right: false, down: false }, current)
            == current,
{
}

} // verus!
