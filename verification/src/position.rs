//! Grid cells.

use vstd::prelude::*;
use crate::direction::Direction;

verus! {

/// A cell of the grid. Nothing confines a cell to the arena.
#[derive(Clone, Copy, Debug, PartialEq, Eq, Structural)]
pub struct Position {
    pub x: i32,
    pub y: i32,
}

impl Position {
    /// Whether the neighbouring cell in direction `d` has coordinates that
    /// the machine integers can hold.
    pub open spec fn can_step(self, d: Direction) -> bool {
        match d {
            Direction::Left => self.x > i32::MIN,
            Direction::Right => self.x < i32::MAX,
            Direction::Up => self.y < i32::MAX,
            Direction::Down => self.y > i32::MIN,
        }
    }

    /// The neighbouring cell in direction `d`: left and right change `x` by
    /// one, up raises `y` by one and down lowers it.
    pub open spec fn neighbour(self, d: Direction) -> Position {
        match d {
            Direction::Left => Position { x: (self.x - 1) as i32, y: self.y },
            Direction::Right => Position { x: (self.x + 1) as i32, y: self.y },
            Direction::Up => Position { x: self.x, y: (self.y + 1) as i32 },
            Direction::Down => Position { x: self.x, y: (self.y - 1) as i32 },
        }
    }

    /// Makes the cell with the given coordinates.
    pub fn new(x: i32, y: i32) -> (r: Position)
        ensures
            r == (Position { x, y }),
    {
        Position { x, y }
    }

    /// Tells whether a unit step in direction `d` stays within the machine
    /// integers.
    pub fn fits_step(self, d: Direction) -> (r: bool)
        ensures
            r == self.can_step(d),
    {
        match d {
            Direction::Left => self.x > i32::MIN,
            Direction::Right => self.x < i32::MAX,
            Direction::Up => self.y < i32::MAX,
            Direction::Down => self.y > i32::MIN,
        }
    }

    /// Takes one unit step in direction `d`.
    pub fn step(self, d: Direction) -> (r: Position)
        requires
            self.can_step(d),
        ensures
            r == self.neighbour(d),
            d == Direction::Left ==> r.x == self.x - 1 && r.y == self.y,
            d == Direction::Right ==> r.x == self.x + 1 && r.y == self.y,
            d == Direction::Up ==> r.x == self.x && r.y == self.y + 1,
            d == Direction::Down ==> r.x == self.x && r.y == self.y - 1,
    {
        match d {
            Direction::Left => Position { x: self.x - 1, y: self.y },
            Direction::Right => Position { x: self.x + 1, y: self.y },
            Direction::Up => Position { x: self.x, y: self.y + 1 },
            Direction::Down => Position { x: self.x, y: self.y - 1 },
        }
    }
}

} // verus!
