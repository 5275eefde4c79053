//! The snake: an ordered list of segments led by a head that owns a
//! direction, and the cell that the tail left on the last move.

use vstd::prelude::*;
use crate::direction::{resolve, resolved, Direction, HeldKeys};
use crate::position::Position;

verus! {

/// The snake. Segment 0 is the head; the others follow it in order.
pub struct Snake {
    segments: Vec<Position>,
    direction: Direction,
    last_tail: Option<Position>,
}

/// The segments after one move in direction `d`: the head steps to its
/// neighbour and every other segment takes the cell of the one ahead of it.
pub open spec fn shifted(segments: Seq<Position>, d: Direction) -> Seq<Position>
    recommends
        segments.len() >= 1,
{
    seq![segments[0].neighbour(d)] + segments.drop_last()
}

impl Snake {
    /// The cells of the segments, head first.
    pub closed spec fn cells(&self) -> Seq<Position> {
        self.segments@
    }

    /// The direction that the head faces.
    pub closed spec fn heading(&self) -> Direction {
        self.direction
    }

    /// The cell that the tail held before the last move, if the snake has
    /// moved.
    pub closed spec fn tail_mark(&self) -> Option<Position> {
        self.last_tail
    }

    /// A snake has a head and at least one segment behind it.
    pub open spec fn wf(&self) -> bool {
        self.cells().len() >= 2
    }

    /// Whether the head can take a unit step in the direction it faces.
    pub open spec fn can_advance(&self) -> bool {
        self.cells()[0].can_step(self.heading())
    }

    /// Makes a snake from its cells, head first, and the head's direction.
    /// Fewer than two cells make no snake.
    pub fn new(segments: Vec<Position>, direction: Direction) -> (r: Option<Snake>)
        ensures
            r.is_some() <==> segments@.len() >= 2,
            r.is_some() ==> {
                &&& r.unwrap().wf()
                &&& r.unwrap().cells() == segments@
                &&& r.unwrap().heading() == direction
                &&& r.unwrap().tail_mark().is_none()
            },
    {
        if segments.len() >= 2 {
            Some(Snake { segments, direction, last_tail: None })
        } else {
            None
        }
    }

    /// The snake as it starts: the head at (3, 3) facing up, one segment
    /// below it at (3, 2).
    pub fn spawn() -> (r: Snake)
        ensures
            r.wf(),
            r.cells() == seq![Position { x: 3, y: 3 }, Position { x: 3, y: 2 }],
            r.heading() == Direction::Up,
            r.tail_mark().is_none(),
    {
        let mut segments: Vec<Position> = Vec::new();
        segments.push(Position { x: 3, y: 3 });
        segments.push(Position { x: 3, y: 2 });
        assert(segments@ =~= seq![Position { x: 3, y: 3 }, Position { x: 3, y: 2 }]);
        Snake { segments, direction: Direction::Up, last_tail: None }
    }

    /// The number of segments, the head included.
    pub fn len(&self) -> (n: usize)
        ensures
            n == self.cells().len(),
    {
        self.segments.len()
    }

    /// The cell of segment `i`.
    pub fn segment(&self, i: usize) -> (p: Position)
        requires
            i < self.cells().len(),
        ensures
            p == self.cells()[i as int],
    {
        self.segments[i]
    }

    /// The cell of the head.
    pub fn head(&self) -> (p: Position)
        requires
            self.wf(),
        ensures
            p == self.cells()[0],
    {
        self.segments[0]
    }

    /// The direction that the head faces.
    pub fn direction(&self) -> (d: Direction)
        ensures
            d == self.heading(),
    {
        self.direction
    }

    /// The cell that the tail held before the last move.
    pub fn last_tail(&self) -> (t: Option<Position>)
        ensures
            t == self.tail_mark(),
    {
        self.last_tail
    }

    /// Tells whether the head can step in its direction without leaving
    /// the machine integers.
    pub fn fits_advance(&self) -> (r: bool)
        requires
            self.wf(),
        ensures
            r == self.can_advance(),
    {
        self.segments[0].fits_step(self.direction)
    }

    /// Turns the head as the held keys ask, except that a half turn is
    /// refused. No segment moves.
    pub fn turn(&mut self, keys: HeldKeys)
        ensures
            final(self).heading() == resolved(keys, old(self).heading()),
            final(self).heading() != old(self).heading().spec_opposite(),
            final(self).cells() == old(self).cells(),
            final(self).tail_mark() == old(self).tail_mark(),
    {
        self.direction = resolve(keys, self.direction);
    }

    /// Moves the snake by one cell. The head steps in its direction, every
    /// other segment takes the cell that the segment ahead of it held, and
    /// the cell that the tail held is remembered.
    pub fn advance(&mut self)
        requires
            old(self).wf(),
            old(self).can_advance(),
        ensures
            final(self).wf(),
            final(self).cells() == shifted(old(self).cells(), old(self).heading()),
            final(self).cells().len() == old(self).cells().len(),
            final(self).cells()[0] == old(self).cells()[0].neighbour(old(self).heading()),
            forall|i: int|
                1 <= i < old(self).cells().len() ==> final(self).cells()[i] == old(
                    self,
                ).cells()[i - 1],
            final(self).tail_mark() == Some(old(self).cells().last()),
            final(self).heading() == old(self).heading(),
    {
        let n = self.segments.len();
        let tail = self.segments[n - 1];
        let mut i: usize = n - 1;
        while i > 0
            invariant
                n == old(self).segments@.len(),
                n == self.segments@.len(),
                n >= 2,
                i < n,
                self.direction == old(self).direction,
                forall|k: int| 0 <= k <= i ==> self.segments@[k] == old(self).segments@[k],
                forall|k: int| i < k < n ==> self.segments@[k] == old(self).segments@[k - 1],
            decreases i,
        {
            let ahead = self.segments[i - 1];
            self.segments.set(i, ahead);
            i = i - 1;
        }
        let head = self.segments[0].step(self.direction);
        self.segments.set(0, head);
        self.last_tail = Some(tail);
        assert(self.segments@ =~= shifted(old(self).segments@, old(self).direction));
    }

    /// Appends one segment at the cell that the tail held before the last
    /// move.
    pub fn grow(&mut self)
        requires
            old(self).tail_mark().is_some(),
        ensures
            final(self).cells() == old(self).cells().push(old(self).tail_mark().unwrap()),
            final(self).cells().len() == old(self).cells().len() + 1,
            final(self).cells().last() == old(self).tail_mark().unwrap(),
            final(self).heading() == old(self).heading(),
            final(self).tail_mark() == old(self).tail_mark(),
            old(self).wf() ==> final(self).wf(),
    {
        match self.last_tail {
            Some(cell) => {
                self.segments.push(cell);
            },
            None => {},
        }
    }
}

/// After one move every segment behind the head holds the cell that the
/// segment ahead of it held before, and the head holds the neighbour of its
/// old cell in the direction of the move.
pub proof fn shifted_follows(segments: Seq<Position>, d: Direction)
    requires
        segments.len() >= 2,
    ensures
        shifted(segments, d).len() == segments.len(),
        shifted(segments, d)[0] == segments[0].neighbour(d),
        forall|i: int| 1 <= i < segments.len() ==> shifted(segments, d)[i] == segments[i - 1],
{
}

} // verus!
