//! Food on the grid: what the head eats, and where new food appears.

use vstd::prelude::*;
use crate::mapper::{ARENA_H, ARENA_W};
use crate::position::Position;

verus! {

/// The test that a cell is not `head`.
pub open spec fn away_from(head: Position) -> spec_fn(Position) -> bool {
    |cell: Position| cell != head
}

/// The test that a cell is `head`.
pub open spec fn located_at(head: Position) -> spec_fn(Position) -> bool {
    |cell: Position| cell == head
}

/// The food that is left when the head stands on `head`: every piece on
/// another cell, in the order it had.
pub open spec fn leftover(foods: Seq<Position>, head: Position) -> Seq<Position> {
    foods.filter(away_from(head))
}

/// The number of pieces of food that lie on `head`.
pub open spec fn eaten_at(foods: Seq<Position>, head: Position) -> nat {
    foods.filter(located_at(head)).len()
}

/// The coordinate that a sample picks among `bound` cells: the sample
/// stands for the fraction `sample / 2^32` of the unit interval, and the
/// coordinate is that fraction of `bound`, rounded down.
pub open spec fn scaled(sample: u32, bound: u32) -> int {
    (sample as int * bound as int) / 0x1_0000_0000
}

/// The cell of the arena that two samples pick, one for each axis.
pub open spec fn sampled_cell(sample_x: u32, sample_y: u32) -> Position {
    Position { x: scaled(sample_x, ARENA_W) as i32, y: scaled(sample_y, ARENA_H) as i32 }
}

/// Whether a cell lies within the arena.
pub open spec fn in_arena(cell: Position) -> bool {
    0 <= cell.x < ARENA_W && 0 <= cell.y < ARENA_H
}

/// Filtering one element more either appends that element or changes
/// nothing, as the test decides.
proof fn filter_take_next(s: Seq<Position>, keep: spec_fn(Position) -> bool, i: int)
    requires
        0 <= i < s.len(),
    ensures
        s.take(i + 1).filter(keep) == if keep(s[i]) {
            s.take(i).filter(keep).push(s[i])
        } else {
            s.take(i).filter(keep)
        },
{
    reveal(Seq::filter);
    assert(s.take(i + 1).drop_last() =~= s.take(i));
    assert(s.take(i + 1).last() == s[i]);
}

/// Removes every piece of food that lies on `head` and returns how many
/// were removed. The pieces that stay keep their order.
pub fn eat(foods: &mut Vec<Position>, head: Position) -> (eaten: usize)
    ensures
        final(foods)@ == leftover(old(foods)@, head),
        eaten == eaten_at(old(foods)@, head),
        final(foods)@.len() + eaten == old(foods)@.len(),
{
    let mut kept: Vec<Position> = Vec::new();
    let mut eaten: usize = 0;
    let n = foods.len();
    let mut i: usize = 0;
    proof {
        reveal(Seq::filter);
        assert(foods@.take(0) =~= Seq::<Position>::empty());
    }
    while i < n
        invariant
            n == foods@.len(),
            foods@ == old(foods)@,
            i <= n,
            kept@ == foods@.take(i as int).filter(away_from(head)),
            eaten == foods@.take(i as int).filter(located_at(head)).len(),
            kept@.len() + eaten == i,
        decreases n - i,
    {
        let cell = foods[i];
        proof {
            filter_take_next(foods@, away_from(head), i as int);
            filter_take_next(foods@, located_at(head), i as int);
        }
        if cell == head {
            eaten = eaten + 1;
        } else {
            kept.push(cell);
        }
        i = i + 1;
    }
    assert(foods@.take(n as int) =~= foods@);
    *foods = kept;
    eaten
}

/// Picks the cell of the arena that two samples stand for.
pub fn cell_of(sample_x: u32, sample_y: u32) -> (cell: Position)
    ensures
        cell == sampled_cell(sample_x, sample_y),
        cell.x == scaled(sample_x, ARENA_W),
        cell.y == scaled(sample_y, ARENA_H),
        in_arena(cell),
{
    let wide_x: u64 = (sample_x as u64) * (ARENA_W as u64);
    let wide_y: u64 = (sample_y as u64) * (ARENA_H as u64);
    let x: u64 = wide_x / 0x1_0000_0000;
    let y: u64 = wide_y / 0x1_0000_0000;
    Position { x: x as i32, y: y as i32 }
}

/// Puts one piece of food on the cell that the two samples pick.
pub fn spawn_at(foods: &mut Vec<Position>, sample_x: u32, sample_y: u32)
    ensures
        final(foods)@ == old(foods)@.push(sampled_cell(sample_x, sample_y)),
        in_arena(sampled_cell(sample_x, sample_y)),
{
    let cell = cell_of(sample_x, sample_y);
    foods.push(cell);
}

/// Draws one sample from `rand::random`, which takes it from the thread's
/// generator. Nothing is claimed of the value: any `u32` may come back, and
/// two draws need not agree.
#[verifier::external_body]
pub(crate) fn draw() -> (sample: u32) {
    rand::random::<u32>()
}

/// Puts one piece of food on a cell of the arena drawn at random. Which
/// cell it is depends on the draw; it always lies within the arena, and the
/// food that was there stays as it was.
pub fn spawn_random(foods: &mut Vec<Position>)
    ensures
        final(foods)@.len() == old(foods)@.len() + 1,
        final(foods)@.drop_last() == old(foods)@,
        in_arena(final(foods)@.last()),
        exists|sample_x: u32, sample_y: u32|
            final(foods)@ == old(foods)@.push(#[trigger] sampled_cell(sample_x, sample_y)),
{
    let sample_x = draw();
    let sample_y = draw();
    spawn_at(foods, sample_x, sample_y);
    assert(foods@.drop_last() =~= old(foods)@);
}

/// Eating takes away exactly the pieces that lie on the head's cell: those
/// pieces and the ones left over make up all the food there was, and none
/// of the pieces left over lies on the head's cell.
pub proof fn eating_partitions(foods: Seq<Position>, head: Position)
    ensures
        leftover(foods, head).len() + eaten_at(foods, head) == foods.len(),
        forall|i: int|
            0 <= i < leftover(foods, head).len() ==> (#[trigger] leftover(foods, head)[i]) != head,
    decreases foods.len(),
{
    reveal(Seq::filter);
    if foods.len() > 0 {
        eating_partitions(foods.drop_last(), head);
    }
}

} // verus!
