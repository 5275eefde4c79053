//! The mapping from grid cells to viewport coordinates, in exact
//! arithmetic: a coordinate is handed out as a fraction of two integers.

use vstd::prelude::*;
use crate::position::Position;

verus! {

/// The width of the arena in cells.
pub const ARENA_W: u32 = 10;

/// The height of the arena in cells.
pub const ARENA_H: u32 = 10;

/// The fraction `numerator / denominator`. A denominator of zero stands for
/// a coordinate that does not exist, as on an arena without cells.
#[derive(Clone, Copy, Debug, PartialEq, Eq, Structural)]
pub struct Ratio {
    pub numerator: i128,
    pub denominator: i128,
}

/// Twice the arena bound times the screen coordinate of the midpoint of
/// cell `pos`. The coordinate itself is
/// `pos / arena * window - window / 2 + (window / arena) / 2`, which over the
/// common denominator `2 * arena` is this numerator.
pub open spec fn midpoint_numerator(pos: int, window: int, arena: int) -> int {
    2 * pos * window - window * arena + window
}

/// Maps a cell coordinate on one axis to the screen coordinate of the
/// cell's midpoint on that axis, the viewport being centred on zero.
pub fn project(pos: i32, window: u32, arena: u32) -> (r: Ratio)
    ensures
        r.numerator == midpoint_numerator(pos as int, window as int, arena as int),
        r.denominator == 2 * arena,
{
    let p: i128 = pos as i128;
    let w: i128 = window as i128;
    let a: i128 = arena as i128;
    assert(-0x1_0000_0000_0000_0000 <= p * w <= 0x1_0000_0000_0000_0000) by (nonlinear_arith)
        requires
            -0x8000_0000 <= p < 0x8000_0000,
            0 <= w < 0x1_0000_0000,
    ;
    assert(0 <= w * a <= 0x1_0000_0000_0000_0000) by (nonlinear_arith)
        requires
            0 <= a < 0x1_0000_0000,
            0 <= w < 0x1_0000_0000,
    ;
    assert(2 * (p * w) == 2 * p * w) by (nonlinear_arith);
    let twice: i128 = 2 * (p * w);
    Ratio { numerator: twice - w * a + w, denominator: 2 * a }
}

/// Maps a cell of the arena to the screen coordinates of its midpoint in a
/// viewport of the given width and height.
pub fn project_position(pos: Position, viewport_width: u32, viewport_height: u32) -> (r: (
    Ratio,
    Ratio,
))
    ensures
        r.0.numerator == midpoint_numerator(pos.x as int, viewport_width as int, ARENA_W as int),
        r.0.denominator == 2 * ARENA_W,
        r.1.numerator == midpoint_numerator(pos.y as int, viewport_height as int, ARENA_H as int),
        r.1.denominator == 2 * ARENA_H,
{
    (project(pos.x, viewport_width, ARENA_W), project(pos.y, viewport_height, ARENA_H))
}

/// The middle cell of an arena lies within half a tile of the viewport's
/// centre. Half a tile is `window / (2 * arena)`, so over the common
/// denominator the numerator lies within `window` of zero.
pub proof fn centre_cell_is_near_origin(window: int, arena: int)
    requires
        window >= 0,
        arena > 0,
    ensures
        -window <= midpoint_numerator(arena / 2, window, arena) <= window,
{
    let half = arena / 2;
    if arena % 2 == 0 {
        assert(2 * half == arena);
        assert(2 * half * window == window * arena) by (nonlinear_arith)
            requires
                2 * half == arena,
        ;
    } else {
        assert(2 * half == arena - 1);
        assert(2 * half * window == window * arena - window) by (nonlinear_arith)
            requires
                2 * half == arena - 1,
        ;
    }
}

} // verus!
