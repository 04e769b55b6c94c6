//! Where a grid cell is drawn: its offset in pixels from the window's centre.
use vstd::prelude::*;

use crate::grid::Location;

verus! {

/// Width and height of the window, in pixels.
pub const WINDOW_SIZE: i32 = 300;

/// Width and height of one cell, in pixels: the window divided into
/// `GRID_SIZE` cells per side.
pub const CELL_SIZE: i32 = 20;

/// The cell coordinate drawn at the window's centre.
pub const CENTER: i32 = 8;

/// Largest offset from the centre at which a cell is still wholly inside the
/// window: half the window less half a cell.
pub const PIXEL_LIMIT: i32 = 140;

/// The pixel offset of coordinate `c` from the centre, held to
/// `-PIXEL_LIMIT..=PIXEL_LIMIT`.
pub open spec fn pixel_of(c: int) -> int {
    let p = (c - CENTER) * CELL_SIZE;
    if p > PIXEL_LIMIT {
        PIXEL_LIMIT as int
    } else if p < -PIXEL_LIMIT {
        -PIXEL_LIMIT
    } else {
        p
    }
}

/// The pixel offset of one coordinate (see [`pixel_of`]).
pub fn axis_pixel(c: i32) -> (r: i32)
    ensures
        r == pixel_of(c as int),
{
    if c >= 15 {
        assert((c - CENTER) * CELL_SIZE >= 140) by (nonlinear_arith)
            requires c >= 15, CENTER == 8, CELL_SIZE == 20;
        PIXEL_LIMIT
    } else if c <= 1 {
        assert((c - CENTER) * CELL_SIZE <= -140) by (nonlinear_arith)
            requires c <= 1, CENTER == 8, CELL_SIZE == 20;
        -PIXEL_LIMIT
    } else {
        (c - CENTER) * CELL_SIZE
    }
}

/// The pixel offset of cell `loc` from the window's centre, as `(x, y)`.
pub fn pixel_offset(loc: Location) -> (r: (i32, i32))
    ensures
        r.0 == pixel_of(loc.x as int),
        r.1 == pixel_of(loc.y as int),
{
    (axis_pixel(loc.x), axis_pixel(loc.y))
}

} // verus!
