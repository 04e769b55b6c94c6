//! Grid cells, headings and the one-cell step of the head.
use vstd::prelude::*;

verus! {

/// Number of cells along each side of the play field.
pub const GRID_SIZE: i32 = 15;

/// Largest coordinate the head may reach when it moves up or right.
///
/// This is one more than the largest cell index of the field; the movement
/// step keeps that bound as it is.
pub const STEP_MAX: i32 = 15;

/// A grid cell.
#[derive(Clone, Copy, Debug, PartialEq, Eq, Structural)]
pub struct Location {
    pub x: i32,
    pub y: i32,
}

/// A heading of the snake.
#[derive(Clone, Copy, Debug, PartialEq, Eq, Structural)]
pub enum Direction {
    Up,
    Left,
    Down,
    Right,
}

impl Direction {
    /// The heading that points the other way.
    pub open spec fn spec_opposite(self) -> Direction {
        match self {
            Direction::Up => Direction::Down,
            Direction::Left => Direction::Right,
            Direction::Down => Direction::Up,
            Direction::Right => Direction::Left,
        }
    }

    /// Up and Down are opposite, and so are Left and Right.
    pub fn opposite(self) -> (r: Direction)
        ensures
            r == self.spec_opposite(),
    {
        match self {
            Direction::Up => Direction::Down,
            Direction::Left => Direction::Right,
            Direction::Down => Direction::Up,
            Direction::Right => Direction::Left,
        }
    }
}

/// Turning around twice gives back the heading one started with.
pub proof fn lemma_opposite_involutive(d: Direction)
    ensures
        d.spec_opposite().spec_opposite() == d,
{
}

/// No heading is its own opposite.
pub proof fn lemma_opposite_differs(d: Direction)
    ensures
        d.spec_opposite() != d,
{
}

/// The cell one step from `loc` in direction `d`, held to `0..=STEP_MAX` on
/// the axis of the move; the other axis is left as it is.
pub open spec fn stepped(loc: Location, d: Direction) -> Location {
    match d {
        Direction::Up => Location {
            y: if loc.y + 1 <= STEP_MAX { (loc.y + 1) as i32 } else { STEP_MAX },
            ..loc
        },
        Direction::Left => Location { x: if loc.x - 1 >= 0 { (loc.x - 1) as i32 } else { 0 }, ..loc },
        Direction::Down => Location { y: if loc.y - 1 >= 0 { (loc.y - 1) as i32 } else { 0 }, ..loc },
        Direction::Right => Location {
            x: if loc.x + 1 <= STEP_MAX { (loc.x + 1) as i32 } else { STEP_MAX },
            ..loc
        },
    }
}

/// Moves `loc` one cell in direction `d` (see [`stepped`]).
pub fn step(loc: Location, d: Direction) -> (r: Location)
    ensures
        r == stepped(loc, d),
{
    match d {
        Direction::Up => Location { y: if loc.y < STEP_MAX { loc.y + 1 } else { STEP_MAX }, ..loc },
        Direction::Left => Location { x: if loc.x > 0 { loc.x - 1 } else { 0 }, ..loc },
        Direction::Down => Location { y: if loc.y > 0 { loc.y - 1 } else { 0 }, ..loc },
        Direction::Right => Location { x: if loc.x < STEP_MAX { loc.x + 1 } else { STEP_MAX }, ..loc },
    }
}

} // verus!
