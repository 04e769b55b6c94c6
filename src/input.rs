//! Turning the movement keys held in a frame into the snake's heading.
use vstd::prelude::*;

use crate::grid::Direction;

verus! {

/// Which movement keys are held down in the current frame.
#[derive(Clone, Copy, Debug, PartialEq, Eq, Structural)]
pub struct HeldKeys {
    pub up: bool,
    pub left: bool,
    pub down: bool,
    pub right: bool,
}

impl HeldKeys {
    /// No movement key held.
    pub fn none() -> (r: HeldKeys)
        ensures
            !r.up && !r.left && !r.down && !r.right,
    {
        HeldKeys { up: false, left: false, down: false, right: false }
    }

    /// Only the key of direction `d` held.
    pub fn only(d: Direction) -> (r: HeldKeys)
        ensures
            r == HeldKeys::spec_only(d),
    {
        HeldKeys {
            up: d == Direction::Up,
            left: d == Direction::Left,
            down: d == Direction::Down,
            right: d == Direction::Right,
        }
    }

    pub open spec fn spec_only(d: Direction) -> HeldKeys {
        HeldKeys {
            up: d == Direction::Up,
            left: d == Direction::Left,
            down: d == Direction::Down,
            right: d == Direction::Right,
        }
    }
}

/// The heading asked for by `keys`: the first held key in the order Up, Left,
/// Down, Right, or `current` when none is held.
pub open spec fn requested(keys: HeldKeys, current: Direction) -> Direction {
    if keys.up {
        Direction::Up
    } else if keys.left {
        Direction::Left
    } else if keys.down {
        Direction::Down
    } else if keys.right {
        Direction::Right
    } else {
        current
    }
}

/// The heading after a frame's input: the requested one, unless it would
/// turn the snake straight back, in which case `current` stays.
pub open spec fn resolved(keys: HeldKeys, current: Direction) -> Direction {
    let want = requested(keys, current);
    if want != current.spec_opposite() {
        want
    } else {
        current
    }
}

/// Computes the heading after a frame in which `keys` are held.
pub fn resolve_direction(keys: HeldKeys, current: Direction) -> (r: Direction)
    ensures
        r == resolved(keys, current),
{
    let want = if keys.up {
        Direction::Up
    } else if keys.left {
        Direction::Left
    } else if keys.down {
        Direction::Down
    } else if keys.right {
        Direction::Right
    } else {
        current
    };
    if want != current.opposite() {
        want
    } else {
        current
    }
}

/// Input never turns the snake straight back: whatever keys are held, the
/// new heading is not the opposite of the current one, and a single key
/// that points the opposite way leaves the heading unchanged.
pub proof fn lemma_no_reversal(keys: HeldKeys, current: Direction, pressed: Direction)
    ensures
        resolved(keys, current) != current.spec_opposite(),
        pressed == current.spec_opposite() ==> resolved(HeldKeys::spec_only(pressed), current)
            == current,
{
}

} // verus!
