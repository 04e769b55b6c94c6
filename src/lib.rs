//! A grid snake simulation: a heading with a no-reversal rule, a chain of
//! segments that follows its head cell by cell, food that is eaten on
//! contact, and growth that places a new segment where the tail used to be.
use vstd::prelude::*;

pub mod game;
pub mod grid;
pub mod input;
pub mod render;

verus! {

/// The steps of a frame that depend on one another, in the order they must
/// run: input before movement, movement before eating, eating before growth.
#[derive(Clone, Copy, Debug, Hash, PartialEq, Eq, Structural)]
pub enum Order {
    Input,
    Movement,
    Eating,
    Growth,
}

} // verus!
