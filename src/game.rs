//! The simulation state and its per-tick steps: movement, eating and growth.
use vstd::prelude::*;

use crate::grid::{step, stepped, Direction, Location, GRID_SIZE};
use crate::input::{resolve_direction, resolved, HeldKeys};

verus! {

/// The whole simulation: the chain of segments from head to tail, the
/// heading, where the tail was before the last move, the food on the field
/// and the number of growth signals not yet handled.
pub struct Snake {
    /// Cells of the segments, the head first. The chain holds at least the
    /// head once the game has started.
    pub segments: Vec<Location>,
    /// Heading of the head.
    pub direction: Direction,
    /// Cell of the last segment before the most recent move, if any.
    pub tail_end: Option<Location>,
    /// Cells that hold food, each entry one piece of food.
    pub foods: Vec<Location>,
    /// Growth signals raised by eating and not yet handled.
    pub grow_events: usize,
}

/// The mathematical value of a [`Snake`].
pub struct SnakeModel {
    pub segments: Seq<Location>,
    pub direction: Direction,
    pub tail_end: Option<Location>,
    pub foods: Seq<Location>,
    pub grow_events: nat,
}

impl View for Snake {
    type V = SnakeModel;

    open spec fn view(&self) -> SnakeModel {
        SnakeModel {
            segments: self.segments@,
            direction: self.direction,
            tail_end: self.tail_end,
            foods: self.foods@,
            grow_events: self.grow_events as nat,
        }
    }
}

/// Holds of every food that is not at cell `h`.
pub open spec fn not_at(h: Location) -> spec_fn(Location) -> bool {
    |f: Location| f != h
}

/// `loc` is a cell of the play field.
pub open spec fn in_grid(loc: Location) -> bool {
    0 <= loc.x < GRID_SIZE && 0 <= loc.y < GRID_SIZE
}

/// Relies on rand's `thread_rng` and `Rng::gen_range`: on the non-empty range
/// `0..n` the draw is a value of that range (`gen_range` panics only on an
/// empty range).
#[verifier::external_body]
fn random_below(n: u32) -> (r: u32)
    requires
        n > 0,
    ensures
        r < n,
{
    rand::Rng::gen_range(&mut rand::thread_rng(), 0..n)
}

/// Holds of every food that is at cell `h`.
pub open spec fn at(h: Location) -> spec_fn(Location) -> bool {
    |f: Location| f == h
}

/// The state after the heading is set from the keys held in a frame.
/// Without a head nothing changes.
pub open spec fn steered(s: SnakeModel, keys: HeldKeys) -> SnakeModel {
    if s.segments.len() == 0 {
        s
    } else {
        SnakeModel { direction: resolved(keys, s.direction), ..s }
    }
}

/// The state after one movement step. Without a head nothing changes.
/// Otherwise the tail's cell is kept as the tail end, the head steps one cell
/// along the heading, and every other segment takes the cell that the segment
/// ahead of it held before the step.
pub open spec fn moved(s: SnakeModel) -> SnakeModel {
    if s.segments.len() == 0 {
        s
    } else {
        SnakeModel {
            segments: seq![stepped(s.segments[0], s.direction)] + s.segments.drop_last(),
            tail_end: Some(s.segments.last()),
            ..s
        }
    }
}

/// The state after the head eats. Without a head nothing changes. Otherwise
/// every food at the head's cell is removed, the others stay in order, and
/// one growth signal is raised for each food removed.
pub open spec fn eaten(s: SnakeModel) -> SnakeModel {
    if s.segments.len() == 0 {
        s
    } else {
        let left = s.foods.filter(not_at(s.segments[0]));
        SnakeModel {
            foods: left,
            grow_events: s.grow_events + (s.foods.len() - left.len()) as nat,
            ..s
        }
    }
}

/// The state after the growth step. With no signal pending nothing changes.
/// Otherwise one segment is added at the tail end (if a move has recorded
/// one) and all pending signals are cleared.
pub open spec fn grown(s: SnakeModel) -> SnakeModel {
    if s.grow_events == 0 {
        s
    } else {
        SnakeModel {
            segments: match s.tail_end {
                Some(t) => s.segments.push(t),
                None => s.segments,
            },
            grow_events: 0,
            ..s
        }
    }
}

/// One tick of the simulation: move, then eat, then grow.
pub open spec fn ticked(s: SnakeModel) -> SnakeModel {
    grown(eaten(moved(s)))
}

/// After a movement step the chain keeps its length, the head stands one
/// step along the heading from where it was, and each other segment stands
/// where the segment ahead of it stood before the step.
pub proof fn lemma_move_follows(s: SnakeModel)
    requires
        s.segments.len() >= 1,
    ensures
        moved(s).segments.len() == s.segments.len(),
        moved(s).segments[0] == stepped(s.segments[0], s.direction),
        forall|i: int| 1 <= i < s.segments.len() ==> moved(s).segments[i] == s.segments[i - 1],
{
}

/// After a movement step the tail end is the cell the last segment held
/// before the step.
pub proof fn lemma_move_records_tail(s: SnakeModel)
    requires
        s.segments.len() >= 1,
    ensures
        moved(s).tail_end == Some(s.segments.last()),
{
}

/// In a tick, growth adds exactly one segment, at the cell the tail held
/// before that tick's move, and only when eating raised a signal; otherwise
/// the chain is the moved chain.
pub proof fn lemma_growth_at_old_tail(s: SnakeModel)
    requires
        s.segments.len() >= 1,
    ensures
        eaten(moved(s)).grow_events > 0 ==> ticked(s).segments == moved(s).segments.push(
            s.segments.last(),
        ),
        eaten(moved(s)).grow_events > 0 ==> ticked(s).segments.len() == s.segments.len() + 1,
        eaten(moved(s)).grow_events == 0 ==> ticked(s).segments == moved(s).segments,
        ticked(s).grow_events == 0,
{
}

/// The foods at cell `h` and the foods elsewhere together make up all the
/// foods.
proof fn lemma_filter_split(foods: Seq<Location>, h: Location)
    ensures
        foods.filter(at(h)).len() + foods.filter(not_at(h)).len() == foods.len(),
    decreases foods.len(),
{
    reveal_with_fuel(Seq::filter, 1);
    if foods.len() > 0 {
        lemma_filter_split(foods.drop_last(), h);
    }
}

/// Eating removes every food at the head's cell, keeps every other food,
/// and raises exactly one growth signal for each food it removes.
pub proof fn lemma_eating(s: SnakeModel)
    requires
        s.segments.len() >= 1,
    ensures
        !eaten(s).foods.contains(s.segments[0]),
        forall|f: Location| #[trigger]
            s.foods.contains(f) && f != s.segments[0] ==> eaten(s).foods.contains(f),
        eaten(s).grow_events == s.grow_events + s.foods.filter(at(s.segments[0])).len(),
        s.foods.contains(s.segments[0]) ==> eaten(s).grow_events > s.grow_events,
        s.foods.filter(at(s.segments[0])).len() == 1 ==> eaten(s).grow_events == s.grow_events
            + 1,
{
    let h = s.segments[0];
    let left = s.foods.filter(not_at(h));
    lemma_filter_split(s.foods, h);
    if left.contains(h) {
        let i = choose|i: int| 0 <= i < left.len() && left[i] == h;
        s.foods.lemma_filter_pred(not_at(h), i);
    }
    assert forall|f: Location| #[trigger] s.foods.contains(f) && f != h implies left.contains(f) by {
        let i = choose|i: int| 0 <= i < s.foods.len() && s.foods[i] == f;
        s.foods.lemma_filter_contains(not_at(h), i);
    }
    if s.foods.contains(h) {
        let i = choose|i: int| 0 <= i < s.foods.len() && s.foods[i] == h;
        s.foods.lemma_filter_contains(at(h), i);
    }
}

impl Snake {
    /// The chain holds its head.
    pub open spec fn wf(&self) -> bool {
        self.segments.len() >= 1
    }

    /// The state at the start of a game: the head at (8, 8) heading up, one
    /// body segment at (8, 7), no food and nothing pending.
    pub fn new() -> (r: Snake)
        ensures
            r.wf(),
            r@.segments == seq![Location { x: 8, y: 8 }, Location { x: 8, y: 7 }],
            r@.direction == Direction::Up,
            r@.tail_end.is_none(),
            r@.foods.len() == 0,
            r@.grow_events == 0,
    {
        Snake {
            segments: vec![Location { x: 8, y: 8 }, Location { x: 8, y: 7 }],
            direction: Direction::Up,
            tail_end: None,
            foods: Vec::new(),
            grow_events: 0,
        }
    }

    /// Sets the heading from the keys held in this frame; a key that would
    /// turn the snake straight back is ignored. Without a head nothing
    /// changes.
    pub fn change_direction(&mut self, keys: HeldKeys)
        ensures
            final(self)@ == steered(old(self)@, keys),
    {
        if self.segments.len() > 0 {
            self.direction = resolve_direction(keys, self.direction);
        }
    }

    /// Moves the head one cell and lets each other segment follow into the
    /// cell of the one ahead of it, recording the old tail cell.
    pub fn move_head(&mut self)
        ensures
            final(self)@ == moved(old(self)@),
            old(self).wf() ==> final(self).wf(),
    {
        let n = self.segments.len();
        if n == 0 {
            return;
        }
        let mut next: Vec<Location> = Vec::new();
        next.push(step(self.segments[0], self.direction));
        let mut i: usize = 0;
        while i + 1 < n
            invariant
                n == self.segments.len(),
                0 <= i < n,
                next@ == seq![stepped(self.segments@[0], self.direction)] + self.segments@.take(
                    i as int,
                ),
            decreases n - i,
        {
            next.push(self.segments[i]);
            i = i + 1;
            assert(next@ =~= seq![stepped(self.segments@[0], self.direction)]
                + self.segments@.take(i as int));
        }
        assert(self.segments@.take(i as int) =~= self.segments@.drop_last());
        self.tail_end = Some(self.segments[n - 1]);
        self.segments = next;
    }

    /// Removes every food at the head's cell and raises one growth signal for
    /// each food removed.
    pub fn eat(&mut self)
        requires
            old(self).grow_events + old(self).foods.len() <= usize::MAX,
        ensures
            final(self)@ == eaten(old(self)@),
    {
        if self.segments.len() == 0 {
            return;
        }
        let head = self.segments[0];
        let ghost pred = not_at(head);
        let mut left: Vec<Location> = Vec::new();
        let mut i: usize = 0;
        while i < self.foods.len()
            invariant
                0 <= i <= self.foods.len(),
                pred == not_at(head),
                left@ == self.foods@.take(i as int).filter(pred),
                left.len() <= i,
            decreases self.foods.len() - i,
        {
            let f = self.foods[i];
            proof {
                let t = self.foods@.take(i as int + 1);
                assert(t.drop_last() =~= self.foods@.take(i as int));
                assert(t.len() == i + 1);
                assert(t.last() == f);
                reveal_with_fuel(Seq::filter, 1);
                assert(pred(f) == (f != head));
                assert(t.filter(pred) == if pred(f) {
                    t.drop_last().filter(pred).push(f)
                } else {
                    t.drop_last().filter(pred)
                });
            }
            if f != head {
                left.push(f);
            }
            i = i + 1;
        }
        assert(self.foods@.take(i as int) =~= self.foods@);
        let removed = self.foods.len() - left.len();
        self.grow_events = self.grow_events + removed;
        self.foods = left;
    }

    /// Handles the pending growth signals: if any is pending, one segment is
    /// added at the recorded tail end and the signals are cleared.
    pub fn grow(&mut self)
        ensures
            final(self)@ == grown(old(self)@),
            old(self).wf() ==> final(self).wf(),
    {
        if self.grow_events > 0 {
            if let Some(t) = self.tail_end {
                self.segments.push(t);
            }
            self.grow_events = 0;
        }
    }

    /// One tick of the simulation: move, then eat, then grow.
    pub fn tick(&mut self)
        requires
            old(self).grow_events + old(self).foods.len() <= usize::MAX,
        ensures
            final(self)@ == ticked(old(self)@),
            old(self).wf() ==> final(self).wf(),
    {
        self.move_head();
        self.eat();
        self.grow();
    }

    /// Puts a piece of food at `loc`.
    pub fn add_food(&mut self, loc: Location)
        ensures
            final(self)@ == (SnakeModel { foods: old(self)@.foods.push(loc), ..old(self)@ }),
    {
        self.foods.push(loc);
    }

    /// Puts a piece of food at a random cell of the field, whatever food or
    /// segments are already there.
    pub fn spawn_food(&mut self)
        ensures
            in_grid(final(self)@.foods.last()),
            final(self)@ == (SnakeModel {
                foods: old(self)@.foods.push(final(self)@.foods.last()),
                ..old(self)@
            }),
    {
        let x = random_below(GRID_SIZE as u32);
        let y = random_below(GRID_SIZE as u32);
        self.add_food(Location { x: x as i32, y: y as i32 });
    }
}

} // verus!
