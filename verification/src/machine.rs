//! The render/input cycle as a state machine: on every timer tick the
//! whole block list is redrawn, and an escape keypress terminates the
//! loop. The machine decides; performing the draw and fetching the next
//! event are the callers' side.

use vstd::prelude::*;
use crate::cell::{Block, Pixel};

verus! {

/// A key, as far as the loop cares: escape ends it, anything else is
/// ignored.
#[derive(Clone, Copy, PartialEq, Eq, Structural, Debug)]
pub enum Key {
    Esc,
    Char(char),
    Other,
}

/// One event handed to the loop: a timer tick, a keypress, or anything
/// else the event source produces (a resize, for instance).
#[derive(Clone, Copy, PartialEq, Eq, Structural, Debug)]
pub enum Event {
    Tick,
    Key(Key),
    Other,
}

/// The loop's state: it runs until the escape key arrives.
#[derive(Clone, Copy, PartialEq, Eq, Structural, Debug)]
pub enum Status {
    Running,
    Terminated,
}

/// What the loop does in reaction to one event.
#[derive(Clone, Copy, PartialEq, Eq, Structural, Debug)]
pub enum Action {
    /// Redraw the whole block list and flush it to the output target.
    Draw,
    /// Do nothing and wait for the next event.
    Ignore,
}

/// The transition relation: a tick draws, escape terminates, every other
/// event is a no-op; a terminated machine reacts to nothing.
pub open spec fn step_spec(s: Status, ev: Event) -> (Status, Action) {
    if s is Terminated {
        (Status::Terminated, Action::Ignore)
    } else {
        match ev {
            Event::Tick => (Status::Running, Action::Draw),
            Event::Key(k) => if k is Esc {
                (Status::Terminated, Action::Ignore)
            } else {
                (Status::Running, Action::Ignore)
            },
            Event::Other => (Status::Running, Action::Ignore),
        }
    }
}

/// Handles one event: the next state and the action the caller must
/// perform, exactly as `step_spec` says.
pub fn step(s: Status, ev: Event) -> (r: (Status, Action))
    ensures
        r == step_spec(s, ev),
{
    match s {
        Status::Terminated => (Status::Terminated, Action::Ignore),
        Status::Running => match ev {
            Event::Tick => (Status::Running, Action::Draw),
            Event::Key(Key::Esc) => (Status::Terminated, Action::Ignore),
            Event::Key(_) => (Status::Running, Action::Ignore),
            Event::Other => (Status::Running, Action::Ignore),
        },
    }
}

/// How many full redraws a fresh machine performs on this event
/// sequence: one per tick strictly before the first escape key.
pub open spec fn draws_of(evs: Seq<Event>) -> int
    decreases evs.len(),
{
    if evs.len() == 0 {
        0
    } else if evs[0] == Event::Key(Key::Esc) {
        0
    } else if evs[0] == Event::Tick {
        1 + draws_of(evs.drop_first())
    } else {
        draws_of(evs.drop_first())
    }
}

/// Whether the sequence holds an escape keypress.
pub open spec fn has_esc(evs: Seq<Event>) -> bool {
    exists|k: int| 0 <= k < evs.len() && evs[k] == Event::Key(Key::Esc)
}

/// Runs a fresh machine over a whole event sequence, stopping at the
/// first escape key, and counts the draws it performed. The machine ends
/// terminated exactly when the sequence holds an escape key, and draws
/// once per tick before the first one.
pub fn run_events(evs: &Vec<Event>) -> (r: (Status, usize))
    ensures
        r.1 as int == draws_of(evs@),
        r.0 is Terminated <==> has_esc(evs@),
{
    let mut s = Status::Running;
    let mut draws: usize = 0;
    let mut i: usize = 0;
    proof {
        assert(evs@.skip(0) =~= evs@);
    }
    while i < evs.len() && s == Status::Running
        invariant
            i <= evs@.len(),
            draws <= i,
            s is Terminated ==> i >= 1 && evs@[i as int - 1] == Event::Key(Key::Esc),
            s is Running ==> forall|k: int| 0 <= k < i ==> evs@[k] != Event::Key(Key::Esc),
            s is Running ==> draws_of(evs@) == draws + draws_of(evs@.skip(i as int)),
            s is Terminated ==> draws_of(evs@) == draws,
        decreases evs@.len() - i,
    {
        let ev = evs[i];
        proof {
            assert(evs@.skip(i as int)[0] == evs@[i as int]);
            assert(evs@.skip(i as int).drop_first() =~= evs@.skip(i as int + 1));
        }
        let (s2, action) = step(s, ev);
        s = s2;
        if action == Action::Draw {
            draws = draws + 1;
        }
        i = i + 1;
    }
    proof {
        if i == evs@.len() && s is Running {
            assert(evs@.skip(i as int) =~= Seq::<Event>::empty());
        }
    }
    (s, draws)
}

/// The pixels a tick writes into the viewport, in order: for each block
/// of the list in turn, its left cell then its right cell.
pub open spec fn is_draw_order(blocks: Seq<Block>, pxs: Seq<Pixel>) -> bool {
    &&& pxs.len() == 2 * blocks.len()
    &&& forall|j: int|
        0 <= j < blocks.len() ==> pxs[2 * j] == blocks[j].left && pxs[2 * j + 1]
            == blocks[j].right
}

/// Flattens the block list into the sequence of cells one full redraw
/// writes, in drawing order.
pub fn draw_order(blocks: &Vec<Block>) -> (pxs: Vec<Pixel>)
    ensures
        is_draw_order(blocks@, pxs@),
{
    let mut pxs: Vec<Pixel> = Vec::new();
    let mut i: usize = 0;
    while i < blocks.len()
        invariant
            i <= blocks@.len(),
            pxs@.len() == 2 * i,
            forall|j: int|
                0 <= j < i ==> pxs@[2 * j] == blocks@[j].left && pxs@[2 * j + 1]
                    == blocks@[j].right,
        decreases blocks@.len() - i,
    {
        let b = blocks[i];
        pxs.push(b.left);
        pxs.push(b.right);
        i = i + 1;
    }
    pxs
}

} // verus!
