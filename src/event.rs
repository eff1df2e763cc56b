//! Events that jokers react to, and each joker's order per event.

use vstd::prelude::*;

verus! {

/// An event dispatched to the jokers.
#[derive(Debug, Clone, Copy, PartialEq, Eq, Hash, Structural)]
pub enum Event {
    BlindEntered,
    Scored,
    CardScored,
    CardScoredSpade,
    CardScoredHeart,
    CardScoredClub,
    CardScoredDiamond,
}

/// Number of variants of [`Event`].
pub const EVENT_COUNT: usize = 7;

impl Event {
    /// The position of the variant in declaration order.
    pub open spec fn index(self) -> nat {
        match self {
            Event::BlindEntered => 0,
            Event::Scored => 1,
            Event::CardScored => 2,
            Event::CardScoredSpade => 3,
            Event::CardScoredHeart => 4,
            Event::CardScoredClub => 5,
            Event::CardScoredDiamond => 6,
        }
    }

    /// The position of the variant in declaration order, as a `usize`.
    pub fn to_index(&self) -> (r: usize)
        ensures
            r == self.index(),
            r < 7,
    {
        match self {
            Event::BlindEntered => 0,
            Event::Scored => 1,
            Event::CardScored => 2,
            Event::CardScoredSpade => 3,
            Event::CardScoredHeart => 4,
            Event::CardScoredClub => 5,
            Event::CardScoredDiamond => 6,
        }
    }

    /// The variant at position `i` in declaration order.
    pub fn from_index(i: usize) -> (r: Event)
        requires
            i < 7,
        ensures
            r.index() == i,
    {
        match i {
            0 => Event::BlindEntered,
            1 => Event::Scored,
            2 => Event::CardScored,
            3 => Event::CardScoredSpade,
            4 => Event::CardScoredHeart,
            5 => Event::CardScoredClub,
            _ => Event::CardScoredDiamond,
        }
    }
}
/// Per-event dispatch priority of a joker: lower values are visited first.
#[derive(Debug, Clone, PartialEq, Eq)]
pub struct DispatcherOrder {
    pub events: Vec<i64>,
}

impl DispatcherOrder {
    /// Priority zero for every event.
    pub fn new() -> (r: DispatcherOrder)
        ensures
            r.events@.len() == EVENT_COUNT,
            forall|i: int| 0 <= i < EVENT_COUNT ==> r.events@[i] == 0,
    {
        DispatcherOrder { events: vec![0, 0, 0, 0, 0, 0, 0] }
    }
}

} // verus!
