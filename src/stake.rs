//! Stakes: the difficulty tiers of a run.

use vstd::prelude::*;

verus! {

/// Difficulty tier of a run, lowest first.
#[derive(Debug, Clone, Copy, PartialEq, Eq, PartialOrd, Ord, Hash, Structural)]
pub enum Stake {
    White,
    Red,
    Green,
    Black,
    Blue,
    Purple,
    Orange,
    Gold,
}

/// Number of variants of [`Stake`].
pub const STAKE_COUNT: usize = 8;

impl Stake {
    /// The position of the variant in declaration order.
    pub open spec fn index(self) -> nat {
        match self {
            Stake::White => 0,
            Stake::Red => 1,
            Stake::Green => 2,
            Stake::Black => 3,
            Stake::Blue => 4,
            Stake::Purple => 5,
            Stake::Orange => 6,
            Stake::Gold => 7,
        }
    }

    /// The position of the variant in declaration order, as a `usize`.
    pub fn to_index(&self) -> (r: usize)
        ensures
            r == self.index(),
            r < 8,
    {
        match self {
            Stake::White => 0,
            Stake::Red => 1,
            Stake::Green => 2,
            Stake::Black => 3,
            Stake::Blue => 4,
            Stake::Purple => 5,
            Stake::Orange => 6,
            Stake::Gold => 7,
        }
    }

    /// The variant at position `i` in declaration order.
    pub fn from_index(i: usize) -> (r: Stake)
        requires
            i < 8,
        ensures
            r.index() == i,
    {
        match i {
            0 => Stake::White,
            1 => Stake::Red,
            2 => Stake::Green,
            3 => Stake::Black,
            4 => Stake::Blue,
            5 => Stake::Purple,
            6 => Stake::Orange,
            _ => Stake::Gold,
        }
    }
}

} // verus!
