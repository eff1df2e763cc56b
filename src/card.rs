//! Playing cards: ranks, suits and the modifiers a card can carry.

use vstd::prelude::*;

verus! {

/// Rank of a playing card, from two up to ace.
#[derive(Debug, Clone, Copy, PartialEq, Eq, PartialOrd, Ord, Hash, Structural)]
pub enum Rank {
    Rank2,
    Rank3,
    Rank4,
    Rank5,
    Rank6,
    Rank7,
    Rank8,
    Rank9,
    Rank10,
    Jack,
    Queen,
    King,
    Ace,
}

/// Number of variants of [`Rank`].
pub const RANK_COUNT: usize = 13;

impl Rank {
    /// The position of the rank from two (0) up to ace (12).
    pub open spec fn index(self) -> nat {
        match self {
            Rank::Rank2 => 0,
            Rank::Rank3 => 1,
            Rank::Rank4 => 2,
            Rank::Rank5 => 3,
            Rank::Rank6 => 4,
            Rank::Rank7 => 5,
            Rank::Rank8 => 6,
            Rank::Rank9 => 7,
            Rank::Rank10 => 8,
            Rank::Jack => 9,
            Rank::Queen => 10,
            Rank::King => 11,
            Rank::Ace => 12,
        }
    }

    /// The position of the rank from two (0) up to ace (12), as a `usize`.
    pub fn to_index(&self) -> (r: usize)
        ensures
            r == self.index(),
            r < 13,
    {
        match self {
            Rank::Rank2 => 0,
            Rank::Rank3 => 1,
            Rank::Rank4 => 2,
            Rank::Rank5 => 3,
            Rank::Rank6 => 4,
            Rank::Rank7 => 5,
            Rank::Rank8 => 6,
            Rank::Rank9 => 7,
            Rank::Rank10 => 8,
            Rank::Jack => 9,
            Rank::Queen => 10,
            Rank::King => 11,
            Rank::Ace => 12,
        }
    }

    /// The variant at position `i` in declaration order.
    pub fn from_index(i: usize) -> (r: Rank)
        requires
            i < 13,
        ensures
            r.index() == i,
    {
        match i {
            0 => Rank::Rank2,
            1 => Rank::Rank3,
            2 => Rank::Rank4,
            3 => Rank::Rank5,
            4 => Rank::Rank6,
            5 => Rank::Rank7,
            6 => Rank::Rank8,
            7 => Rank::Rank9,
            8 => Rank::Rank10,
            9 => Rank::Jack,
            10 => Rank::Queen,
            11 => Rank::King,
            _ => Rank::Ace,
        }
    }
}
/// Suit of a playing card.
#[derive(Debug, Clone, Copy, PartialEq, Eq, PartialOrd, Ord, Hash, Structural)]
pub enum Suit {
    Spade,
    Heart,
    Club,
    Diamond,
}

/// Number of variants of [`Suit`].
pub const SUIT_COUNT: usize = 4;

impl Suit {
    /// The position of the variant in declaration order.
    pub open spec fn index(self) -> nat {
        match self {
            Suit::Spade => 0,
            Suit::Heart => 1,
            Suit::Club => 2,
            Suit::Diamond => 3,
        }
    }

    /// The position of the variant in declaration order, as a `usize`.
    pub fn to_index(&self) -> (r: usize)
        ensures
            r == self.index(),
            r < 4,
    {
        match self {
            Suit::Spade => 0,
            Suit::Heart => 1,
            Suit::Club => 2,
            Suit::Diamond => 3,
        }
    }

    /// The variant at position `i` in declaration order.
    pub fn from_index(i: usize) -> (r: Suit)
        requires
            i < 4,
        ensures
            r.index() == i,
    {
        match i {
            0 => Suit::Spade,
            1 => Suit::Heart,
            2 => Suit::Club,
            _ => Suit::Diamond,
        }
    }
}
/// Enhancement applied to a playing card.
#[derive(Debug, Clone, Copy, PartialEq, Eq, Hash, Structural)]
pub enum Enhancement {
    Plain,
    BonusCard,
    MultCard,
    WildCard,
    GlassCard,
    SteelCard,
    StoneCard,
    GoldCard,
    LuckyCard,
}

/// Number of variants of [`Enhancement`].
pub const ENHANCEMENT_COUNT: usize = 9;

impl Enhancement {
    /// The position of the variant in declaration order.
    pub open spec fn index(self) -> nat {
        match self {
            Enhancement::Plain => 0,
            Enhancement::BonusCard => 1,
            Enhancement::MultCard => 2,
            Enhancement::WildCard => 3,
            Enhancement::GlassCard => 4,
            Enhancement::SteelCard => 5,
            Enhancement::StoneCard => 6,
            Enhancement::GoldCard => 7,
            Enhancement::LuckyCard => 8,
        }
    }

    /// The position of the variant in declaration order, as a `usize`.
    pub fn to_index(&self) -> (r: usize)
        ensures
            r == self.index(),
            r < 9,
    {
        match self {
            Enhancement::Plain => 0,
            Enhancement::BonusCard => 1,
            Enhancement::MultCard => 2,
            Enhancement::WildCard => 3,
            Enhancement::GlassCard => 4,
            Enhancement::SteelCard => 5,
            Enhancement::StoneCard => 6,
            Enhancement::GoldCard => 7,
            Enhancement::LuckyCard => 8,
        }
    }

    /// The variant at position `i` in declaration order.
    pub fn from_index(i: usize) -> (r: Enhancement)
        requires
            i < 9,
        ensures
            r.index() == i,
    {
        match i {
            0 => Enhancement::Plain,
            1 => Enhancement::BonusCard,
            2 => Enhancement::MultCard,
            3 => Enhancement::WildCard,
            4 => Enhancement::GlassCard,
            5 => Enhancement::SteelCard,
            6 => Enhancement::StoneCard,
            7 => Enhancement::GoldCard,
            _ => Enhancement::LuckyCard,
        }
    }
}
/// Edition of a playing card.
#[derive(Debug, Clone, Copy, PartialEq, Eq, Hash, Structural)]
pub enum Edition {
    Base,
    Foil,
    Holographic,
    Polychrome,
}

/// Number of variants of [`Edition`].
pub const EDITION_COUNT: usize = 4;

impl Edition {
    /// The position of the variant in declaration order.
    pub open spec fn index(self) -> nat {
        match self {
            Edition::Base => 0,
            Edition::Foil => 1,
            Edition::Holographic => 2,
            Edition::Polychrome => 3,
        }
    }

    /// The position of the variant in declaration order, as a `usize`.
    pub fn to_index(&self) -> (r: usize)
        ensures
            r == self.index(),
            r < 4,
    {
        match self {
            Edition::Base => 0,
            Edition::Foil => 1,
            Edition::Holographic => 2,
            Edition::Polychrome => 3,
        }
    }

    /// The variant at position `i` in declaration order.
    pub fn from_index(i: usize) -> (r: Edition)
        requires
            i < 4,
        ensures
            r.index() == i,
    {
        match i {
            0 => Edition::Base,
            1 => Edition::Foil,
            2 => Edition::Holographic,
            _ => Edition::Polychrome,
        }
    }
}
/// Seal on a playing card.
#[derive(Debug, Clone, Copy, PartialEq, Eq, Hash, Structural)]
pub enum Seal {
    Unsealed,
    Gold,
    Red,
    Blue,
    Purple,
}

/// Number of variants of [`Seal`].
pub const SEAL_COUNT: usize = 5;

impl Seal {
    /// The position of the variant in declaration order.
    pub open spec fn index(self) -> nat {
        match self {
            Seal::Unsealed => 0,
            Seal::Gold => 1,
            Seal::Red => 2,
            Seal::Blue => 3,
            Seal::Purple => 4,
        }
    }

    /// The position of the variant in declaration order, as a `usize`.
    pub fn to_index(&self) -> (r: usize)
        ensures
            r == self.index(),
            r < 5,
    {
        match self {
            Seal::Unsealed => 0,
            Seal::Gold => 1,
            Seal::Red => 2,
            Seal::Blue => 3,
            Seal::Purple => 4,
        }
    }

    /// The variant at position `i` in declaration order.
    pub fn from_index(i: usize) -> (r: Seal)
        requires
            i < 5,
        ensures
            r.index() == i,
    {
        match i {
            0 => Seal::Unsealed,
            1 => Seal::Gold,
            2 => Seal::Red,
            3 => Seal::Blue,
            _ => Seal::Purple,
        }
    }
}
/// Chip value a fresh card of rank `r` is worth when scored.
pub open spec fn rank_chips(r: Rank) -> nat {
    match r {
        Rank::Rank2 => 2,
        Rank::Rank3 => 3,
        Rank::Rank4 => 4,
        Rank::Rank5 => 5,
        Rank::Rank6 => 6,
        Rank::Rank7 => 7,
        Rank::Rank8 => 8,
        Rank::Rank9 => 9,
        Rank::Rank10 | Rank::Jack | Rank::Queen | Rank::King => 10,
        Rank::Ace => 11,
    }
}

impl Rank {
    /// Jack, queen and king are face cards.
    pub open spec fn face(self) -> bool {
        self == Rank::Jack || self == Rank::Queen || self == Rank::King
    }

    pub fn is_face_card(&self) -> (r: bool)
        ensures
            r == self.face(),
    {
        match self {
            Rank::Jack | Rank::Queen | Rank::King => true,
            _ => false,
        }
    }
}

/// A fresh card of the given suit and rank: no enhancement, base edition, no
/// seal, worth its rank's chips.
pub open spec fn plain_card(suit: Suit, rank: Rank) -> Card {
    Card {
        rank,
        suit,
        enhancement: Enhancement::Plain,
        edition: Edition::Base,
        seal: Seal::Unsealed,
        chips: rank_chips(rank) as u32,
    }
}

/// A playing card.
#[derive(Debug, Clone, Copy, PartialEq, Eq, Hash, Structural)]
pub struct Card {
    pub rank: Rank,
    pub suit: Suit,
    pub enhancement: Enhancement,
    pub edition: Edition,
    pub seal: Seal,
    pub chips: u32,
}

impl Card {
    /// A plain card of the given suit and rank, worth its rank's chips.
    pub fn new(suit: Suit, rank: Rank) -> (r: Card)
        ensures
            r == plain_card(suit, rank),
    {
        let chips: u32 = match rank {
            Rank::Rank2 => 2,
            Rank::Rank3 => 3,
            Rank::Rank4 => 4,
            Rank::Rank5 => 5,
            Rank::Rank6 => 6,
            Rank::Rank7 => 7,
            Rank::Rank8 => 8,
            Rank::Rank9 => 9,
            Rank::Rank10 | Rank::Jack | Rank::Queen | Rank::King => 10,
            Rank::Ace => 11,
        };
        Card {
            rank,
            suit,
            enhancement: Enhancement::Plain,
            edition: Edition::Base,
            seal: Seal::Unsealed,
            chips,
        }
    }

    /// A card counts as a suit when it has that suit or is a wild card.
    pub open spec fn counts_as(self, suit: Suit) -> bool {
        self.suit == suit || self.enhancement == Enhancement::WildCard
    }

    pub fn is_suit(&self, suit: Suit) -> (r: bool)
        ensures
            r == self.counts_as(suit),
    {
        self.suit == suit || self.enhancement == Enhancement::WildCard
    }
}

/// The suits a scored card counts as, one flag per suit.
#[derive(Debug, Clone, Copy, PartialEq, Eq, Structural)]
pub struct MultiSuit {
    pub spade: bool,
    pub heart: bool,
    pub club: bool,
    pub diamond: bool,
}

/// Ranks in the order of their names' alphabetical order, as the game lists them.
pub fn alphabetical_rank_order() -> (r: Vec<Rank>)
    ensures
        r@ == seq![
            Rank::Rank2, Rank::Rank3, Rank::Rank4, Rank::Rank5, Rank::Rank6, Rank::Rank7,
            Rank::Rank8, Rank::Rank9, Rank::Ace, Rank::Jack, Rank::King, Rank::Queen, Rank::Rank10,
        ],
{
    vec![
        Rank::Rank2, Rank::Rank3, Rank::Rank4, Rank::Rank5, Rank::Rank6, Rank::Rank7,
        Rank::Rank8, Rank::Rank9, Rank::Ace, Rank::Jack, Rank::King, Rank::Queen, Rank::Rank10,
    ]
}

/// Suits in alphabetical order of their names.
pub fn alphabetical_suit_order() -> (r: Vec<Suit>)
    ensures
        r@ == seq![Suit::Club, Suit::Diamond, Suit::Heart, Suit::Spade],
{
    vec![Suit::Club, Suit::Diamond, Suit::Heart, Suit::Spade]
}

} // verus!
