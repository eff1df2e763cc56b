//! Consumable cards: tarots, planets and spectrals.

use crate::hands::HandType;
use vstd::prelude::*;

verus! {

/// A tarot card.
#[derive(Debug, Clone, Copy, PartialEq, Eq, Hash, Structural)]
pub enum Tarot {
    TheFool,
    TheMagician,
    TheHighPriestess,
    TheEmpress,
    TheEmperor,
    TheHierophant,
    TheLovers,
    TheChariot,
    Justice,
    TheHermit,
    TheWheelOfFortune,
    Strength,
    TheHangedMan,
    Death,
    Temperance,
    TheDevil,
    TheTower,
    TheStar,
    TheMoon,
    TheSun,
    Judgement,
    TheWorld,
}

/// Number of variants of [`Tarot`].
pub const TAROT_COUNT: usize = 22;

impl Tarot {
    /// The position of the variant in declaration order.
    pub open spec fn index(self) -> nat {
        match self {
            Tarot::TheFool => 0,
            Tarot::TheMagician => 1,
            Tarot::TheHighPriestess => 2,
            Tarot::TheEmpress => 3,
            Tarot::TheEmperor => 4,
            Tarot::TheHierophant => 5,
            Tarot::TheLovers => 6,
            Tarot::TheChariot => 7,
            Tarot::Justice => 8,
            Tarot::TheHermit => 9,
            Tarot::TheWheelOfFortune => 10,
            Tarot::Strength => 11,
            Tarot::TheHangedMan => 12,
            Tarot::Death => 13,
            Tarot::Temperance => 14,
            Tarot::TheDevil => 15,
            Tarot::TheTower => 16,
            Tarot::TheStar => 17,
            Tarot::TheMoon => 18,
            Tarot::TheSun => 19,
            Tarot::Judgement => 20,
            Tarot::TheWorld => 21,
        }
    }

    /// The position of the variant in declaration order, as a `usize`.
    pub fn to_index(&self) -> (r: usize)
        ensures
            r == self.index(),
            r < 22,
    {
        match self {
            Tarot::TheFool => 0,
            Tarot::TheMagician => 1,
            Tarot::TheHighPriestess => 2,
            Tarot::TheEmpress => 3,
            Tarot::TheEmperor => 4,
            Tarot::TheHierophant => 5,
            Tarot::TheLovers => 6,
            Tarot::TheChariot => 7,
            Tarot::Justice => 8,
            Tarot::TheHermit => 9,
            Tarot::TheWheelOfFortune => 10,
            Tarot::Strength => 11,
            Tarot::TheHangedMan => 12,
            Tarot::Death => 13,
            Tarot::Temperance => 14,
            Tarot::TheDevil => 15,
            Tarot::TheTower => 16,
            Tarot::TheStar => 17,
            Tarot::TheMoon => 18,
            Tarot::TheSun => 19,
            Tarot::Judgement => 20,
            Tarot::TheWorld => 21,
        }
    }

    /// The variant at position `i` in declaration order.
    pub fn from_index(i: usize) -> (r: Tarot)
        requires
            i < 22,
        ensures
            r.index() == i,
    {
        match i {
            0 => Tarot::TheFool,
            1 => Tarot::TheMagician,
            2 => Tarot::TheHighPriestess,
            3 => Tarot::TheEmpress,
            4 => Tarot::TheEmperor,
            5 => Tarot::TheHierophant,
            6 => Tarot::TheLovers,
            7 => Tarot::TheChariot,
            8 => Tarot::Justice,
            9 => Tarot::TheHermit,
            10 => Tarot::TheWheelOfFortune,
            11 => Tarot::Strength,
            12 => Tarot::TheHangedMan,
            13 => Tarot::Death,
            14 => Tarot::Temperance,
            15 => Tarot::TheDevil,
            16 => Tarot::TheTower,
            17 => Tarot::TheStar,
            18 => Tarot::TheMoon,
            19 => Tarot::TheSun,
            20 => Tarot::Judgement,
            _ => Tarot::TheWorld,
        }
    }
}
/// A spectral card.
#[derive(Debug, Clone, Copy, PartialEq, Eq, Hash, Structural)]
pub enum Spectral {
    Familiar,
    Grim,
    Incantation,
    Talisman,
    Aura,
    Wraith,
    Sigil,
    Ouija,
    Ectoplasm,
    Immolate,
    Ankh,
    DejaVu,
    Hex,
    Trance,
    Medium,
    Cryptid,
    TheSoul,
    BlackHole,
}

/// Number of variants of [`Spectral`].
pub const SPECTRAL_COUNT: usize = 18;

impl Spectral {
    /// The position of the variant in declaration order.
    pub open spec fn index(self) -> nat {
        match self {
            Spectral::Familiar => 0,
            Spectral::Grim => 1,
            Spectral::Incantation => 2,
            Spectral::Talisman => 3,
            Spectral::Aura => 4,
            Spectral::Wraith => 5,
            Spectral::Sigil => 6,
            Spectral::Ouija => 7,
            Spectral::Ectoplasm => 8,
            Spectral::Immolate => 9,
            Spectral::Ankh => 10,
            Spectral::DejaVu => 11,
            Spectral::Hex => 12,
            Spectral::Trance => 13,
            Spectral::Medium => 14,
            Spectral::Cryptid => 15,
            Spectral::TheSoul => 16,
            Spectral::BlackHole => 17,
        }
    }

    /// The position of the variant in declaration order, as a `usize`.
    pub fn to_index(&self) -> (r: usize)
        ensures
            r == self.index(),
            r < 18,
    {
        match self {
            Spectral::Familiar => 0,
            Spectral::Grim => 1,
            Spectral::Incantation => 2,
            Spectral::Talisman => 3,
            Spectral::Aura => 4,
            Spectral::Wraith => 5,
            Spectral::Sigil => 6,
            Spectral::Ouija => 7,
            Spectral::Ectoplasm => 8,
            Spectral::Immolate => 9,
            Spectral::Ankh => 10,
            Spectral::DejaVu => 11,
            Spectral::Hex => 12,
            Spectral::Trance => 13,
            Spectral::Medium => 14,
            Spectral::Cryptid => 15,
            Spectral::TheSoul => 16,
            Spectral::BlackHole => 17,
        }
    }

    /// The variant at position `i` in declaration order.
    pub fn from_index(i: usize) -> (r: Spectral)
        requires
            i < 18,
        ensures
            r.index() == i,
    {
        match i {
            0 => Spectral::Familiar,
            1 => Spectral::Grim,
            2 => Spectral::Incantation,
            3 => Spectral::Talisman,
            4 => Spectral::Aura,
            5 => Spectral::Wraith,
            6 => Spectral::Sigil,
            7 => Spectral::Ouija,
            8 => Spectral::Ectoplasm,
            9 => Spectral::Immolate,
            10 => Spectral::Ankh,
            11 => Spectral::DejaVu,
            12 => Spectral::Hex,
            13 => Spectral::Trance,
            14 => Spectral::Medium,
            15 => Spectral::Cryptid,
            16 => Spectral::TheSoul,
            _ => Spectral::BlackHole,
        }
    }
}
/// Planet cards level up a hand category; each is named by the category it levels.
pub type Planet = HandType;

/// A consumable card.
#[derive(Debug, Clone, Copy, PartialEq, Eq, Structural)]
pub enum Consumable {
    TarotCard(Tarot),
    PlanetCard(Planet),
    SpectralCard(Spectral),
}

/// Name of the planet card that levels category `h`.
pub open spec fn planet_name(h: HandType) -> &'static str {
    match h {
        HandType::HighCard => "Pluto",
        HandType::Pair => "Mercury",
        HandType::TwoPair => "Uranus",
        HandType::ThreeOfAKind => "Venus",
        HandType::Straight => "Saturn",
        HandType::Flush => "Jupiter",
        HandType::FullHouse => "Earth",
        HandType::FourOfAKind => "Mars",
        HandType::StraightFlush => "Neptune",
        HandType::FiveOfAKind => "Planet X",
        HandType::FlushHouse => "Ceres",
        HandType::FlushFive => "Eris",
    }
}

impl HandType {
    /// Name of the planet card for this category.
    pub fn as_string(self) -> (r: &'static str)
        ensures
            r == planet_name(self),
    {
        match self {
            HandType::HighCard => "Pluto",
            HandType::Pair => "Mercury",
            HandType::TwoPair => "Uranus",
            HandType::ThreeOfAKind => "Venus",
            HandType::Straight => "Saturn",
            HandType::Flush => "Jupiter",
            HandType::FullHouse => "Earth",
            HandType::FourOfAKind => "Mars",
            HandType::StraightFlush => "Neptune",
            HandType::FiveOfAKind => "Planet X",
            HandType::FlushHouse => "Ceres",
            HandType::FlushFive => "Eris",
        }
    }
}

/// Order in which planet cards are listed in a celestial pack's pool.
pub open spec fn planet_order() -> Seq<Planet> {
    seq![
        HandType::Pair,
        HandType::ThreeOfAKind,
        HandType::FullHouse,
        HandType::FourOfAKind,
        HandType::Flush,
        HandType::Straight,
        HandType::TwoPair,
        HandType::StraightFlush,
        HandType::HighCard,
        HandType::FiveOfAKind,
        HandType::FlushHouse,
        HandType::FlushFive,
    ]
}

/// The planet pool order as a vector.
pub fn planet_order_vec() -> (r: Vec<Planet>)
    ensures
        r@ == planet_order(),
{
    vec![
        HandType::Pair,
        HandType::ThreeOfAKind,
        HandType::FullHouse,
        HandType::FourOfAKind,
        HandType::Flush,
        HandType::Straight,
        HandType::TwoPair,
        HandType::StraightFlush,
        HandType::HighCard,
        HandType::FiveOfAKind,
        HandType::FlushHouse,
        HandType::FlushFive,
    ]
}

} // verus!
