//! Booster packs: their kinds and contents.

use crate::card::Card;
use crate::consumable::{Spectral, Tarot};
use crate::hands::HandType;
use crate::joker::Joker;
use vstd::prelude::*;

verus! {

/// Kind and size of a booster pack.
#[derive(Debug, Clone, Copy, PartialEq, Eq, Hash, Structural)]
pub enum BoosterPackType {
    ArcanaNormal,
    ArcanaJumbo,
    ArcanaMega,
    CelestialNormal,
    CelestialJumbo,
    CelestialMega,
    StandardNormal,
    StandardJumbo,
    StandardMega,
    BuffoonNormal,
    BuffoonJumbo,
    BuffoonMega,
    SpectralNormal,
    SpectralJumbo,
    SpectralMega,
}

/// Number of variants of [`BoosterPackType`].
pub const BOOSTER_PACK_TYPE_COUNT: usize = 15;

impl BoosterPackType {
    /// The position of the variant in declaration order.
    pub open spec fn index(self) -> nat {
        match self {
            BoosterPackType::ArcanaNormal => 0,
            BoosterPackType::ArcanaJumbo => 1,
            BoosterPackType::ArcanaMega => 2,
            BoosterPackType::CelestialNormal => 3,
            BoosterPackType::CelestialJumbo => 4,
            BoosterPackType::CelestialMega => 5,
            BoosterPackType::StandardNormal => 6,
            BoosterPackType::StandardJumbo => 7,
            BoosterPackType::StandardMega => 8,
            BoosterPackType::BuffoonNormal => 9,
            BoosterPackType::BuffoonJumbo => 10,
            BoosterPackType::BuffoonMega => 11,
            BoosterPackType::SpectralNormal => 12,
            BoosterPackType::SpectralJumbo => 13,
            BoosterPackType::SpectralMega => 14,
        }
    }

    /// The position of the variant in declaration order, as a `usize`.
    pub fn to_index(&self) -> (r: usize)
        ensures
            r == self.index(),
            r < 15,
    {
        match self {
            BoosterPackType::ArcanaNormal => 0,
            BoosterPackType::ArcanaJumbo => 1,
            BoosterPackType::ArcanaMega => 2,
            BoosterPackType::CelestialNormal => 3,
            BoosterPackType::CelestialJumbo => 4,
            BoosterPackType::CelestialMega => 5,
            BoosterPackType::StandardNormal => 6,
            BoosterPackType::StandardJumbo => 7,
            BoosterPackType::StandardMega => 8,
            BoosterPackType::BuffoonNormal => 9,
            BoosterPackType::BuffoonJumbo => 10,
            BoosterPackType::BuffoonMega => 11,
            BoosterPackType::SpectralNormal => 12,
            BoosterPackType::SpectralJumbo => 13,
            BoosterPackType::SpectralMega => 14,
        }
    }

    /// The variant at position `i` in declaration order.
    pub fn from_index(i: usize) -> (r: BoosterPackType)
        requires
            i < 15,
        ensures
            r.index() == i,
    {
        match i {
            0 => BoosterPackType::ArcanaNormal,
            1 => BoosterPackType::ArcanaJumbo,
            2 => BoosterPackType::ArcanaMega,
            3 => BoosterPackType::CelestialNormal,
            4 => BoosterPackType::CelestialJumbo,
            5 => BoosterPackType::CelestialMega,
            6 => BoosterPackType::StandardNormal,
            7 => BoosterPackType::StandardJumbo,
            8 => BoosterPackType::StandardMega,
            9 => BoosterPackType::BuffoonNormal,
            10 => BoosterPackType::BuffoonJumbo,
            11 => BoosterPackType::BuffoonMega,
            12 => BoosterPackType::SpectralNormal,
            13 => BoosterPackType::SpectralJumbo,
            _ => BoosterPackType::SpectralMega,
        }
    }
}
/// A card found in an arcana pack.
#[derive(Debug, Clone, Copy, PartialEq, Eq, Structural)]
pub enum ArcanaCard {
    Tarot(Tarot),
    Spectral(Spectral),
}

/// A card found in a celestial pack.
#[derive(Debug, Clone, Copy, PartialEq, Eq, Structural)]
pub enum CelestialCard {
    Planet(HandType),
    BlackHole,
}

/// The contents of an opened booster pack.
#[derive(Debug, Clone, PartialEq)]
pub enum BoosterPackData {
    ArcanaNormal(Vec<ArcanaCard>),
    ArcanaJumbo(Vec<ArcanaCard>),
    ArcanaMega(Vec<ArcanaCard>),
    CelestialNormal(Vec<CelestialCard>),
    CelestialJumbo(Vec<CelestialCard>),
    CelestialMega(Vec<CelestialCard>),
    StandardNormal(Vec<Card>),
    StandardJumbo(Vec<Card>),
    StandardMega(Vec<Card>),
    BuffoonNormal(Vec<Joker>),
    BuffoonJumbo(Vec<Joker>),
    BuffoonMega(Vec<Joker>),
    SpectralNormal(Vec<Spectral>),
    SpectralJumbo(Vec<Spectral>),
    SpectralMega(Vec<Spectral>),
}

} // verus!
