//! Skip tags.

use vstd::prelude::*;

verus! {

/// A tag granted for skipping a blind.
#[derive(Debug, Clone, Copy, PartialEq, Eq, Hash, Structural)]
pub enum Tag {
    UncommonTag,
    RareTag,
    NegativeTag,
    FoilTag,
    HolographicTag,
    PolychromeTag,
    InvestmentTag,
    VoucherTag,
    BossTag,
    StandardTag,
    CharmTag,
    MeteorTag,
    BuffoonTag,
    HandyTag,
    GarbageTag,
    EtherealTag,
    CouponTag,
    DoubleTag,
    JuggleTag,
    D6Tag,
    TopUpTag,
    SpeedTag,
    OrbitalTag,
    EconomyTag,
}

/// Number of variants of [`Tag`].
pub const TAG_COUNT: usize = 24;

impl Tag {
    /// The position of the variant in declaration order.
    pub open spec fn index(self) -> nat {
        match self {
            Tag::UncommonTag => 0,
            Tag::RareTag => 1,
            Tag::NegativeTag => 2,
            Tag::FoilTag => 3,
            Tag::HolographicTag => 4,
            Tag::PolychromeTag => 5,
            Tag::InvestmentTag => 6,
            Tag::VoucherTag => 7,
            Tag::BossTag => 8,
            Tag::StandardTag => 9,
            Tag::CharmTag => 10,
            Tag::MeteorTag => 11,
            Tag::BuffoonTag => 12,
            Tag::HandyTag => 13,
            Tag::GarbageTag => 14,
            Tag::EtherealTag => 15,
            Tag::CouponTag => 16,
            Tag::DoubleTag => 17,
            Tag::JuggleTag => 18,
            Tag::D6Tag => 19,
            Tag::TopUpTag => 20,
            Tag::SpeedTag => 21,
            Tag::OrbitalTag => 22,
            Tag::EconomyTag => 23,
        }
    }

    /// The position of the variant in declaration order, as a `usize`.
    pub fn to_index(&self) -> (r: usize)
        ensures
            r == self.index(),
            r < 24,
    {
        match self {
            Tag::UncommonTag => 0,
            Tag::RareTag => 1,
            Tag::NegativeTag => 2,
            Tag::FoilTag => 3,
            Tag::HolographicTag => 4,
            Tag::PolychromeTag => 5,
            Tag::InvestmentTag => 6,
            Tag::VoucherTag => 7,
            Tag::BossTag => 8,
            Tag::StandardTag => 9,
            Tag::CharmTag => 10,
            Tag::MeteorTag => 11,
            Tag::BuffoonTag => 12,
            Tag::HandyTag => 13,
            Tag::GarbageTag => 14,
            Tag::EtherealTag => 15,
            Tag::CouponTag => 16,
            Tag::DoubleTag => 17,
            Tag::JuggleTag => 18,
            Tag::D6Tag => 19,
            Tag::TopUpTag => 20,
            Tag::SpeedTag => 21,
            Tag::OrbitalTag => 22,
            Tag::EconomyTag => 23,
        }
    }

    /// The variant at position `i` in declaration order.
    pub fn from_index(i: usize) -> (r: Tag)
        requires
            i < 24,
        ensures
            r.index() == i,
    {
        match i {
            0 => Tag::UncommonTag,
            1 => Tag::RareTag,
            2 => Tag::NegativeTag,
            3 => Tag::FoilTag,
            4 => Tag::HolographicTag,
            5 => Tag::PolychromeTag,
            6 => Tag::InvestmentTag,
            7 => Tag::VoucherTag,
            8 => Tag::BossTag,
            9 => Tag::StandardTag,
            10 => Tag::CharmTag,
            11 => Tag::MeteorTag,
            12 => Tag::BuffoonTag,
            13 => Tag::HandyTag,
            14 => Tag::GarbageTag,
            15 => Tag::EtherealTag,
            16 => Tag::CouponTag,
            17 => Tag::DoubleTag,
            18 => Tag::JuggleTag,
            19 => Tag::D6Tag,
            20 => Tag::TopUpTag,
            21 => Tag::SpeedTag,
            22 => Tag::OrbitalTag,
            _ => Tag::EconomyTag,
        }
    }
}

} // verus!
