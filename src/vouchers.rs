//! Vouchers: permanent run upgrades bought in the shop.

use vstd::prelude::*;

verus! {

/// A voucher; each odd-positioned voucher upgrades the one before it.
#[derive(Debug, Clone, Copy, PartialEq, Eq, Hash, Structural)]
pub enum Voucher {
    Overstock,
    OverstockPlus,
    ClearanceSale,
    Liquidation,
    Hone,
    GlowUp,
    RerollSurplus,
    RerollGlut,
    CrystalBall,
    OmenGlobe,
    Telescope,
    Observatory,
    Grabber,
    NachoTong,
    Wasteful,
    Recyclomancy,
    TarotMerchant,
    TarotTycoon,
    PlanetMerchant,
    PlanetTycoon,
    SeedMoney,
    MoneyTree,
    Blank,
    Antimatter,
    MagicTrick,
    Illusion,
    Hieroglyph,
    Petroglyph,
    DirectorsCut,
    Retcon,
    PaintBrush,
    Palette,
}

/// Number of variants of [`Voucher`].
pub const VOUCHER_COUNT: usize = 32;

impl Voucher {
    /// The position of the variant in declaration order.
    pub open spec fn index(self) -> nat {
        match self {
            Voucher::Overstock => 0,
            Voucher::OverstockPlus => 1,
            Voucher::ClearanceSale => 2,
            Voucher::Liquidation => 3,
            Voucher::Hone => 4,
            Voucher::GlowUp => 5,
            Voucher::RerollSurplus => 6,
            Voucher::RerollGlut => 7,
            Voucher::CrystalBall => 8,
            Voucher::OmenGlobe => 9,
            Voucher::Telescope => 10,
            Voucher::Observatory => 11,
            Voucher::Grabber => 12,
            Voucher::NachoTong => 13,
            Voucher::Wasteful => 14,
            Voucher::Recyclomancy => 15,
            Voucher::TarotMerchant => 16,
            Voucher::TarotTycoon => 17,
            Voucher::PlanetMerchant => 18,
            Voucher::PlanetTycoon => 19,
            Voucher::SeedMoney => 20,
            Voucher::MoneyTree => 21,
            Voucher::Blank => 22,
            Voucher::Antimatter => 23,
            Voucher::MagicTrick => 24,
            Voucher::Illusion => 25,
            Voucher::Hieroglyph => 26,
            Voucher::Petroglyph => 27,
            Voucher::DirectorsCut => 28,
            Voucher::Retcon => 29,
            Voucher::PaintBrush => 30,
            Voucher::Palette => 31,
        }
    }

    /// The position of the variant in declaration order, as a `usize`.
    pub fn to_index(&self) -> (r: usize)
        ensures
            r == self.index(),
            r < 32,
    {
        match self {
            Voucher::Overstock => 0,
            Voucher::OverstockPlus => 1,
            Voucher::ClearanceSale => 2,
            Voucher::Liquidation => 3,
            Voucher::Hone => 4,
            Voucher::GlowUp => 5,
            Voucher::RerollSurplus => 6,
            Voucher::RerollGlut => 7,
            Voucher::CrystalBall => 8,
            Voucher::OmenGlobe => 9,
            Voucher::Telescope => 10,
            Voucher::Observatory => 11,
            Voucher::Grabber => 12,
            Voucher::NachoTong => 13,
            Voucher::Wasteful => 14,
            Voucher::Recyclomancy => 15,
            Voucher::TarotMerchant => 16,
            Voucher::TarotTycoon => 17,
            Voucher::PlanetMerchant => 18,
            Voucher::PlanetTycoon => 19,
            Voucher::SeedMoney => 20,
            Voucher::MoneyTree => 21,
            Voucher::Blank => 22,
            Voucher::Antimatter => 23,
            Voucher::MagicTrick => 24,
            Voucher::Illusion => 25,
            Voucher::Hieroglyph => 26,
            Voucher::Petroglyph => 27,
            Voucher::DirectorsCut => 28,
            Voucher::Retcon => 29,
            Voucher::PaintBrush => 30,
            Voucher::Palette => 31,
        }
    }

    /// The variant at position `i` in declaration order.
    pub fn from_index(i: usize) -> (r: Voucher)
        requires
            i < 32,
        ensures
            r.index() == i,
    {
        match i {
            0 => Voucher::Overstock,
            1 => Voucher::OverstockPlus,
            2 => Voucher::ClearanceSale,
            3 => Voucher::Liquidation,
            4 => Voucher::Hone,
            5 => Voucher::GlowUp,
            6 => Voucher::RerollSurplus,
            7 => Voucher::RerollGlut,
            8 => Voucher::CrystalBall,
            9 => Voucher::OmenGlobe,
            10 => Voucher::Telescope,
            11 => Voucher::Observatory,
            12 => Voucher::Grabber,
            13 => Voucher::NachoTong,
            14 => Voucher::Wasteful,
            15 => Voucher::Recyclomancy,
            16 => Voucher::TarotMerchant,
            17 => Voucher::TarotTycoon,
            18 => Voucher::PlanetMerchant,
            19 => Voucher::PlanetTycoon,
            20 => Voucher::SeedMoney,
            21 => Voucher::MoneyTree,
            22 => Voucher::Blank,
            23 => Voucher::Antimatter,
            24 => Voucher::MagicTrick,
            25 => Voucher::Illusion,
            26 => Voucher::Hieroglyph,
            27 => Voucher::Petroglyph,
            28 => Voucher::DirectorsCut,
            29 => Voucher::Retcon,
            30 => Voucher::PaintBrush,
            _ => Voucher::Palette,
        }
    }
}
impl Voucher {
    /// An even-positioned voucher is always offerable; an odd-positioned one only
    /// once the voucher before it is owned.
    pub open spec fn requirements_met(self, owned: Seq<bool>) -> bool {
        self.index() % 2 == 0 || owned[self.index() - 1]
    }

    pub fn requirements_fulfilled(self, voucher_list: &Vec<bool>) -> (r: bool)
        requires
            voucher_list@.len() == VOUCHER_COUNT,
        ensures
            r == self.requirements_met(voucher_list@),
    {
        let i = self.to_index();
        i % 2 == 0 || voucher_list[i - 1]
    }
}

} // verus!
