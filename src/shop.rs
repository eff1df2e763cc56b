//! The shop: its item categories, stock and weights.

use crate::boosters::BoosterPackType;
use crate::card::Card;
use crate::consumable::Consumable;
use crate::joker::Joker;
use crate::vouchers::Voucher;
use crate::seeding::WEIGHT_CAP;
use vstd::prelude::*;

verus! {

/// Category of an item offered in the shop.
#[derive(Debug, Clone, Copy, PartialEq, Eq, Hash, Structural)]
pub enum ShopItemType {
    Joker,
    Tarot,
    Planet,
    PlayingCard,
    SpectralCard,
}

/// Number of variants of [`ShopItemType`].
pub const SHOP_ITEM_TYPE_COUNT: usize = 5;

impl ShopItemType {
    /// The position of the variant in declaration order.
    pub open spec fn index(self) -> nat {
        match self {
            ShopItemType::Joker => 0,
            ShopItemType::Tarot => 1,
            ShopItemType::Planet => 2,
            ShopItemType::PlayingCard => 3,
            ShopItemType::SpectralCard => 4,
        }
    }

    /// The position of the variant in declaration order, as a `usize`.
    pub fn to_index(&self) -> (r: usize)
        ensures
            r == self.index(),
            r < 5,
    {
        match self {
            ShopItemType::Joker => 0,
            ShopItemType::Tarot => 1,
            ShopItemType::Planet => 2,
            ShopItemType::PlayingCard => 3,
            ShopItemType::SpectralCard => 4,
        }
    }

    /// The variant at position `i` in declaration order.
    pub fn from_index(i: usize) -> (r: ShopItemType)
        requires
            i < 5,
        ensures
            r.index() == i,
    {
        match i {
            0 => ShopItemType::Joker,
            1 => ShopItemType::Tarot,
            2 => ShopItemType::Planet,
            3 => ShopItemType::PlayingCard,
            _ => ShopItemType::SpectralCard,
        }
    }
}
/// Weights are kept in hundredths: a weight of `4.5` is stored as `450`.
pub const WEIGHT_SCALE: u64 = 100;

/// An item for sale in the shop.
#[derive(Debug, Clone, PartialEq)]
pub enum ShopItem {
    Consumable(Consumable),
    Joker(Joker),
    PlayingCard(Card),
}

/// The shop of a run.
#[derive(Debug, Clone, PartialEq)]
pub struct Shop {
    /// Weight of each [`ShopItemType`], in hundredths.
    pub weights: Vec<u64>,
    /// Weight of each [`BoosterPackType`], in hundredths.
    pub pack_weights: Vec<u64>,
    /// Percentage of the full price that items cost.
    pub price_multiplier: u64,
    pub reroll_price: i64,
    pub size: usize,
    pub edition_rate: u64,
    pub inventory: Vec<ShopItem>,
    pub vouchers: Vec<Voucher>,
    pub first_shop_buffoon: bool,
    pub packs: Vec<Option<BoosterPackType>>,
}

/// Starting weights of the shop's item categories, in hundredths.
pub open spec fn default_item_weights() -> Seq<u64> {
    seq![2000, 400, 400, 0, 0]
}

/// Starting weights of the booster pack kinds, in hundredths.
pub open spec fn default_pack_weights() -> Seq<u64> {
    seq![400, 200, 50, 400, 200, 50, 400, 200, 50, 120, 60, 15, 60, 30, 7]
}

impl Shop {
    /// One weight per item category and per pack kind, and two pack slots.
    pub open spec fn wf(&self) -> bool {
        &&& self.weights@.len() == SHOP_ITEM_TYPE_COUNT
        &&& self.pack_weights@.len() == crate::boosters::BOOSTER_PACK_TYPE_COUNT
        &&& self.packs@.len() == 2
        &&& forall|i: int| 0 <= i < self.weights@.len() ==> #[trigger] self.weights@[i] <= WEIGHT_CAP
        &&& forall|i: int| 0 <= i < self.pack_weights@.len() ==> #[trigger] self.pack_weights@[i] <= WEIGHT_CAP
    }
}

impl Default for Shop {
    fn default() -> (r: Shop)
        ensures
            r.wf(),
            r.weights@ == default_item_weights(),
            r.pack_weights@ == default_pack_weights(),
            r.price_multiplier == 100,
            r.reroll_price == 5,
            r.size == 2,
            r.edition_rate == 1,
            r.inventory@.len() == 0,
            r.vouchers@.len() == 0,
            !r.first_shop_buffoon,
            r.packs@ == seq![None::<BoosterPackType>, None],
    {
        let weights: Vec<u64> = vec![2000, 400, 400, 0, 0];
        let pack_weights: Vec<u64> = vec![
            400,
            200,
            50,
            400,
            200,
            50,
            400,
            200,
            50,
            120,
            60,
            15,
            60,
            30,
            7,
        ];
        let packs: Vec<Option<BoosterPackType>> = vec![None, None];
        let r = Shop {
            weights,
            pack_weights,
            price_multiplier: 100,
            reroll_price: 5,
            size: 2,
            edition_rate: 1,
            inventory: Vec::new(),
            vouchers: Vec::new(),
            first_shop_buffoon: false,
            packs,
        };
        proof {
            assert(r.packs@ =~= seq![None::<BoosterPackType>, None]);
        }
        r
    }
}

} // verus!
