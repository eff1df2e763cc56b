//! Configurations that create cards, consumables and jokers from seeded draws,
//! and the opening of booster packs.

use crate::boosters::{ArcanaCard, BoosterPackData, BoosterPackType, CelestialCard};
use crate::card::{Card, Edition, Enhancement, Seal};
use crate::consumable::{
    planet_order, planet_order_vec, Consumable, Spectral, Tarot, SPECTRAL_COUNT, TAROT_COUNT,
};
use crate::decks::{default_cards, standard_cards};
use crate::event::DispatcherOrder;
use crate::hands::{HandType, HAND_TYPE_COUNT};
use crate::joker::{state_fits, Joker, JokerEdition, JokerType, Stickers};
use crate::pools::{
    initial_state, joker_channel, poll_or_first, rarity_channel, rarity_from_draw, rarity_of_draw,
    with_fallback, JokerRarity,
};
use crate::run::{Run, RunData};
use crate::seeding::{
    bumped, count_of, draw_counted, Channels, concat, draw_source, drew, polled, signed_decimal, key_with_number, push_signed_decimal, UNIT_SCALE};
use crate::shop::ShopItem;
use crate::vouchers::Voucher;
use vstd::prelude::*;

verus! {

/// A uniform draw above this value (0.997) gives a pack's soul card instead.
pub const SOUL_THRESHOLD: u64 = 8980177656976769;

/// With the omen globe owned, a uniform draw above this value (0.8) makes an
/// arcana card spectral.
pub const OMEN_THRESHOLD: u64 = 7205759403792794;

/// The shop offers consumable `c`.
pub open spec fn shop_offers(inventory: Seq<ShopItem>, c: Consumable) -> bool {
    exists|i: int| 0 <= i < inventory.len() && inventory[i] == ShopItem::Consumable(c)
}

/// The shop offers a joker of identity `t`.
pub open spec fn shop_offers_joker(inventory: Seq<ShopItem>, t: JokerType) -> bool {
    exists|i: int| 0 <= i < inventory.len() && (#[trigger] inventory[i] matches ShopItem::Joker(j) && j.joker_type == t)
}

/// A joker of identity `t` is owned.
pub open spec fn owns_joker(jokers: Seq<Joker>, t: JokerType) -> bool {
    exists|i: int| 0 <= i < jokers.len() && (#[trigger] jokers[i]).joker_type == t
}

fn holds_consumable(cs: &Vec<Consumable>, c: Consumable) -> (r: bool)
    ensures
        r == cs@.contains(c),
{
    let mut i: usize = 0;
    while i < cs.len()
        invariant
            i <= cs@.len(),
            forall|j: int| 0 <= j < i ==> cs@[j] != c,
        decreases cs@.len() - i,
    {
        if cs[i] == c {
            return true;
        }
        i += 1;
    }
    false
}

fn offers_consumable(inventory: &Vec<ShopItem>, c: Consumable) -> (r: bool)
    ensures
        r == shop_offers(inventory@, c),
{
    let mut i: usize = 0;
    while i < inventory.len()
        invariant
            i <= inventory@.len(),
            forall|j: int| 0 <= j < i ==> inventory@[j] != ShopItem::Consumable(c),
        decreases inventory@.len() - i,
    {
        if let ShopItem::Consumable(x) = &inventory[i] {
            if *x == c {
                return true;
            }
        }
        i += 1;
    }
    false
}

fn offers_joker(inventory: &Vec<ShopItem>, t: JokerType) -> (r: bool)
    ensures
        r == shop_offers_joker(inventory@, t),
{
    let mut i: usize = 0;
    while i < inventory.len()
        invariant
            i <= inventory@.len(),
            forall|j: int| 0 <= j < i ==> !(#[trigger] inventory@[j] matches ShopItem::Joker(x) && x.joker_type == t),
        decreases inventory@.len() - i,
    {
        if let ShopItem::Joker(x) = &inventory[i] {
            if x.joker_type == t {
                return true;
            }
        }
        i += 1;
    }
    false
}

fn owns(jokers: &Vec<Joker>, t: JokerType) -> (r: bool)
    ensures
        r == owns_joker(jokers@, t),
{
    let mut i: usize = 0;
    while i < jokers.len()
        invariant
            i <= jokers@.len(),
            forall|j: int| 0 <= j < i ==> (#[trigger] jokers@[j]).joker_type != t,
        decreases jokers@.len() - i,
    {
        if jokers[i].joker_type == t {
            return true;
        }
        i += 1;
    }
    false
}

/// Channel of a consumable soul draw: `soul_{type}{ante}`.
pub open spec fn soul_key(type_key: Seq<u8>, ante: i32) -> Seq<u8> {
    seq![115u8, 111, 117, 108, 95] + type_key + signed_decimal(ante as int)
}

/// Channel of a consumable pool poll: `{type}{origin}{ante}`.
pub open spec fn pool_key(type_key: Seq<u8>, origin_key: Seq<u8>, ante: i32) -> Seq<u8> {
    type_key + origin_key + signed_decimal(ante as int)
}

/// Which cards of the pool `order` may come out: not in `excluded`, not held,
/// not in the shop.
pub open spec fn consumable_table(data: RunData, order: Seq<Consumable>, excluded: Seq<Consumable>) -> Seq<bool> {
    Seq::new(
        order.len(),
        |j: int|
            !excluded.contains(order[j]) && !data.consumables@.contains(order[j]) && !shop_offers(
                data.shop.inventory@,
                order[j],
            ),
    )
}

/// `r` is what a consumable draw of kind `type_key` for origin `origin_key`
/// gives, with draw counts `m0` before and `m1` after: with a soul card set, one
/// uniform draw on `soul_{type}{ante}` gives it when above 0.997; otherwise (or
/// without a soul card) the card of `order` polled on `{type}{origin}{ante}`
/// among those not left out by `excluded`, held or in the shop.
pub open spec fn consumable_drawn<F: Fn(Vec<u8>, u64, u64) -> u64>(
    draw: &F,
    data: RunData,
    m0: Map<Seq<u8>, u64>,
    m1: Map<Seq<u8>, u64>,
    type_key: Seq<u8>,
    origin_key: Seq<u8>,
    soul: Option<Spectral>,
    order: Seq<Consumable>,
    excluded: Seq<Consumable>,
    r: Consumable,
) -> bool {
    ||| {
        &&& soul matches Some(s) && r == Consumable::SpectralCard(s)
        &&& m1 == bumped(m0, soul_key(type_key, data.ante))
        &&& exists|k: u64|
            #[trigger] drew(draw, soul_key(type_key, data.ante), count_of(m0, soul_key(type_key, data.ante)), UNIT_SCALE, k)
                && k > SOUL_THRESHOLD
    }
    ||| {
        &&& soul is Some
        &&& exists|k: u64|
            #[trigger] drew(draw, soul_key(type_key, data.ante), count_of(m0, soul_key(type_key, data.ante)), UNIT_SCALE, k)
                && k <= SOUL_THRESHOLD
        &&& exists|i: nat|
            #[trigger] polled(
                draw,
                with_fallback(consumable_table(data, order, excluded)),
                pool_key(type_key, origin_key, data.ante),
                bumped(m0, soul_key(type_key, data.ante)),
                m1,
                i,
            ) && i < order.len() && r == order[i as int]
    }
    ||| {
        &&& soul is None
        &&& exists|i: nat|
            #[trigger] polled(draw, with_fallback(consumable_table(data, order, excluded)), pool_key(type_key, origin_key, data.ante), m0, m1, i)
                && i < order.len() && r == order[i as int]
    }
}

/// Creates a consumable card of one kind.
#[derive(Debug, Clone, PartialEq)]
pub struct ConsumableCreator {
    pub type_key: Vec<u8>,
    pub origin_key: Vec<u8>,
    /// Cards the pool leaves out, besides those already held or in the shop.
    pub excluded: Vec<Consumable>,
    /// The card that a lucky draw gives instead, if any.
    pub soul: Option<Spectral>,
    /// The pool, in the order it is polled.
    pub order: Vec<Consumable>,
}

impl ConsumableCreator {
    /// Which cards of the pool, in order, may come out.
    pub open spec fn offer_table(&self, data: RunData) -> Seq<bool> {
        consumable_table(data, self.order@, self.excluded@)
    }

    /// Card `c` may come out: not left out, not held, not in the shop.
    pub open spec fn offered(&self, data: RunData, c: Consumable) -> bool {
        &&& !self.excluded@.contains(c)
        &&& !data.consumables@.contains(c)
        &&& !shop_offers(data.shop.inventory@, c)
    }

    /// Draws a card: with a soul card set, a uniform draw on `soul_{type}{ante}`
    /// above 0.997 gives it; otherwise the pool is polled on
    /// `{type}{origin}{ante}` among the offered cards (its first card standing in
    /// when none is offered).
    pub fn create<F: Fn(Vec<u8>, u64, u64) -> u64>(&self, data: &RunData, counts: &mut Channels<u64>, draw: &F) -> (r: Consumable)
        requires
            0 < self.order@.len() < 256,
            old(counts).wf(),
            draw_source(draw),
        ensures
            final(counts).wf(),
            (self.soul matches Some(s) && r == Consumable::SpectralCard(s)) || exists|i: int|
                0 <= i < self.order@.len() && r == self.order@[i] && with_fallback(
                    Seq::new(self.order@.len(), |j: int| self.offered(*data, self.order@[j])),
                )[i],
            consumable_drawn(draw, *data, old(counts).view(), final(counts).view(), self.type_key@, self.origin_key@, self.soul, self.order@, self.excluded@, r),
    {
        let ghost m0 = counts.view();
        if let Some(s) = self.soul {
            let head = concat(&[115u8, 111, 117, 108, 95], self.type_key.as_slice());
            let key = key_with_number(head.as_slice(), data.ante as i64);
            proof {
                assert(key@ == soul_key(self.type_key@, data.ante));
            }
            let k = draw_counted(counts, key, UNIT_SCALE, draw);
            if k > SOUL_THRESHOLD {
                return Consumable::SpectralCard(s);
            }
        }
        let ghost mid = counts.view();
        let mut available: Vec<bool> = Vec::new();
        let mut i: usize = 0;
        while i < self.order.len()
            invariant
                i <= self.order@.len(),
                available@.len() == i,
                forall|j: int| 0 <= j < i ==> available@[j] == self.offered(*data, self.order@[j]),
            decreases self.order@.len() - i,
        {
            let c = self.order[i];
            let ok = !holds_consumable(&self.excluded, c) && !holds_consumable(&data.consumables, c)
                && !offers_consumable(&data.shop.inventory, c);
            available.push(ok);
            i += 1;
        }
        proof {
            assert(available@ =~= Seq::new(self.order@.len(), |j: int| self.offered(*data, self.order@[j])));
        }
        let head = concat(self.type_key.as_slice(), self.origin_key.as_slice());
        let mut key = head;
        push_signed_decimal(&mut key, data.ante as i64);
        let ghost table = available@;
        let idx = poll_or_first(available, &key, counts, draw);
        proof {
            assert(key@ == pool_key(self.type_key@, self.origin_key@, data.ante));
            assert(table =~= consumable_table(*data, self.order@, self.excluded@));
            assert(polled(draw, with_fallback(consumable_table(*data, self.order@, self.excluded@)), pool_key(self.type_key@, self.origin_key@, data.ante), mid, counts.view(), idx as nat));
        }
        self.order[idx]
    }
}

/// Creates a playing card.
#[derive(Debug, Clone, PartialEq)]
pub struct CardCreator {
    pub origin_key: Vec<u8>,
    pub enhancement: Enhancement,
    pub edition: Edition,
    pub seal: Seal,
}

impl CardCreator {
    /// Channel of the card draw: `front{origin}{ante}`.
    pub open spec fn front_channel(&self, ante: i32) -> Seq<u8> {
        seq![102u8, 114, 111, 110, 116] + self.origin_key@ + signed_decimal(ante as int)
    }

    /// A creator with no enhancement, edition or seal.
    pub fn plain(origin_key: Vec<u8>) -> (r: CardCreator)
        ensures
            r.origin_key == origin_key,
            r.enhancement == Enhancement::Plain,
            r.edition == Edition::Base,
            r.seal == Seal::Unsealed,
    {
        CardCreator { origin_key, enhancement: Enhancement::Plain, edition: Edition::Base, seal: Seal::Unsealed }
    }

    /// Draws one of the standard cards on `front{origin}{ante}` and gives it the
    /// creator's enhancement, edition and seal.
    pub fn create<F: Fn(Vec<u8>, u64, u64) -> u64>(&self, data: &RunData, counts: &mut Channels<u64>, draw: &F) -> (r: Card)
        requires
            old(counts).wf(),
            draw_source(draw),
        ensures
            final(counts).wf(),
            final(counts).view() == bumped(old(counts).view(), self.front_channel(data.ante)),
            exists|i: int| 0 <= i < 52 && r == (Card {
                enhancement: self.enhancement,
                edition: self.edition,
                seal: self.seal,
                ..#[trigger] standard_cards()[i]
            }),
            exists|i: u64| #[trigger] drew(draw, self.front_channel(data.ante), count_of(old(counts).view(), self.front_channel(data.ante)), 52, i) && i < 52 && r == (Card {
                enhancement: self.enhancement,
                edition: self.edition,
                seal: self.seal,
                ..standard_cards()[i as int]
            }),
    {
        let mut key = concat(&[102u8, 114, 111, 110, 116], self.origin_key.as_slice());
        push_signed_decimal(&mut key, data.ante as i64);
        let cards = default_cards();
        proof {
            assert(key@ == self.front_channel(data.ante));
        }
        let d = draw_counted(counts, key, 52, draw);
        let idx = d as usize;
        let base = cards[idx];
        Card { enhancement: self.enhancement, edition: self.edition, seal: self.seal, ..base }
    }
}

/// How a joker creator picks the rarity.
#[derive(Debug, Clone, Copy, PartialEq, Eq, Structural)]
pub enum JokerRarityMode {
    Single(JokerRarity),
    RandomNonLegendary,
}

/// Creates a joker.
#[derive(Debug, Clone, PartialEq)]
pub struct JokerCreator {
    pub origin_key: Vec<u8>,
    pub joker_rarity: JokerRarityMode,
    /// Identities the pool leaves out.
    pub excluded: Vec<JokerType>,
    pub dont_filter_on_showman: bool,
    pub sell_value: u32,
    pub debuffed: bool,
    pub edition: JokerEdition,
    pub stickers: Stickers,
    pub rental: bool,
    pub perishable: bool,
    pub eternal: bool,
}

impl JokerCreator {
    /// A creator for `origin_key` and `joker_rarity` with every option off.
    pub fn plain(origin_key: Vec<u8>, joker_rarity: JokerRarityMode) -> (r: JokerCreator)
        ensures
            r.origin_key == origin_key,
            r.joker_rarity == joker_rarity,
            r.excluded@.len() == 0,
            !r.dont_filter_on_showman && !r.debuffed && !r.rental && !r.perishable && !r.eternal,
            r.sell_value == 0,
            r.edition == JokerEdition::Base,
            r.stickers == (Stickers { eternal: false, perishable: false, rental: false }),
    {
        JokerCreator {
            origin_key,
            joker_rarity,
            excluded: Vec::new(),
            dont_filter_on_showman: false,
            sell_value: 0,
            debuffed: false,
            edition: JokerEdition::Base,
            stickers: Stickers { eternal: false, perishable: false, rental: false },
            rental: false,
            perishable: false,
            eternal: false,
        }
    }

    /// The draw counts once the rarity is known: one more draw on
    /// `rarity{ante}{origin}` when it is drawn.
    pub open spec fn after_rarity(&self, m: Map<Seq<u8>, u64>, ante: i32) -> Map<Seq<u8>, u64> {
        if self.joker_rarity is RandomNonLegendary {
            bumped(m, rarity_channel(ante, self.origin_key@))
        } else {
            m
        }
    }

    /// Which jokers of `rarity`'s pool, in order, may come out.
    pub open spec fn offer_table(&self, data: RunData, jokers: Seq<Joker>, rarity: JokerRarity) -> Seq<bool> {
        Seq::new(rarity.pool_of().len(), |j: int| self.offered(data, jokers, rarity.pool_of()[j]))
    }

    /// Identity `t` may come out: not left out (unless the showman lifts that),
    /// and neither in the shop nor owned (unless the showman is held).
    pub open spec fn offered(&self, data: RunData, jokers: Seq<Joker>, t: JokerType) -> bool {
        &&& (self.dont_filter_on_showman && data.showman) || !self.excluded@.contains(t)
        &&& data.showman || (!shop_offers_joker(data.shop.inventory@, t) && !owns_joker(jokers, t))
    }

    /// Draws a joker: its rarity is fixed or comes from a uniform draw on
    /// `rarity{ante}{origin}`; its identity is polled on
    /// `Joker{rarity + 1}{origin}{ante}` among the offered ones (the pool's first
    /// standing in when none is offered). It carries the creator's edition, sell
    /// value and stickers, and fresh memory.
    pub fn create<F: Fn(Vec<u8>, u64, u64) -> u64>(&self, data: &RunData, jokers: &Vec<Joker>, counts: &mut Channels<u64>, draw: &F) -> (r: Joker)
        requires
            old(counts).wf(),
            draw_source(draw),
        ensures
            final(counts).wf(),
            state_fits(r.joker_type, r.data),
            r.edition == self.edition,
            r.sell_value == self.sell_value,
            r.debuffed == self.debuffed,
            r.stickers == (Stickers {
                eternal: self.stickers.eternal || self.eternal,
                perishable: self.stickers.perishable || self.perishable,
                rental: self.stickers.rental || self.rental,
            }),
            r.dispatcher_order.events@.len() == crate::event::EVENT_COUNT,
            exists|rarity: JokerRarity, i: int| {
                &&& (self.joker_rarity matches JokerRarityMode::Single(s) ==> rarity == s)
                &&& 0 <= i < rarity.pool_of().len()
                &&& r.joker_type == rarity.pool_of()[i]
                &&& with_fallback(Seq::new(rarity.pool_of().len(), |j: int| self.offered(*data, jokers@, rarity.pool_of()[j])))[i]
            },
            exists|rarity: JokerRarity, i: nat| {
                &&& (self.joker_rarity matches JokerRarityMode::Single(s) ==> rarity == s)
                &&& (self.joker_rarity is RandomNonLegendary ==> exists|k: u64|
                    #[trigger] drew(draw, rarity_channel(data.ante, self.origin_key@), count_of(old(counts).view(), rarity_channel(data.ante, self.origin_key@)), UNIT_SCALE, k)
                        && rarity == rarity_of_draw(k))
                &&& #[trigger] polled(
                    draw,
                    with_fallback(self.offer_table(*data, jokers@, rarity)),
                    joker_channel(rarity, self.origin_key@, data.ante),
                    self.after_rarity(old(counts).view(), data.ante),
                    final(counts).view(),
                    i,
                )
                &&& i < rarity.pool_of().len()
                &&& r.joker_type == rarity.pool_of()[i as int]
            },
    {
        let stickers = Stickers {
            eternal: self.stickers.eternal || self.eternal,
            perishable: self.stickers.perishable || self.perishable,
            rental: self.stickers.rental || self.rental,
        };
        let rarity = match self.joker_rarity {
            JokerRarityMode::Single(r) => r,
            JokerRarityMode::RandomNonLegendary => {
                let head = key_with_number(&[114u8, 97, 114, 105, 116, 121], data.ante as i64);
                let key = concat(head.as_slice(), self.origin_key.as_slice());
                proof {
                    assert(key@ == rarity_channel(data.ante, self.origin_key@));
                }
                let k = draw_counted(counts, key, UNIT_SCALE, draw);
                rarity_from_draw(k)
            },
        };
        let pool = rarity.pool();
        let mut available: Vec<bool> = Vec::new();
        let mut i: usize = 0;
        while i < pool.len()
            invariant
                i <= pool@.len(),
                pool@ == rarity.pool_of(),
                available@.len() == i,
                forall|j: int| 0 <= j < i ==> available@[j] == self.offered(*data, jokers@, pool@[j]),
            decreases pool@.len() - i,
        {
            let t = pool[i];
            let ok = ((self.dont_filter_on_showman && data.showman) || !holds_joker_type(&self.excluded, t))
                && (data.showman || (!offers_joker(&data.shop.inventory, t) && !owns(jokers, t)));
            available.push(ok);
            i += 1;
        }
        proof {
            assert(available@ =~= Seq::new(pool@.len(), |j: int| self.offered(*data, jokers@, pool@[j])));
        }
        let rank: i64 = match rarity {
            JokerRarity::Common => 1,
            JokerRarity::Uncommon => 2,
            JokerRarity::Rare => 3,
            JokerRarity::Legendary => 4,
        };
        let head = key_with_number(&[74u8, 111, 107, 101, 114], rank);
        let mut key = concat(head.as_slice(), self.origin_key.as_slice());
        push_signed_decimal(&mut key, data.ante as i64);
        let ghost table = available@;
        let ghost mid = counts.view();
        let idx = poll_or_first(available, &key, counts, draw);
        proof {
            assert(key@ == joker_channel(rarity, self.origin_key@, data.ante));
            assert(table == self.offer_table(*data, jokers@, rarity));
            assert(mid == self.after_rarity(old(counts).view(), data.ante));
            assert(polled(draw, with_fallback(self.offer_table(*data, jokers@, rarity)), joker_channel(rarity, self.origin_key@, data.ante), mid, counts.view(), idx as nat));
        }
        let t = pool[idx];
        Joker {
            joker_type: t,
            data: initial_state(t),
            edition: self.edition,
            stickers,
            sell_value: self.sell_value,
            debuffed: self.debuffed,
            dispatcher_order: DispatcherOrder::new(),
        }
    }
}

fn holds_joker_type(ts: &Vec<JokerType>, t: JokerType) -> (r: bool)
    ensures
        r == ts@.contains(t),
{
    let mut i: usize = 0;
    while i < ts.len()
        invariant
            i <= ts@.len(),
            forall|j: int| 0 <= j < i ==> ts@[j] != t,
        decreases ts@.len() - i,
    {
        if ts[i] == t {
            return true;
        }
        i += 1;
    }
    false
}


fn copy_vec<T: Copy>(v: &Vec<T>) -> (r: Vec<T>)
    ensures
        r@ == v@,
{
    let mut out: Vec<T> = Vec::new();
    let mut i: usize = 0;
    while i < v.len()
        invariant
            i <= v@.len(),
            out@ == v@.take(i as int),
        decreases v@.len() - i,
    {
        out.push(v[i]);
        proof {
            assert(v@.take(i + 1) =~= v@.take(i as int).push(v@[i as int]));
        }
        i += 1;
    }
    proof {
        assert(v@.take(v@.len() as int) =~= v@);
    }
    out
}

/// `o` lists every spectral card by position.
pub open spec fn spectral_pool(o: Seq<Consumable>) -> bool {
    o.len() == SPECTRAL_COUNT && forall|c: Spectral| #[trigger] o[c.index() as int] == Consumable::SpectralCard(c)
}

/// Type key of spectral cards: `Spectral`.
pub open spec fn spectral_key() -> Seq<u8> {
    seq![83u8, 112, 101, 99, 116, 114, 97, 108]
}

/// Origin key of spectral pack cards: `spe`.
pub open spec fn spectral_pack_origin() -> Seq<u8> {
    seq![115u8, 112, 101]
}

/// `c` is a spectral pack card drawn after the cards `taken`, with draw counts
/// `m0` before and `m1` after.
pub open spec fn spectral_pack_draw<F: Fn(Vec<u8>, u64, u64) -> u64>(
    draw: &F,
    data: RunData,
    m0: Map<Seq<u8>, u64>,
    m1: Map<Seq<u8>, u64>,
    taken: Seq<Consumable>,
    c: Consumable,
) -> bool {
    exists|o: Seq<Consumable>| #[trigger] spectral_pool(o) && consumable_drawn(
        draw,
        data,
        m0,
        m1,
        spectral_key(),
        spectral_pack_origin(),
        Some(Spectral::TheSoul),
        o,
        taken,
        c,
    )
}

/// The spectral cards `v` as consumables.
pub open spec fn spectral_consumables(v: Seq<Spectral>) -> Seq<Consumable> {
    v.map_values(|s: Spectral| Consumable::SpectralCard(s))
}

/// The arcana cards `v` as consumables.
pub open spec fn arcana_consumables(v: Seq<ArcanaCard>) -> Seq<Consumable> {
    v.map_values(|a: ArcanaCard| arcana_consumable(a))
}

/// The identities of the jokers `v`.
pub open spec fn joker_types(v: Seq<Joker>) -> Seq<JokerType> {
    v.map_values(|j: Joker| j.joker_type)
}

/// `o` lists every tarot by position.
pub open spec fn tarot_pool(o: Seq<Consumable>) -> bool {
    o.len() == TAROT_COUNT && forall|c: Tarot| #[trigger] o[c.index() as int] == Consumable::TarotCard(c)
}

/// An arcana card as the consumable it is.
pub open spec fn arcana_consumable(a: ArcanaCard) -> Consumable {
    match a {
        ArcanaCard::Tarot(t) => Consumable::TarotCard(t),
        ArcanaCard::Spectral(s) => Consumable::SpectralCard(s),
    }
}

/// Channel of the omen globe's draw: `omen_globe`.
pub open spec fn omen_channel() -> Seq<u8> {
    seq![111u8, 109, 101, 110, 95, 103, 108, 111, 98, 101]
}

/// Type key of tarots: `Tarot`.
pub open spec fn tarot_key() -> Seq<u8> {
    seq![84u8, 97, 114, 111, 116]
}

/// Origin keys of arcana pack tarots (`ar1`) and spectral cards (`ar2`).
pub open spec fn arcana_origin(spectral: bool) -> Seq<u8> {
    if spectral {
        seq![97u8, 114, 50]
    } else {
        seq![97u8, 114, 49]
    }
}

/// `c` is an arcana pack card of draw kind `spectral` drawn after the cards
/// `taken`, with draw counts `m0` before and `m1` after.
pub open spec fn arcana_kind_draw<F: Fn(Vec<u8>, u64, u64) -> u64>(
    draw: &F,
    data: RunData,
    m0: Map<Seq<u8>, u64>,
    m1: Map<Seq<u8>, u64>,
    taken: Seq<Consumable>,
    spectral: bool,
    c: Consumable,
) -> bool {
    exists|o: Seq<Consumable>| #[trigger] arcana_pool(spectral, o) && consumable_drawn(
        draw,
        data,
        m0,
        m1,
        if spectral { spectral_key() } else { tarot_key() },
        arcana_origin(spectral),
        Some(Spectral::TheSoul),
        o,
        taken,
        c,
    )
}

/// `o` is the pool of an arcana draw of kind `spectral`.
pub open spec fn arcana_pool(spectral: bool, o: Seq<Consumable>) -> bool {
    if spectral {
        spectral_pool(o)
    } else {
        tarot_pool(o)
    }
}

/// `c` is an arcana pack card drawn after the cards `taken`, with draw counts
/// `m0` before and `m1` after: a spectral card once the omen globe is owned and
/// one uniform draw on `omen_globe` exceeds 0.8, a tarot otherwise.
pub open spec fn arcana_draw<F: Fn(Vec<u8>, u64, u64) -> u64>(
    draw: &F,
    data: RunData,
    m0: Map<Seq<u8>, u64>,
    m1: Map<Seq<u8>, u64>,
    taken: Seq<Consumable>,
    c: Consumable,
) -> bool {
    if data.vouchers@[Voucher::OmenGlobe.index() as int] {
        exists|k: u64|
            #[trigger] drew(draw, omen_channel(), count_of(m0, omen_channel()), UNIT_SCALE, k)
                && arcana_kind_draw(draw, data, bumped(m0, omen_channel()), m1, taken, k > OMEN_THRESHOLD, c)
    } else {
        arcana_kind_draw(draw, data, m0, m1, taken, false, c)
    }
}

/// Every tarot, in position order.
fn all_tarots() -> (r: Vec<Consumable>)
    ensures
        r@.len() == TAROT_COUNT,
        forall|i: int| 0 <= i < r@.len() ==> #[trigger] r@[i] matches Consumable::TarotCard(_),
        tarot_pool(r@),
{
    let mut out: Vec<Consumable> = Vec::new();
    let mut i: usize = 0;
    while i < TAROT_COUNT
        invariant
            i <= TAROT_COUNT,
            out@.len() == i,
            forall|j: int| 0 <= j < i ==> #[trigger] out@[j] matches Consumable::TarotCard(_),
            forall|c: Tarot| c.index() < i ==> out@[c.index() as int] == Consumable::TarotCard(c),
        decreases TAROT_COUNT - i,
    {
        let c = Tarot::from_index(i);
        out.push(Consumable::TarotCard(c));
        proof {
            assert forall|d: Tarot| d.index() < i + 1 implies out@[d.index() as int] == Consumable::TarotCard(d) by {
                if d.index() == i {
                    assert(d == c);
                }
            }
        }
        i += 1;
    }
    out
}

/// Every spectral card, in position order.
fn all_spectrals() -> (r: Vec<Consumable>)
    ensures
        r@.len() == SPECTRAL_COUNT,
        forall|i: int| 0 <= i < r@.len() ==> #[trigger] r@[i] matches Consumable::SpectralCard(_),
        spectral_pool(r@),
{
    let mut out: Vec<Consumable> = Vec::new();
    let mut i: usize = 0;
    while i < SPECTRAL_COUNT
        invariant
            i <= SPECTRAL_COUNT,
            out@.len() == i,
            forall|j: int| 0 <= j < i ==> #[trigger] out@[j] matches Consumable::SpectralCard(_),
            forall|c: Spectral| c.index() < i ==> out@[c.index() as int] == Consumable::SpectralCard(c),
        decreases SPECTRAL_COUNT - i,
    {
        let c = Spectral::from_index(i);
        out.push(Consumable::SpectralCard(c));
        proof {
            assert forall|d: Spectral| d.index() < i + 1 implies out@[d.index() as int] == Consumable::SpectralCard(d) by {
                if d.index() == i {
                    assert(d == c);
                }
            }
        }
        i += 1;
    }
    out
}

/// Every planet, in the order celestial packs poll them.
fn all_planets() -> (r: Vec<Consumable>)
    ensures
        r@.len() == HAND_TYPE_COUNT,
        forall|i: int| 0 <= i < r@.len() ==> #[trigger] r@[i] matches Consumable::PlanetCard(_),
        r@ == planet_pool(),
{
    let order = planet_order_vec();
    let mut out: Vec<Consumable> = Vec::new();
    let mut i: usize = 0;
    while i < order.len()
        invariant
            i <= order@.len(),
            order@.len() == HAND_TYPE_COUNT,
            out@.len() == i,
            forall|j: int| 0 <= j < i ==> #[trigger] out@[j] matches Consumable::PlanetCard(_),
            order@ == planet_order(),
            out@ == planet_pool().take(i as int),
        decreases order@.len() - i,
    {
        out.push(Consumable::PlanetCard(order[i]));
        proof {
            assert(out@ =~= planet_pool().take(i + 1));
        }
        i += 1;
    }
    proof {
        assert(planet_pool().take(HAND_TYPE_COUNT as int) =~= planet_pool());
    }
    out
}

/// The planet cards in the order celestial packs poll them.
pub open spec fn planet_pool() -> Seq<Consumable> {
    planet_order().map_values(|h: HandType| Consumable::PlanetCard(h))
}

/// A celestial card as the consumable it stands for.
pub open spec fn celestial_consumable(c: CelestialCard) -> Consumable {
    match c {
        CelestialCard::Planet(h) => Consumable::PlanetCard(h),
        CelestialCard::BlackHole => Consumable::SpectralCard(Spectral::BlackHole),
    }
}

/// A celestial pack leaves out planet `x` once `before` were drawn: a locked
/// planet, or one already drawn.
pub open spec fn celestial_left_out(data: RunData, before: Seq<CelestialCard>, x: Consumable) -> bool {
    x matches Consumable::PlanetCard(h) && (!data.planet_unlocked@[h.index() as int] || before.contains(
        CelestialCard::Planet(h),
    ))
}

/// `c` is a celestial pack card drawn after the cards `before`, with draw
/// counts `m0` before and `m1` after: the planet polled on `Planetpl1{ante}`
/// among those not left out, or the black hole after a uniform draw on
/// `soul_Planet{ante}` above 0.997.
pub open spec fn celestial_draw<F: Fn(Vec<u8>, u64, u64) -> u64>(
    draw: &F,
    data: RunData,
    m0: Map<Seq<u8>, u64>,
    m1: Map<Seq<u8>, u64>,
    before: Seq<CelestialCard>,
    c: CelestialCard,
) -> bool {
    exists|ex: Seq<Consumable>|
        (forall|x: Consumable| #[trigger] ex.contains(x) <==> celestial_left_out(data, before, x)) && #[trigger] consumable_drawn(
            draw,
            data,
            m0,
            m1,
            planet_key(),
            celestial_origin(),
            Some(Spectral::BlackHole),
            planet_pool(),
            ex,
            celestial_consumable(c),
        )
}

/// Type key of planets: `Planet`.
pub open spec fn planet_key() -> Seq<u8> {
    seq![80u8, 108, 97, 110, 101, 116]
}

/// Origin key of celestial pack planets: `pl1`.
pub open spec fn celestial_origin() -> Seq<u8> {
    seq![112u8, 108, 49]
}

/// Channel of a standard pack's card draws: `frontsta{ante}`.
pub open spec fn standard_pack_channel(ante: i32) -> Seq<u8> {
    seq![102u8, 114, 111, 110, 116] + seq![115u8, 116, 97] + signed_decimal(ante as int)
}

/// `c` is the standard card of one draw on `frontsta{ante}`, with draw counts
/// `m0` before and `m1` after.
pub open spec fn standard_pack_draw<F: Fn(Vec<u8>, u64, u64) -> u64>(draw: &F, ante: i32, m0: Map<Seq<u8>, u64>, m1: Map<Seq<u8>, u64>, c: Card) -> bool {
    &&& m1 == bumped(m0, standard_pack_channel(ante))
    &&& exists|j: u64|
        #[trigger] drew(draw, standard_pack_channel(ante), count_of(m0, standard_pack_channel(ante)), 52, j) && j < 52
            && c == standard_cards()[j as int]
}

/// Origin key of buffoon pack jokers: `buf`.
pub open spec fn buffoon_origin() -> Seq<u8> {
    seq![98u8, 117, 102]
}

/// Which jokers of `rarity`'s pool a buffoon pack may offer once the identities
/// `taken` were drawn.
pub open spec fn buffoon_table(data: RunData, jokers: Seq<Joker>, taken: Seq<JokerType>, rarity: JokerRarity) -> Seq<bool> {
    Seq::new(
        rarity.pool_of().len(),
        |j: int|
            (data.showman || !taken.contains(rarity.pool_of()[j])) && (data.showman || (!shop_offers_joker(
                data.shop.inventory@,
                rarity.pool_of()[j],
            ) && !owns_joker(jokers, rarity.pool_of()[j]))),
    )
}

/// `t` is a buffoon pack's joker drawn after the identities `taken`, with draw
/// counts `m0` before and `m1` after: a rarity from one uniform draw on
/// `rarity{ante}buf`, then a poll of that rarity's pool on
/// `Joker{rarity + 1}buf{ante}` among the jokers still offered.
pub open spec fn buffoon_draw<F: Fn(Vec<u8>, u64, u64) -> u64>(
    draw: &F,
    data: RunData,
    jokers: Seq<Joker>,
    m0: Map<Seq<u8>, u64>,
    m1: Map<Seq<u8>, u64>,
    taken: Seq<JokerType>,
    t: JokerType,
) -> bool {
    exists|k: u64, i: nat|
        #![trigger drew(draw, rarity_channel(data.ante, buffoon_origin()), count_of(m0, rarity_channel(data.ante, buffoon_origin())), UNIT_SCALE, k), polled(draw, with_fallback(buffoon_table(data, jokers, taken, rarity_of_draw(k))), joker_channel(rarity_of_draw(k), buffoon_origin(), data.ante), bumped(m0, rarity_channel(data.ante, buffoon_origin())), m1, i)]
        {
            &&& drew(draw, rarity_channel(data.ante, buffoon_origin()), count_of(m0, rarity_channel(data.ante, buffoon_origin())), UNIT_SCALE, k)
            &&& polled(
                draw,
                with_fallback(buffoon_table(data, jokers, taken, rarity_of_draw(k))),
                joker_channel(rarity_of_draw(k), buffoon_origin(), data.ante),
                bumped(m0, rarity_channel(data.ante, buffoon_origin())),
                m1,
                i,
            )
            &&& i < rarity_of_draw(k).pool_of().len()
            &&& t == rarity_of_draw(k).pool_of()[i as int]
        }
}

/// The cards `v` of an arcana pack, each drawn after the ones before it, with
/// draw counts `m0` before and `m1` after.
pub open spec fn arcana_drawn<F: Fn(Vec<u8>, u64, u64) -> u64>(draw: &F, data: RunData, m0: Map<Seq<u8>, u64>, m1: Map<Seq<u8>, u64>, v: Seq<ArcanaCard>) -> bool
    decreases v.len(),
{
    if v.len() == 0 {
        m1 == m0
    } else {
        exists|mid: Map<Seq<u8>, u64>|
            arcana_drawn(draw, data, m0, mid, v.drop_last()) && #[trigger] arcana_draw(
                draw,
                data,
                mid,
                m1,
                arcana_consumables(v.drop_last()),
                arcana_consumable(v.last()),
            )
    }
}

/// The cards `v` of a celestial pack, each drawn after the ones before it (but
/// a telescope's first, which draws nothing), with draw counts `m0` before and
/// `m1` after.
pub open spec fn celestial_drawn<F: Fn(Vec<u8>, u64, u64) -> u64>(draw: &F, data: RunData, m0: Map<Seq<u8>, u64>, m1: Map<Seq<u8>, u64>, v: Seq<CelestialCard>) -> bool
    decreases v.len(),
{
    if v.len() == 0 {
        m1 == m0
    } else {
        exists|mid: Map<Seq<u8>, u64>|
            celestial_drawn(draw, data, m0, mid, v.drop_last()) && #[trigger] celestial_step(draw, data, mid, m1, v)
    }
}

/// The last card of `v` in a celestial pack: a telescope's first draws nothing,
/// any other is a celestial draw after the cards before it.
pub open spec fn celestial_step<F: Fn(Vec<u8>, u64, u64) -> u64>(draw: &F, data: RunData, m0: Map<Seq<u8>, u64>, m1: Map<Seq<u8>, u64>, v: Seq<CelestialCard>) -> bool {
    if v.len() == 1 && data.vouchers@[Voucher::Telescope.index() as int] {
        m1 == m0
    } else {
        celestial_draw(draw, data, m0, m1, v.drop_last(), v.last())
    }
}

/// The cards `v` of a spectral pack, each drawn after the ones before it, with
/// draw counts `m0` before and `m1` after.
pub open spec fn spectral_drawn<F: Fn(Vec<u8>, u64, u64) -> u64>(draw: &F, data: RunData, m0: Map<Seq<u8>, u64>, m1: Map<Seq<u8>, u64>, v: Seq<Spectral>) -> bool
    decreases v.len(),
{
    if v.len() == 0 {
        m1 == m0
    } else {
        exists|mid: Map<Seq<u8>, u64>|
            spectral_drawn(draw, data, m0, mid, v.drop_last()) && #[trigger] spectral_pack_draw(
                draw,
                data,
                mid,
                m1,
                spectral_consumables(v.drop_last()),
                Consumable::SpectralCard(v.last()),
            )
    }
}

/// The jokers `v` of a buffoon pack, each drawn after the ones before it, with
/// draw counts `m0` before and `m1` after.
pub open spec fn buffoon_drawn<F: Fn(Vec<u8>, u64, u64) -> u64>(draw: &F, data: RunData, jokers: Seq<Joker>, m0: Map<Seq<u8>, u64>, m1: Map<Seq<u8>, u64>, v: Seq<Joker>) -> bool
    decreases v.len(),
{
    if v.len() == 0 {
        m1 == m0
    } else {
        exists|mid: Map<Seq<u8>, u64>|
            buffoon_drawn(draw, data, jokers, m0, mid, v.drop_last()) && #[trigger] buffoon_draw(
                draw,
                data,
                jokers,
                mid,
                m1,
                joker_types(v.drop_last()),
                v.last().joker_type,
            )
    }
}

/// The cards `v` of a standard pack, one draw each, with draw counts `m0`
/// before and `m1` after.
pub open spec fn standard_drawn<F: Fn(Vec<u8>, u64, u64) -> u64>(draw: &F, ante: i32, m0: Map<Seq<u8>, u64>, m1: Map<Seq<u8>, u64>, v: Seq<Card>) -> bool
    decreases v.len(),
{
    if v.len() == 0 {
        m1 == m0
    } else {
        exists|mid: Map<Seq<u8>, u64>|
            standard_drawn(draw, ante, m0, mid, v.drop_last()) && #[trigger] standard_pack_draw(draw, ante, mid, m1, v.last())
    }
}

/// The contents of a pack came from its draws, with draw counts `m0` before
/// and `m1` after.
pub open spec fn pack_drawn_contents<F: Fn(Vec<u8>, u64, u64) -> u64>(draw: &F, run: Run, m0: Map<Seq<u8>, u64>, m1: Map<Seq<u8>, u64>, r: BoosterPackData) -> bool {
    match r {
        BoosterPackData::ArcanaNormal(v) | BoosterPackData::ArcanaJumbo(v) | BoosterPackData::ArcanaMega(v) => arcana_drawn(draw, run.data, m0, m1, v@),
        BoosterPackData::CelestialNormal(v) | BoosterPackData::CelestialJumbo(v) | BoosterPackData::CelestialMega(v) => celestial_drawn(draw, run.data, m0, m1, v@),
        BoosterPackData::SpectralNormal(v) | BoosterPackData::SpectralJumbo(v) | BoosterPackData::SpectralMega(v) => spectral_drawn(draw, run.data, m0, m1, v@),
        BoosterPackData::BuffoonNormal(v) | BoosterPackData::BuffoonJumbo(v) | BoosterPackData::BuffoonMega(v) => buffoon_drawn(draw, run.data, run.jokers@, m0, m1, v@),
        BoosterPackData::StandardNormal(v) | BoosterPackData::StandardJumbo(v) | BoosterPackData::StandardMega(v) => standard_drawn(draw, run.data.ante, m0, m1, v@),
    }
}

/// The contents `data` has the kind and size of pack `t`.
pub open spec fn pack_fits(t: BoosterPackType, data: BoosterPackData) -> bool {
    match (t, data) {
        (BoosterPackType::ArcanaNormal, BoosterPackData::ArcanaNormal(v)) => v@.len() == 3,
        (BoosterPackType::ArcanaJumbo, BoosterPackData::ArcanaJumbo(v)) => v@.len() == 5,
        (BoosterPackType::ArcanaMega, BoosterPackData::ArcanaMega(v)) => v@.len() == 5,
        (BoosterPackType::CelestialNormal, BoosterPackData::CelestialNormal(v)) => v@.len() == 3,
        (BoosterPackType::CelestialJumbo, BoosterPackData::CelestialJumbo(v)) => v@.len() == 5,
        (BoosterPackType::CelestialMega, BoosterPackData::CelestialMega(v)) => v@.len() == 5,
        (BoosterPackType::StandardNormal, BoosterPackData::StandardNormal(v)) => v@.len() == 3,
        (BoosterPackType::StandardJumbo, BoosterPackData::StandardJumbo(v)) => v@.len() == 5,
        (BoosterPackType::StandardMega, BoosterPackData::StandardMega(v)) => v@.len() == 5,
        (BoosterPackType::BuffoonNormal, BoosterPackData::BuffoonNormal(v)) => v@.len() == 2,
        (BoosterPackType::BuffoonJumbo, BoosterPackData::BuffoonJumbo(v)) => v@.len() == 4,
        (BoosterPackType::BuffoonMega, BoosterPackData::BuffoonMega(v)) => v@.len() == 4,
        (BoosterPackType::SpectralNormal, BoosterPackData::SpectralNormal(v)) => v@.len() == 2,
        (BoosterPackType::SpectralJumbo, BoosterPackData::SpectralJumbo(v)) => v@.len() == 4,
        (BoosterPackType::SpectralMega, BoosterPackData::SpectralMega(v)) => v@.len() == 4,
        _ => false,
    }
}

impl RunData {
    /// The most played hand category, the weakest among ties.
    pub fn most_played_hand(&self) -> (r: HandType)
        requires
            self.wf(),
        ensures
            forall|h: int| 0 <= h < HAND_TYPE_COUNT ==> #[trigger] self.times_played@[h] <= self.times_played@[r.index() as int],
            forall|h: int| 0 <= h < r.index() ==> #[trigger] self.times_played@[h] < self.times_played@[r.index() as int],
    {
        let mut best: usize = 0;
        let mut h: usize = 1;
        while h < HAND_TYPE_COUNT
            invariant
                1 <= h <= HAND_TYPE_COUNT,
                best < h,
                self.times_played@.len() == HAND_TYPE_COUNT,
                forall|g: int| 0 <= g < h ==> #[trigger] self.times_played@[g] <= self.times_played@[best as int],
                forall|g: int| 0 <= g < best ==> #[trigger] self.times_played@[g] < self.times_played@[best as int],
            decreases HAND_TYPE_COUNT - h,
        {
            if self.times_played[h] > self.times_played[best] {
                best = h;
            }
            h += 1;
        }
        HandType::from_index(best)
    }

    /// `n` arcana cards, each draw leaving out the cards drawn before it:
    /// tarots, or with the omen globe owned spectral cards after a uniform draw on
    /// `omen_globe` above 0.8.
    pub fn arcana<F: Fn(Vec<u8>, u64, u64) -> u64>(&self, n: usize, counts: &mut Channels<u64>, draw: &F) -> (r: Vec<ArcanaCard>)
        requires
            self.wf(),
            old(counts).wf(),
            draw_source(draw),
        ensures
            r@.len() == n,
            final(counts).wf(),
            arcana_drawn(draw, *self, old(counts).view(), final(counts).view(), r@),
    {
        let ghost m0 = counts.view();
        let mut cards: Vec<ArcanaCard> = Vec::new();
        let mut taken: Vec<Consumable> = Vec::new();
        let mut idx: usize = 0;
        while idx < n
            invariant
                idx <= n,
                cards@.len() == idx,
                self.wf(),
                counts.wf(),
                draw_source(draw),
                m0 == old(counts).view(),
                taken@ == arcana_consumables(cards@),
                arcana_drawn(draw, *self, m0, counts.view(), cards@),
            decreases n - idx,
        {
            let ghost mid = counts.view();
            let ghost mut omen: u64 = 0;
            let spectral = if self.vouchers[Voucher::OmenGlobe.to_index()] {
                let key: Vec<u8> = vec![111u8, 109, 101, 110, 95, 103, 108, 111, 98, 101];
                proof {
                    assert(key@ == omen_channel());
                }
                let k = draw_counted(counts, key, UNIT_SCALE, draw);
                proof {
                    omen = k;
                }
                k > OMEN_THRESHOLD
            } else {
                false
            };
            let ghost after_omen = counts.view();
            let creator = if spectral {
                ConsumableCreator {
                    type_key: vec![83u8, 112, 101, 99, 116, 114, 97, 108],
                    origin_key: vec![97u8, 114, 50],
                    excluded: copy_vec(&taken),
                    soul: Some(Spectral::TheSoul),
                    order: all_spectrals(),
                }
            } else {
                ConsumableCreator {
                    type_key: vec![84u8, 97, 114, 111, 116],
                    origin_key: vec![97u8, 114, 49],
                    excluded: copy_vec(&taken),
                    soul: Some(Spectral::TheSoul),
                    order: all_tarots(),
                }
            };
            let c = creator.create(self, counts, draw);
            let card = match c {
                Consumable::TarotCard(t) => ArcanaCard::Tarot(t),
                Consumable::SpectralCard(s) => ArcanaCard::Spectral(s),
                Consumable::PlanetCard(_) => {
                    proof {
                        assert(false);
                    }
                    ArcanaCard::Spectral(Spectral::TheSoul)
                },
            };
            proof {
                assert(arcana_consumable(card) == c);
                assert(creator.type_key@ == if spectral { spectral_key() } else { tarot_key() });
                assert(creator.origin_key@ == arcana_origin(spectral));
                assert(arcana_pool(spectral, creator.order@));
                assert(arcana_kind_draw(draw, *self, after_omen, counts.view(), taken@, spectral, c));
                if self.vouchers@[Voucher::OmenGlobe.index() as int] {
                    assert(drew(draw, omen_channel(), count_of(mid, omen_channel()), UNIT_SCALE, omen));
                    assert(after_omen == bumped(mid, omen_channel()));
                } else {
                    assert(after_omen == mid);
                }
                assert(arcana_draw(draw, *self, mid, counts.view(), taken@, c));
            }
            let ghost before = cards@;
            let ghost taken_before = taken@;
            cards.push(card);
            taken.push(c);
            proof {
                assert(cards@.drop_last() =~= before);
                assert(taken@ =~= arcana_consumables(cards@));
                assert(arcana_consumables(cards@.drop_last()) =~= taken_before);
                assert(cards@.last() == card);
                assert(arcana_drawn(draw, *self, m0, mid, cards@.drop_last()));
                assert(arcana_draw(draw, *self, mid, counts.view(), arcana_consumables(cards@.drop_last()), arcana_consumable(cards@.last())));
            }
            idx += 1;
        }
        cards
    }

    /// `n` celestial cards, each draw leaving out locked planets and the planets
    /// drawn before it; with the telescope owned the first is the most played
    /// category's planet, the weakest among ties, and draws nothing; a lucky draw
    /// gives the black hole.
    pub fn celestial<F: Fn(Vec<u8>, u64, u64) -> u64>(&self, n: usize, counts: &mut Channels<u64>, draw: &F) -> (r: Vec<CelestialCard>)
        requires
            self.wf(),
            old(counts).wf(),
            draw_source(draw),
        ensures
            r@.len() == n,
            final(counts).wf(),
            n > 0 && self.vouchers@[Voucher::Telescope.index() as int] ==> (r@[0] matches CelestialCard::Planet(h)
                && (forall|g: int| 0 <= g < HAND_TYPE_COUNT ==> #[trigger] self.times_played@[g]
                <= self.times_played@[h.index() as int])
                && forall|g: int| 0 <= g < h.index() ==> #[trigger] self.times_played@[g]
                < self.times_played@[h.index() as int]),
            celestial_drawn(draw, *self, old(counts).view(), final(counts).view(), r@),
    {
        let mut locked: Vec<Consumable> = Vec::new();
        let mut h: usize = 0;
        while h < HAND_TYPE_COUNT
            invariant
                h <= HAND_TYPE_COUNT,
                self.wf(),
                forall|x: Consumable| #[trigger] locked@.contains(x) <==> (x matches Consumable::PlanetCard(g) && g.index() < h
                    && !self.planet_unlocked@[g.index() as int]),
            decreases HAND_TYPE_COUNT - h,
        {
            let g = HandType::from_index(h);
            let ghost before = locked@;
            if !self.planet_unlocked[h] {
                locked.push(Consumable::PlanetCard(g));
            }
            proof {
                assert forall|x: Consumable| #[trigger] locked@.contains(x) <==> (x matches Consumable::PlanetCard(q) && q.index() < h + 1
                    && !self.planet_unlocked@[q.index() as int]) by {
                    if locked@.contains(x) {
                        let j = choose|j: int| 0 <= j < locked@.len() && locked@[j] == x;
                        if j < before.len() {
                            assert(before[j] == x);
                            assert(before.contains(x));
                        }
                    }
                    if let Consumable::PlanetCard(q) = x {
                        if q.index() < h + 1 && !self.planet_unlocked@[q.index() as int] {
                            if q.index() < h {
                                assert(before.contains(x));
                                let j = choose|j: int| 0 <= j < before.len() && before[j] == x;
                                assert(locked@[j] == x);
                            } else {
                                assert(q == g);
                                assert(locked@[locked@.len() - 1] == x);
                            }
                        }
                    }
                }
            }
            h += 1;
        }
        let ghost m0 = counts.view();
        let mut cards: Vec<CelestialCard> = Vec::new();
        let mut idx: usize = 0;
        while idx < n
            invariant
                idx <= n,
                cards@.len() == idx,
                self.wf(),
                counts.wf(),
                draw_source(draw),
                m0 == old(counts).view(),
                idx > 0 && self.vouchers@[Voucher::Telescope.index() as int] ==> (cards@[0] matches CelestialCard::Planet(h)
                    && (forall|g: int| 0 <= g < HAND_TYPE_COUNT ==> #[trigger] self.times_played@[g]
                    <= self.times_played@[h.index() as int])
                    && forall|g: int| 0 <= g < h.index() ==> #[trigger] self.times_played@[g]
                    < self.times_played@[h.index() as int]),
                forall|x: Consumable| #[trigger] locked@.contains(x) <==> celestial_left_out(*self, cards@, x),
                celestial_drawn(draw, *self, m0, counts.view(), cards@),
            decreases n - idx,
        {
            let ghost mid = counts.view();
            let card = if self.vouchers[Voucher::Telescope.to_index()] && idx == 0 {
                CelestialCard::Planet(self.most_played_hand())
            } else {
                let creator = ConsumableCreator {
                    type_key: vec![80u8, 108, 97, 110, 101, 116],
                    origin_key: vec![112u8, 108, 49],
                    excluded: copy_vec(&locked),
                    soul: Some(Spectral::BlackHole),
                    order: all_planets(),
                };
                let c = creator.create(self, counts, draw);
                let card = match c {
                    Consumable::PlanetCard(p) => CelestialCard::Planet(p),
                    Consumable::SpectralCard(_) => CelestialCard::BlackHole,
                    Consumable::TarotCard(_) => {
                        proof {
                            assert(false);
                        }
                        CelestialCard::BlackHole
                    },
                };
                proof {
                    assert(celestial_consumable(card) == c);
                    assert(creator.type_key@ == planet_key());
                    assert(creator.origin_key@ == celestial_origin());
                    assert(consumable_drawn(draw, *self, mid, counts.view(), planet_key(), celestial_origin(), Some(Spectral::BlackHole), planet_pool(), locked@, c));
                    assert(celestial_draw(draw, *self, mid, counts.view(), cards@, card));
                }
                card
            };
            let ghost before = cards@;
            let ghost locked_before = locked@;
            if let CelestialCard::Planet(p) = card {
                locked.push(Consumable::PlanetCard(p));
            }
            cards.push(card);
            proof {
                assert forall|x: Consumable| #[trigger] locked@.contains(x) <==> celestial_left_out(*self, cards@, x) by {
                    if let Consumable::PlanetCard(q) = x {
                        if before.contains(CelestialCard::Planet(q)) {
                            let j = choose|j: int| 0 <= j < before.len() && before[j] == CelestialCard::Planet(q);
                            assert(cards@[j] == CelestialCard::Planet(q));
                        }
                        if cards@.contains(CelestialCard::Planet(q)) {
                            let j = choose|j: int| 0 <= j < cards@.len() && cards@[j] == CelestialCard::Planet(q);
                            if j < before.len() {
                                assert(before[j] == CelestialCard::Planet(q));
                            }
                        }
                    }
                    if locked@.contains(x) {
                        let j = choose|j: int| 0 <= j < locked@.len() && locked@[j] == x;
                        if j < locked_before.len() {
                            assert(locked_before[j] == x);
                        }
                    }
                    if locked_before.contains(x) {
                        let j = choose|j: int| 0 <= j < locked_before.len() && locked_before[j] == x;
                        assert(locked@[j] == x);
                    }
                    if card matches CelestialCard::Planet(p) && x == Consumable::PlanetCard(p) {
                        assert(locked@[locked@.len() - 1] == x);
                        assert(cards@[idx as int] == card);
                    }
                }
                assert(cards@.drop_last() =~= before);
                assert(cards@.last() == card);
                assert(celestial_drawn(draw, *self, m0, mid, cards@.drop_last()));
                if idx == 0 {
                    assert(cards@[0] == card);
                }
                if !(cards@.len() == 1 && self.vouchers@[Voucher::Telescope.index() as int]) {
                    assert(celestial_draw(draw, *self, mid, counts.view(), cards@.drop_last(), cards@.last()));
                } else {
                    assert(counts.view() == mid);
                }
                assert(celestial_step(draw, *self, mid, counts.view(), cards@));
            }
            idx += 1;
        }
        cards
    }

    /// `n` spectral cards, each draw leaving out the cards drawn before it; a
    /// lucky draw gives the soul.
    pub fn spectral<F: Fn(Vec<u8>, u64, u64) -> u64>(&self, n: usize, counts: &mut Channels<u64>, draw: &F) -> (r: Vec<Spectral>)
        requires
            self.wf(),
            old(counts).wf(),
            draw_source(draw),
        ensures
            r@.len() == n,
            final(counts).wf(),
            spectral_drawn(draw, *self, old(counts).view(), final(counts).view(), r@),
    {
        let ghost m0 = counts.view();
        let mut cards: Vec<Spectral> = Vec::new();
        let mut taken: Vec<Consumable> = Vec::new();
        let mut idx: usize = 0;
        while idx < n
            invariant
                idx <= n,
                cards@.len() == idx,
                self.wf(),
                counts.wf(),
                draw_source(draw),
                m0 == old(counts).view(),
                taken@ == spectral_consumables(cards@),
                spectral_drawn(draw, *self, m0, counts.view(), cards@),
            decreases n - idx,
        {
            let ghost mid = counts.view();
            let creator = ConsumableCreator {
                type_key: vec![83u8, 112, 101, 99, 116, 114, 97, 108],
                origin_key: vec![115u8, 112, 101],
                excluded: copy_vec(&taken),
                soul: Some(Spectral::TheSoul),
                order: all_spectrals(),
            };
            let c = creator.create(self, counts, draw);
            let s = match c {
                Consumable::SpectralCard(s) => s,
                _ => {
                    proof {
                        assert(false);
                    }
                    Spectral::TheSoul
                },
            };
            proof {
                assert(creator.type_key@ == spectral_key());
                assert(creator.origin_key@ == spectral_pack_origin());
                assert(spectral_pool(creator.order@));
                assert(spectral_pack_draw(draw, *self, mid, counts.view(), taken@, c));
            }
            let ghost before = cards@;
            let ghost taken_before = taken@;
            cards.push(s);
            taken.push(c);
            proof {
                assert(cards@.drop_last() =~= before);
                assert(taken@ =~= spectral_consumables(cards@));
                assert(spectral_consumables(cards@.drop_last()) =~= taken_before);
                assert(cards@.last() == s);
                assert(spectral_drawn(draw, *self, m0, mid, cards@.drop_last()));
                assert(spectral_pack_draw(draw, *self, mid, counts.view(), spectral_consumables(cards@.drop_last()), Consumable::SpectralCard(cards@.last())));
                assert(cards@.len() > 0);
                assert(spectral_drawn(draw, *self, m0, counts.view(), cards@));
            }
            idx += 1;
        }
        cards
    }

    /// `n` standard cards, each one draw on `frontsta{ante}`.
    pub fn normal<F: Fn(Vec<u8>, u64, u64) -> u64>(&self, n: usize, counts: &mut Channels<u64>, draw: &F) -> (r: Vec<Card>)
        requires
            old(counts).wf(),
            draw_source(draw),
        ensures
            r@.len() == n,
            final(counts).wf(),
            standard_drawn(draw, self.ante, old(counts).view(), final(counts).view(), r@),
    {
        let ghost m0 = counts.view();
        let creator = CardCreator::plain(vec![115u8, 116, 97]);
        proof {
            assert(creator.front_channel(self.ante) == standard_pack_channel(self.ante));
        }
        let mut cards: Vec<Card> = Vec::new();
        let mut idx: usize = 0;
        while idx < n
            invariant
                idx <= n,
                cards@.len() == idx,
                counts.wf(),
                draw_source(draw),
                m0 == old(counts).view(),
                creator.enhancement == Enhancement::Plain,
                creator.edition == Edition::Base,
                creator.seal == Seal::Unsealed,
                creator.front_channel(self.ante) == standard_pack_channel(self.ante),
                standard_drawn(draw, self.ante, m0, counts.view(), cards@),
            decreases n - idx,
        {
            let ghost mid = counts.view();
            let c = creator.create(self, counts, draw);
            proof {
                let d = choose|d: u64| #[trigger] drew(draw, creator.front_channel(self.ante), count_of(mid, creator.front_channel(self.ante)), 52, d) && d < 52 && c == (Card {
                    enhancement: creator.enhancement,
                    edition: creator.edition,
                    seal: creator.seal,
                    ..standard_cards()[d as int]
                });
                assert(c == standard_cards()[d as int]);
                assert(standard_pack_draw(draw, self.ante, mid, counts.view(), c));
            }
            let ghost before = cards@;
            cards.push(c);
            proof {
                assert(cards@.drop_last() =~= before);
                assert(cards@.last() == c);
                assert(standard_drawn(draw, self.ante, m0, mid, cards@.drop_last()));
                assert(standard_pack_draw(draw, self.ante, mid, counts.view(), cards@.last()));
            }
            idx += 1;
        }
        cards
    }
}

impl Run {
    /// `n` jokers of random non-legendary rarity for a buffoon pack, each draw
    /// leaving out the identities drawn before it.
    pub fn buffoon_jokers<F: Fn(Vec<u8>, u64, u64) -> u64>(&mut self, n: usize, draw: &F) -> (r: Vec<Joker>)
        requires
            old(self).wf(),
            draw_source(draw),
        ensures
            r@.len() == n,
            final(self).wf(),
            final(self).data == old(self).data,
            final(self).jokers == old(self).jokers,
            final(self).game_state == old(self).game_state,
            buffoon_drawn(draw, old(self).data, old(self).jokers@, old(self).draws.view(), final(self).draws.view(), r@),
    {
        let ghost m0 = self.draws.view();
        let mut out: Vec<Joker> = Vec::new();
        let mut taken: Vec<JokerType> = Vec::new();
        let mut idx: usize = 0;
        while idx < n
            invariant
                idx <= n,
                out@.len() == idx,
                draw_source(draw),
                self.wf(),
                self.data == old(self).data,
                self.jokers == old(self).jokers,
                self.game_state == old(self).game_state,
                m0 == old(self).draws.view(),
                taken@ == joker_types(out@),
                buffoon_drawn(draw, self.data, self.jokers@, m0, self.draws.view(), out@),
            decreases n - idx,
        {
            let ghost mid = self.draws.view();
            let mut creator = JokerCreator::plain(vec![98u8, 117, 102], JokerRarityMode::RandomNonLegendary);
            creator.excluded = copy_vec(&taken);
            creator.dont_filter_on_showman = true;
            let j = creator.create(&self.data, &self.jokers, &mut self.draws, draw);
            proof {
                let (rarity, i) = choose|rarity: JokerRarity, i: nat| {
                    &&& (creator.joker_rarity matches JokerRarityMode::Single(s) ==> rarity == s)
                    &&& (creator.joker_rarity is RandomNonLegendary ==> exists|k: u64|
                        #[trigger] drew(draw, rarity_channel(self.data.ante, creator.origin_key@), count_of(mid, rarity_channel(self.data.ante, creator.origin_key@)), UNIT_SCALE, k)
                            && rarity == rarity_of_draw(k))
                    &&& #[trigger] polled(
                        draw,
                        with_fallback(creator.offer_table(self.data, self.jokers@, rarity)),
                        joker_channel(rarity, creator.origin_key@, self.data.ante),
                        creator.after_rarity(mid, self.data.ante),
                        self.draws.view(),
                        i,
                    )
                    &&& i < rarity.pool_of().len()
                    &&& j.joker_type == rarity.pool_of()[i as int]
                };
                let k = choose|k: u64|
                    #[trigger] drew(draw, rarity_channel(self.data.ante, creator.origin_key@), count_of(mid, rarity_channel(self.data.ante, creator.origin_key@)), UNIT_SCALE, k)
                        && rarity == rarity_of_draw(k);
                assert(creator.origin_key@ == buffoon_origin());
                assert(creator.offer_table(self.data, self.jokers@, rarity) =~= buffoon_table(self.data, self.jokers@, taken@, rarity));
                assert(buffoon_draw(draw, self.data, self.jokers@, mid, self.draws.view(), taken@, j.joker_type));
            }
            let ghost before = out@;
            let ghost taken_before = taken@;
            taken.push(j.joker_type);
            out.push(j);
            proof {
                assert(out@.drop_last() =~= before);
                assert(taken@ =~= joker_types(out@));
                assert(joker_types(out@.drop_last()) =~= taken_before);
                assert(out@.last() == j);
                assert(buffoon_drawn(draw, self.data, self.jokers@, m0, mid, out@.drop_last()));
                assert(buffoon_draw(draw, self.data, self.jokers@, mid, self.draws.view(), joker_types(out@.drop_last()), out@.last().joker_type));
            }
            idx += 1;
        }
        out
    }

    /// Opens a booster pack of kind `t`: three or five arcana, celestial or
    /// standard cards, two or four jokers or spectral cards.
    pub fn open_booster_pack<F: Fn(Vec<u8>, u64, u64) -> u64>(&mut self, t: BoosterPackType, draw: &F) -> (r: BoosterPackData)
        requires
            old(self).wf(),
            draw_source(draw),
        ensures
            final(self).wf(),
            final(self).data == old(self).data,
            final(self).jokers == old(self).jokers,
            final(self).game_state == old(self).game_state,
            pack_fits(t, r),
            pack_drawn_contents(draw, *old(self), old(self).draws.view(), final(self).draws.view(), r),
    {
        match t {
            BoosterPackType::ArcanaNormal => BoosterPackData::ArcanaNormal(self.data.arcana(3, &mut self.draws, draw)),
            BoosterPackType::ArcanaJumbo => BoosterPackData::ArcanaJumbo(self.data.arcana(5, &mut self.draws, draw)),
            BoosterPackType::ArcanaMega => BoosterPackData::ArcanaMega(self.data.arcana(5, &mut self.draws, draw)),
            BoosterPackType::CelestialNormal => BoosterPackData::CelestialNormal(self.data.celestial(3, &mut self.draws, draw)),
            BoosterPackType::CelestialJumbo => BoosterPackData::CelestialJumbo(self.data.celestial(5, &mut self.draws, draw)),
            BoosterPackType::CelestialMega => BoosterPackData::CelestialMega(self.data.celestial(5, &mut self.draws, draw)),
            BoosterPackType::SpectralNormal => BoosterPackData::SpectralNormal(self.data.spectral(2, &mut self.draws, draw)),
            BoosterPackType::SpectralJumbo => BoosterPackData::SpectralJumbo(self.data.spectral(4, &mut self.draws, draw)),
            BoosterPackType::SpectralMega => BoosterPackData::SpectralMega(self.data.spectral(4, &mut self.draws, draw)),
            BoosterPackType::BuffoonNormal => BoosterPackData::BuffoonNormal(self.buffoon_jokers(2, draw)),
            BoosterPackType::BuffoonJumbo => BoosterPackData::BuffoonJumbo(self.buffoon_jokers(4, draw)),
            BoosterPackType::BuffoonMega => BoosterPackData::BuffoonMega(self.buffoon_jokers(4, draw)),
            BoosterPackType::StandardNormal => BoosterPackData::StandardNormal(self.data.normal(3, &mut self.draws, draw)),
            BoosterPackType::StandardJumbo => BoosterPackData::StandardJumbo(self.data.normal(5, &mut self.draws, draw)),
            BoosterPackType::StandardMega => BoosterPackData::StandardMega(self.data.normal(5, &mut self.draws, draw)),
        }
    }
}

} // verus!

