//! Pool selection for the shop, vouchers, tags and jokers: which entries are
//! available, and the seeded draws that pick among them.

use crate::joker::{
    common_jokers_vec, legendary_jokers_vec, rare_jokers_vec, state_fits, uncommon_jokers_vec,
    common_jokers, legendary_jokers, rare_jokers, uncommon_jokers, Joker, JokerEdition,
    JokerInternalState, JokerType, Stickers,
};
use crate::event::DispatcherOrder;
use crate::hands::HAND_TYPE_COUNT;
use crate::run::RunData;
use crate::seeding::{
    bumped, count_of, draw_counted, drew, polled, Channels,
    any_available, draw_source, key_with_number, poll, signed_decimal, concat, UNIT_SCALE,
};
use crate::boosters::BoosterPackType;
use crate::consumable::{Consumable, Spectral, Tarot, SPECTRAL_COUNT, TAROT_COUNT};
use crate::decks::{default_cards, standard_cards};
use crate::hands::HandType;
use crate::run::Run;
use crate::seeding::{covers, push_signed_decimal, weighted_pick};
use crate::shop::{Shop, ShopItem, ShopItemType};
use crate::tags::{Tag, TAG_COUNT};
use crate::vouchers::{Voucher, VOUCHER_COUNT};
use vstd::prelude::*;

verus! {

/// The channel `{prefix}{ante}`.
pub open spec fn channel(prefix: Seq<u8>, ante: i32) -> Seq<u8> {
    prefix + signed_decimal(ante as int)
}

/// Channel of a joker's rarity draw: `rarity{ante}{origin}`.
pub open spec fn rarity_channel(ante: i32, origin: Seq<u8>) -> Seq<u8> {
    channel(seq![114u8, 97, 114, 105, 116, 121], ante) + origin
}

/// Channel of a joker poll within `rarity`'s pool: `Joker{rarity + 1}{origin}{ante}`.
pub open spec fn joker_channel(rarity: JokerRarity, origin: Seq<u8>, ante: i32) -> Seq<u8> {
    seq![74u8, 111, 107, 101, 114] + signed_decimal((rarity.rank() + 1) as int) + origin + signed_decimal(ante as int)
}

/// Channel of the shop's pack draw: `shop_pack{ante}`.
pub open spec fn pack_channel(ante: i32) -> Seq<u8> {
    channel(seq![115u8, 104, 111, 112, 95, 112, 97, 99, 107], ante)
}

/// Channel of the shop's item category draw: `cdt{ante}`.
pub open spec fn category_channel(ante: i32) -> Seq<u8> {
    channel(seq![99u8, 100, 116], ante)
}

/// Channel of the shop's playing card draw: `frontsho{ante}`.
pub open spec fn front_channel(ante: i32) -> Seq<u8> {
    channel(seq![102u8, 114, 111, 110, 116, 115, 104, 111], ante)
}

/// Rarity of a joker.
#[derive(Debug, Clone, Copy, PartialEq, Eq, Structural)]
pub enum JokerRarity {
    Common,
    Uncommon,
    Rare,
    Legendary,
}

/// A uniform draw above this value (0.95 as a multiple of `1 / UNIT_SCALE`) gives a rare joker.
pub const RARE_THRESHOLD: u64 = 8556839292003942;

/// A uniform draw above this value (0.7) gives an uncommon joker.
pub const UNCOMMON_THRESHOLD: u64 = 6305039478318694;

/// Rarity picked by a uniform draw `k` (a multiple of `1 / UNIT_SCALE`).
pub open spec fn rarity_of_draw(k: u64) -> JokerRarity {
    if k > RARE_THRESHOLD {
        JokerRarity::Rare
    } else if k > UNCOMMON_THRESHOLD {
        JokerRarity::Uncommon
    } else {
        JokerRarity::Common
    }
}

impl JokerRarity {
    /// Position of the rarity, common first.
    pub open spec fn rank(self) -> nat {
        match self {
            JokerRarity::Common => 0,
            JokerRarity::Uncommon => 1,
            JokerRarity::Rare => 2,
            JokerRarity::Legendary => 3,
        }
    }

    /// The jokers of this rarity, in pool order.
    pub open spec fn pool_of(self) -> Seq<JokerType> {
        match self {
            JokerRarity::Common => common_jokers(),
            JokerRarity::Uncommon => uncommon_jokers(),
            JokerRarity::Rare => rare_jokers(),
            JokerRarity::Legendary => legendary_jokers(),
        }
    }

    pub fn pool(self) -> (r: Vec<JokerType>)
        ensures
            r@ == self.pool_of(),
    {
        match self {
            JokerRarity::Common => common_jokers_vec(),
            JokerRarity::Uncommon => uncommon_jokers_vec(),
            JokerRarity::Rare => rare_jokers_vec(),
            JokerRarity::Legendary => legendary_jokers_vec(),
        }
    }
}

/// Rarity picked by a uniform draw `k`.
pub fn rarity_from_draw(k: u64) -> (r: JokerRarity)
    ensures
        r == rarity_of_draw(k),
{
    if k > RARE_THRESHOLD {
        JokerRarity::Rare
    } else if k > UNCOMMON_THRESHOLD {
        JokerRarity::Uncommon
    } else {
        JokerRarity::Common
    }
}

/// `available` itself when it has a set flag; otherwise only its first slot set,
/// the pool's fallback.
pub open spec fn with_fallback(available: Seq<bool>) -> Seq<bool> {
    if any_available(available) {
        available
    } else {
        available.update(0, true)
    }
}

/// Polls `available` on `key`, the first slot standing in as fallback when no
/// slot is available.
pub fn poll_or_first<F: Fn(Vec<u8>, u64, u64) -> u64>(available: Vec<bool>, key: &Vec<u8>, counts: &mut Channels<u64>, draw: &F) -> (r: usize)
    requires
        available@.len() > 0,
        available@.len() <= u64::MAX,
        old(counts).wf(),
        draw_source(draw),
    ensures
        r < available@.len(),
        with_fallback(available@)[r as int],
        final(counts).wf(),
        polled(draw, with_fallback(available@), key@, old(counts).view(), final(counts).view(), r as nat),
{
    let mut table = available;
    let mut i: usize = 0;
    let mut any = false;
    while i < table.len()
        invariant
            i <= table@.len(),
            any == exists|j: int| 0 <= j < i && table@[j],
        decreases table@.len() - i,
    {
        if table[i] {
            any = true;
        }
        proof {
            if table@[i as int] {
                assert(0 <= i < i + 1 && table@[i as int]);
            }
        }
        i += 1;
    }
    let ghost orig = table@;
    if !any {
        table.set(0, true);
        proof {
            assert(table@[0]);
            assert(!any_available(orig));
        }
    } else {
        proof {
            let j = choose|j: int| 0 <= j < orig.len() && orig[j];
            assert(any_available(orig));
        }
    }
    proof {
        assert(table@ == with_fallback(orig));
        assert(table@[0] || any_available(orig));
    }
    poll(&table, key, counts, draw)
}

/// Whether `vs` holds voucher `v`.
fn holds_voucher(vs: &Vec<Voucher>, v: Voucher) -> (r: bool)
    ensures
        r == vs@.contains(v),
{
    let mut i: usize = 0;
    while i < vs.len()
        invariant
            i <= vs@.len(),
            forall|j: int| 0 <= j < i ==> vs@[j] != v,
        decreases vs@.len() - i,
    {
        if vs[i] == v {
            return true;
        }
        i += 1;
    }
    false
}

/// The ten tags that may be drawn from the first ante on; the others need ante two.
pub open spec fn first_ante_tag(t: Tag) -> bool {
    match t {
        Tag::BossTag | Tag::CharmTag | Tag::CouponTag | Tag::D6Tag | Tag::DoubleTag
        | Tag::EconomyTag | Tag::FoilTag | Tag::HolographicTag | Tag::InvestmentTag
        | Tag::JuggleTag | Tag::PolychromeTag | Tag::RareTag | Tag::SpeedTag | Tag::UncommonTag
        | Tag::VoucherTag => true,
        _ => false,
    }
}

fn is_first_ante_tag(t: Tag) -> (r: bool)
    ensures
        r == first_ante_tag(t),
{
    match t {
        Tag::BossTag | Tag::CharmTag | Tag::CouponTag | Tag::D6Tag | Tag::DoubleTag
        | Tag::EconomyTag | Tag::FoilTag | Tag::HolographicTag | Tag::InvestmentTag
        | Tag::JuggleTag | Tag::PolychromeTag | Tag::RareTag | Tag::SpeedTag | Tag::UncommonTag
        | Tag::VoucherTag => true,
        _ => false,
    }
}

impl RunData {
    /// A voucher may be offered: not owned, its prerequisite owned, and not
    /// already in the shop.
    pub open spec fn voucher_offerable(self, v: Voucher) -> bool {
        &&& !self.vouchers@[v.index() as int]
        &&& v.requirements_met(self.vouchers@)
        &&& !self.shop.vouchers@.contains(v)
    }

    /// `t` is the voucher availability table: by position, whether the voucher may
    /// be offered, or when none may, the blank voucher alone.
    pub open spec fn voucher_table(self, t: Seq<bool>) -> bool {
        &&& t.len() == VOUCHER_COUNT
        &&& (exists|v: Voucher| self.voucher_offerable(v)) ==> forall|v: Voucher|
            #[trigger] t[v.index() as int] == self.voucher_offerable(v)
        &&& !(exists|v: Voucher| self.voucher_offerable(v)) ==> forall|v: Voucher|
            #[trigger] t[v.index() as int] == (v == Voucher::Blank)
    }

    /// Availability of every voucher, by position; when none may be offered, the
    /// blank voucher alone is available.
    pub fn available_vouchers(&self) -> (r: Vec<bool>)
        requires
            self.wf(),
        ensures
            r@.len() == VOUCHER_COUNT,
            (exists|v: Voucher| self.voucher_offerable(v)) ==> forall|v: Voucher|
                #[trigger] r@[v.index() as int] == self.voucher_offerable(v),
            !(exists|v: Voucher| self.voucher_offerable(v)) ==> forall|v: Voucher|
                #[trigger] r@[v.index() as int] == (v == Voucher::Blank),
    {
        let mut r: Vec<bool> = Vec::new();
        let mut any = false;
        let mut i: usize = 0;
        while i < VOUCHER_COUNT
            invariant
                i <= VOUCHER_COUNT,
                self.wf(),
                r@.len() == i,
                forall|v: Voucher| v.index() < i ==> #[trigger] r@[v.index() as int] == self.voucher_offerable(v),
                any == exists|v: Voucher| v.index() < i && #[trigger] self.voucher_offerable(v),
            decreases VOUCHER_COUNT - i,
        {
            let v = Voucher::from_index(i);
            let ok = !self.vouchers[i] && v.requirements_fulfilled(&self.vouchers) && !holds_voucher(
                &self.shop.vouchers,
                v,
            );
            r.push(ok);
            if ok {
                any = true;
            }
            proof {
                if ok {
                    assert(v.index() < i + 1 && self.voucher_offerable(v));
                }
                assert forall|w: Voucher| w.index() < i + 1 implies #[trigger] r@[w.index() as int] == self.voucher_offerable(w) by {
                    if w.index() == i {
                        assert(w == v);
                    }
                }
                assert((exists|w: Voucher| w.index() < i + 1 && #[trigger] self.voucher_offerable(w)) ==> any) by {
                    if exists|w: Voucher| w.index() < i + 1 && #[trigger] self.voucher_offerable(w) {
                        let w = choose|w: Voucher| w.index() < i + 1 && #[trigger] self.voucher_offerable(w);
                        if w.index() == i {
                            assert(w == v);
                        }
                    }
                }
            }
            i += 1;
        }
        if !any {
            let blank = Voucher::Blank.to_index();
            r.set(blank, true);
            proof {
                assert forall|v: Voucher| #[trigger] r@[v.index() as int] == (v == Voucher::Blank) by {
                    assert(!self.voucher_offerable(v));
                }
            }
        }
        r
    }

    /// Draws the next voucher on channel `Voucher{ante}` among the available ones.
    pub fn poll_next_voucher<F: Fn(Vec<u8>, u64, u64) -> u64>(&self, counts: &mut Channels<u64>, draw: &F) -> (r: Voucher)
        requires
            self.wf(),
            old(counts).wf(),
            draw_source(draw),
        ensures
            final(counts).wf(),
            self.voucher_offerable(r) || (!(exists|v: Voucher| self.voucher_offerable(v)) && r
                == Voucher::Blank),
            exists|t: Seq<bool>| #[trigger] self.voucher_table(t) && polled(
                draw,
                t,
                channel(seq![86u8, 111, 117, 99, 104, 101, 114], self.ante),
                old(counts).view(),
                final(counts).view(),
                r.index(),
            ),
    {
        let available = self.available_vouchers();
        let key = key_with_number(&[86u8, 111, 117, 99, 104, 101, 114], self.ante as i64);
        proof {
            assert(any_available(available@)) by {
                if exists|v: Voucher| self.voucher_offerable(v) {
                    let v = choose|v: Voucher| self.voucher_offerable(v);
                    assert(available@[v.index() as int]);
                } else {
                    assert(available@[Voucher::Blank.index() as int]);
                }
            }
        }
        let idx = poll(&available, &key, counts, draw);
        let v = Voucher::from_index(idx);
        proof {
            assert(available@[v.index() as int]);
            assert(key@ == channel(seq![86u8, 111, 117, 99, 104, 101, 114], self.ante));
            assert(self.voucher_table(available@));
        }
        v
    }

    /// `t` is the tag availability table, by tag position.
    pub open spec fn tag_table(self, t: Seq<bool>) -> bool {
        &&& t.len() == TAG_COUNT
        &&& forall|g: Tag| #[trigger] t[g.index() as int] == self.tag_available(g)
    }

    /// Tag `t` may be drawn in the current ante.
    pub open spec fn tag_available(self, t: Tag) -> bool {
        first_ante_tag(t) || self.ante >= 2
    }

    /// Draws a tag on channel `Tag{ante}` among those available in this ante.
    pub fn next_random_tag<F: Fn(Vec<u8>, u64, u64) -> u64>(&self, counts: &mut Channels<u64>, draw: &F) -> (r: Tag)
        requires
            old(counts).wf(),
            draw_source(draw),
        ensures
            final(counts).wf(),
            self.tag_available(r),
            exists|t: Seq<bool>| #[trigger] self.tag_table(t) && polled(
                draw,
                t,
                channel(seq![84u8, 97, 103], self.ante),
                old(counts).view(),
                final(counts).view(),
                r.index(),
            ),
    {
        let mut available: Vec<bool> = Vec::new();
        let mut i: usize = 0;
        while i < TAG_COUNT
            invariant
                i <= TAG_COUNT,
                available@.len() == i,
                forall|t: Tag| t.index() < i ==> #[trigger] available@[t.index() as int] == self.tag_available(t),
            decreases TAG_COUNT - i,
        {
            let t = Tag::from_index(i);
            available.push(is_first_ante_tag(t) || self.ante >= 2);
            i += 1;
        }
        let key = key_with_number(&[84u8, 97, 103], self.ante as i64);
        proof {
            assert(available@[Tag::BossTag.index() as int]);
        }
        let idx = poll(&available, &key, counts, draw);
        let t = Tag::from_index(idx);
        proof {
            assert(available@[t.index() as int]);
            assert(key@ == channel(seq![84u8, 97, 103], self.ante));
            assert(self.tag_table(available@));
        }
        t
    }
}

/// The memory a fresh joker of identity `t` starts with.
pub open spec fn fresh_state(t: JokerType) -> JokerInternalState {
    match t {
        JokerType::DNA => JokerInternalState::DNA(false),
        JokerType::SixthSense => JokerInternalState::SixthSense(false),
        JokerType::TradingCard => JokerInternalState::TradingCard(false),
        JokerType::BurntJoker => JokerInternalState::BurntJoker(false),
        JokerType::CeremonialDagger => JokerInternalState::CeremonialDagger { mult: 0 },
        JokerType::TurtleBean => JokerInternalState::TurtleBean { hand_size: 5 },
        _ => JokerInternalState::Stateless,
    }
}

/// The memory a fresh joker of identity `t` starts with; card sharps start with
/// no category played.
pub fn initial_state(t: JokerType) -> (r: JokerInternalState)
    ensures
        state_fits(t, r),
        t != JokerType::CardSharp ==> r == fresh_state(t),
{
    match t {
        JokerType::DNA => JokerInternalState::DNA(false),
        JokerType::SixthSense => JokerInternalState::SixthSense(false),
        JokerType::TradingCard => JokerInternalState::TradingCard(false),
        JokerType::BurntJoker => JokerInternalState::BurntJoker(false),
        JokerType::CeremonialDagger => JokerInternalState::CeremonialDagger { mult: 0 },
        JokerType::TurtleBean => JokerInternalState::TurtleBean { hand_size: 5 },
        JokerType::CardSharp => {
            let mut flags: Vec<bool> = Vec::new();
            let mut i: usize = 0;
            while i < HAND_TYPE_COUNT
                invariant
                    i <= HAND_TYPE_COUNT,
                    flags@.len() == i,
                decreases HAND_TYPE_COUNT - i,
            {
                flags.push(false);
                i += 1;
            }
            JokerInternalState::CardSharp { played_before: flags }
        },
        _ => JokerInternalState::Stateless,
    }
}


/// Category of a shop item.
pub open spec fn item_category(item: ShopItem) -> ShopItemType {
    match item {
        ShopItem::Joker(_) => ShopItemType::Joker,
        ShopItem::Consumable(Consumable::TarotCard(_)) => ShopItemType::Tarot,
        ShopItem::Consumable(Consumable::PlanetCard(_)) => ShopItemType::Planet,
        ShopItem::Consumable(Consumable::SpectralCard(_)) => ShopItemType::SpectralCard,
        ShopItem::PlayingCard(_) => ShopItemType::PlayingCard,
    }
}

/// Category `i` is what a weighted draw `k` over `weights` picks.
pub open spec fn picked(weights: Seq<u64>, k: u64, i: int) -> bool {
    &&& 0 <= i < weights.len()
    &&& covers(weights, k as nat, i)
    &&& forall|j: int| 0 <= j < i ==> !covers(weights, k as nat, j)
}

/// Uniform draw on `key`, as a multiple of `1 / UNIT_SCALE`.
fn draw_unit<F: Fn(Vec<u8>, u64, u64) -> u64>(key: Vec<u8>, counts: &mut Channels<u64>, draw: &F) -> (r: u64)
    requires
        old(counts).wf(),
        draw_source(draw),
    ensures
        final(counts).wf(),
        r < UNIT_SCALE,
        drew(draw, key@, count_of(old(counts).view(), key@), UNIT_SCALE, r),
        final(counts).view() == bumped(old(counts).view(), key@),
{
    draw_counted(counts, key, UNIT_SCALE, draw)
}

/// Every slot of an `n`-slot pool available.
pub open spec fn all_true(n: nat) -> Seq<bool> {
    Seq::new(n, |i: int| true)
}

/// Polls a pool of `n` entries that are all available.
fn poll_all<F: Fn(Vec<u8>, u64, u64) -> u64>(n: usize, key: &Vec<u8>, counts: &mut Channels<u64>, draw: &F) -> (r: usize)
    requires
        0 < n,
        old(counts).wf(),
        draw_source(draw),
    ensures
        r < n,
        final(counts).wf(),
        polled(draw, all_true(n as nat), key@, old(counts).view(), final(counts).view(), r as nat),
{
    let mut available: Vec<bool> = Vec::new();
    let mut i: usize = 0;
    while i < n
        invariant
            i <= n,
            available@.len() == i,
            forall|j: int| 0 <= j < i ==> available@[j],
        decreases n - i,
    {
        available.push(true);
        i += 1;
    }
    proof {
        assert(available@[0]);
        assert(available@ =~= all_true(n as nat));
    }
    poll(&available, key, counts, draw)
}

/// `t` can come out of drawing a joker for origin `origin` in ante `ante`, with
/// draw counts `m0` before and `m1` after: one uniform draw on
/// `rarity{ante}{origin}` picks the rarity, then a poll of that rarity's whole
/// pool on `Joker{rarity + 1}{origin}{ante}` picks the joker.
pub open spec fn joker_drawn<F: Fn(Vec<u8>, u64, u64) -> u64>(
    draw: &F,
    m0: Map<Seq<u8>, u64>,
    m1: Map<Seq<u8>, u64>,
    ante: i32,
    origin: Seq<u8>,
    t: JokerType,
) -> bool {
    exists|k: u64, i: nat|
        #![trigger drew(draw, rarity_channel(ante, origin), count_of(m0, rarity_channel(ante, origin)), UNIT_SCALE, k), polled(draw, all_true(rarity_of_draw(k).pool_of().len()), joker_channel(rarity_of_draw(k), origin, ante), bumped(m0, rarity_channel(ante, origin)), m1, i)]
        {
            &&& drew(draw, rarity_channel(ante, origin), count_of(m0, rarity_channel(ante, origin)), UNIT_SCALE, k)
            &&& polled(
                draw,
                all_true(rarity_of_draw(k).pool_of().len()),
                joker_channel(rarity_of_draw(k), origin, ante),
                bumped(m0, rarity_channel(ante, origin)),
                m1,
                i,
            )
            &&& i < rarity_of_draw(k).pool_of().len()
            &&& t == rarity_of_draw(k).pool_of()[i as int]
        }
}

/// `p` comes out of one weighted pack draw on `shop_pack{ante}` over `weights`,
/// with draw counts `m0` before and `m1` after.
pub open spec fn pack_drawn<F: Fn(Vec<u8>, u64, u64) -> u64>(
    draw: &F,
    m0: Map<Seq<u8>, u64>,
    m1: Map<Seq<u8>, u64>,
    ante: i32,
    weights: Seq<u64>,
    p: BoosterPackType,
) -> bool {
    &&& m1 == bumped(m0, pack_channel(ante))
    &&& exists|k: u64| #[trigger] drew(draw, pack_channel(ante), count_of(m0, pack_channel(ante)), UNIT_SCALE, k)
        && picked(weights, k, p.index() as int)
}

/// `item` comes out of a shop draw in ante `ante` with item weights `weights`,
/// with draw counts `m0` before and `m1` after: one weighted draw on
/// `cdt{ante}` picks its category; a joker comes from origin `sho`; a tarot,
/// planet or spectral from a poll of its whole pool on `Tarotsho{ante}`,
/// `Planetsho{ante}` or `Spectralsho{ante}`; a playing card is the standard
/// card of one draw on `frontsho{ante}`.
pub open spec fn shop_item_drawn<F: Fn(Vec<u8>, u64, u64) -> u64>(
    draw: &F,
    m0: Map<Seq<u8>, u64>,
    m1: Map<Seq<u8>, u64>,
    ante: i32,
    weights: Seq<u64>,
    item: ShopItem,
) -> bool {
    &&& exists|k: u64| #[trigger] drew(draw, category_channel(ante), count_of(m0, category_channel(ante)), UNIT_SCALE, k)
        && picked(weights, k, item_category(item).index() as int)
    &&& match item {
        ShopItem::Joker(j) => joker_drawn(draw, bumped(m0, category_channel(ante)), m1, ante, seq![115u8, 104, 111], j.joker_type),
        ShopItem::Consumable(Consumable::TarotCard(t)) => polled(
            draw,
            all_true(TAROT_COUNT as nat),
            channel(seq![84u8, 97, 114, 111, 116, 115, 104, 111], ante),
            bumped(m0, category_channel(ante)),
            m1,
            t.index(),
        ),
        ShopItem::Consumable(Consumable::PlanetCard(h)) => polled(
            draw,
            all_true(HAND_TYPE_COUNT as nat),
            channel(seq![80u8, 108, 97, 110, 101, 116, 115, 104, 111], ante),
            bumped(m0, category_channel(ante)),
            m1,
            h.index(),
        ),
        ShopItem::Consumable(Consumable::SpectralCard(c)) => polled(
            draw,
            all_true(SPECTRAL_COUNT as nat),
            channel(seq![83u8, 112, 101, 99, 116, 114, 97, 108, 115, 104, 111], ante),
            bumped(m0, category_channel(ante)),
            m1,
            c.index(),
        ),
        ShopItem::PlayingCard(c) => {
            &&& m1 == bumped(bumped(m0, category_channel(ante)), front_channel(ante))
            &&& exists|i: u64|
                #[trigger] drew(draw, front_channel(ante), count_of(bumped(m0, category_channel(ante)), front_channel(ante)), 52, i)
                    && i < 52 && c == standard_cards()[i as int]
        },
    }
}

/// The items `items` come out of successive shop draws, with draw counts `m0`
/// before and `m1` after.
pub open spec fn inventory_drawn<F: Fn(Vec<u8>, u64, u64) -> u64>(
    draw: &F,
    m0: Map<Seq<u8>, u64>,
    m1: Map<Seq<u8>, u64>,
    ante: i32,
    weights: Seq<u64>,
    items: Seq<ShopItem>,
) -> bool
    decreases items.len(),
{
    if items.len() == 0 {
        m1 == m0
    } else {
        exists|mid: Map<Seq<u8>, u64>|
            inventory_drawn(draw, m0, mid, ante, weights, items.drop_last())
                && #[trigger] shop_item_drawn(draw, mid, m1, ante, weights, items.last())
    }
}

impl Joker {
    /// A fresh joker of identity `t`: base edition, no stickers, no sell value.
    pub fn fresh(t: JokerType) -> (r: Joker)
        ensures
            r.joker_type == t,
            state_fits(t, r.data),
            r.edition == JokerEdition::Base,
            r.stickers == (Stickers { eternal: false, perishable: false, rental: false }),
            r.sell_value == 0,
            !r.debuffed,
            r.dispatcher_order.events@.len() == crate::event::EVENT_COUNT,
    {
        Joker {
            data: initial_state(t),
            joker_type: t,
            edition: JokerEdition::Base,
            stickers: Stickers { eternal: false, perishable: false, rental: false },
            sell_value: 0,
            debuffed: false,
            dispatcher_order: DispatcherOrder::new(),
        }
    }
}

/// The channel key `{prefix}{middle}{origin}{ante}`.
fn keyed(prefix: &[u8], middle: i64, origin: &[u8], ante: i32) -> (r: Vec<u8>)
    ensures
        r@ == prefix@ + signed_decimal(middle as int) + origin@ + signed_decimal(ante as int),
{
    let head = key_with_number(prefix, middle);
    let mut out = concat(head.as_slice(), origin);
    push_signed_decimal(&mut out, ante as i64);
    out
}

impl RunData {
    /// Draws a joker identity for origin `key`: a rarity from a uniform draw on
    /// `rarity{ante}{key}`, then any joker of that rarity's pool, polled on
    /// `Joker{rarity + 1}{key}{ante}`.
    pub fn poll_next_joker<F: Fn(Vec<u8>, u64, u64) -> u64>(&self, key: &Vec<u8>, counts: &mut Channels<u64>, draw: &F) -> (r: JokerType)
        requires
            old(counts).wf(),
            draw_source(draw),
        ensures
            final(counts).wf(),
            exists|k: u64| k < UNIT_SCALE && rarity_of_draw(k).pool_of().contains(r),
            joker_drawn(draw, old(counts).view(), final(counts).view(), self.ante, key@, r),
    {
        let ghost m0 = counts.view();
        let rkey = key_with_number(&[114u8, 97, 114, 105, 116, 121], self.ante as i64);
        let rkey = concat(rkey.as_slice(), key.as_slice());
        proof {
            assert(rkey@ == rarity_channel(self.ante, key@));
        }
        let k = draw_unit(rkey, counts, draw);
        let ghost m1 = counts.view();
        let rarity = rarity_from_draw(k);
        let pool = rarity.pool();
        let rank: i64 = match rarity {
            JokerRarity::Common => 1,
            JokerRarity::Uncommon => 2,
            JokerRarity::Rare => 3,
            JokerRarity::Legendary => 4,
        };
        let pkey = keyed(&[74u8, 111, 107, 101, 114], rank, key.as_slice(), self.ante);
        let idx = poll_all(pool.len(), &pkey, counts, draw);
        let t = pool[idx];
        proof {
            assert(rarity.pool_of()[idx as int] == t);
            assert(rank as int == rarity.rank() + 1);
            assert(pkey@ == joker_channel(rarity, key@, self.ante));
            assert(drew(draw, rarity_channel(self.ante, key@), count_of(m0, rarity_channel(self.ante, key@)), UNIT_SCALE, k));
            assert(m1 == bumped(m0, rarity_channel(self.ante, key@)));
            assert(polled(draw, all_true(rarity.pool_of().len()), joker_channel(rarity, key@, self.ante), m1, counts.view(), idx as nat));
        }
        t
    }

    /// Draws the next shop item: its category by a weighted draw on `cdt{ante}`
    /// over the shop weights, then the item within that category.
    pub fn poll_next_shop_item<F: Fn(Vec<u8>, u64, u64) -> u64>(&self, counts: &mut Channels<u64>, draw: &F) -> (r: ShopItem)
        requires
            self.wf(),
            old(counts).wf(),
            draw_source(draw),
        ensures
            final(counts).wf(),
            shop_item_drawn(draw, old(counts).view(), final(counts).view(), self.ante, self.shop.weights@, r),
    {
        let ghost m0 = counts.view();
        let ckey = key_with_number(&[99u8, 100, 116], self.ante as i64);
        proof {
            assert(ckey@ == category_channel(self.ante));
        }
        let k = draw_unit(ckey, counts, draw);
        let pick = weighted_pick(&self.shop.weights, k);
        let category = ShopItemType::from_index(pick);
        proof {
            assert(picked(self.shop.weights@, k, category.index() as int));
            assert(drew(draw, category_channel(self.ante), count_of(m0, category_channel(self.ante)), UNIT_SCALE, k));
            assert(counts.view() == bumped(m0, category_channel(self.ante)));
        }
        let item = match category {
            ShopItemType::Joker => {
                let origin: Vec<u8> = vec![115u8, 104, 111];
                proof {
                    assert(origin@ == seq![115u8, 104, 111]);
                }
                let t = self.poll_next_joker(&origin, counts, draw);
                ShopItem::Joker(Joker::fresh(t))
            },
            ShopItemType::Tarot => {
                let key = key_with_number(&[84u8, 97, 114, 111, 116, 115, 104, 111], self.ante as i64);
                let idx = poll_all(TAROT_COUNT, &key, counts, draw);
                let t = Tarot::from_index(idx);
                proof {
                    assert(key@ == channel(seq![84u8, 97, 114, 111, 116, 115, 104, 111], self.ante));
                }
                ShopItem::Consumable(Consumable::TarotCard(t))
            },
            ShopItemType::Planet => {
                let key = key_with_number(&[80u8, 108, 97, 110, 101, 116, 115, 104, 111], self.ante as i64);
                let idx = poll_all(HAND_TYPE_COUNT, &key, counts, draw);
                let h = HandType::from_index(idx);
                proof {
                    assert(key@ == channel(seq![80u8, 108, 97, 110, 101, 116, 115, 104, 111], self.ante));
                }
                ShopItem::Consumable(Consumable::PlanetCard(h))
            },
            ShopItemType::SpectralCard => {
                let key = key_with_number(
                    &[83u8, 112, 101, 99, 116, 114, 97, 108, 115, 104, 111],
                    self.ante as i64,
                );
                let idx = poll_all(SPECTRAL_COUNT, &key, counts, draw);
                let c = Spectral::from_index(idx);
                proof {
                    assert(key@ == channel(seq![83u8, 112, 101, 99, 116, 114, 97, 108, 115, 104, 111], self.ante));
                }
                ShopItem::Consumable(Consumable::SpectralCard(c))
            },
            ShopItemType::PlayingCard => {
                let key = key_with_number(&[102u8, 114, 111, 110, 116, 115, 104, 111], self.ante as i64);
                proof {
                    assert(key@ == front_channel(self.ante));
                }
                let cards = default_cards();
                let idx = draw_counted(counts, key, 52, draw);
                ShopItem::PlayingCard(cards[idx as usize])
            },
        };
        proof {
            assert(item_category(item) == category);
        }
        item
    }

    /// The shop's next booster pack: a normal buffoon pack the first time, then a
    /// weighted draw on `shop_pack{ante}` over the pack weights.
    pub fn next_shop_booster_pack<F: Fn(Vec<u8>, u64, u64) -> u64>(&mut self, counts: &mut Channels<u64>, draw: &F) -> (r: BoosterPackType)
        requires
            old(self).wf(),
            old(counts).wf(),
            draw_source(draw),
        ensures
            final(self).wf(),
            final(counts).wf(),
            !old(self).shop.first_shop_buffoon ==> r == BoosterPackType::BuffoonNormal && final(counts).view() == old(counts).view(),
            old(self).shop.first_shop_buffoon ==> pack_drawn(draw, old(counts).view(), final(counts).view(), old(self).ante, old(self).shop.pack_weights@, r),
            final(self).shop.first_shop_buffoon,
            (RunData { shop: Shop { first_shop_buffoon: true, ..old(self).shop }, ..*old(self) }) == *final(self),
    {
        if !self.shop.first_shop_buffoon {
            self.shop.first_shop_buffoon = true;
            return BoosterPackType::BuffoonNormal;
        }
        let ghost m0 = counts.view();
        let key = key_with_number(&[115u8, 104, 111, 112, 95, 112, 97, 99, 107], self.ante as i64);
        proof {
            assert(key@ == pack_channel(self.ante));
        }
        let k = draw_unit(key, counts, draw);
        let pick = weighted_pick(&self.shop.pack_weights, k);
        let pack = BoosterPackType::from_index(pick);
        proof {
            assert(picked(self.shop.pack_weights@, k, pack.index() as int));
            assert(drew(draw, pack_channel(self.ante), count_of(m0, pack_channel(self.ante)), UNIT_SCALE, k));
        }
        pack
    }
}

impl Run {
    fn regenerate_shop_inventory<F: Fn(Vec<u8>, u64, u64) -> u64>(&mut self, draw: &F)
        requires
            old(self).wf(),
            draw_source(draw),
        ensures
            final(self).wf(),
            final(self).data.shop.inventory@.len() == old(self).data.shop.size,
            inventory_drawn(
                draw,
                old(self).draws.view(),
                final(self).draws.view(),
                old(self).data.ante,
                old(self).data.shop.weights@,
                final(self).data.shop.inventory@,
            ),
            (RunData { shop: Shop { inventory: final(self).data.shop.inventory, ..old(self).data.shop }, ..old(self).data }) == final(self).data,
            final(self).jokers == old(self).jokers,
            final(self).game_state == old(self).game_state,
    {
        let ghost m0 = self.draws.view();
        let n = self.data.shop.size;
        let mut inv: Vec<ShopItem> = Vec::new();
        let mut i: usize = 0;
        proof {
            assert(inventory_drawn(draw, m0, self.draws.view(), self.data.ante, self.data.shop.weights@, inv@));
        }
        while i < n
            invariant
                i <= n,
                inv@.len() == i,
                self.wf(),
                draw_source(draw),
                self.data == old(self).data,
                self.jokers == old(self).jokers,
                self.game_state == old(self).game_state,
                m0 == old(self).draws.view(),
                inventory_drawn(draw, m0, self.draws.view(), self.data.ante, self.data.shop.weights@, inv@),
            decreases n - i,
        {
            let ghost mid = self.draws.view();
            let ghost before = inv@;
            let item = self.data.poll_next_shop_item(&mut self.draws, draw);
            inv.push(item);
            proof {
                assert(inv@.drop_last() =~= before);
                assert(inv@.last() == item);
                assert(inventory_drawn(draw, m0, mid, self.data.ante, self.data.shop.weights@, inv@.drop_last()));
                assert(shop_item_drawn(draw, mid, self.draws.view(), self.data.ante, self.data.shop.weights@, inv@.last()));
            }
            i += 1;
        }
        self.data.shop.inventory = inv;
    }

    /// Opens the shop: on a new ante a fresh voucher is drawn, then the inventory
    /// is restocked and two booster packs are drawn, in that order.
    pub fn enter_shop<F: Fn(Vec<u8>, u64, u64) -> u64>(&mut self, new_ante: bool, draw: &F)
        requires
            old(self).wf(),
            draw_source(draw),
        ensures
            final(self).wf(),
            final(self).data.shop.inventory@.len() == old(self).data.shop.size,
            final(self).data.shop.packs@.len() == 2,
            final(self).data.shop.packs@[0] is Some && final(self).data.shop.packs@[1] is Some,
            new_ante ==> final(self).data.shop.vouchers@.len() == 1,
            !new_ante ==> final(self).data.shop.vouchers == old(self).data.shop.vouchers,
            exists|m1: Map<Seq<u8>, u64>, m2: Map<Seq<u8>, u64>| {
                &&& (new_ante ==> exists|t: Seq<bool>| #[trigger] old(self).data.voucher_table(t) && polled(
                    draw,
                    t,
                    channel(seq![86u8, 111, 117, 99, 104, 101, 114], old(self).data.ante),
                    old(self).draws.view(),
                    m1,
                    final(self).data.shop.vouchers@[0].index(),
                ))
                &&& (!new_ante ==> m1 == old(self).draws.view())
                &&& #[trigger] inventory_drawn(
                    draw,
                    m1,
                    m2,
                    old(self).data.ante,
                    old(self).data.shop.weights@,
                    final(self).data.shop.inventory@,
                )
                &&& final(self).data.shop.packs@[0] matches Some(p) && if old(self).data.shop.first_shop_buffoon {
                    pack_drawn(draw, m2, bumped(m2, pack_channel(old(self).data.ante)), old(self).data.ante, old(self).data.shop.pack_weights@, p)
                } else {
                    p == BoosterPackType::BuffoonNormal
                }
                &&& final(self).data.shop.packs@[1] matches Some(p) && pack_drawn(
                    draw,
                    if old(self).data.shop.first_shop_buffoon {
                        bumped(m2, pack_channel(old(self).data.ante))
                    } else {
                        m2
                    },
                    final(self).draws.view(),
                    old(self).data.ante,
                    old(self).data.shop.pack_weights@,
                    p,
                )
            },
            final(self).data.ante == old(self).data.ante,
            final(self).jokers == old(self).jokers,
    {
        let ghost m0 = self.draws.view();
        if new_ante {
            let v = self.data.poll_next_voucher(&mut self.draws, draw);
            self.data.shop.vouchers = vec![v];
        }
        let ghost m1 = self.draws.view();
        self.regenerate_shop_inventory(draw);
        let ghost m2 = self.draws.view();
        let first = self.data.next_shop_booster_pack(&mut self.draws, draw);
        let ghost m3 = self.draws.view();
        let second = self.data.next_shop_booster_pack(&mut self.draws, draw);
        let packs: Vec<Option<BoosterPackType>> = vec![Some(first), Some(second)];
        self.data.shop.packs = packs;
        proof {
            assert(inventory_drawn(draw, m1, m2, old(self).data.ante, old(self).data.shop.weights@, self.data.shop.inventory@));
        }
    }

    /// Restocks the inventory, pays the reroll price, and raises it by one.
    pub fn reroll<F: Fn(Vec<u8>, u64, u64) -> u64>(&mut self, draw: &F)
        requires
            old(self).wf(),
            draw_source(draw),
        ensures
            final(self).wf(),
            final(self).data.shop.inventory@.len() == old(self).data.shop.size,
            inventory_drawn(
                draw,
                old(self).draws.view(),
                final(self).draws.view(),
                old(self).data.ante,
                old(self).data.shop.weights@,
                final(self).data.shop.inventory@,
            ),
            final(self).data.money == sat_sub_i64(old(self).data.money as int, old(self).data.shop.reroll_price as int),
            final(self).data.shop.reroll_price == sat_add_i64(old(self).data.shop.reroll_price as int, 1),
    {
        self.regenerate_shop_inventory(draw);
        self.data.money = clamp_i64(self.data.money as i128 - self.data.shop.reroll_price as i128);
        self.data.shop.reroll_price = clamp_i64(self.data.shop.reroll_price as i128 + 1);
    }
}

fn clamp_i64(v: i128) -> (r: i64)
    ensures
        r == sat_add_i64(v as int, 0),
{
    if v > i64::MAX as i128 {
        i64::MAX
    } else if v < i64::MIN as i128 {
        i64::MIN
    } else {
        v as i64
    }
}

/// `a - b` clamped to the `i64` range.
pub open spec fn sat_sub_i64(a: int, b: int) -> i64 {
    let v = a - b;
    if v > i64::MAX {
        i64::MAX
    } else if v < i64::MIN {
        i64::MIN
    } else {
        v as i64
    }
}

/// `a + b` clamped to the `i64` range.
pub open spec fn sat_add_i64(a: int, b: int) -> i64 {
    let v = a + b;
    if v > i64::MAX {
        i64::MAX
    } else if v < i64::MIN {
        i64::MIN
    } else {
        v as i64
    }
}

} // verus!
