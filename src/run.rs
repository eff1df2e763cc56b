//! The run: its persistent state, blind requirements, and the state machine that
//! plays blinds.

use crate::blind::{
    draw_count, drawn, without, Blind, BlindType, BossBlindData, BossBlindType, HandPlayedEventData,
};
use crate::card::{Card, Suit};
use crate::controller::{BlindAction, CashoutAction, ShopAction, SimulationResult};
use crate::dispatch::{
    dispatch_order, orders_fit, positions, priority, run_actions, run_deferred, visited_before,
};
use crate::event::Event;
use crate::hands::{classify, Hand};
use crate::seeding::{
    bumped, count_of as channel_count, fisher_yates, fits_shuffle, key_with_number, shuffle_counted,
    shuffle_source, shuffle_with, shuffled_on, signed_decimal, Channels,
};
use crate::joker::{chip_bonus, mult_bonus, sat_add, DeferredAction, Joker, JokerType};
use crate::consumable::{Consumable, Spectral, Tarot};
use crate::decks::DeckType;
use crate::hands::{HandType, HAND_TYPE_COUNT};
use crate::shop::Shop;
use crate::stake::Stake;
use crate::vouchers::{Voucher, VOUCHER_COUNT};
use vstd::prelude::*;

verus! {

/// State of a run that outlives its blinds.
#[derive(Debug, Clone, PartialEq)]
pub struct RunData {
    pub stake: Stake,
    pub shop: Shop,
    pub cards: Vec<Card>,
    pub deck_type: DeckType,
    pub joker_slots: usize,
    pub consumables: Vec<Consumable>,
    pub consumable_slots: usize,
    /// Which vouchers are owned, by voucher position.
    pub vouchers: Vec<bool>,
    pub starting_hands: u32,
    pub starting_discards: u32,
    pub money: i64,
    pub hand_size: u32,
    pub ante: i32,
    pub times_played: Vec<u32>,
    pub base_chips: Vec<u64>,
    pub base_mult: Vec<u64>,
    pub hand_levels: Vec<u32>,
    pub planet_unlocked: Vec<bool>,
    /// How often each boss was assigned, by boss position.
    pub times_boss_used: Vec<usize>,
    pub this_antes_boss: BossBlindType,
    pub showman: bool,
}

/// Level `level` moved by `amount`, never below one nor above `u32::MAX`.
pub open spec fn leveled(level: u32, amount: int) -> u32 {
    let v = level + amount;
    if v < 1 {
        1
    } else if v > u32::MAX {
        u32::MAX
    } else {
        v as u32
    }
}

impl RunData {
    /// Every per-voucher, per-category and per-boss table has one entry each.
    pub open spec fn wf(&self) -> bool {
        &&& self.shop.wf()
        &&& self.vouchers@.len() == VOUCHER_COUNT
        &&& self.times_played@.len() == HAND_TYPE_COUNT
        &&& self.base_chips@.len() == HAND_TYPE_COUNT
        &&& self.base_mult@.len() == HAND_TYPE_COUNT
        &&& self.hand_levels@.len() == HAND_TYPE_COUNT
        &&& self.planet_unlocked@.len() == HAND_TYPE_COUNT
        &&& self.times_boss_used@.len() == crate::blind::BOSS_BLIND_COUNT
    }

    /// Moves the level of `hand` by `amount`, keeping it at least one.
    pub fn change_hand_level(&mut self, hand: HandType, amount: i32)
        requires
            old(self).wf(),
        ensures
            final(self).wf(),
            final(self).hand_levels@ == old(self).hand_levels@.update(
                hand.index() as int,
                leveled(old(self).hand_levels@[hand.index() as int], amount as int),
            ),
            (RunData { hand_levels: final(self).hand_levels, ..*old(self) }) == *final(self),
    {
        let i = hand.to_index();
        let v: i64 = self.hand_levels[i] as i64 + amount as i64;
        let level: u32 = if v < 1 {
            1
        } else if v > u32::MAX as i64 {
            u32::MAX
        } else {
            v as u32
        };
        self.hand_levels.set(i, level);
    }

    /// No other category was played more often than `hand_in_question`.
    pub fn is_most_played_hand(&self, hand_in_question: HandType) -> (r: bool)
        requires
            self.times_played@.len() == HAND_TYPE_COUNT,
        ensures
            r == forall|h: int|
                0 <= h < HAND_TYPE_COUNT ==> #[trigger] self.times_played@[h]
                    <= self.times_played@[hand_in_question.index() as int],
    {
        let mine = self.times_played[hand_in_question.to_index()];
        let mut h: usize = 0;
        while h < HAND_TYPE_COUNT
            invariant
                h <= HAND_TYPE_COUNT,
                self.times_played@.len() == HAND_TYPE_COUNT,
                mine == self.times_played@[hand_in_question.index() as int],
                forall|g: int| 0 <= g < h ==> self.times_played@[g] <= mine,
            decreases HAND_TYPE_COUNT - h,
        {
            if self.times_played[h] > mine {
                return false;
            }
            h += 1;
        }
        true
    }
}

/// Base requirements by ante (rows 0 to 8) and stake tier (columns 0 to 2).
pub open spec fn requirement_table() -> Seq<u64> {
    seq![
        100, 100, 100,
        300, 300, 300,
        800, 900, 1000,
        2000, 2600, 3200,
        5000, 8000, 9000,
        11000, 20000, 25000,
        20000, 36000, 60000,
        35000, 60000, 110000,
        50000, 100000, 200000,
    ]
}

/// Requirement column of a stake: purple and above, green and above, the rest.
pub open spec fn stake_tier(s: Stake) -> nat {
    if s.index() >= 5 {
        2
    } else if s.index() >= 2 {
        1
    } else {
        0
    }
}

/// Base requirement of ante `ante` (at most 8; antes below zero use row zero).
pub open spec fn table_requirement(ante: int, tier: nat) -> u64 {
    let row = if ante < 0 {
        0
    } else {
        ante
    };
    requirement_table()[row * 3 + tier]
}

/// `v` capped at `u32::MAX` and floored at zero.
pub open spec fn clamp_u32(v: int) -> u32 {
    if v < 0 {
        0
    } else if v > u32::MAX {
        u32::MAX
    } else {
        v as u32
    }
}

/// `v` capped at `u64::MAX`.
pub open spec fn cap_u64(v: nat) -> u64 {
    if v > u64::MAX {
        u64::MAX
    } else {
        v as u64
    }
}

/// Requirement of a blind of kind `t` whose ante's base requirement is `base`:
/// big blinds ask one and a half times the base (rounded up), the wall four
/// times, the needle the base, the violet vessel six times, other bosses twice.
pub open spec fn scaled_requirement(t: BlindType, base: u64) -> u64 {
    match t {
        BlindType::Small => base,
        BlindType::Big => cap_u64(((3 * base + 1) / 2) as nat),
        BlindType::Boss(BossBlindType::TheWall) => cap_u64(4 * base as nat),
        BlindType::Boss(BossBlindType::TheNeedle) => base,
        BlindType::Boss(BossBlindType::VioletVessel) => cap_u64(6 * base as nat),
        BlindType::Boss(_) => cap_u64(2 * base as nat),
    }
}

/// Hands a blind of kind `t` grants.
pub open spec fn blind_hands(t: BlindType, start: u32, chicots: nat) -> u32 {
    if t == BlindType::Boss(BossBlindType::TheNeedle) {
        clamp_u32(1 + (if start > 0 { start - 1 } else { 0 }) * chicots)
    } else {
        start
    }
}

/// Discards a blind of kind `t` grants.
pub open spec fn blind_discards(t: BlindType, start: u32, chicots: nat) -> u32 {
    if t == BlindType::Boss(BossBlindType::TheWater) {
        clamp_u32(start * chicots)
    } else {
        start
    }
}

/// Hand size once a blind of kind `t` was entered.
pub open spec fn blind_hand_size(t: BlindType, size: u32, chicots: nat) -> u32 {
    if t == BlindType::Boss(BossBlindType::TheManacle) {
        clamp_u32(size + chicots - 1)
    } else {
        size
    }
}

/// Number of jokers of identity `t`.
pub open spec fn count_of(js: Seq<Joker>, t: JokerType) -> nat
    decreases js.len(),
{
    if js.len() == 0 {
        0
    } else {
        count_of(js.drop_last(), t) + if js.last().joker_type == t {
            1nat
        } else {
            0nat
        }
    }
}

proof fn lemma_count_of_bound(js: Seq<Joker>, t: JokerType)
    ensures
        count_of(js, t) <= js.len(),
    decreases js.len(),
{
    if js.len() > 0 {
        lemma_count_of_bound(js.drop_last(), t);
    }
}

/// `order` lists every joker position once, in the order [`dispatch_order`] visits
/// them for event `e`.
pub open spec fn is_dispatch_order(js: Seq<Joker>, e: Event, order: Seq<usize>) -> bool {
    &&& order.len() == js.len()
    &&& forall|i: int| 0 <= i < order.len() ==> (#[trigger] order[i]) < js.len()
    &&& forall|i: int, j: int|
        0 <= i < j < order.len() ==> visited_before(
            (priority(js[order[i] as int], e), order[i]),
            (priority(js[order[j] as int], e), order[j]),
        )
}

/// Deferred actions the jokers ask for when a blind is entered, in visiting order.
pub open spec fn entered_actions(js: Seq<Joker>, order: Seq<usize>) -> Seq<(usize, DeferredAction)> {
    order.filter(|p: usize| js[p as int].joker_type == JokerType::CeremonialDagger).map_values(
        |p: usize| (p, DeferredAction::DestroyRightNeighbor),
    )
}

/// Chips after the jokers at `order` added their bonuses, starting from `c0`.
pub open spec fn chips_after(js: Seq<Joker>, order: Seq<usize>, cards: Seq<Card>, discards: nat, c0: u64) -> u64
    decreases order.len(),
{
    if order.len() == 0 {
        c0
    } else {
        sat_add(chips_after(js, order.drop_last(), cards, discards, c0), chip_bonus(js[order.last() as int], cards, discards))
    }
}

/// Mult after the jokers at `order` added their bonuses, starting from `m0`.
pub open spec fn mult_after(js: Seq<Joker>, order: Seq<usize>, cards: Seq<Card>, hand_len: nat, discards: nat, m0: u64) -> u64
    decreases order.len(),
{
    if order.len() == 0 {
        m0
    } else {
        sat_add(mult_after(js, order.drop_last(), cards, hand_len, discards, m0), mult_bonus(js[order.last() as int], cards, hand_len, discards))
    }
}

/// Sum of the chip values of `cards`.
pub open spec fn card_chips(cards: Seq<Card>) -> nat
    decreases cards.len(),
{
    if cards.len() == 0 {
        0
    } else {
        card_chips(cards.drop_last()) + cards.last().chips as nat
    }
}

/// Every card index a blind holds refers to one of `n` run cards.
pub open spec fn blind_fits(b: Blind, n: nat) -> bool {
    &&& b.wf()
    &&& forall|i: int| 0 <= i < b.selected.len ==> b.selected.cards@[i] < n
    &&& forall|i: int| 0 <= i < b.held@.len() ==> (#[trigger] b.held@[i]) < n
    &&& forall|i: int| 0 <= i < b.cards@.len() ==> (#[trigger] b.cards@[i]) < n
}

/// What a play did.
#[derive(Debug, Clone, Copy, PartialEq, Eq, Structural)]
pub enum PlayOutcome {
    /// No hands were left: nothing happened.
    Ignored,
    /// The boss vetoed the hand: nothing was scored and nothing drawn.
    Vetoed,
    /// The hand scored without reaching the requirement.
    Scored,
    /// The hand reached the requirement.
    Cleared,
    /// The hand cleared the showdown boss of ante eight.
    Won,
}

/// Where the run stands.
#[derive(Debug, Clone, PartialEq)]
pub enum GameState {
    Shop,
    BlindSelection,
    Blind(Blind),
    CashOut,
}

/// A run: its state, its jokers, and where it stands.
#[derive(Debug, Clone, PartialEq)]
pub struct Run {
    pub data: RunData,
    pub jokers: Vec<Joker>,
    pub game_state: GameState,
    /// How often each random channel was drawn.
    pub draws: Channels<u64>,
}

impl RunData {
    /// Base chip requirement of the current ante, from the fixed table for antes
    /// up to 8; `None` past ante 8, whose requirement follows a real-valued formula.
    pub fn base_chip_requirement(&self) -> (r: Option<u64>)
        ensures
            self.ante <= 8 ==> r == Some(table_requirement(self.ante as int, stake_tier(self.stake))),
            self.ante > 8 ==> r is None,
    {
        if self.ante > 8 {
            return None;
        }
        let tier: usize = if self.stake.to_index() >= 5 {
            2
        } else if self.stake.to_index() >= 2 {
            1
        } else {
            0
        };
        let row: usize = if self.ante < 0 {
            0
        } else {
            self.ante as usize
        };
        let table: Vec<u64> = vec![
            100, 100, 100,
            300, 300, 300,
            800, 900, 1000,
            2000, 2600, 3200,
            5000, 8000, 9000,
            11000, 20000, 25000,
            20000, 36000, 60000,
            35000, 60000, 110000,
            50000, 100000, 200000,
        ];
        proof {
            assert(table@ =~= requirement_table());
        }
        Some(table[row * 3 + tier])
    }
}

impl RunData {
    /// The base requirement of ante 8 at this run's stake, from which the
    /// requirements of later antes grow.
    pub fn last_table_requirement(&self) -> (r: u64)
        ensures
            r == table_requirement(8, stake_tier(self.stake)),
    {
        let tier = self.stake.to_index();
        if tier >= 5 {
            200000
        } else if tier >= 2 {
            100000
        } else {
            50000
        }
    }
}

/// The requirement of a blind of kind `t` for base requirement `base`.
pub fn requirement_for(t: BlindType, base: u64) -> (r: u64)
    ensures
        r == scaled_requirement(t, base),
{
    let b = base as u128;
    let v: u128 = match t {
        BlindType::Small => b,
        BlindType::Big => (3 * b + 1) / 2,
        BlindType::Boss(BossBlindType::TheWall) => 4 * b,
        BlindType::Boss(BossBlindType::TheNeedle) => b,
        BlindType::Boss(BossBlindType::VioletVessel) => 6 * b,
        BlindType::Boss(_) => 2 * b,
    };
    if v > u64::MAX as u128 {
        u64::MAX
    } else {
        v as u64
    }
}

proof fn lemma_product_bound(x: u32, y: u32)
    ensures
        0 <= (x as int) * (y as int) <= 0xffff_ffff * 0xffff_ffff,
{
    assert(0 <= (x as int) * (y as int) <= 0xffff_ffff * 0xffff_ffff) by (nonlinear_arith)
        requires
            x <= 0xffff_ffffu32,
            y <= 0xffff_ffffu32,
    ;
}

fn clamp_to_u32(v: i128) -> (r: u32)
    ensures
        r == clamp_u32(v as int),
{
    if v < 0 {
        0
    } else if v > u32::MAX as i128 {
        u32::MAX
    } else {
        v as u32
    }
}

proof fn lemma_same_cards(h: Hand, a: Seq<Card>, b: Seq<Card>)
    requires
        a == b,
        h.len <= 5,
    ensures
        h.indices().map_values(|i: usize| a[i as int]) == h.indices().map_values(|i: usize| b[i as int]),
{
    assert(h.indices().map_values(|i: usize| a[i as int]) =~= h.indices().map_values(|i: usize| b[i as int]));
}

/// Sum of the chip values of `cards`, capped at `u64::MAX`.
fn sum_card_chips(cards: &Vec<Card>) -> (r: u64)
    ensures
        r == cap_u64(card_chips(cards@)),
{
    let mut total: u64 = 0;
    let mut i: usize = 0;
    while i < cards.len()
        invariant
            i <= cards@.len(),
            total == cap_u64(card_chips(cards@.take(i as int))),
        decreases cards@.len() - i,
    {
        proof {
            assert(cards@.take(i + 1).drop_last() =~= cards@.take(i as int));
        }
        total = total.saturating_add(cards[i].chips as u64);
        i += 1;
    }
    proof {
        assert(cards@.take(cards@.len() as int) =~= cards@);
    }
    total
}

/// The boss of blind `b` vetoes a hand of category `h`: the eye a category
/// already played in this blind, the mouth any category but the one it allows.
pub open spec fn boss_vetoes(b: Blind, h: HandType) -> bool {
    match b.blind_type {
        BlindType::Boss(BossBlindType::TheEye) => match b.blind_data {
            Some(BossBlindData::TheEye { was_already_played }) => was_already_played@[h.index() as int],
            _ => false,
        },
        BlindType::Boss(BossBlindType::TheMouth) => match b.blind_data {
            Some(BossBlindData::TheMouth { allowed_hand: Some(a) }) => a != h,
            _ => false,
        },
        _ => false,
    }
}

/// `after` is the boss state of a blind of kind `t` once it let a hand of
/// category `h` through: the eye marks `h` played, the mouth allows only `h`.
pub open spec fn boss_data_after(t: BlindType, before: Option<BossBlindData>, after: Option<BossBlindData>, h: HandType) -> bool {
    match t {
        BlindType::Boss(BossBlindType::TheEye) => match (before, after) {
            (
                Some(BossBlindData::TheEye { was_already_played: a }),
                Some(BossBlindData::TheEye { was_already_played: b }),
            ) => b@ == a@.update(h.index() as int, true),
            _ => false,
        },
        BlindType::Boss(BossBlindType::TheMouth) => after == Some(BossBlindData::TheMouth { allowed_hand: Some(h) }),
        _ => after == before,
    }
}

/// The cards of blind `b`'s selection.
pub open spec fn selected_cards(b: Blind, d: RunData) -> Seq<Card> {
    b.selected.indices().map_values(|i: usize| d.cards@[i as int])
}

/// What playing blind `b0`'s selection does, with run state `d0` and jokers `js`,
/// leaving run state `d`, blind `b` and outcome `r`. Without hands left nothing
/// happens. Otherwise the selection is classified as `h`, leaves the hand, a hand
/// is spent and chips and mult are set to `h`'s base values. If the boss vetoes
/// `h`, that is all: no joker runs, nothing is scored and nothing drawn. If not,
/// the boss reacts (the arm lowers `h`'s level), every joker adds its bonus in
/// dispatch order, the cards' chips and `chips * mult` are added to the score,
/// the hand is refilled from the pile, and the outcome says whether the
/// requirement was reached (after the boss of ante eight: the run is won; after
/// another boss: the ante advances).
pub open spec fn play_step(d0: RunData, js: Seq<Joker>, b0: Blind, d: RunData, b: Blind, r: PlayOutcome) -> bool {
    if b0.hands == 0 {
        r == PlayOutcome::Ignored && b == b0 && d == d0
    } else {
        let cards = selected_cards(b0, d0);
        let h = classify(cards);
        let held1 = without(b0.held@, b0.selected.indices());
        &&& b.blind_type == b0.blind_type
        &&& b.requirement == b0.requirement
        &&& b.discards == b0.discards
        &&& b.hands == b0.hands - 1
        &&& b.selected.is_empty()
        &&& if boss_vetoes(b0, h) {
            &&& r == PlayOutcome::Vetoed
            &&& d == d0
            &&& b.blind_data == b0.blind_data
            &&& b.chips == d0.base_chips@[h.index() as int]
            &&& b.mult == d0.base_mult@[h.index() as int]
            &&& b.score == b0.score
            &&& b.cards@ == b0.cards@
            &&& b.held@ == held1
        } else {
            &&& boss_data_after(b0.blind_type, b0.blind_data, b.blind_data, h)
            &&& d.hand_levels@ == if b0.blind_type == BlindType::Boss(BossBlindType::TheArm) {
                d0.hand_levels@.update(h.index() as int, leveled(d0.hand_levels@[h.index() as int], -1))
            } else {
                d0.hand_levels@
            }
            &&& (RunData { hand_levels: d.hand_levels, ante: d.ante, ..d0 }) == d
            &&& exists|order: Seq<usize>| {
                &&& is_dispatch_order(js, Event::Scored, order)
                &&& b.chips == chips_after(js, order, cards, b0.discards as nat, d0.base_chips@[h.index() as int])
                &&& b.mult == mult_after(js, order, cards, b0.selected.len as nat, b0.discards as nat, d0.base_mult@[h.index() as int])
            }
            &&& b.score == cap_u64((cap_u64((b0.score + card_chips(cards)) as nat) + b.chips * b.mult) as nat)
            &&& drawn(held1, b0.cards@, d0.hand_size as nat, b.held@, b.cards@)
            &&& r == if b.score < b.requirement {
                PlayOutcome::Scored
            } else if b0.blind_type is Boss && d0.ante == 8 {
                PlayOutcome::Won
            } else {
                PlayOutcome::Cleared
            }
            &&& d.ante == if r == PlayOutcome::Cleared && b0.blind_type is Boss {
                (d0.ante + 1) as i32
            } else {
                d0.ante
            }
        }
    }
}

/// Plays the blind's selection, as the run state machine does on `Play`: the
/// selection is classified and leaves the hand, the boss may veto it, otherwise
/// every joker adds its bonus in visiting order, the cards' chips and
/// `chips * mult` are added to the score, the hand is refilled, and reaching the
/// requirement clears the blind (advancing the ante after a boss, or winning the
/// run after the boss of ante eight).
pub fn play_hand(data: &mut RunData, jokers: &Vec<Joker>, blind: &mut Blind) -> (r: PlayOutcome)
    requires
        old(data).wf(),
        old(data).ante < i32::MAX,
        orders_fit(jokers@),
        blind_fits(*old(blind), old(data).cards@.len()),
    ensures
        final(data).wf(),
        final(data).cards@ == old(data).cards@,
        blind_fits(*final(blind), final(data).cards@.len()),
        play_step(*old(data), jokers@, *old(blind), *final(data), *final(blind), r),
        old(blind).hands == 0 <==> r == PlayOutcome::Ignored,
        r == PlayOutcome::Ignored ==> *final(blind) == *old(blind) && *final(data) == *old(data),
        r != PlayOutcome::Ignored ==> {
            &&& final(blind).hands == old(blind).hands - 1
            &&& final(blind).selected.len == 0
        },
        r == PlayOutcome::Vetoed ==> {
            &&& final(blind).score == old(blind).score
            &&& final(blind).cards@ == old(blind).cards@
            &&& final(blind).held@ == without(old(blind).held@, old(blind).selected.indices())
        },
        r == PlayOutcome::Scored || r == PlayOutcome::Cleared || r == PlayOutcome::Won ==> {
            let cards = old(blind).selected.indices().map_values(|i: usize| old(data).cards@[i as int]);
            let h = classify(cards);
            exists|order: Seq<usize>| {
                &&& is_dispatch_order(jokers@, Event::Scored, order)
                &&& final(blind).chips == chips_after(jokers@, order, cards, old(blind).discards as nat, old(data).base_chips@[h.index() as int])
                &&& final(blind).mult == mult_after(jokers@, order, cards, old(blind).selected.len as nat, old(blind).discards as nat, old(data).base_mult@[h.index() as int])
                &&& final(blind).score == cap_u64(
                    (cap_u64((old(blind).score + card_chips(cards)) as nat) + final(blind).chips * final(blind).mult) as nat,
                )
            }
        },
        r == PlayOutcome::Scored ==> final(blind).score < final(blind).requirement && final(data).ante == old(data).ante,
        r == PlayOutcome::Cleared ==> {
            &&& final(blind).score >= final(blind).requirement
            &&& final(data).ante == if old(blind).blind_type is Boss {
                old(data).ante + 1
            } else {
                old(data).ante as int
            }
        },
        r == PlayOutcome::Won ==> {
            &&& final(blind).score >= final(blind).requirement
            &&& old(blind).blind_type is Boss
            &&& old(data).ante == 8
        },
{
    let ghost b0 = *blind;
    let ghost d0 = *data;
    let n = data.cards.len();
    let hand = match blind.prepare_play(data) {
        None => {
            return PlayOutcome::Ignored;
        },
        Some(h) => h,
    };
    proof {
        crate::blind::lemma_without_bounded(b0.held@, b0.selected.indices(), n as nat);
    }
    let ghost h = classify(selected_cards(b0, d0));
    let ghost b1 = *blind;
    proof {
        lemma_same_cards(hand, data.cards@, d0.cards@);
        assert(hand.indices().map_values(|i: usize| data.cards@[i as int]) == selected_cards(b0, d0));
    }
    let mut event = HandPlayedEventData { hand, allowed: true };
    blind.hand_played(data, &mut event);
    let ghost d1 = *data;
    let ghost b2 = *blind;
    proof {
        assert(!event.allowed <==> boss_vetoes(b0, h));
    }
    if !event.allowed {
        proof {
            assert(play_step(d0, jokers@, b0, *data, *blind, PlayOutcome::Vetoed));
        }
        return PlayOutcome::Vetoed;
    }
    proof {
        assert(boss_data_after(b0.blind_type, b0.blind_data, blind.blind_data, h));
        assert(data.cards@ == d0.cards@);
        assert(data.ante == d0.ante);
        assert(data.wf());
        assert(blind.blind_type == b0.blind_type);
        assert(blind.requirement == b0.requirement);
        lemma_same_cards(hand, data.cards@, d0.cards@);
    }
    let ghost chips0 = blind.chips;
    let ghost mult0 = blind.mult;
    let ghost cards = hand.indices().map_values(|i: usize| data.cards@[i as int]);
    let order = dispatch_order(jokers, Event::Scored);
    let mut k: usize = 0;
    while k < order.len()
        invariant
            k <= order@.len(),
            is_dispatch_order(jokers@, Event::Scored, order@),
            event.hand == hand,
            hand == b0.selected,
            data.cards@ == d0.cards@,
            data.ante == d0.ante,
            data.wf(),
            cards == hand.indices().map_values(|i: usize| data.cards@[i as int]),
            cards == b0.selected.indices().map_values(|i: usize| d0.cards@[i as int]),
            blind.blind_type == b0.blind_type,
            blind.requirement == b0.requirement,
            blind.discards == b0.discards,
            blind.chips == chips_after(jokers@, order@.take(k as int), cards, b0.discards as nat, chips0),
            blind.mult == mult_after(jokers@, order@.take(k as int), cards, b0.selected.len as nat, b0.discards as nat, mult0),
            blind_fits(*blind, n as nat),
            blind.hands == b0.hands - 1,
            blind.selected.len == 0,
            blind.selected.is_empty(),
            blind.blind_data == b2.blind_data,
            blind.held@ == b2.held@,
            blind.cards@ == b2.cards@,
            *data == d1,
            blind.score == b0.score,
            n == data.cards@.len(),
            b0.selected.len <= 5,
            forall|i: int| 0 <= i < b0.selected.len ==> b0.selected.cards@[i] < n,
        decreases order@.len() - k,
    {
        proof {
            assert(order@.take(k + 1).drop_last() =~= order@.take(k as int));
        }
        let p = order[k];
        proof {
            assert(order@.take(k + 1).last() == p);
            assert(event.hand.indices().map_values(|i: usize| data.cards@[i as int]) == cards);
        }
        jokers[p].scored(data, blind, &event);
        k += 1;
    }
    proof {
        assert(order@.take(order@.len() as int) =~= order@);
    }
    let resolved = hand.resolve(&data.cards);
    let chips_of_cards = sum_card_chips(&resolved.0);
    blind.score = blind.score.saturating_add(chips_of_cards);
    let ghost hb = blind.held@;
    let ghost cb = blind.cards@;
    blind.draw(data);
    proof {
        assert forall|i: int| 0 <= i < blind.held@.len() implies (#[trigger] blind.held@[i]) < n by {
            if i < hb.len() {
                assert(blind.held@.take(hb.len() as int)[i] == hb[i]);
            } else {
                assert(blind.held@[i] == cb[cb.len() - 1 - (i - hb.len())]);
            }
        }
        assert forall|i: int| 0 <= i < blind.cards@.len() implies (#[trigger] blind.cards@[i]) < n by {
            assert(blind.cards@[i] == cb[i]);
        }
    }
    proof {
        assert((blind.chips as int) * (blind.mult as int) <= 0xffff_ffff_ffff_ffff * 0xffff_ffff_ffff_ffff)
            by (nonlinear_arith)
            requires
                blind.chips <= 0xffff_ffff_ffff_ffffu64,
                blind.mult <= 0xffff_ffff_ffff_ffffu64,
        ;
    }
    let product: u128 = (blind.chips as u128) * (blind.mult as u128);
    let add: u64 = if product > u64::MAX as u128 {
        u64::MAX
    } else {
        product as u64
    };
    blind.score = blind.score.saturating_add(add);
    proof {
        assert(is_dispatch_order(jokers@, Event::Scored, order@));
        assert(drawn(without(b0.held@, b0.selected.indices()), b0.cards@, d0.hand_size as nat, blind.held@, blind.cards@));
    }
    if blind.score >= blind.requirement {
        if let BlindType::Boss(_) = blind.blind_type {
            if data.ante == 8 {
                proof {
                    assert(play_step(d0, jokers@, b0, *data, *blind, PlayOutcome::Won));
                }
                return PlayOutcome::Won;
            }
            data.ante = data.ante + 1;
        }
        proof {
            assert(play_step(d0, jokers@, b0, *data, *blind, PlayOutcome::Cleared));
        }
        return PlayOutcome::Cleared;
    }
    proof {
        assert(play_step(d0, jokers@, b0, *data, *blind, PlayOutcome::Scored));
    }
    PlayOutcome::Scored
}

/// Fisher-Yates order of the run's `n` cards under the draws `js`.
pub open spec fn shuffled_deck(n: nat, js: Seq<u64>) -> Seq<usize> {
    fisher_yates(positions(n), js, n)
}

proof fn lemma_fisher_yates_bounded(s: Seq<usize>, js: Seq<u64>, t: nat, n: nat)
    requires
        s.len() == n,
        t <= n,
        fits_shuffle(js, n),
        forall|i: int| 0 <= i < s.len() ==> (#[trigger] s[i]) < n,
    ensures
        fisher_yates(s, js, t).len() == n,
        forall|i: int| 0 <= i < n ==> (#[trigger] fisher_yates(s, js, t)[i]) < n,
    decreases t,
{
    if t > 0 {
        lemma_fisher_yates_bounded(s, js, (t - 1) as nat, n);
        let prev = fisher_yates(s, js, (t - 1) as nat);
        assert(js[t - 1] < n - (t - 1));
    }
}

impl Run {
    /// The run is consistent: its tables have their sizes, every joker has one
    /// priority per event, and an active blind only refers to the run's cards.
    pub open spec fn wf(&self) -> bool {
        &&& self.data.wf()
        &&& self.draws.wf()
        &&& orders_fit(self.jokers@)
        &&& self.game_state matches GameState::Blind(b) ==> blind_fits(b, self.data.cards@.len())
    }

    /// Number of chicots among the jokers.
    pub fn get_chicot_count(&self) -> (r: u32)
        requires
            self.jokers@.len() <= u32::MAX,
        ensures
            r == count_of(self.jokers@, JokerType::Chicot),
    {
        let mut n: u32 = 0;
        let mut i: usize = 0;
        while i < self.jokers.len()
            invariant
                i <= self.jokers@.len() <= u32::MAX,
                n == count_of(self.jokers@.take(i as int), JokerType::Chicot),
            decreases self.jokers@.len() - i,
        {
            proof {
                assert(self.jokers@.take(i + 1).drop_last() =~= self.jokers@.take(i as int));
                lemma_count_of_bound(self.jokers@.take(i as int), JokerType::Chicot);
            }
            if self.jokers[i].joker_type == JokerType::Chicot {
                n = n + 1;
            }
            i += 1;
        }
        proof {
            assert(self.jokers@.take(self.jokers@.len() as int) =~= self.jokers@);
        }
        n
    }

    /// Enters a blind of kind `blind_type` whose ante's base requirement is `base`,
    /// with the deck shuffled by the draws `js`: sets requirement, hands and
    /// discards (the needle, the water and the manacle scale with the chicots),
    /// resets chips, mult and score, deals up to the hand size from the shuffled
    /// deck, then lets the jokers react to the blind being entered.
    pub fn enter_blind(&mut self, blind_type: BlindType, base: u64, js: &Vec<u64>)
        requires
            old(self).wf(),
            old(self).jokers@.len() <= u32::MAX,
            fits_shuffle(js@, old(self).data.cards@.len()),
        ensures
            final(self).wf(),
            final(self).draws == old(self).draws,
            ({
                let d = old(self).data;
                let chicots = count_of(old(self).jokers@, JokerType::Chicot);
                let size = blind_hand_size(blind_type, d.hand_size, chicots);
                let n = d.cards@.len();
                let deck = shuffled_deck(n, js@);
                let k = draw_count(0, n, size as nat);
                &&& final(self).data == (RunData { hand_size: size, ..d })
                &&& final(self).game_state matches GameState::Blind(b) && {
                    &&& b.blind_type == blind_type
                    &&& blind_type.fresh_data(b.blind_data)
                    &&& b.requirement == scaled_requirement(blind_type, base)
                    &&& b.hands == blind_hands(blind_type, d.starting_hands, chicots)
                    &&& b.discards == blind_discards(blind_type, d.starting_discards, chicots)
                    &&& b.chips == 0 && b.mult == 1 && b.score == 0
                    &&& b.selected.len == 0
                    &&& b.cards@ == deck.take(n - k)
                    &&& b.held@.len() == k
                    &&& forall|j: int| 0 <= j < k ==> #[trigger] b.held@[j] == deck[n - 1 - j]
                }
                &&& exists|order: Seq<usize>| {
                    &&& is_dispatch_order(old(self).jokers@, Event::BlindEntered, order)
                    &&& final(self).jokers@ == run_actions(
                        old(self).jokers@,
                        positions(old(self).jokers@.len()),
                        entered_actions(old(self).jokers@, order),
                    ).0
                }
            }),
    {
        let requirement = requirement_for(blind_type, base);
        let chicot_count = self.get_chicot_count();
        let chicots = chicot_count as i128;
        proof {
            lemma_product_bound(self.data.starting_discards, chicot_count);
            lemma_product_bound(self.data.starting_hands, chicot_count);
            if self.data.starting_hands > 0 {
                lemma_product_bound((self.data.starting_hands - 1) as u32, chicot_count);
            }
        }
        let discards = if blind_type == BlindType::Boss(BossBlindType::TheWater) {
            clamp_to_u32(self.data.starting_discards as i128 * chicots)
        } else {
            self.data.starting_discards
        };
        let hands = if blind_type == BlindType::Boss(BossBlindType::TheNeedle) {
            let start = self.data.starting_hands as i128;
            let per = if start > 0 {
                start - 1
            } else {
                0
            };
            clamp_to_u32(1 + per * chicots)
        } else {
            self.data.starting_hands
        };
        if blind_type == BlindType::Boss(BossBlindType::TheManacle) {
            self.data.hand_size = clamp_to_u32(self.data.hand_size as i128 + chicots - 1);
        }
        let n = self.data.cards.len();
        let mut cards: Vec<usize> = Vec::new();
        let mut i: usize = 0;
        while i < n
            invariant
                i <= n,
                cards@ == positions(i as nat),
            decreases n - i,
        {
            cards.push(i);
            proof {
                assert(cards@ =~= positions((i + 1) as nat));
            }
            i += 1;
        }
        shuffle_with(&mut cards, js);
        proof {
            lemma_fisher_yates_bounded(positions(n as nat), js@, n as nat, n as nat);
        }
        let mut blind = Blind {
            chips: 0,
            mult: 1,
            score: 0,
            cards,
            held: Vec::new(),
            selected: Hand::empty(),
            blind_data: blind_type.default_data(),
            blind_type,
            requirement,
            hands,
            discards,
        };
        let ghost cb = blind.cards@;
        blind.draw(&self.data);
        proof {
            assert forall|i: int| 0 <= i < blind.held@.len() implies (#[trigger] blind.held@[i]) < n by {
                assert(blind.held@[i] == cb[cb.len() - 1 - i]);
            }
            assert forall|i: int| 0 <= i < blind.cards@.len() implies (#[trigger] blind.cards@[i]) < n by {
                assert(blind.cards@[i] == cb[i]);
            }
            assert forall|j: int| 0 <= j < blind.held@.len() implies #[trigger] blind.held@[j] == cb[n - 1 - j] by {
            }
        }
        let ghost js0 = self.jokers@;
        let order = dispatch_order(&self.jokers, Event::BlindEntered);
        let mut acts: Vec<(usize, DeferredAction)> = Vec::new();
        let mut k: usize = 0;
        while k < order.len()
            invariant
                k <= order@.len(),
                self.jokers@ == js0,
                is_dispatch_order(js0, Event::BlindEntered, order@),
                acts@ == entered_actions(js0, order@.take(k as int)),
            decreases order@.len() - k,
        {
            let p = order[k];
            proof {
                reveal(Seq::filter);
                assert(order@.take(k + 1).drop_last() =~= order@.take(k as int));
                assert(order@.take(k + 1).last() == p);
            }
            if let Some(a) = self.jokers[p].blind_entered() {
                acts.push((p, a));
                proof {
                    assert(acts@ =~= entered_actions(js0, order@.take(k + 1)));
                }
            } else {
                proof {
                    assert(acts@ =~= entered_actions(js0, order@.take(k + 1)));
                }
            }
            k += 1;
        }
        proof {
            assert(order@.take(order@.len() as int) =~= order@);
        }
        run_deferred(&mut self.jokers, &acts);
        self.game_state = GameState::Blind(blind);
    }
}


/// Channel on which the deck of a blind in ante `ante` is shuffled: `nr{ante}`.
pub open spec fn shuffle_channel(ante: i32) -> Seq<u8> {
    seq![110u8, 114u8] + signed_decimal(ante as int)
}

/// Capped increment of a count.
pub open spec fn bump_u32(v: u32) -> u32 {
    if v == u32::MAX {
        v
    } else {
        (v + 1) as u32
    }
}

/// Floored decrement of a count.
pub open spec fn drop_u32(v: u32) -> u32 {
    if v == 0 {
        0
    } else {
        (v - 1) as u32
    }
}

/// Capped increment of a slot count.
pub open spec fn bump_usize(v: usize) -> usize {
    if v == usize::MAX {
        v
    } else {
        (v + 1) as usize
    }
}

/// The blind of a state that is in a blind.
pub open spec fn active_blind(s: GameState) -> Blind
    recommends
        s is Blind,
{
    match s {
        GameState::Blind(b) => b,
        _ => arbitrary(),
    }
}

impl Run {
    /// Enters a blind of kind `blind_type` whose ante's base requirement is `base`,
    /// shuffling the deck with draws on channel `nr{ante}`; see [`Run::enter_blind`].
    pub fn new_blind<G: Fn(Vec<u8>, u64, u64) -> Vec<u64>>(&mut self, blind_type: BlindType, base: u64, shuffle: &G)
        requires
            old(self).wf(),
            old(self).jokers@.len() <= u32::MAX,
            shuffle_source(shuffle),
        ensures
            final(self).wf(),
            ({
                let d = old(self).data;
                let chicots = count_of(old(self).jokers@, JokerType::Chicot);
                let size = blind_hand_size(blind_type, d.hand_size, chicots);
                &&& final(self).data == (RunData { hand_size: size, ..d })
                &&& final(self).game_state matches GameState::Blind(b) && {
                    &&& b.blind_type == blind_type
                    &&& blind_type.fresh_data(b.blind_data)
                    &&& b.requirement == scaled_requirement(blind_type, base)
                    &&& b.hands == blind_hands(blind_type, d.starting_hands, chicots)
                    &&& b.discards == blind_discards(blind_type, d.starting_discards, chicots)
                    &&& b.chips == 0 && b.mult == 1 && b.score == 0
                    &&& b.selected.len == 0
                    &&& b.held@.len() == draw_count(0, d.cards@.len(), size as nat)
                    &&& exists|js: Seq<u64>| {
                        let n = d.cards@.len();
                        let deck = shuffled_deck(n, js);
                        let k = draw_count(0, n, size as nat);
                        &&& #[trigger] shuffled_on(shuffle, shuffle_channel(d.ante), channel_count(old(self).draws.view(), shuffle_channel(d.ante)), d.cards@.len() as u64, js)
                        &&& fits_shuffle(js, n)
                        &&& deck.to_multiset() == positions(n).to_multiset()
                        &&& b.cards@ == deck.take(n - k)
                        &&& forall|j: int| 0 <= j < k ==> #[trigger] b.held@[j] == deck[n - 1 - j]
                    }
                }
                &&& exists|order: Seq<usize>| {
                    &&& is_dispatch_order(old(self).jokers@, Event::BlindEntered, order)
                    &&& final(self).jokers@ == run_actions(
                        old(self).jokers@,
                        positions(old(self).jokers@.len()),
                        entered_actions(old(self).jokers@, order),
                    ).0
                }
                &&& final(self).draws.view() == bumped(old(self).draws.view(), shuffle_channel(d.ante))
            }),
    {
        let key = key_with_number(&[110u8, 114u8], self.data.ante as i64);
        proof {
            assert(key@ == shuffle_channel(self.data.ante));
        }
        let n = self.data.cards.len() as u64;
        let js = shuffle_counted(&mut self.draws, key, n, shuffle);
        proof {
            crate::seeding::lemma_fisher_yates_permutes(positions(n as nat), js@, n as nat);
        }
        self.enter_blind(blind_type, base, &js);
    }

    /// The blind is lost: no hands are left, or no cards are held.
    pub fn is_lost(&self) -> (r: bool)
        ensures
            r == (self.game_state matches GameState::Blind(b) && (b.hands == 0 || b.held@.len() == 0)),
    {
        match &self.game_state {
            GameState::Blind(b) => b.hands == 0 || b.held.len() == 0,
            _ => false,
        }
    }

    /// Applies one action inside the active blind. Selecting and discarding act on
    /// the blind; playing scores the selection and moves to the cash-out once the
    /// requirement is met; the run ends with `Won` after the boss of ante eight,
    /// or with `Aborted` on abort. Outside a blind nothing happens.
    pub fn blind_action(&mut self, action: BlindAction) -> (r: Option<SimulationResult>)
        requires
            old(self).wf(),
            old(self).data.ante < i32::MAX,
        ensures
            final(self).wf(),
            final(self).jokers == old(self).jokers,
            !(old(self).game_state is Blind) ==> r is None && *final(self) == *old(self),
            old(self).game_state is Blind ==> {
                let b0 = active_blind(old(self).game_state);
                let b = active_blind(final(self).game_state);
                match action {
                    BlindAction::Abort => r == Some(SimulationResult::Aborted) && *final(self) == *old(
                        self,
                    ),
                    BlindAction::SelectCard(i) => {
                        &&& r is None
                        &&& final(self).data == old(self).data
                        &&& final(self).game_state is Blind
                        &&& (Blind { selected: b.selected, ..b0 }) == b
                        &&& if i < b0.held@.len() && b0.selected.len < 5
                            && !b0.selected.indices().contains(b0.held@[i as int]) {
                            b.selected.indices() == b0.selected.indices().push(b0.held@[i as int])
                        } else {
                            b.selected == b0.selected
                        }
                    },
                    BlindAction::Discard => {
                        &&& r is None
                        &&& final(self).data == old(self).data
                        &&& final(self).game_state is Blind
                        &&& if b0.discards == 0 {
                            b == b0
                        } else {
                            &&& b.held@ == without(b0.held@, b0.selected.indices())
                            &&& b.selected.len == 0
                            &&& b.discards == b0.discards - 1
                        }
                    },
                    BlindAction::Play => exists|o: PlayOutcome, b1: Blind| {
                        &&& play_step(old(self).data, old(self).jokers@, b0, final(self).data, b1, o)
                        &&& (final(self).game_state is CashOut <==> o == PlayOutcome::Cleared)
                        &&& o != PlayOutcome::Cleared ==> final(self).game_state == GameState::Blind(b1)
                        &&& (r == Some(SimulationResult::Won) <==> o == PlayOutcome::Won)
                        &&& o != PlayOutcome::Won ==> r is None
                    },
                }
            },
    {
        let mut state = GameState::Shop;
        core::mem::swap(&mut state, &mut self.game_state);
        let mut blind = match state {
            GameState::Blind(b) => b,
            other => {
                self.game_state = other;
                return None;
            },
        };
        let ghost b0 = blind;
        let r = match action {
            BlindAction::SelectCard(i) => {
                blind.select(i);
                proof {
                    assert(blind_fits(b0, self.data.cards@.len()));
                    let cond = i < b0.held@.len() && b0.selected.len < 5
                        && !b0.selected.indices().contains(b0.held@[i as int]);
                    if !cond {
                        assert(blind.selected == b0.selected);
                    } else {
                        assert(0 <= i < b0.held@.len());
                        assert(b0.held@[i as int] < self.data.cards@.len());
                        assert(blind.selected.indices() == b0.selected.indices().push(b0.held@[i as int]));
                    }
                    assert(blind.selected.indices().len() == blind.selected.len);
                    assert(b0.selected.indices().len() == b0.selected.len);
                    assert forall|k: int| 0 <= k < blind.selected.len implies blind.selected.cards@[k] < self.data.cards@.len() by {
                        assert(blind.selected.indices()[k] == blind.selected.cards@[k]);
                        if k < b0.selected.len {
                            assert(b0.selected.indices()[k] == b0.selected.cards@[k]);
                        } else {
                            assert(cond);
                            assert(k == b0.selected.len);
                            assert(blind.selected.indices()[k] == b0.held@[i as int]);
                            assert(b0.held@[i as int] < self.data.cards@.len());
                        }
                    }
                }
                None
            },
            BlindAction::Discard => {
                blind.discard();
                proof {
                    crate::blind::lemma_without_bounded(b0.held@, b0.selected.indices(), self.data.cards@.len());
                }
                None
            },
            BlindAction::Abort => Some(SimulationResult::Aborted),
            BlindAction::Play => {
                let outcome = play_hand(&mut self.data, &self.jokers, &mut blind);
                proof {
                    assert(play_step(old(self).data, old(self).jokers@, b0, self.data, blind, outcome));
                }
                match outcome {
                    PlayOutcome::Won => Some(SimulationResult::Won),
                    PlayOutcome::Cleared => {
                        self.game_state = GameState::CashOut;
                        return None;
                    },
                    _ => None,
                }
            },
        };
        self.game_state = GameState::Blind(blind);
        r
    }

    /// In the shop, leaving it moves on to choosing the next blind.
    pub fn shop_action(&mut self, action: ShopAction)
        ensures
            old(self).game_state is Shop ==> final(self).game_state is BlindSelection,
            !(old(self).game_state is Shop) ==> final(self).game_state == old(self).game_state,
            final(self).data == old(self).data,
            final(self).jokers == old(self).jokers,
    {
        if let GameState::Shop = self.game_state {
            match action {
                ShopAction::ExitShop => {
                    self.game_state = GameState::BlindSelection;
                },
            }
        }
    }

    /// After a cleared blind, returning moves back to the shop.
    pub fn cashout_action(&mut self, action: CashoutAction)
        ensures
            old(self).game_state is CashOut ==> final(self).game_state is Shop,
            !(old(self).game_state is CashOut) ==> final(self).game_state == old(self).game_state,
            final(self).data == old(self).data,
            final(self).jokers == old(self).jokers,
    {
        if let GameState::CashOut = self.game_state {
            match action {
                CashoutAction::ReturnToShop => {
                    self.game_state = GameState::Shop;
                },
            }
        }
    }
}


/// `v + d` clamped to the `i64` range.
pub open spec fn shift_i64(v: i64, d: int) -> i64 {
    if v + d > i64::MAX {
        i64::MAX
    } else if v + d < i64::MIN {
        i64::MIN
    } else {
        (v + d) as i64
    }
}

/// Ante moved back by one, floored at `i32::MIN`.
pub open spec fn ante_back(a: i32) -> i32 {
    if a == i32::MIN {
        a
    } else {
        (a - 1) as i32
    }
}

/// Shop item weights after voucher `v`: the magic trick stocks playing cards,
/// the merchants and tycoons raise tarots and planets.
pub open spec fn weights_after(w: Seq<u64>, v: Voucher) -> Seq<u64> {
    match v {
        Voucher::MagicTrick => w.update(3, 400),
        Voucher::TarotMerchant => w.update(1, 960),
        Voucher::PlanetMerchant => w.update(2, 860),
        Voucher::TarotTycoon => w.update(1, 3200),
        Voucher::PlanetTycoon => w.update(2, 3200),
        _ => w,
    }
}

impl RunData {
    /// Owns voucher `v` and applies its effect: extra consumable slot, hand,
    /// discard, hand size or joker slot; cheaper rerolls or prices; more shop
    /// slots; better editions; new shop weights; or an ante back at the cost of a
    /// hand or a discard.
    pub fn apply_voucher_effects(&mut self, voucher: Voucher)
        requires
            old(self).wf(),
        ensures
            final(self).wf(),
            final(self).vouchers@ == old(self).vouchers@.update(voucher.index() as int, true),
            final(self).shop.weights@ == weights_after(old(self).shop.weights@, voucher),
            final(self).consumable_slots == if voucher == Voucher::CrystalBall {
                bump_usize(old(self).consumable_slots)
            } else {
                old(self).consumable_slots
            },
            final(self).starting_hands == match voucher {
                Voucher::Grabber | Voucher::NachoTong => bump_u32(old(self).starting_hands),
                Voucher::Hieroglyph => drop_u32(old(self).starting_hands),
                _ => old(self).starting_hands,
            },
            final(self).starting_discards == match voucher {
                Voucher::Wasteful | Voucher::Recyclomancy => bump_u32(old(self).starting_discards),
                Voucher::Petroglyph => drop_u32(old(self).starting_discards),
                _ => old(self).starting_discards,
            },
            final(self).hand_size == match voucher {
                Voucher::PaintBrush | Voucher::Palette => bump_u32(old(self).hand_size),
                _ => old(self).hand_size,
            },
            final(self).joker_slots == if voucher == Voucher::Antimatter {
                bump_usize(old(self).joker_slots)
            } else {
                old(self).joker_slots
            },
            final(self).ante == match voucher {
                Voucher::Hieroglyph | Voucher::Petroglyph => ante_back(old(self).ante),
                _ => old(self).ante,
            },
            final(self).shop.reroll_price == match voucher {
                Voucher::RerollSurplus | Voucher::RerollGlut => shift_i64(old(self).shop.reroll_price, -2),
                _ => old(self).shop.reroll_price,
            },
            final(self).shop.price_multiplier == match voucher {
                Voucher::ClearanceSale | Voucher::Liquidation => if old(self).shop.price_multiplier >= 25 {
                    (old(self).shop.price_multiplier - 25) as u64
                } else {
                    0
                },
                _ => old(self).shop.price_multiplier,
            },
            final(self).shop.size == match voucher {
                Voucher::Overstock | Voucher::OverstockPlus => bump_usize(old(self).shop.size),
                _ => old(self).shop.size,
            },
            final(self).shop.edition_rate == match voucher {
                Voucher::Hone => 2,
                Voucher::GlowUp => 5,
                _ => old(self).shop.edition_rate,
            },
            (Shop {
                weights: final(self).shop.weights,
                reroll_price: final(self).shop.reroll_price,
                price_multiplier: final(self).shop.price_multiplier,
                size: final(self).shop.size,
                edition_rate: final(self).shop.edition_rate,
                ..old(self).shop
            }) == final(self).shop,
            (RunData {
                vouchers: final(self).vouchers,
                shop: final(self).shop,
                consumable_slots: final(self).consumable_slots,
                starting_hands: final(self).starting_hands,
                starting_discards: final(self).starting_discards,
                hand_size: final(self).hand_size,
                joker_slots: final(self).joker_slots,
                ante: final(self).ante,
                ..*old(self)
            }) == *final(self),
    {
        self.vouchers.set(voucher.to_index(), true);
        match voucher {
            Voucher::CrystalBall => {
                if self.consumable_slots < usize::MAX {
                    self.consumable_slots = self.consumable_slots + 1;
                }
            },
            Voucher::Grabber | Voucher::NachoTong => {
                self.starting_hands = self.starting_hands.saturating_add(1);
            },
            Voucher::Wasteful | Voucher::Recyclomancy => {
                self.starting_discards = self.starting_discards.saturating_add(1);
            },
            Voucher::PaintBrush | Voucher::Palette => {
                self.hand_size = self.hand_size.saturating_add(1);
            },
            Voucher::RerollSurplus | Voucher::RerollGlut => {
                let p = self.shop.reroll_price;
                self.shop.reroll_price = if p >= i64::MIN + 2 {
                    p - 2
                } else {
                    i64::MIN
                };
            },
            Voucher::ClearanceSale | Voucher::Liquidation => {
                self.shop.price_multiplier = self.shop.price_multiplier.saturating_sub(25);
            },
            Voucher::Antimatter => {
                if self.joker_slots < usize::MAX {
                    self.joker_slots = self.joker_slots + 1;
                }
            },
            Voucher::Hieroglyph => {
                if self.ante > i32::MIN {
                    self.ante = self.ante - 1;
                }
                self.starting_hands = self.starting_hands.saturating_sub(1);
            },
            Voucher::Petroglyph => {
                if self.ante > i32::MIN {
                    self.ante = self.ante - 1;
                }
                self.starting_discards = self.starting_discards.saturating_sub(1);
            },
            Voucher::MagicTrick => {
                self.shop.weights.set(3, 400);
            },
            Voucher::TarotMerchant => {
                self.shop.weights.set(1, 960);
            },
            Voucher::PlanetMerchant => {
                self.shop.weights.set(2, 860);
            },
            Voucher::TarotTycoon => {
                self.shop.weights.set(1, 3200);
            },
            Voucher::PlanetTycoon => {
                self.shop.weights.set(2, 3200);
            },
            Voucher::Overstock | Voucher::OverstockPlus => {
                if self.shop.size < usize::MAX {
                    self.shop.size = self.shop.size + 1;
                }
            },
            Voucher::Hone => {
                self.shop.edition_rate = 2;
            },
            Voucher::GlowUp => {
                self.shop.edition_rate = 5;
            },
            _ => {},
        }
    }
}


/// A checkered deck turns clubs into spades and diamonds into hearts.
pub open spec fn checkered(c: Card) -> Card {
    match c.suit {
        Suit::Club => Card { suit: Suit::Spade, ..c },
        Suit::Diamond => Card { suit: Suit::Heart, ..c },
        _ => c,
    }
}

fn checker_cards(cards: &Vec<Card>) -> (r: Vec<Card>)
    ensures
        r@ == cards@.map_values(|c: Card| checkered(c)),
{
    let mut out: Vec<Card> = Vec::new();
    let mut i: usize = 0;
    while i < cards.len()
        invariant
            i <= cards@.len(),
            out@ == cards@.take(i as int).map_values(|c: Card| checkered(c)),
        decreases cards@.len() - i,
    {
        let c = cards[i];
        let d = match c.suit {
            Suit::Club => Card { suit: Suit::Spade, ..c },
            Suit::Diamond => Card { suit: Suit::Heart, ..c },
            _ => c,
        };
        out.push(d);
        proof {
            assert(cards@.take(i + 1) =~= cards@.take(i as int).push(c));
            assert(out@ =~= cards@.take(i + 1).map_values(|c: Card| checkered(c)));
        }
        i += 1;
    }
    proof {
        assert(cards@.take(cards@.len() as int) =~= cards@);
    }
    out
}

fn without_face_cards(cards: &Vec<Card>) -> (r: Vec<Card>)
    ensures
        r@ == cards@.filter(|c: Card| !c.rank.face()),
{
    let mut out: Vec<Card> = Vec::new();
    let mut i: usize = 0;
    while i < cards.len()
        invariant
            i <= cards@.len(),
            out@ == cards@.take(i as int).filter(|c: Card| !c.rank.face()),
        decreases cards@.len() - i,
    {
        let c = cards[i];
        proof {
            reveal(Seq::filter);
            assert(cards@.take(i + 1).drop_last() =~= cards@.take(i as int));
            assert(cards@.take(i + 1).last() == c);
        }
        if !c.rank.is_face_card() {
            out.push(c);
        }
        i += 1;
    }
    proof {
        assert(cards@.take(cards@.len() as int) =~= cards@);
    }
    out
}

fn filled<T: Copy>(v: T, n: usize) -> (r: Vec<T>)
    ensures
        r@ == Seq::new(n as nat, |i: int| v),
{
    let mut out: Vec<T> = Vec::new();
    let mut i: usize = 0;
    while i < n
        invariant
            i <= n,
            out@ == Seq::new(i as nat, |j: int| v),
        decreases n - i,
    {
        out.push(v);
        proof {
            assert(out@ =~= Seq::new((i + 1) as nat, |j: int| v));
        }
        i += 1;
    }
    out
}

/// The cards a deck of kind `t` starts from, given the standard set.
pub open spec fn deck_cards(t: DeckType, cards: Seq<Card>) -> Seq<Card> {
    match t {
        DeckType::Checkered => cards.map_values(|c: Card| checkered(c)),
        DeckType::Abandoned => cards.filter(|c: Card| !c.rank.face()),
        _ => cards,
    }
}

impl RunData {
    /// State of a new run with deck `deck_type` at `stake`, from the cards
    /// `cards`: ante one, four money, eight cards in hand, four hands and three
    /// discards (two from the blue stake on), then the deck's own changes.
    pub fn new(deck_type: DeckType, stake: Stake, cards: Vec<Card>) -> (r: RunData)
        ensures
            r.wf(),
            r.ante == 1,
            r.stake == stake,
            r.deck_type == deck_type,
            r.cards@ == deck_cards(deck_type, cards@),
            r.starting_hands == match deck_type {
                DeckType::Blue => 5u32,
                DeckType::Black => 3,
                _ => 4,
            },
            r.starting_discards == (if stake.index() >= 4 { 2u32 } else { 3 }) + if deck_type == DeckType::Red { 1u32 } else { 0 },
            r.hand_size == if deck_type == DeckType::Painted { 10u32 } else { 8 },
            r.money == if deck_type == DeckType::Yellow { 14i64 } else { 4 },
            forall|b: int| 0 <= b < 28 ==> r.times_boss_used@[b] == 0,
    {
        let cards = match deck_type {
            DeckType::Checkered => checker_cards(&cards),
            DeckType::Abandoned => without_face_cards(&cards),
            _ => cards,
        };
        let starting_discards: u32 = if stake.to_index() >= 4 {
            2
        } else {
            3
        };
        let mut unlocked = filled(true, HAND_TYPE_COUNT);
        unlocked.set(9, false);
        unlocked.set(10, false);
        unlocked.set(11, false);
        let mut data = RunData {
            stake,
            shop: Shop::default(),
            cards,
            deck_type,
            joker_slots: 5,
            consumables: Vec::new(),
            consumable_slots: 5,
            vouchers: filled(false, VOUCHER_COUNT),
            starting_hands: 4,
            starting_discards,
            money: 4,
            hand_size: 8,
            ante: 1,
            times_played: filled(0u32, HAND_TYPE_COUNT),
            base_chips: HandType::base_chips(),
            base_mult: HandType::base_mult(),
            hand_levels: filled(1u32, HAND_TYPE_COUNT),
            planet_unlocked: unlocked,
            times_boss_used: filled(0usize, crate::blind::BOSS_BLIND_COUNT),
            this_antes_boss: BossBlindType::TheHook,
            showman: false,
        };
        match deck_type {
            DeckType::Red => {
                data.starting_discards = data.starting_discards + 1;
            },
            DeckType::Blue => {
                data.starting_hands = data.starting_hands + 1;
            },
            DeckType::Yellow => {
                data.money = data.money + 10;
            },
            DeckType::Black => {
                data.joker_slots = data.joker_slots + 1;
                data.starting_hands = data.starting_hands - 1;
            },
            DeckType::Magic => {
                data.apply_voucher_effects(Voucher::CrystalBall);
                data.consumables.push(Consumable::TarotCard(Tarot::TheFool));
                data.consumables.push(Consumable::TarotCard(Tarot::TheFool));
            },
            DeckType::Nebula => {
                data.apply_voucher_effects(Voucher::Telescope);
                data.consumable_slots = data.consumable_slots - 1;
            },
            DeckType::GhostDeck => {
                data.consumables.push(Consumable::SpectralCard(Spectral::Hex));
                data.shop.weights.set(4, 200);
            },
            DeckType::Zodiac => {
                data.apply_voucher_effects(Voucher::TarotMerchant);
                data.apply_voucher_effects(Voucher::PlanetMerchant);
                data.apply_voucher_effects(Voucher::Overstock);
            },
            DeckType::Painted => {
                data.hand_size = data.hand_size + 2;
                data.joker_slots = data.joker_slots - 1;
            },
            _ => {},
        }
        data
    }
}

impl Run {
    /// A new run in the shop state with no jokers.
    pub fn from_data(data: RunData) -> (r: Run)
        requires
            data.wf(),
        ensures
            r.wf(),
            r.data == data,
            r.jokers@.len() == 0,
            r.game_state == GameState::Shop,
            r.draws.view() == Map::<Seq<u8>, u64>::empty(),
    {
        let r = Run { data, jokers: Vec::new(), game_state: GameState::Shop, draws: Channels::new() };
        r
    }

    /// A new run with deck `deck_type` at `stake` over the cards `cards`, entered
    /// straight into its first small blind, shuffled with draws from `shuffle`.
    pub fn new<G: Fn(Vec<u8>, u64, u64) -> Vec<u64>>(deck_type: DeckType, stake: Stake, cards: Vec<Card>, shuffle: &G) -> (r: Run)
        requires
            shuffle_source(shuffle),
        ensures
            r.wf(),
            r.data.ante == 1,
            r.data.deck_type == deck_type,
            r.data.stake == stake,
            r.data.cards@ == deck_cards(deck_type, cards@),
            r.data.starting_hands == match deck_type {
                DeckType::Blue => 5u32,
                DeckType::Black => 3,
                _ => 4,
            },
            r.data.starting_discards == (if stake.index() >= 4 { 2u32 } else { 3 }) + if deck_type == DeckType::Red { 1u32 } else { 0 },
            r.data.hand_size == if deck_type == DeckType::Painted { 10u32 } else { 8 },
            r.data.money == if deck_type == DeckType::Yellow { 14i64 } else { 4 },
            r.jokers@.len() == 0,
            r.game_state is Blind,
            active_blind(r.game_state).blind_type == BlindType::Small,
            active_blind(r.game_state).requirement == table_requirement(1, stake_tier(stake)),
            active_blind(r.game_state).hands == r.data.starting_hands,
            active_blind(r.game_state).discards == r.data.starting_discards,
            exists|js: Seq<u64>| {
                let n = r.data.cards@.len();
                let deck = shuffled_deck(n, js);
                let k = draw_count(0, n, r.data.hand_size as nat);
                &&& #[trigger] shuffled_on(shuffle, shuffle_channel(1), 0, r.data.cards@.len() as u64, js)
                &&& r.draws.view() == bumped(Map::<Seq<u8>, u64>::empty(), shuffle_channel(1))
                &&& fits_shuffle(js, n)
                &&& active_blind(r.game_state).cards@ == deck.take(n - k)
                &&& forall|j: int| 0 <= j < k ==> #[trigger] active_blind(r.game_state).held@[j] == deck[n - 1 - j]
            },
    {
        let data = RunData::new(deck_type, stake, cards);
        let mut run = Run::from_data(data);
        let base = match run.data.base_chip_requirement() {
            Some(b) => b,
            None => 0,
        };
        proof {
            assert(run.jokers@ =~= Seq::<Joker>::empty());
        }
        run.new_blind(BlindType::Small, base, shuffle);
        proof {
            let order = choose|order: Seq<usize>| {
                &&& is_dispatch_order(Seq::<Joker>::empty(), Event::BlindEntered, order)
                &&& run.jokers@ == run_actions(
                    Seq::<Joker>::empty(),
                    positions(0),
                    entered_actions(Seq::<Joker>::empty(), order),
                ).0
            };
            reveal(Seq::filter);
            assert(order =~= Seq::<usize>::empty());
            assert(entered_actions(Seq::<Joker>::empty(), order) =~= Seq::empty());
        }
        run
    }
}


/// Options for starting a run.
#[derive(Debug, Clone, Copy, PartialEq, Eq, Structural)]
pub struct RunCreator {
    pub deck: DeckType,
    pub stake: Stake,
}

impl RunCreator {
    /// A red deck at the white stake.
    pub fn new() -> (r: RunCreator)
        ensures
            r.deck == DeckType::Red,
            r.stake == Stake::White,
    {
        RunCreator { deck: DeckType::Red, stake: Stake::White }
    }

    /// Starts the run over the cards `cards`, in its first small blind.
    pub fn create<G: Fn(Vec<u8>, u64, u64) -> Vec<u64>>(self, cards: Vec<Card>, shuffle: &G) -> (r: Run)
        requires
            shuffle_source(shuffle),
        ensures
            r.wf(),
            r.data.deck_type == self.deck,
            r.data.stake == self.stake,
            r.data.ante == 1,
            r.data.cards@ == deck_cards(self.deck, cards@),
            r.game_state is Blind,
    {
        Run::new(self.deck, self.stake, cards, shuffle)
    }
}

} // verus!
