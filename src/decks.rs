//! Decks a run can start with, and the standard card set.

use crate::card::{alphabetical_rank_order, alphabetical_suit_order, plain_card, Card, Rank, Suit};
use crate::dispatch::{sorted_by_priority, visited_before};
use crate::seeding::{bumped, count_of, draw_counted, draw_source, drew, Channels};
use vstd::prelude::*;

verus! {

/// The deck a run starts with.
#[derive(Debug, Clone, Copy, PartialEq, Eq, Hash, Structural)]
pub enum DeckType {
    Red,
    Blue,
    Yellow,
    Green,
    Black,
    Magic,
    Nebula,
    GhostDeck,
    Abandoned,
    Checkered,
    Zodiac,
    Painted,
    Anaglyph,
    Plasma,
    Erratic,
}

/// Number of variants of [`DeckType`].
pub const DECK_TYPE_COUNT: usize = 15;

impl DeckType {
    /// The position of the variant in declaration order.
    pub open spec fn index(self) -> nat {
        match self {
            DeckType::Red => 0,
            DeckType::Blue => 1,
            DeckType::Yellow => 2,
            DeckType::Green => 3,
            DeckType::Black => 4,
            DeckType::Magic => 5,
            DeckType::Nebula => 6,
            DeckType::GhostDeck => 7,
            DeckType::Abandoned => 8,
            DeckType::Checkered => 9,
            DeckType::Zodiac => 10,
            DeckType::Painted => 11,
            DeckType::Anaglyph => 12,
            DeckType::Plasma => 13,
            DeckType::Erratic => 14,
        }
    }

    /// The position of the variant in declaration order, as a `usize`.
    pub fn to_index(&self) -> (r: usize)
        ensures
            r == self.index(),
            r < 15,
    {
        match self {
            DeckType::Red => 0,
            DeckType::Blue => 1,
            DeckType::Yellow => 2,
            DeckType::Green => 3,
            DeckType::Black => 4,
            DeckType::Magic => 5,
            DeckType::Nebula => 6,
            DeckType::GhostDeck => 7,
            DeckType::Abandoned => 8,
            DeckType::Checkered => 9,
            DeckType::Zodiac => 10,
            DeckType::Painted => 11,
            DeckType::Anaglyph => 12,
            DeckType::Plasma => 13,
            DeckType::Erratic => 14,
        }
    }

    /// The variant at position `i` in declaration order.
    pub fn from_index(i: usize) -> (r: DeckType)
        requires
            i < 15,
        ensures
            r.index() == i,
    {
        match i {
            0 => DeckType::Red,
            1 => DeckType::Blue,
            2 => DeckType::Yellow,
            3 => DeckType::Green,
            4 => DeckType::Black,
            5 => DeckType::Magic,
            6 => DeckType::Nebula,
            7 => DeckType::GhostDeck,
            8 => DeckType::Abandoned,
            9 => DeckType::Checkered,
            10 => DeckType::Zodiac,
            11 => DeckType::Painted,
            12 => DeckType::Anaglyph,
            13 => DeckType::Plasma,
            _ => DeckType::Erratic,
        }
    }
}
/// A deck and its cards.
#[derive(Debug, Clone, PartialEq)]
pub struct Deck {
    pub deck_type: DeckType,
    pub cards: Vec<Card>,
}

/// The 52 standard cards: suits in alphabetical order, and within a suit the
/// ranks in the alphabetical order of their names.
pub open spec fn standard_cards() -> Seq<Card> {
    Seq::new(
        52,
        |i: int|
            plain_card(
                seq![Suit::Club, Suit::Diamond, Suit::Heart, Suit::Spade][i / 13],
                seq![
                    Rank::Rank2, Rank::Rank3, Rank::Rank4, Rank::Rank5, Rank::Rank6, Rank::Rank7,
                    Rank::Rank8, Rank::Rank9, Rank::Ace, Rank::Jack, Rank::King, Rank::Queen,
                    Rank::Rank10,
                ][i % 13],
            ),
    )
}

/// The standard card set, in the order [`standard_cards`] gives.
pub fn default_cards() -> (r: Vec<Card>)
    ensures
        r@ == standard_cards(),
{
    let suits = alphabetical_suit_order();
    let ranks = alphabetical_rank_order();
    let mut out: Vec<Card> = Vec::new();
    let mut s: usize = 0;
    while s < 4
        invariant
            s <= 4,
            suits@ == seq![Suit::Club, Suit::Diamond, Suit::Heart, Suit::Spade],
            ranks@ == seq![
                Rank::Rank2, Rank::Rank3, Rank::Rank4, Rank::Rank5, Rank::Rank6, Rank::Rank7,
                Rank::Rank8, Rank::Rank9, Rank::Ace, Rank::Jack, Rank::King, Rank::Queen, Rank::Rank10,
            ],
            out@.len() == 13 * s,
            forall|i: int| 0 <= i < out@.len() ==> #[trigger] out@[i] == standard_cards()[i],
        decreases 4 - s,
    {
        let mut k: usize = 0;
        while k < 13
            invariant
                s < 4,
                k <= 13,
                suits@ == seq![Suit::Club, Suit::Diamond, Suit::Heart, Suit::Spade],
                ranks@ == seq![
                    Rank::Rank2, Rank::Rank3, Rank::Rank4, Rank::Rank5, Rank::Rank6, Rank::Rank7,
                    Rank::Rank8, Rank::Rank9, Rank::Ace, Rank::Jack, Rank::King, Rank::Queen,
                    Rank::Rank10,
                ],
                out@.len() == 13 * s + k,
                forall|i: int| 0 <= i < out@.len() ==> #[trigger] out@[i] == standard_cards()[i],
            decreases 13 - k,
        {
            let c = Card::new(suits[s], ranks[k]);
            proof {
                let i = 13 * s + k;
                assert(i / 13 == s && i % 13 == k) by (nonlinear_arith)
                    requires
                        i == 13 * s + k,
                        k < 13,
                ;
            }
            out.push(c);
            k += 1;
        }
        s += 1;
    }
    out
}

impl Deck {
    /// The deck's cards ordered by suit (spades, hearts, clubs, diamonds), and
    /// within a suit from ace down to two.
    pub fn sorted(&self) -> (r: Vec<Card>)
        ensures
            r@.len() == self.cards@.len(),
            forall|i: int| 0 <= i < r@.len() ==> self.cards@.contains(#[trigger] r@[i]),
            forall|i: int, j: int| 0 <= i < j < r@.len() ==> sort_key(r@[i]) <= sort_key(r@[j]),
            exists|p: Seq<usize>| #[trigger] listing_of(self.cards@, r@, p),
    {
        let mut keyed: Vec<(u64, usize)> = Vec::new();
        let mut i: usize = 0;
        while i < self.cards.len()
            invariant
                i <= self.cards@.len(),
                keyed@.len() == i,
                forall|m: int| 0 <= m < i ==> #[trigger] keyed@[m] == (sort_key(self.cards@[m]), m as usize),
            decreases self.cards@.len() - i,
        {
            let c = self.cards[i];
            let key = (c.suit.to_index() * 13 + (12 - c.rank.to_index())) as u64;
            keyed.push((key, i));
            i += 1;
        }
        let order = sort_pairs(keyed);
        let mut r: Vec<Card> = Vec::new();
        let mut k: usize = 0;
        while k < order.len()
            invariant
                k <= order@.len(),
                order@.len() == self.cards@.len(),
                forall|m: int| 0 <= m < self.cards@.len() ==> #[trigger] keyed@[m] == (sort_key(self.cards@[m]), m as usize),
                keyed@.len() == self.cards@.len(),
                forall|m: int| 0 <= m < order@.len() ==> (#[trigger] order@[m]).1 < keyed@.len() && order@[m] == keyed@[order@[m].1 as int],
                forall|a: int, b: int| 0 <= a < b < order@.len() ==> (#[trigger] order@[a]).0 <= (#[trigger] order@[b]).0,
                r@.len() == k,
                forall|m: int| 0 <= m < k ==> #[trigger] r@[m] == self.cards@[order@[m].1 as int],
            decreases order@.len() - k,
        {
            let p = order[k].1;
            r.push(self.cards[p]);
            k += 1;
        }
        proof {
            assert forall|m: int| 0 <= m < r@.len() implies self.cards@.contains(#[trigger] r@[m]) by {
                assert(self.cards@[order@[m].1 as int] == r@[m]);
            }
            assert forall|a: int, b: int| 0 <= a < b < r@.len() implies sort_key(r@[a]) <= sort_key(r@[b]) by {
                assert(order@[a].0 <= order@[b].0);
                assert(order@[a] == keyed@[order@[a].1 as int]);
                assert(order@[b] == keyed@[order@[b].1 as int]);
            }
            let p = Seq::new(order@.len(), |m: int| order@[m].1);
            assert forall|a: int, b: int| 0 <= a < b < r@.len() implies p[a] != p[b] && (sort_key(r@[a]) < sort_key(r@[b]) || (sort_key(r@[a]) == sort_key(r@[b]) && p[a] < p[b])) by {
                assert(order@[a] == keyed@[order@[a].1 as int]);
                assert(order@[b] == keyed@[order@[b].1 as int]);
                assert(order@[a].0 <= order@[b].0);
                assert(order@[a].1 != order@[b].1);
            }
            assert(listing_of(self.cards@, r@, p));
        }
        r
    }
}

/// `r` lists `cards` through the one-to-one positions `p`, ordered by
/// [`sort_key`], cards of equal key in their order in `cards`.
pub open spec fn listing_of(cards: Seq<Card>, r: Seq<Card>, p: Seq<usize>) -> bool {
    &&& p.len() == r.len() == cards.len()
    &&& forall|i: int| 0 <= i < p.len() ==> (#[trigger] p[i]) < cards.len() && r[i] == cards[p[i] as int]
    &&& forall|i: int, j: int|
        0 <= i < j < p.len() ==> #[trigger] p[i] != #[trigger] p[j] && (sort_key(r[i]) < sort_key(r[j]) || (
        sort_key(r[i]) == sort_key(r[j]) && p[i] < p[j]))
}

/// Position of a card in a sorted deck listing: suit first, then rank from the top.
pub open spec fn sort_key(c: Card) -> u64 {
    (c.suit.index() * 13 + (12 - c.rank.index())) as u64
}

/// Relies on std's `slice::sort_by_key`, a stable sort: each input entry comes
/// back exactly once, ordered by key, and entries of equal key keep their input
/// order, which here is their position.
#[verifier::external_body]
fn sort_pairs(entries: Vec<(u64, usize)>) -> (r: Vec<(u64, usize)>)
    requires
        forall|i: int| 0 <= i < entries@.len() ==> (#[trigger] entries@[i]).1 == i,
    ensures
        r@.len() == entries@.len(),
        forall|i: int|
            0 <= i < r@.len() ==> (#[trigger] r@[i]).1 < entries@.len() && r@[i] == entries@[r@[i].1 as int],
        forall|i: int, j: int| 0 <= i < j < r@.len() ==> (#[trigger] r@[i]).0 <= (#[trigger] r@[j]).0,
        forall|i: int, j: int| 0 <= i < j < r@.len() ==> (#[trigger] r@[i]).1 != (#[trigger] r@[j]).1,
        forall|i: int, j: int|
            0 <= i < j < r@.len() && (#[trigger] r@[i]).0 == (#[trigger] r@[j]).0 ==> r@[i].1 < r@[j].1,
{
    let mut v = entries;
    v.sort_by_key(|e| e.0);
    v
}

/// The draw counts after `t` draws on `key`.
pub open spec fn bumped_times(m: Map<Seq<u8>, u64>, key: Seq<u8>, t: nat) -> Map<Seq<u8>, u64>
    decreases t,
{
    if t == 0 {
        m
    } else {
        bumped(bumped_times(m, key, (t - 1) as nat), key)
    }
}

/// Channel of the erratic deck's draws: `erratic`.
pub open spec fn erratic_channel() -> Seq<u8> {
    seq![101u8, 114, 114, 97, 116, 105, 99]
}

/// `r` is the erratic deck for the draws `ks`: the standard cards at the drawn
/// positions, listed by position through the one-to-one map `p`, equal
/// positions in draw order.
pub open spec fn erratic_listing(ks: Seq<u64>, r: Seq<Card>, p: Seq<usize>) -> bool {
    &&& p.len() == r.len() == ks.len()
    &&& forall|i: int| 0 <= i < p.len() ==> (#[trigger] p[i]) < ks.len() && ks[p[i] as int] < 52 && r[i] == standard_cards()[ks[p[i] as int] as int]
    &&& forall|i: int, j: int|
        0 <= i < j < p.len() ==> #[trigger] p[i] != #[trigger] p[j] && (ks[p[i] as int] < ks[p[j] as int] || (
        ks[p[i] as int] == ks[p[j] as int] && p[i] < p[j]))
}

impl DeckType {
    /// The erratic deck's cards: 52 draws on channel `erratic` among the standard
    /// cards, listed in standard order.
    pub fn gen_erratic<F: Fn(Vec<u8>, u64, u64) -> u64>(counts: &mut Channels<u64>, draw: &F) -> (r: Vec<Card>)
        requires
            old(counts).wf(),
            draw_source(draw),
        ensures
            final(counts).wf(),
            final(counts).view() == bumped_times(old(counts).view(), erratic_channel(), 52),
            r@.len() == 52,
            forall|i: int| 0 <= i < 52 ==> standard_cards().contains(#[trigger] r@[i]),
            exists|ks: Seq<u64>, p: Seq<usize>| {
                &&& ks.len() == 52
                &&& forall|t: int| 0 <= t < 52 ==> drew(draw, erratic_channel(), count_of(bumped_times(old(counts).view(), erratic_channel(), t as nat), erratic_channel()), 52, #[trigger] ks[t])
                &&& #[trigger] erratic_listing(ks, r@, p)
            },
    {
        let cards = default_cards();
        let ghost m0 = counts.view();
        let mut picks: Vec<(i64, usize)> = Vec::new();
        let ghost mut ks: Seq<u64> = Seq::empty();
        let mut t: usize = 0;
        while t < 52
            invariant
                t <= 52,
                picks@.len() == t,
                ks.len() == t,
                forall|m: int| 0 <= m < t ==> (#[trigger] picks@[m]).1 == m && 0 <= picks@[m].0 < 52 && picks@[m].0 == ks[m],
                forall|m: int| 0 <= m < t ==> drew(draw, erratic_channel(), count_of(bumped_times(m0, erratic_channel(), m as nat), erratic_channel()), 52, #[trigger] ks[m]),
                draw_source(draw),
                counts.wf(),
                m0 == old(counts).view(),
                counts.view() == bumped_times(m0, erratic_channel(), t as nat),
            decreases 52 - t,
        {
            let key: Vec<u8> = vec![101u8, 114, 114, 97, 116, 105, 99];
            proof {
                assert(key@ == erratic_channel());
            }
            let k = draw_counted(counts, key, 52, draw);
            proof {
                let ks2 = ks.push(k);
                assert forall|m: int| 0 <= m < t + 1 implies drew(draw, erratic_channel(), count_of(bumped_times(m0, erratic_channel(), m as nat), erratic_channel()), 52, #[trigger] ks2[m]) by {
                    if m < t {
                        assert(ks2[m] == ks[m]);
                    }
                }
                ks = ks2;
            }
            picks.push((k as i64, t));
            t += 1;
        }
        let sorted = sorted_by_priority(picks);
        let mut out: Vec<Card> = Vec::new();
        let mut i: usize = 0;
        while i < sorted.len()
            invariant
                i <= sorted@.len(),
                sorted@.len() == 52,
                cards@ == standard_cards(),
                picks@.len() == 52,
                forall|m: int| 0 <= m < 52 ==> (#[trigger] picks@[m]).1 == m && 0 <= picks@[m].0 < 52,
                forall|m: int| 0 <= m < sorted@.len() ==> (#[trigger] sorted@[m]).1 < picks@.len() && sorted@[m] == picks@[sorted@[m].1 as int],
                out@.len() == i,
                forall|m: int| 0 <= m < i ==> standard_cards().contains(#[trigger] out@[m]),
                forall|m: int| 0 <= m < 52 ==> picks@[m].0 == ks[m],
                ks.len() == 52,
                forall|m: int| 0 <= m < 52 ==> drew(draw, erratic_channel(), count_of(bumped_times(m0, erratic_channel(), m as nat), erratic_channel()), 52, #[trigger] ks[m]),
                forall|m: int| 0 <= m < i ==> #[trigger] out@[m] == standard_cards()[ks[sorted@[m].1 as int] as int],
            decreases sorted@.len() - i,
        {
            let p = sorted[i].0 as usize;
            proof {
                assert(sorted@[i as int] == picks@[sorted@[i as int].1 as int]);
            }
            out.push(cards[p]);
            proof {
                assert(standard_cards()[p as int] == out@[i as int]);
            }
            i += 1;
        }
        proof {
            let pp = Seq::new(52, |m: int| sorted@[m].1);
            assert forall|a: int, b: int| 0 <= a < b < 52 implies pp[a] != pp[b] && (ks[pp[a] as int] < ks[pp[b] as int] || (
                ks[pp[a] as int] == ks[pp[b] as int] && pp[a] < pp[b])) by {
                assert(visited_before(sorted@[a], sorted@[b]));
                assert(sorted@[a] == picks@[sorted@[a].1 as int]);
                assert(sorted@[b] == picks@[sorted@[b].1 as int]);
            }
            assert forall|m: int| 0 <= m < 52 implies (#[trigger] pp[m]) < ks.len() && ks[pp[m] as int] < 52 && out@[m] == standard_cards()[ks[pp[m] as int] as int] by {
                assert(sorted@[m] == picks@[sorted@[m].1 as int]);
            }
            assert(erratic_listing(ks, out@, pp));
        }
        out
    }
}

} // verus!
