//! Poker-hand classification of a selection of up to five cards.

use crate::card::{Card, Rank, Suit};
use vstd::prelude::*;

verus! {

/// Poker hand categories, weakest first.
#[derive(Debug, Clone, Copy, PartialEq, Eq, Hash, Structural)]
pub enum HandType {
    HighCard,
    Pair,
    TwoPair,
    ThreeOfAKind,
    Straight,
    Flush,
    FullHouse,
    FourOfAKind,
    StraightFlush,
    FiveOfAKind,
    FlushHouse,
    FlushFive,
}

/// Number of variants of [`HandType`].
pub const HAND_TYPE_COUNT: usize = 12;

impl HandType {
    /// The position of the category from high card (0) up to flush five (11).
    pub open spec fn index(self) -> nat {
        match self {
            HandType::HighCard => 0,
            HandType::Pair => 1,
            HandType::TwoPair => 2,
            HandType::ThreeOfAKind => 3,
            HandType::Straight => 4,
            HandType::Flush => 5,
            HandType::FullHouse => 6,
            HandType::FourOfAKind => 7,
            HandType::StraightFlush => 8,
            HandType::FiveOfAKind => 9,
            HandType::FlushHouse => 10,
            HandType::FlushFive => 11,
        }
    }

    /// The position of the category from high card (0) up to flush five (11), as a `usize`.
    pub fn to_index(&self) -> (r: usize)
        ensures
            r == self.index(),
            r < 12,
    {
        match self {
            HandType::HighCard => 0,
            HandType::Pair => 1,
            HandType::TwoPair => 2,
            HandType::ThreeOfAKind => 3,
            HandType::Straight => 4,
            HandType::Flush => 5,
            HandType::FullHouse => 6,
            HandType::FourOfAKind => 7,
            HandType::StraightFlush => 8,
            HandType::FiveOfAKind => 9,
            HandType::FlushHouse => 10,
            HandType::FlushFive => 11,
        }
    }

    /// The variant at position `i` in declaration order.
    pub fn from_index(i: usize) -> (r: HandType)
        requires
            i < 12,
        ensures
            r.index() == i,
    {
        match i {
            0 => HandType::HighCard,
            1 => HandType::Pair,
            2 => HandType::TwoPair,
            3 => HandType::ThreeOfAKind,
            4 => HandType::Straight,
            5 => HandType::Flush,
            6 => HandType::FullHouse,
            7 => HandType::FourOfAKind,
            8 => HandType::StraightFlush,
            9 => HandType::FiveOfAKind,
            10 => HandType::FlushHouse,
            _ => HandType::FlushFive,
        }
    }
}
/// Number of cards in `cards` whose rank is at position `r`.
pub open spec fn rank_count(cards: Seq<Card>, r: nat) -> nat
    decreases cards.len(),
{
    if cards.len() == 0 {
        0
    } else {
        rank_count(cards.drop_last(), r) + if cards.last().rank.index() == r {
            1nat
        } else {
            0nat
        }
    }
}

/// Some rank occurs at least `k` times.
pub open spec fn some_rank_at_least(cards: Seq<Card>, k: nat) -> bool {
    exists|r: nat| r < 13 && #[trigger] rank_count(cards, r) >= k
}

/// Some rank occurs exactly `k` times.
pub open spec fn some_rank_exactly(cards: Seq<Card>, k: nat) -> bool {
    exists|r: nat| r < 13 && #[trigger] rank_count(cards, r) == k
}

/// Two different ranks occur at least twice each.
pub open spec fn two_ranks_paired(cards: Seq<Card>) -> bool {
    exists|r1: nat, r2: nat|
        r1 < r2 < 13 && #[trigger] rank_count(cards, r1) >= 2 && #[trigger] rank_count(cards, r2)
            >= 2
}

/// The five ranks starting at position `lo` occur once each.
pub open spec fn run_from(cards: Seq<Card>, lo: nat) -> bool {
    &&& rank_count(cards, lo) == 1
    &&& rank_count(cards, lo + 1) == 1
    &&& rank_count(cards, lo + 2) == 1
    &&& rank_count(cards, lo + 3) == 1
    &&& rank_count(cards, lo + 4) == 1
}

/// Ace, two, three, four and five occur once each.
pub open spec fn wheel(cards: Seq<Card>) -> bool {
    &&& rank_count(cards, 12) == 1
    &&& rank_count(cards, 0) == 1
    &&& rank_count(cards, 1) == 1
    &&& rank_count(cards, 2) == 1
    &&& rank_count(cards, 3) == 1
}

/// Five cards of consecutive ranks, or the ace-to-five wheel.
pub open spec fn straight(cards: Seq<Card>) -> bool {
    cards.len() == 5 && ((exists|lo: nat| lo <= 8 && #[trigger] run_from(cards, lo)) || wheel(
        cards,
    ))
}

/// Every card counts as suit `s` (wild cards count as every suit).
pub open spec fn all_count_as(cards: Seq<Card>, s: Suit) -> bool {
    forall|i: int| 0 <= i < cards.len() ==> #[trigger] cards[i].counts_as(s)
}

/// Five cards that all count as one suit.
pub open spec fn flush(cards: Seq<Card>) -> bool {
    cards.len() == 5 && exists|s: Suit| #[trigger] all_count_as(cards, s)
}

/// A rank occurring exactly three times and another exactly twice.
pub open spec fn full_house(cards: Seq<Card>) -> bool {
    some_rank_exactly(cards, 3) && some_rank_exactly(cards, 2)
}

/// Whether the selection `cards` holds the hand category `h`.
pub open spec fn holds(cards: Seq<Card>, h: HandType) -> bool {
    match h {
        HandType::HighCard => true,
        HandType::Pair => some_rank_at_least(cards, 2),
        HandType::TwoPair => two_ranks_paired(cards),
        HandType::ThreeOfAKind => some_rank_at_least(cards, 3),
        HandType::Straight => straight(cards),
        HandType::Flush => flush(cards),
        HandType::FullHouse => full_house(cards),
        HandType::FourOfAKind => some_rank_at_least(cards, 4),
        HandType::StraightFlush => straight(cards) && flush(cards),
        HandType::FiveOfAKind => some_rank_at_least(cards, 5),
        HandType::FlushHouse => flush(cards) && full_house(cards),
        HandType::FlushFive => flush(cards) && some_rank_at_least(cards, 5),
    }
}

/// The strongest category that `cards` holds.
pub open spec fn classify(cards: Seq<Card>) -> HandType {
    if holds(cards, HandType::FlushFive) {
        HandType::FlushFive
    } else if holds(cards, HandType::FlushHouse) {
        HandType::FlushHouse
    } else if holds(cards, HandType::FiveOfAKind) {
        HandType::FiveOfAKind
    } else if holds(cards, HandType::StraightFlush) {
        HandType::StraightFlush
    } else if holds(cards, HandType::FourOfAKind) {
        HandType::FourOfAKind
    } else if holds(cards, HandType::FullHouse) {
        HandType::FullHouse
    } else if holds(cards, HandType::Flush) {
        HandType::Flush
    } else if holds(cards, HandType::Straight) {
        HandType::Straight
    } else if holds(cards, HandType::ThreeOfAKind) {
        HandType::ThreeOfAKind
    } else if holds(cards, HandType::TwoPair) {
        HandType::TwoPair
    } else if holds(cards, HandType::Pair) {
        HandType::Pair
    } else {
        HandType::HighCard
    }
}

/// Classification is total and maximal: every selection gets exactly one category,
/// it holds that category, and no stronger category holds.
pub proof fn lemma_classify_strongest(cards: Seq<Card>)
    ensures
        holds(cards, classify(cards)),
        forall|h: HandType| #[trigger] holds(cards, h) ==> h.index() <= classify(cards).index(),
{
}

/// Fewer than five cards never make a straight or flush category.
pub proof fn lemma_short_selection_no_straight_or_flush(cards: Seq<Card>)
    requires
        cards.len() < 5,
    ensures
        !holds(cards, HandType::Straight),
        !holds(cards, HandType::Flush),
        !holds(cards, HandType::StraightFlush),
        !holds(cards, HandType::FlushHouse),
        !holds(cards, HandType::FlushFive),
{
}

proof fn lemma_rank_count_bound(cards: Seq<Card>, r: nat)
    ensures
        rank_count(cards, r) <= cards.len(),
    decreases cards.len(),
{
    if cards.len() > 0 {
        lemma_rank_count_bound(cards.drop_last(), r);
    }
}

/// How many cards of each rank a selection holds, indexed by rank position.
fn count_ranks(cards: &Vec<Card>) -> (counts: Vec<usize>)
    ensures
        counts@.len() == 13,
        forall|r: int| 0 <= r < 13 ==> counts@[r] == rank_count(cards@, r as nat),
{
    let mut counts: Vec<usize> = Vec::new();
    let mut k: usize = 0;
    while k < 13
        invariant
            k <= 13,
            counts@.len() == k,
            forall|r: int| 0 <= r < k ==> counts@[r] == 0,
        decreases 13 - k,
    {
        counts.push(0);
        k += 1;
    }
    let mut i: usize = 0;
    while i < cards.len()
        invariant
            i <= cards.len(),
            counts@.len() == 13,
            forall|r: int| 0 <= r < 13 ==> counts@[r] == rank_count(cards@.take(i as int), r as nat),
        decreases cards.len() - i,
    {
        let idx = cards[i].rank.to_index();
        proof {
            assert(cards@.take(i + 1).drop_last() =~= cards@.take(i as int));
            assert forall|r: int| 0 <= r < 13 implies #[trigger] rank_count(cards@.take(i + 1), r as nat) == (
            if r == idx {
                rank_count(cards@.take(i as int), r as nat) + 1
            } else {
                rank_count(cards@.take(i as int), r as nat)
            }) by {
                assert(cards@.take(i + 1).last() == cards@[i as int]);
            }
            lemma_rank_count_bound(cards@.take(i as int), idx as nat);
        }
        let c = counts[idx];
        counts.set(idx, c + 1);
        i += 1;
    }
    proof {
        assert(cards@.take(cards.len() as int) =~= cards@);
    }
    counts
}

fn any_count_at_least(counts: &Vec<usize>, k: usize) -> (r: bool)
    requires
        counts@.len() == 13,
    ensures
        r == exists|x: int| 0 <= x < 13 && counts@[x] >= k,
{
    let mut x: usize = 0;
    while x < 13
        invariant
            x <= 13,
            counts@.len() == 13,
            forall|y: int| 0 <= y < x ==> counts@[y] < k,
        decreases 13 - x,
    {
        if counts[x] >= k {
            return true;
        }
        x += 1;
    }
    false
}

fn any_count_exactly(counts: &Vec<usize>, k: usize) -> (r: bool)
    requires
        counts@.len() == 13,
    ensures
        r == exists|x: int| 0 <= x < 13 && counts@[x] == k,
{
    let mut x: usize = 0;
    while x < 13
        invariant
            x <= 13,
            counts@.len() == 13,
            forall|y: int| 0 <= y < x ==> counts@[y] != k,
        decreases 13 - x,
    {
        if counts[x] == k {
            return true;
        }
        x += 1;
    }
    false
}

fn two_counts_paired(counts: &Vec<usize>) -> (r: bool)
    requires
        counts@.len() == 13,
    ensures
        r == exists|a: int, b: int| 0 <= a < b < 13 && counts@[a] >= 2 && counts@[b] >= 2,
{
    let mut first: Option<usize> = None;
    let mut x: usize = 0;
    while x < 13
        invariant
            x <= 13,
            counts@.len() == 13,
            first is None ==> forall|y: int| 0 <= y < x ==> counts@[y] < 2,
            first matches Some(f) ==> f < x && counts@[f as int] >= 2 && forall|y: int|
                0 <= y < x && y != f ==> counts@[y] < 2,
        decreases 13 - x,
    {
        if counts[x] >= 2 {
            if let Some(f) = first {
                assert(counts@[f as int] >= 2 && counts@[x as int] >= 2 && f < x);
                return true;
            }
            first = Some(x);
        }
        x += 1;
    }
    false
}

fn every_card_counts_as(cards: &Vec<Card>, s: Suit) -> (r: bool)
    ensures
        r == all_count_as(cards@, s),
{
    let mut i: usize = 0;
    while i < cards.len()
        invariant
            i <= cards.len(),
            forall|j: int| 0 <= j < i ==> #[trigger] cards@[j].counts_as(s),
        decreases cards.len() - i,
    {
        if !cards[i].is_suit(s) {
            return false;
        }
        i += 1;
    }
    true
}

/// A selection of held cards: up to five indices into the run's card list.
#[derive(Debug, Clone, Copy, PartialEq, Eq)]
pub struct Hand {
    pub cards: [usize; 5],
    pub len: usize,
}

impl Hand {
    /// At most five cards, each selected once.
    pub open spec fn wf(&self) -> bool {
        &&& self.len <= 5
        &&& forall|i: int, j: int| 0 <= i < j < self.len ==> self.cards@[i] != self.cards@[j]
    }

    /// The selected indices, in selection order.
    pub open spec fn indices(&self) -> Seq<usize> {
        self.cards@.take(self.len as int)
    }

    /// The empty selection.
    pub fn empty() -> (r: Hand)
        ensures
            r.wf(),
            r.indices().len() == 0,
            r.is_empty(),
    {
        let r = Hand { cards: [0, 0, 0, 0, 0], len: 0 };
        proof {
            assert(r.cards@ =~= seq![0usize, 0, 0, 0, 0]);
        }
        r
    }

    /// The empty selection, slots cleared.
    pub open spec fn is_empty(&self) -> bool {
        self.len == 0 && self.cards@ == seq![0usize, 0, 0, 0, 0]
    }

    pub fn card_slice(&self) -> (r: Vec<usize>)
        requires
            self.len <= 5,
        ensures
            r@ == self.indices(),
    {
        let mut r: Vec<usize> = Vec::new();
        let mut i: usize = 0;
        while i < self.len
            invariant
                i <= self.len <= 5,
                r@ == self.cards@.take(i as int),
            decreases self.len - i,
        {
            r.push(self.cards[i]);
            proof {
                assert(self.cards@.take(i + 1) =~= self.cards@.take(i as int).push(self.cards@[i as int]));
            }
            i += 1;
        }
        r
    }

    /// The selected cards, looked up in `cards`.
    pub fn resolve(&self, cards: &Vec<Card>) -> (r: ResolvedHand)
        requires
            self.len <= 5,
            forall|i: int| 0 <= i < self.len ==> self.cards@[i] < cards@.len(),
        ensures
            r.0@ == self.indices().map_values(|i: usize| cards@[i as int]),
    {
        let mut out: Vec<Card> = Vec::new();
        let mut i: usize = 0;
        while i < self.len
            invariant
                i <= self.len <= 5,
                forall|j: int| 0 <= j < self.len ==> self.cards@[j] < cards@.len(),
                out@ == self.cards@.take(i as int).map_values(|k: usize| cards@[k as int]),
            decreases self.len - i,
        {
            out.push(cards[self.cards[i]]);
            proof {
                assert(self.cards@.take(i + 1) =~= self.cards@.take(i as int).push(self.cards@[i as int]));
                assert(self.cards@.take(i + 1).map_values(|k: usize| cards@[k as int])
                    =~= self.cards@.take(i as int).map_values(|k: usize| cards@[k as int]).push(cards@[self.cards@[i as int] as int]));
            }
            i += 1;
        }
        ResolvedHand(out)
    }
}

/// The cards of a selection.
pub struct ResolvedHand(pub Vec<Card>);

impl ResolvedHand {
    /// Whether the selection holds the category `hand_type`.
    pub fn contains(&self, hand_type: HandType) -> (r: bool)
        ensures
            r == holds(self.0@, hand_type),
    {
        let cards = &self.0;
        let counts = count_ranks(cards);
        match hand_type {
            HandType::HighCard => true,
            HandType::Pair => self.at_least(&counts, 2),
            HandType::TwoPair => {
                let r = two_counts_paired(&counts);
                proof {
                    if r {
                        let (a, b) = choose|a: int, b: int|
                            0 <= a < b < 13 && counts@[a] >= 2 && counts@[b] >= 2;
                        assert(rank_count(cards@, a as nat) >= 2);
                        assert(rank_count(cards@, b as nat) >= 2);
                    }
                    if two_ranks_paired(cards@) {
                        let (a, b) = choose|a: nat, b: nat|
                            a < b < 13 && #[trigger] rank_count(cards@, a) >= 2 && #[trigger] rank_count(cards@, b) >= 2;
                        assert(counts@[a as int] >= 2 && counts@[b as int] >= 2);
                    }
                }
                r
            },
            HandType::ThreeOfAKind => self.at_least(&counts, 3),
            HandType::Straight => self.is_straight(&counts),
            HandType::Flush => self.is_flush(),
            HandType::FullHouse => self.exactly(&counts, 3) && self.exactly(&counts, 2),
            HandType::FourOfAKind => self.at_least(&counts, 4),
            HandType::StraightFlush => self.is_straight(&counts) && self.is_flush(),
            HandType::FiveOfAKind => self.at_least(&counts, 5),
            HandType::FlushHouse => self.is_flush() && self.exactly(&counts, 3) && self.exactly(
                &counts,
                2,
            ),
            HandType::FlushFive => self.is_flush() && self.at_least(&counts, 5),
        }
    }

    fn at_least(&self, counts: &Vec<usize>, k: usize) -> (r: bool)
        requires
            counts@.len() == 13,
            forall|x: int| 0 <= x < 13 ==> counts@[x] == rank_count(self.0@, x as nat),
        ensures
            r == some_rank_at_least(self.0@, k as nat),
    {
        let r = any_count_at_least(counts, k);
        proof {
            if r {
                let x = choose|x: int| 0 <= x < 13 && counts@[x] >= k;
                assert(rank_count(self.0@, x as nat) >= k);
            }
            if some_rank_at_least(self.0@, k as nat) {
                let x = choose|x: nat| x < 13 && #[trigger] rank_count(self.0@, x) >= k;
                assert(counts@[x as int] >= k);
            }
        }
        r
    }

    fn exactly(&self, counts: &Vec<usize>, k: usize) -> (r: bool)
        requires
            counts@.len() == 13,
            forall|x: int| 0 <= x < 13 ==> counts@[x] == rank_count(self.0@, x as nat),
        ensures
            r == some_rank_exactly(self.0@, k as nat),
    {
        let r = any_count_exactly(counts, k);
        proof {
            if r {
                let x = choose|x: int| 0 <= x < 13 && counts@[x] == k;
                assert(rank_count(self.0@, x as nat) == k);
            }
            if some_rank_exactly(self.0@, k as nat) {
                let x = choose|x: nat| x < 13 && #[trigger] rank_count(self.0@, x) == k;
                assert(counts@[x as int] == k);
            }
        }
        r
    }

    fn is_straight(&self, counts: &Vec<usize>) -> (r: bool)
        requires
            counts@.len() == 13,
            forall|x: int| 0 <= x < 13 ==> counts@[x] == rank_count(self.0@, x as nat),
        ensures
            r == straight(self.0@),
    {
        if self.0.len() != 5 {
            return false;
        }
        proof {
            assert forall|x: nat| x >= 13 implies rank_count(self.0@, x) == 0 by {
                lemma_rank_count_zero(self.0@, x);
            }
        }
        let mut lo: usize = 0;
        while lo <= 8
            invariant
                lo <= 9,
                self.0@.len() == 5,
                counts@.len() == 13,
                forall|x: int| 0 <= x < 13 ==> counts@[x] == rank_count(self.0@, x as nat),
                forall|l: nat| l < lo ==> !#[trigger] run_from(self.0@, l),
            decreases 9 - lo,
        {
            if counts[lo] == 1 && counts[lo + 1] == 1 && counts[lo + 2] == 1 && counts[lo + 3] == 1
                && counts[lo + 4] == 1 {
                assert(run_from(self.0@, lo as nat));
                return true;
            }
            lo += 1;
        }
        counts[12] == 1 && counts[0] == 1 && counts[1] == 1 && counts[2] == 1 && counts[3] == 1
    }

    fn is_flush(&self) -> (r: bool)
        ensures
            r == flush(self.0@),
    {
        if self.0.len() != 5 {
            return false;
        }
        let r = every_card_counts_as(&self.0, Suit::Spade) || every_card_counts_as(
            &self.0,
            Suit::Heart,
        ) || every_card_counts_as(&self.0, Suit::Club) || every_card_counts_as(
            &self.0,
            Suit::Diamond,
        );
        proof {
            if flush(self.0@) {
                let s = choose|s: Suit| #[trigger] all_count_as(self.0@, s);
                match s {
                    Suit::Spade => {},
                    Suit::Heart => {},
                    Suit::Club => {},
                    Suit::Diamond => {},
                }
            }
        }
        r
    }

    /// Rank positions of the selected cards, in selection order.
    pub fn ranks(&self) -> (r: Vec<u8>)
        ensures
            r@.len() == self.0@.len(),
            forall|i: int| 0 <= i < r@.len() ==> r@[i] == self.0@[i].rank.index(),
    {
        let mut r: Vec<u8> = Vec::new();
        let mut i: usize = 0;
        while i < self.0.len()
            invariant
                i <= self.0@.len(),
                r@.len() == i,
                forall|j: int| 0 <= j < i ==> r@[j] == self.0@[j].rank.index(),
            decreases self.0@.len() - i,
        {
            let k = self.0[i].rank.to_index();
            r.push(k as u8);
            i += 1;
        }
        r
    }

    /// The strongest category the selection holds.
    pub fn hand_type(&self) -> (r: HandType)
        ensures
            r == classify(self.0@),
    {
        if self.contains(HandType::FlushFive) {
            HandType::FlushFive
        } else if self.contains(HandType::FlushHouse) {
            HandType::FlushHouse
        } else if self.contains(HandType::FiveOfAKind) {
            HandType::FiveOfAKind
        } else if self.contains(HandType::StraightFlush) {
            HandType::StraightFlush
        } else if self.contains(HandType::FourOfAKind) {
            HandType::FourOfAKind
        } else if self.contains(HandType::FullHouse) {
            HandType::FullHouse
        } else if self.contains(HandType::Flush) {
            HandType::Flush
        } else if self.contains(HandType::Straight) {
            HandType::Straight
        } else if self.contains(HandType::ThreeOfAKind) {
            HandType::ThreeOfAKind
        } else if self.contains(HandType::TwoPair) {
            HandType::TwoPair
        } else if self.contains(HandType::Pair) {
            HandType::Pair
        } else {
            HandType::HighCard
        }
    }
}

proof fn lemma_rank_count_zero(cards: Seq<Card>, r: nat)
    requires
        r >= 13,
    ensures
        rank_count(cards, r) == 0,
    decreases cards.len(),
{
    if cards.len() > 0 {
        lemma_rank_count_zero(cards.drop_last(), r);
    }
}

/// Base chips of each hand category at level one, indexed by category position.
pub open spec fn base_chips_of(h: HandType) -> nat {
    match h {
        HandType::HighCard => 5,
        HandType::Pair => 10,
        HandType::TwoPair => 20,
        HandType::ThreeOfAKind | HandType::Straight => 30,
        HandType::Flush => 35,
        HandType::FullHouse => 40,
        HandType::FourOfAKind => 60,
        HandType::StraightFlush => 100,
        HandType::FiveOfAKind => 120,
        HandType::FlushHouse => 140,
        HandType::FlushFive => 160,
    }
}

/// Base mult of each hand category at level one.
pub open spec fn base_mult_of(h: HandType) -> nat {
    match h {
        HandType::HighCard => 1,
        HandType::Pair | HandType::TwoPair => 2,
        HandType::ThreeOfAKind => 3,
        HandType::Straight | HandType::Flush | HandType::FullHouse => 4,
        HandType::FourOfAKind => 7,
        HandType::StraightFlush => 8,
        HandType::FiveOfAKind => 12,
        HandType::FlushHouse => 14,
        HandType::FlushFive => 16,
    }
}

impl HandType {
    /// Base chips of every category, indexed by category position.
    pub fn base_chips() -> (r: Vec<u64>)
        ensures
            r@.len() == HAND_TYPE_COUNT,
            forall|h: HandType| #[trigger] r@[h.index() as int] == base_chips_of(h),
    {
        let r: Vec<u64> = vec![5, 10, 20, 30, 30, 35, 40, 60, 100, 120, 140, 160];
        proof {
            assert forall|h: HandType| #[trigger] r@[h.index() as int] == base_chips_of(h) by {
                match h {
                    _ => {},
                }
            }
        }
        r
    }

    /// Base mult of every category, indexed by category position.
    pub fn base_mult() -> (r: Vec<u64>)
        ensures
            r@.len() == HAND_TYPE_COUNT,
            forall|h: HandType| #[trigger] r@[h.index() as int] == base_mult_of(h),
    {
        let r: Vec<u64> = vec![1, 2, 2, 3, 4, 4, 4, 7, 8, 12, 14, 16];
        proof {
            assert forall|h: HandType| #[trigger] r@[h.index() as int] == base_mult_of(h) by {
                match h {
                    _ => {},
                }
            }
        }
        r
    }
}

} // verus!
