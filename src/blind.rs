//! Blinds: their kinds, boss rotation, and the actions taken inside a blind.

use crate::hands::{classify, Hand, HandType, HAND_TYPE_COUNT};
use crate::run::RunData;
use crate::seeding::{bumped, count_of, draw_counted, draw_source, drew, Channels};
use vstd::prelude::*;

verus! {

/// A boss blind; the last five are showdown bosses.
#[derive(Debug, Clone, Copy, PartialEq, Eq, Hash, Structural)]
pub enum BossBlindType {
    TheHook,
    TheOx,
    TheHouse,
    TheWall,
    TheWheel,
    TheArm,
    TheClub,
    TheFish,
    ThePsychic,
    TheGoad,
    TheWater,
    TheWindow,
    TheManacle,
    TheEye,
    TheMouth,
    ThePlant,
    TheSerpent,
    ThePillar,
    TheNeedle,
    TheHead,
    TheTooth,
    TheFlint,
    TheMark,
    AmberAcorn,
    VerdantLeaf,
    VioletVessel,
    CrimsonHeart,
    CeruleanBell,
}

/// Number of variants of [`BossBlindType`].
pub const BOSS_BLIND_COUNT: usize = 28;

impl BossBlindType {
    /// The position of the variant in declaration order.
    pub open spec fn index(self) -> nat {
        match self {
            BossBlindType::TheHook => 0,
            BossBlindType::TheOx => 1,
            BossBlindType::TheHouse => 2,
            BossBlindType::TheWall => 3,
            BossBlindType::TheWheel => 4,
            BossBlindType::TheArm => 5,
            BossBlindType::TheClub => 6,
            BossBlindType::TheFish => 7,
            BossBlindType::ThePsychic => 8,
            BossBlindType::TheGoad => 9,
            BossBlindType::TheWater => 10,
            BossBlindType::TheWindow => 11,
            BossBlindType::TheManacle => 12,
            BossBlindType::TheEye => 13,
            BossBlindType::TheMouth => 14,
            BossBlindType::ThePlant => 15,
            BossBlindType::TheSerpent => 16,
            BossBlindType::ThePillar => 17,
            BossBlindType::TheNeedle => 18,
            BossBlindType::TheHead => 19,
            BossBlindType::TheTooth => 20,
            BossBlindType::TheFlint => 21,
            BossBlindType::TheMark => 22,
            BossBlindType::AmberAcorn => 23,
            BossBlindType::VerdantLeaf => 24,
            BossBlindType::VioletVessel => 25,
            BossBlindType::CrimsonHeart => 26,
            BossBlindType::CeruleanBell => 27,
        }
    }

    /// The position of the variant in declaration order, as a `usize`.
    pub fn to_index(&self) -> (r: usize)
        ensures
            r == self.index(),
            r < 28,
    {
        match self {
            BossBlindType::TheHook => 0,
            BossBlindType::TheOx => 1,
            BossBlindType::TheHouse => 2,
            BossBlindType::TheWall => 3,
            BossBlindType::TheWheel => 4,
            BossBlindType::TheArm => 5,
            BossBlindType::TheClub => 6,
            BossBlindType::TheFish => 7,
            BossBlindType::ThePsychic => 8,
            BossBlindType::TheGoad => 9,
            BossBlindType::TheWater => 10,
            BossBlindType::TheWindow => 11,
            BossBlindType::TheManacle => 12,
            BossBlindType::TheEye => 13,
            BossBlindType::TheMouth => 14,
            BossBlindType::ThePlant => 15,
            BossBlindType::TheSerpent => 16,
            BossBlindType::ThePillar => 17,
            BossBlindType::TheNeedle => 18,
            BossBlindType::TheHead => 19,
            BossBlindType::TheTooth => 20,
            BossBlindType::TheFlint => 21,
            BossBlindType::TheMark => 22,
            BossBlindType::AmberAcorn => 23,
            BossBlindType::VerdantLeaf => 24,
            BossBlindType::VioletVessel => 25,
            BossBlindType::CrimsonHeart => 26,
            BossBlindType::CeruleanBell => 27,
        }
    }

    /// The variant at position `i` in declaration order.
    pub fn from_index(i: usize) -> (r: BossBlindType)
        requires
            i < 28,
        ensures
            r.index() == i,
    {
        match i {
            0 => BossBlindType::TheHook,
            1 => BossBlindType::TheOx,
            2 => BossBlindType::TheHouse,
            3 => BossBlindType::TheWall,
            4 => BossBlindType::TheWheel,
            5 => BossBlindType::TheArm,
            6 => BossBlindType::TheClub,
            7 => BossBlindType::TheFish,
            8 => BossBlindType::ThePsychic,
            9 => BossBlindType::TheGoad,
            10 => BossBlindType::TheWater,
            11 => BossBlindType::TheWindow,
            12 => BossBlindType::TheManacle,
            13 => BossBlindType::TheEye,
            14 => BossBlindType::TheMouth,
            15 => BossBlindType::ThePlant,
            16 => BossBlindType::TheSerpent,
            17 => BossBlindType::ThePillar,
            18 => BossBlindType::TheNeedle,
            19 => BossBlindType::TheHead,
            20 => BossBlindType::TheTooth,
            21 => BossBlindType::TheFlint,
            22 => BossBlindType::TheMark,
            23 => BossBlindType::AmberAcorn,
            24 => BossBlindType::VerdantLeaf,
            25 => BossBlindType::VioletVessel,
            26 => BossBlindType::CrimsonHeart,
            _ => BossBlindType::CeruleanBell,
        }
    }
}
/// Bosses of non-showdown antes.
pub open spec fn normal_bosses() -> Seq<BossBlindType> {
    seq![
        BossBlindType::TheHook,
        BossBlindType::TheOx,
        BossBlindType::TheHouse,
        BossBlindType::TheWall,
        BossBlindType::TheWheel,
        BossBlindType::TheArm,
        BossBlindType::TheClub,
        BossBlindType::TheFish,
        BossBlindType::ThePsychic,
        BossBlindType::TheGoad,
        BossBlindType::TheWater,
        BossBlindType::TheWindow,
        BossBlindType::TheManacle,
        BossBlindType::TheEye,
        BossBlindType::TheMouth,
        BossBlindType::ThePlant,
        BossBlindType::TheSerpent,
        BossBlindType::ThePillar,
        BossBlindType::TheNeedle,
        BossBlindType::TheHead,
        BossBlindType::TheTooth,
        BossBlindType::TheFlint,
        BossBlindType::TheMark,
    ]
}

/// The list of [`normal_bosses`] as a vector.
pub fn normal_bosses_vec() -> (r: Vec<BossBlindType>)
    ensures
        r@ == normal_bosses(),
{
    vec![
        BossBlindType::TheHook,
        BossBlindType::TheOx,
        BossBlindType::TheHouse,
        BossBlindType::TheWall,
        BossBlindType::TheWheel,
        BossBlindType::TheArm,
        BossBlindType::TheClub,
        BossBlindType::TheFish,
        BossBlindType::ThePsychic,
        BossBlindType::TheGoad,
        BossBlindType::TheWater,
        BossBlindType::TheWindow,
        BossBlindType::TheManacle,
        BossBlindType::TheEye,
        BossBlindType::TheMouth,
        BossBlindType::ThePlant,
        BossBlindType::TheSerpent,
        BossBlindType::ThePillar,
        BossBlindType::TheNeedle,
        BossBlindType::TheHead,
        BossBlindType::TheTooth,
        BossBlindType::TheFlint,
        BossBlindType::TheMark,
    ]
}

/// Bosses of every eighth ante.
pub open spec fn showdown_bosses() -> Seq<BossBlindType> {
    seq![
        BossBlindType::AmberAcorn,
        BossBlindType::VerdantLeaf,
        BossBlindType::VioletVessel,
        BossBlindType::CrimsonHeart,
        BossBlindType::CeruleanBell,
    ]
}

/// The list of [`showdown_bosses`] as a vector.
pub fn showdown_bosses_vec() -> (r: Vec<BossBlindType>)
    ensures
        r@ == showdown_bosses(),
{
    vec![
        BossBlindType::AmberAcorn,
        BossBlindType::VerdantLeaf,
        BossBlindType::VioletVessel,
        BossBlindType::CrimsonHeart,
        BossBlindType::CeruleanBell,
    ]
}

/// Every boss, ordered by its game name.
pub open spec fn bosses_by_name() -> Seq<BossBlindType> {
    seq![
        BossBlindType::TheArm,
        BossBlindType::TheClub,
        BossBlindType::TheEye,
        BossBlindType::AmberAcorn,
        BossBlindType::CeruleanBell,
        BossBlindType::CrimsonHeart,
        BossBlindType::VerdantLeaf,
        BossBlindType::VioletVessel,
        BossBlindType::TheFish,
        BossBlindType::TheFlint,
        BossBlindType::TheGoad,
        BossBlindType::TheHead,
        BossBlindType::TheHook,
        BossBlindType::TheHouse,
        BossBlindType::TheManacle,
        BossBlindType::TheMark,
        BossBlindType::TheMouth,
        BossBlindType::TheNeedle,
        BossBlindType::TheOx,
        BossBlindType::ThePillar,
        BossBlindType::ThePlant,
        BossBlindType::ThePsychic,
        BossBlindType::TheSerpent,
        BossBlindType::TheTooth,
        BossBlindType::TheWall,
        BossBlindType::TheWater,
        BossBlindType::TheWheel,
        BossBlindType::TheWindow,
    ]
}

/// The list of [`bosses_by_name`] as a vector.
pub fn bosses_by_name_vec() -> (r: Vec<BossBlindType>)
    ensures
        r@ == bosses_by_name(),
{
    vec![
        BossBlindType::TheArm,
        BossBlindType::TheClub,
        BossBlindType::TheEye,
        BossBlindType::AmberAcorn,
        BossBlindType::CeruleanBell,
        BossBlindType::CrimsonHeart,
        BossBlindType::VerdantLeaf,
        BossBlindType::VioletVessel,
        BossBlindType::TheFish,
        BossBlindType::TheFlint,
        BossBlindType::TheGoad,
        BossBlindType::TheHead,
        BossBlindType::TheHook,
        BossBlindType::TheHouse,
        BossBlindType::TheManacle,
        BossBlindType::TheMark,
        BossBlindType::TheMouth,
        BossBlindType::TheNeedle,
        BossBlindType::TheOx,
        BossBlindType::ThePillar,
        BossBlindType::ThePlant,
        BossBlindType::ThePsychic,
        BossBlindType::TheSerpent,
        BossBlindType::TheTooth,
        BossBlindType::TheWall,
        BossBlindType::TheWater,
        BossBlindType::TheWheel,
        BossBlindType::TheWindow,
    ]
}

impl BossBlindType {
    /// Lowest ante at which the boss may appear; `i32::MIN` for any ante.
    pub open spec fn min_ante_of(self) -> i32 {
        match self {
            BossBlindType::TheHook | BossBlindType::TheClub | BossBlindType::ThePsychic
            | BossBlindType::TheGoad | BossBlindType::TheWindow | BossBlindType::TheManacle
            | BossBlindType::ThePillar | BossBlindType::TheHead => i32::MIN,
            BossBlindType::TheHouse | BossBlindType::TheWall | BossBlindType::TheWheel
            | BossBlindType::TheArm | BossBlindType::TheFish | BossBlindType::TheWater
            | BossBlindType::TheMouth | BossBlindType::TheNeedle | BossBlindType::TheFlint
            | BossBlindType::TheMark => 2,
            BossBlindType::TheEye | BossBlindType::TheTooth => 3,
            BossBlindType::ThePlant => 4,
            BossBlindType::TheSerpent => 5,
            BossBlindType::TheOx => 6,
            BossBlindType::AmberAcorn | BossBlindType::VerdantLeaf | BossBlindType::VioletVessel
            | BossBlindType::CrimsonHeart | BossBlindType::CeruleanBell => 8,
        }
    }

    pub fn min_ante(&self) -> (r: i32)
        ensures
            r == self.min_ante_of(),
    {
        match self {
            BossBlindType::TheHook | BossBlindType::TheClub | BossBlindType::ThePsychic
            | BossBlindType::TheGoad | BossBlindType::TheWindow | BossBlindType::TheManacle
            | BossBlindType::ThePillar | BossBlindType::TheHead => i32::MIN,
            BossBlindType::TheHouse | BossBlindType::TheWall | BossBlindType::TheWheel
            | BossBlindType::TheArm | BossBlindType::TheFish | BossBlindType::TheWater
            | BossBlindType::TheMouth | BossBlindType::TheNeedle | BossBlindType::TheFlint
            | BossBlindType::TheMark => 2,
            BossBlindType::TheEye | BossBlindType::TheTooth => 3,
            BossBlindType::ThePlant => 4,
            BossBlindType::TheSerpent => 5,
            BossBlindType::TheOx => 6,
            BossBlindType::AmberAcorn | BossBlindType::VerdantLeaf | BossBlindType::VioletVessel
            | BossBlindType::CrimsonHeart | BossBlindType::CeruleanBell => 8,
        }
    }

    /// The identifier the game uses for the boss.
    pub open spec fn name_of(self) -> &'static str {
        match self {
            BossBlindType::TheHook => "bl_hook",
            BossBlindType::TheOx => "bl_ox",
            BossBlindType::TheHouse => "bl_house",
            BossBlindType::TheWall => "bl_wall",
            BossBlindType::TheWheel => "bl_wheel",
            BossBlindType::TheArm => "bl_arm",
            BossBlindType::TheClub => "bl_club",
            BossBlindType::TheFish => "bl_fish",
            BossBlindType::ThePsychic => "bl_psychic",
            BossBlindType::TheGoad => "bl_goad",
            BossBlindType::TheWater => "bl_water",
            BossBlindType::TheWindow => "bl_window",
            BossBlindType::TheManacle => "bl_manacle",
            BossBlindType::TheEye => "bl_eye",
            BossBlindType::TheMouth => "bl_mouth",
            BossBlindType::ThePlant => "bl_planet",
            BossBlindType::TheSerpent => "bl_serpent",
            BossBlindType::ThePillar => "bl_pillar",
            BossBlindType::TheNeedle => "bl_needle",
            BossBlindType::TheHead => "bl_head",
            BossBlindType::TheTooth => "bl_tooth",
            BossBlindType::TheFlint => "bl_flint",
            BossBlindType::TheMark => "bl_mark",
            BossBlindType::AmberAcorn => "bl_final_acorn",
            BossBlindType::VerdantLeaf => "bl_final_leaf",
            BossBlindType::VioletVessel => "bl_final_vessel",
            BossBlindType::CrimsonHeart => "bl_final_heart",
            BossBlindType::CeruleanBell => "bl_final_bell",
        }
    }

    pub fn game_name(&self) -> (r: &'static str)
        ensures
            r == self.name_of(),
    {
        match self {
            BossBlindType::TheHook => "bl_hook",
            BossBlindType::TheOx => "bl_ox",
            BossBlindType::TheHouse => "bl_house",
            BossBlindType::TheWall => "bl_wall",
            BossBlindType::TheWheel => "bl_wheel",
            BossBlindType::TheArm => "bl_arm",
            BossBlindType::TheClub => "bl_club",
            BossBlindType::TheFish => "bl_fish",
            BossBlindType::ThePsychic => "bl_psychic",
            BossBlindType::TheGoad => "bl_goad",
            BossBlindType::TheWater => "bl_water",
            BossBlindType::TheWindow => "bl_window",
            BossBlindType::TheManacle => "bl_manacle",
            BossBlindType::TheEye => "bl_eye",
            BossBlindType::TheMouth => "bl_mouth",
            BossBlindType::ThePlant => "bl_planet",
            BossBlindType::TheSerpent => "bl_serpent",
            BossBlindType::ThePillar => "bl_pillar",
            BossBlindType::TheNeedle => "bl_needle",
            BossBlindType::TheHead => "bl_head",
            BossBlindType::TheTooth => "bl_tooth",
            BossBlindType::TheFlint => "bl_flint",
            BossBlindType::TheMark => "bl_mark",
            BossBlindType::AmberAcorn => "bl_final_acorn",
            BossBlindType::VerdantLeaf => "bl_final_leaf",
            BossBlindType::VioletVessel => "bl_final_vessel",
            BossBlindType::CrimsonHeart => "bl_final_heart",
            BossBlindType::CeruleanBell => "bl_final_bell",
        }
    }
}

/// Kind of a blind.
#[derive(Debug, Clone, Copy, PartialEq, Eq, Structural)]
pub enum BlindType {
    Small,
    Big,
    Boss(BossBlindType),
}

/// Mutable state that some boss blinds keep while they are played.
#[derive(Debug, Clone, PartialEq)]
pub enum BossBlindData {
    /// Which hand categories were already played in this blind.
    TheEye { was_already_played: Vec<bool> },
    /// The one category this blind still allows, once a hand was played.
    TheMouth { allowed_hand: Option<HandType> },
}

impl BlindType {
    /// `data` is the state a blind of this kind starts with: no category played
    /// yet for the eye, no allowed category fixed yet for the mouth, none otherwise.
    pub open spec fn fresh_data(self, data: Option<BossBlindData>) -> bool {
        match self {
            BlindType::Boss(BossBlindType::TheEye) => match data {
                Some(BossBlindData::TheEye { was_already_played }) => was_already_played@
                    == Seq::new(HAND_TYPE_COUNT as nat, |i: int| false),
                _ => false,
            },
            BlindType::Boss(BossBlindType::TheMouth) => data == Some(
                BossBlindData::TheMouth { allowed_hand: None },
            ),
            _ => data is None,
        }
    }

    /// `data` has the shape that blinds of this kind keep.
    pub open spec fn data_fits(self, data: Option<BossBlindData>) -> bool {
        match self {
            BlindType::Boss(BossBlindType::TheEye) => match data {
                Some(BossBlindData::TheEye { was_already_played }) => was_already_played@.len()
                    == HAND_TYPE_COUNT,
                _ => false,
            },
            BlindType::Boss(BossBlindType::TheMouth) => data matches Some(
                BossBlindData::TheMouth { .. },
            ),
            _ => true,
        }
    }

    pub fn default_data(&self) -> (r: Option<BossBlindData>)
        ensures
            self.fresh_data(r),
            self.data_fits(r),
    {
        match self {
            BlindType::Boss(BossBlindType::TheEye) => {
                let flags: Vec<bool> = vec![
                    false,
                    false,
                    false,
                    false,
                    false,
                    false,
                    false,
                    false,
                    false,
                    false,
                    false,
                    false,
                ];
                proof {
                    assert(flags@ =~= Seq::new(HAND_TYPE_COUNT as nat, |i: int| false));
                }
                Some(BossBlindData::TheEye { was_already_played: flags })
            },
            BlindType::Boss(BossBlindType::TheMouth) => Some(
                BossBlindData::TheMouth { allowed_hand: None },
            ),
            _ => None,
        }
    }
}

/// An active blind.
#[derive(Debug, Clone, PartialEq)]
pub struct Blind {
    pub chips: u64,
    pub mult: u64,
    pub blind_type: BlindType,
    pub blind_data: Option<BossBlindData>,
    /// Cards still to be drawn, as indices into the run's cards; drawn from the back.
    pub cards: Vec<usize>,
    pub selected: Hand,
    pub held: Vec<usize>,
    pub score: u64,
    pub requirement: u64,
    pub hands: u32,
    pub discards: u32,
}

/// What a played hand carries through its dispatch: the hand, and whether it may
/// still score.
#[derive(Debug, Clone, Copy, PartialEq, Eq)]
pub struct HandPlayedEventData {
    pub hand: Hand,
    pub allowed: bool,
}

/// `held` without the cards that `sel` holds.
pub open spec fn without(held: Seq<usize>, sel: Seq<usize>) -> Seq<usize> {
    held.filter(|c: usize| !sel.contains(c))
}

/// How many cards a draw moves into a hand of `held` cards, from a pile of `pile`
/// cards, for a hand size of `hand_size`.
pub open spec fn draw_count(held: nat, pile: nat, hand_size: nat) -> nat {
    let want: nat = if hand_size > held {
        (hand_size - held) as nat
    } else {
        0
    };
    if want < pile {
        want
    } else {
        pile
    }
}

/// `held` and `pile` are what drawing up to `hand_size` cards from the back of
/// `pile0` into `held0` leaves.
pub open spec fn drawn(held0: Seq<usize>, pile0: Seq<usize>, hand_size: nat, held: Seq<usize>, pile: Seq<usize>) -> bool {
    let k = draw_count(held0.len(), pile0.len(), hand_size);
    &&& pile == pile0.take(pile0.len() - k)
    &&& held.len() == held0.len() + k
    &&& held.take(held0.len() as int) == held0
    &&& forall|j: int|
        held0.len() <= j < held.len() ==> (#[trigger] held[j]) == pile0[pile0.len() - 1 - (j - held0.len())]
}

/// `v` holds `x`.
pub fn contains_index(v: &Vec<usize>, x: usize) -> (r: bool)
    ensures
        r == v@.contains(x),
{
    let mut i: usize = 0;
    while i < v.len()
        invariant
            i <= v@.len(),
            forall|j: int| 0 <= j < i ==> v@[j] != x,
        decreases v@.len() - i,
    {
        if v[i] == x {
            return true;
        }
        i += 1;
    }
    false
}

impl Blind {
    /// The selection is well formed and the boss state has its kind's shape.
    pub open spec fn wf(&self) -> bool {
        &&& self.selected.wf()
        &&& self.blind_type.data_fits(self.blind_data)
    }

    /// Moves cards from the back of the pile into the held cards until `hand_size`
    /// cards are held or the pile is empty.
    pub fn draw(&mut self, data: &RunData)
        ensures
            drawn(old(self).held@, old(self).cards@, data.hand_size as nat, final(self).held@, final(self).cards@),
            ({
                let k = draw_count(
                    old(self).held@.len(),
                    old(self).cards@.len(),
                    data.hand_size as nat,
                );
                &&& final(self).cards@ == old(self).cards@.take(old(self).cards@.len() - k)
                &&& final(self).held@.len() == old(self).held@.len() + k
                &&& final(self).held@.take(old(self).held@.len() as int) == old(self).held@
                &&& forall|j: int|
                    old(self).held@.len() <= j < final(self).held@.len() ==> (#[trigger] final(self).held@[j])
                        == old(self).cards@[old(self).cards@.len() - 1 - (j - old(self).held@.len())]
            }),
            (Blind { cards: final(self).cards, held: final(self).held, ..*old(self) }) == *final(self),
    {
        let ghost orig = *self;
        let ghost old_held = self.held@;
        let ghost old_cards = self.cards@;
        let ghost k = draw_count(old_held.len(), old_cards.len(), data.hand_size as nat);
        let target = data.hand_size as usize;
        while self.held.len() < target && self.cards.len() > 0
            invariant
                self.held@.len() + self.cards@.len() == old_held.len() + old_cards.len(),
                old_held.len() <= self.held@.len() <= old_held.len() + k,
                self.held@.len() > old_held.len() ==> self.held@.len() <= target,
                self.cards@ == old_cards.take(old_cards.len() - (self.held@.len() - old_held.len())),
                self.held@.take(old_held.len() as int) == old_held,
                forall|j: int|
                    old_held.len() <= j < self.held@.len() ==> #[trigger] self.held@[j]
                        == old_cards[old_cards.len() - 1 - (j - old_held.len())],
                target == data.hand_size,
                k == draw_count(old_held.len(), old_cards.len(), data.hand_size as nat),
                (Blind { cards: self.cards, held: self.held, ..orig }) == *self,
            decreases target - self.held@.len(),
        {
            let card = self.cards.pop().unwrap();
            let ghost before = self.held@;
            self.held.push(card);
            proof {
                assert(self.held@.take(old_held.len() as int) =~= before.take(old_held.len() as int));
                assert(self.cards@ =~= old_cards.take(old_cards.len() - (self.held@.len() - old_held.len())));
            }
        }
    }

    /// Removes every selected card from the held cards.
    fn remove_selected_from_hand(&mut self)
        requires
            old(self).selected.len <= 5,
        ensures
            final(self).held@ == without(old(self).held@, old(self).selected.indices()),
            (Blind { held: final(self).held, ..*old(self) }) == *final(self),
    {
        let sel = self.selected.card_slice();
        let mut kept: Vec<usize> = Vec::new();
        let mut i: usize = 0;
        while i < self.held.len()
            invariant
                i <= self.held@.len(),
                sel@ == self.selected.indices(),
                kept@ == without(self.held@.take(i as int), sel@),
            decreases self.held@.len() - i,
        {
            let c = self.held[i];
            proof {
                reveal(Seq::filter);
                assert(self.held@.take(i + 1).drop_last() =~= self.held@.take(i as int));
                assert(self.held@.take(i + 1).last() == c);
            }
            if !contains_index(&sel, c) {
                kept.push(c);
            }
            i += 1;
        }
        proof {
            assert(self.held@.take(self.held@.len() as int) =~= self.held@);
        }
        self.held = kept;
    }

    /// Discards the selection: no-op returning `None` without discards left;
    /// otherwise the selected cards leave the hand, the selection is cleared and
    /// one discard is spent.
    pub fn discard(&mut self) -> (r: Option<()>)
        requires
            old(self).selected.len <= 5,
        ensures
            old(self).discards == 0 ==> r is None && *final(self) == *old(self),
            old(self).discards > 0 ==> {
                &&& r is Some
                &&& final(self).held@ == without(old(self).held@, old(self).selected.indices())
                &&& final(self).selected.len == 0
                &&& final(self).selected.wf()
                &&& final(self).selected.is_empty()
                &&& final(self).discards == old(self).discards - 1
                &&& (Blind {
                    held: final(self).held,
                    selected: final(self).selected,
                    discards: final(self).discards,
                    ..*old(self)
                }) == *final(self)
            },
    {
        if self.discards == 0 {
            return None;
        }
        self.remove_selected_from_hand();
        self.selected = Hand::empty();
        self.discards = self.discards - 1;
        Some(())
    }

    /// Starts playing the selection: no-op returning `None` without hands left;
    /// otherwise sets chips and mult to the base values of the selection's
    /// category, removes the selected cards from the hand, spends a hand, clears
    /// the selection and returns what was selected.
    pub fn prepare_play(&mut self, data: &RunData) -> (r: Option<Hand>)
        requires
            old(self).selected.len <= 5,
            forall|i: int|
                0 <= i < old(self).selected.len ==> old(self).selected.cards@[i] < data.cards@.len(),
            data.base_chips@.len() == HAND_TYPE_COUNT,
            data.base_mult@.len() == HAND_TYPE_COUNT,
        ensures
            old(self).hands == 0 ==> r is None && *final(self) == *old(self),
            old(self).hands > 0 ==> {
                let h = classify(
                    old(self).selected.indices().map_values(|i: usize| data.cards@[i as int]),
                );
                &&& r == Some(old(self).selected)
                &&& final(self).chips == data.base_chips@[h.index() as int]
                &&& final(self).mult == data.base_mult@[h.index() as int]
                &&& final(self).held@ == without(old(self).held@, old(self).selected.indices())
                &&& final(self).hands == old(self).hands - 1
                &&& final(self).selected.len == 0
                &&& final(self).selected.wf()
                &&& final(self).selected.is_empty()
                &&& (Blind {
                    chips: final(self).chips,
                    mult: final(self).mult,
                    held: final(self).held,
                    hands: final(self).hands,
                    selected: final(self).selected,
                    ..*old(self)
                }) == *final(self)
            },
    {
        if self.hands == 0 {
            return None;
        }
        let hand_type = self.selected.resolve(&data.cards).hand_type();
        let i = hand_type.to_index();
        self.chips = data.base_chips[i];
        self.mult = data.base_mult[i];
        let old_selected = self.selected;
        self.remove_selected_from_hand();
        self.hands = self.hands - 1;
        self.selected = Hand::empty();
        Some(old_selected)
    }

    /// Adds held card `idx` to the selection; no-op when `idx` is out of range,
    /// five cards are already selected, or that card is already selected.
    pub fn select(&mut self, idx: usize)
        requires
            old(self).selected.wf(),
        ensures
            final(self).selected.wf(),
            ({
                let s = old(self).selected;
                if idx < old(self).held@.len() && s.len < 5 && !s.indices().contains(
                    old(self).held@[idx as int],
                ) {
                    final(self).selected.indices() == s.indices().push(old(self).held@[idx as int])
                } else {
                    final(self).selected == s
                }
            }),
            (Blind { selected: final(self).selected, ..*old(self) }) == *final(self),
    {
        if idx >= self.held.len() || self.selected.len == 5 {
            return;
        }
        let card = self.held[idx];
        let chosen = self.selected.card_slice();
        if contains_index(&chosen, card) {
            return;
        }
        let ghost before = self.selected;
        let n = self.selected.len;
        self.selected.cards[n] = card;
        self.selected.len = n + 1;
        proof {
            assert(self.selected.indices() =~= before.indices().push(card));
            assert forall|i: int, j: int| 0 <= i < j < self.selected.len implies self.selected.cards@[i]
                != self.selected.cards@[j] by {
                if j == n {
                    assert(before.indices()[i] == self.selected.cards@[i]);
                }
            }
        }
    }

    /// The boss's reaction to a played hand of category `hand_type`: the arm lowers
    /// that category's level, the eye vetoes a category already played in this
    /// blind, the mouth vetoes every category but the first one played.
    pub fn hand_played(&mut self, data: &mut RunData, event: &mut HandPlayedEventData)
        requires
            old(self).blind_type.data_fits(old(self).blind_data),
            old(data).wf(),
            old(event).hand.len <= 5,
            forall|i: int|
                0 <= i < old(event).hand.len ==> old(event).hand.cards@[i] < old(data).cards@.len(),
        ensures
            final(self).blind_type.data_fits(final(self).blind_data),
            final(data).wf(),
            final(event).hand == old(event).hand,
            ({
                let h = classify(
                    old(event).hand.indices().map_values(|i: usize| old(data).cards@[i as int]),
                );
                match old(self).blind_type {
                    BlindType::Boss(BossBlindType::TheArm) => {
                        &&& final(event).allowed == old(event).allowed
                        &&& *final(self) == *old(self)
                        &&& final(data).hand_levels@ == old(data).hand_levels@.update(
                            h.index() as int,
                            crate::run::leveled(old(data).hand_levels@[h.index() as int], -1),
                        )
                        &&& (RunData { hand_levels: final(data).hand_levels, ..*old(data) }) == *final(data)
                    },
                    BlindType::Boss(BossBlindType::TheEye) => {
                        let played = match old(self).blind_data {
                            Some(BossBlindData::TheEye { was_already_played }) => was_already_played@,
                            _ => Seq::empty(),
                        };
                        &&& *final(data) == *old(data)
                        &&& if played[h.index() as int] {
                            &&& !final(event).allowed
                            &&& *final(self) == *old(self)
                        } else {
                            &&& final(event).allowed == old(event).allowed
                            &&& final(self).blind_data matches Some(BossBlindData::TheEye { was_already_played })
                                && was_already_played@ == played.update(h.index() as int, true)
                            &&& (Blind { blind_data: final(self).blind_data, ..*old(self) }) == *final(self)
                        }
                    },
                    BlindType::Boss(BossBlindType::TheMouth) => {
                        let allowed = match old(self).blind_data {
                            Some(BossBlindData::TheMouth { allowed_hand: Some(a) }) => a,
                            _ => h,
                        };
                        &&& *final(data) == *old(data)
                        &&& final(self).blind_data == Some(
                            BossBlindData::TheMouth { allowed_hand: Some(allowed) },
                        )
                        &&& final(event).allowed == (old(event).allowed && h == allowed)
                        &&& (Blind { blind_data: final(self).blind_data, ..*old(self) }) == *final(self)
                    },
                    _ => {
                        &&& *final(self) == *old(self)
                        &&& *final(data) == *old(data)
                        &&& *final(event) == *old(event)
                    },
                }
            }),
    {
        let hand_type = event.hand.resolve(&data.cards).hand_type();
        let i = hand_type.to_index();
        match self.blind_type {
            BlindType::Boss(BossBlindType::TheArm) => {
                data.change_hand_level(hand_type, -1);
            },
            BlindType::Boss(BossBlindType::TheEye) => {
                let flags = match &self.blind_data {
                    Some(BossBlindData::TheEye { was_already_played }) => was_already_played.clone(),
                    _ => Vec::new(),
                };
                assert(flags@.len() == HAND_TYPE_COUNT);
                if flags[i] {
                    event.allowed = false;
                    return;
                }
                let mut flags = flags;
                flags.set(i, true);
                self.blind_data = Some(BossBlindData::TheEye { was_already_played: flags });
            },
            BlindType::Boss(BossBlindType::TheMouth) => {
                let allowed = match &self.blind_data {
                    Some(BossBlindData::TheMouth { allowed_hand: Some(a) }) => *a,
                    _ => hand_type,
                };
                self.blind_data = Some(BossBlindData::TheMouth { allowed_hand: Some(allowed) });
                if hand_type != allowed {
                    event.allowed = false;
                }
            },
            _ => {},
        }
    }
}

/// Every eighth ante (other than ante zero) is a showdown ante.
pub open spec fn showdown_ante(ante: i32) -> bool {
    ante % 8 == 0 && ante != 0
}

/// Showdown bosses are the last five boss positions.
pub open spec fn is_showdown(b: BossBlindType) -> bool {
    b.index() >= 23
}

impl RunData {
    /// Boss `b` belongs to this ante's pool and its minimum ante has been reached.
    pub open spec fn boss_gated_in(self, b: BossBlindType) -> bool {
        is_showdown(b) == showdown_ante(self.ante) && b.min_ante_of() <= self.ante
    }

    /// A boss may be assigned this ante: it passes the ante gate and no boss that
    /// passes it was used less.
    pub open spec fn boss_eligible(self, b: BossBlindType) -> bool {
        &&& self.boss_gated_in(b)
        &&& forall|b2: BossBlindType| #[trigger] self.boss_gated_in(b2) ==> self.times_boss_used@[b.index() as int]
            <= self.times_boss_used@[b2.index() as int]
    }

    /// The eligible bosses, ordered by game name.
    pub open spec fn boss_candidates(self) -> Seq<BossBlindType> {
        bosses_by_name().filter(|b: BossBlindType| self.boss_eligible(b))
    }

    fn gated_in(&self, b: BossBlindType) -> (r: bool)
        ensures
            r == self.boss_gated_in(b),
    {
        let showdown = self.ante % 8 == 0 && self.ante != 0;
        (b.to_index() >= 23) == showdown && b.min_ante() <= self.ante
    }

    /// Fewest uses among the bosses that pass the ante gate; `None` when none does.
    fn least_used_gated(&self) -> (r: Option<usize>)
        requires
            self.wf(),
        ensures
            r is None <==> !exists|b: BossBlindType| self.boss_gated_in(b),
            r matches Some(m) ==> (exists|b: BossBlindType| self.boss_gated_in(b) && self.times_boss_used@[b.index() as int] == m)
                && forall|b: BossBlindType| #[trigger] self.boss_gated_in(b) ==> m <= self.times_boss_used@[b.index() as int],
    {
        let mut best: Option<usize> = None;
        let mut j: usize = 0;
        while j < BOSS_BLIND_COUNT
            invariant
                j <= BOSS_BLIND_COUNT,
                self.wf(),
                best is None <==> !exists|b: BossBlindType| b.index() < j && self.boss_gated_in(b),
                best matches Some(m) ==> (exists|b: BossBlindType| b.index() < j && self.boss_gated_in(b) && self.times_boss_used@[b.index() as int] == m)
                    && forall|b: BossBlindType| b.index() < j && #[trigger] self.boss_gated_in(b) ==> m <= self.times_boss_used@[b.index() as int],
            decreases BOSS_BLIND_COUNT - j,
        {
            let b = BossBlindType::from_index(j);
            let ghost prev = best;
            if self.gated_in(b) {
                let t = self.times_boss_used[j];
                match best {
                    Some(m) => {
                        if t < m {
                            best = Some(t);
                        }
                    },
                    None => {
                        best = Some(t);
                    },
                }
            }
            proof {
                assert forall|c: BossBlindType| c.index() < j + 1 && c.index() != j implies c.index() < j by {}
                if self.boss_gated_in(b) {
                    assert(b.index() < j + 1 && self.boss_gated_in(b));
                }
                assert forall|c: BossBlindType| c.index() == j implies c == b by {}
            }
            j += 1;
        }
        proof {
            assert forall|c: BossBlindType| c.index() < BOSS_BLIND_COUNT by {}
        }
        best
    }

    /// The bosses that may be assigned this ante, ordered by game name.
    pub fn eligible_bosses(&self) -> (r: Vec<BossBlindType>)
        requires
            self.wf(),
        ensures
            r@ == self.boss_candidates(),
    {
        let least = self.least_used_gated();
        let order = bosses_by_name_vec();
        let mut out: Vec<BossBlindType> = Vec::new();
        let mut i: usize = 0;
        while i < order.len()
            invariant
                i <= order@.len(),
                order@ == bosses_by_name(),
                self.wf(),
                least is None <==> !exists|b: BossBlindType| self.boss_gated_in(b),
                least matches Some(m) ==> (exists|b: BossBlindType| self.boss_gated_in(b) && self.times_boss_used@[b.index() as int] == m)
                    && forall|b: BossBlindType| #[trigger] self.boss_gated_in(b) ==> m <= self.times_boss_used@[b.index() as int],
                out@ == order@.take(i as int).filter(|b: BossBlindType| self.boss_eligible(b)),
            decreases order@.len() - i,
        {
            let b = order[i];
            let ok = match least {
                Some(m) => self.gated_in(b) && self.times_boss_used[b.to_index()] == m,
                None => false,
            };
            proof {
                reveal(Seq::filter);
                assert(order@.take(i + 1).drop_last() =~= order@.take(i as int));
                assert(order@.take(i + 1).last() == b);
                if let Some(m) = least {
                    if self.boss_eligible(b) {
                        let w = choose|w: BossBlindType| self.boss_gated_in(w) && self.times_boss_used@[w.index() as int] == m;
                        assert(self.times_boss_used@[b.index() as int] <= self.times_boss_used@[w.index() as int]);
                    }
                }
            }
            if ok {
                out.push(b);
            }
            i += 1;
        }
        proof {
            assert(order@.take(order@.len() as int) =~= order@);
        }
        out
    }

    /// Assigns candidate `idx` as this ante's boss and counts one more use of it.
    pub fn pick_boss(&mut self, idx: u64) -> (r: BossBlindType)
        requires
            old(self).wf(),
            idx < old(self).boss_candidates().len(),
            forall|b: int| 0 <= b < 28 ==> old(self).times_boss_used@[b] < usize::MAX,
        ensures
            final(self).wf(),
            r == old(self).boss_candidates()[idx as int],
            final(self).times_boss_used@ == old(self).times_boss_used@.update(
                r.index() as int,
                (old(self).times_boss_used@[r.index() as int] + 1) as usize,
            ),
            (RunData { times_boss_used: final(self).times_boss_used, ..*old(self) }) == *final(self),
    {
        let candidates = self.eligible_bosses();
        let boss = candidates[idx as usize];
        let bi = boss.to_index();
        let used = self.times_boss_used[bi];
        self.times_boss_used.set(bi, used + 1);
        boss
    }

    /// Draws this ante's boss on channel `boss`, uniformly among the eligible
    /// bosses ordered by game name, and counts one more use of it; `None`, with
    /// nothing drawn, when no boss of the ante's pool passes the ante gate.
    pub fn current_boss<F: Fn(Vec<u8>, u64, u64) -> u64>(&mut self, counts: &mut Channels<u64>, draw: &F) -> (r: Option<BossBlindType>)
        requires
            old(self).wf(),
            old(counts).wf(),
            draw_source(draw),
            forall|b: int| 0 <= b < 28 ==> old(self).times_boss_used@[b] < usize::MAX,
        ensures
            final(self).wf(),
            final(counts).wf(),
            r is None <==> !exists|b: BossBlindType| old(self).boss_gated_in(b),
            r is None <==> old(self).boss_candidates().len() == 0,
            r is None ==> *final(self) == *old(self) && final(counts).view() == old(counts).view(),
            r matches Some(boss) ==> {
                &&& exists|i: u64|
                    #[trigger] drew(draw, boss_channel(), count_of(old(counts).view(), boss_channel()), old(self).boss_candidates().len() as u64, i)
                    && i < old(self).boss_candidates().len() && boss == old(self).boss_candidates()[i as int]
                &&& final(counts).view() == bumped(old(counts).view(), boss_channel())
                &&& final(self).times_boss_used@ == old(self).times_boss_used@.update(
                    boss.index() as int,
                    (old(self).times_boss_used@[boss.index() as int] + 1) as usize,
                )
                &&& (RunData { times_boss_used: final(self).times_boss_used, ..*old(self) }) == *final(self)
            },
    {
        let candidates = self.eligible_bosses();
        let least = self.least_used_gated();
        proof {
            broadcast use vstd::seq_lib::group_filter_ensures;
            if let Some(m) = least {
                let w = choose|w: BossBlindType| self.boss_gated_in(w) && self.times_boss_used@[w.index() as int] == m;
                assert(self.boss_eligible(w));
                lemma_boss_listed(w);
                assert(bosses_by_name().filter(|b: BossBlindType| self.boss_eligible(b)).contains(w));
            } else {
                if candidates@.len() > 0 {
                    assert(self.boss_eligible(candidates@[0]));
                }
            }
        }
        if candidates.len() == 0 {
            return None;
        }
        let key: Vec<u8> = vec![98u8, 111, 115, 115];
        proof {
            assert(key@ == boss_channel());
        }
        let n = candidates.len() as u64;
        let idx = draw_counted(counts, key, n, draw);
        Some(self.pick_boss(idx))
    }
}

/// Every boss appears in the by-name order.
proof fn lemma_boss_listed(b: BossBlindType)
    ensures
        bosses_by_name().contains(b),
{
    match b {
        BossBlindType::TheArm => assert(bosses_by_name()[0] == b),
        BossBlindType::TheClub => assert(bosses_by_name()[1] == b),
        BossBlindType::TheEye => assert(bosses_by_name()[2] == b),
        BossBlindType::AmberAcorn => assert(bosses_by_name()[3] == b),
        BossBlindType::CeruleanBell => assert(bosses_by_name()[4] == b),
        BossBlindType::CrimsonHeart => assert(bosses_by_name()[5] == b),
        BossBlindType::VerdantLeaf => assert(bosses_by_name()[6] == b),
        BossBlindType::VioletVessel => assert(bosses_by_name()[7] == b),
        BossBlindType::TheFish => assert(bosses_by_name()[8] == b),
        BossBlindType::TheFlint => assert(bosses_by_name()[9] == b),
        BossBlindType::TheGoad => assert(bosses_by_name()[10] == b),
        BossBlindType::TheHead => assert(bosses_by_name()[11] == b),
        BossBlindType::TheHook => assert(bosses_by_name()[12] == b),
        BossBlindType::TheHouse => assert(bosses_by_name()[13] == b),
        BossBlindType::TheManacle => assert(bosses_by_name()[14] == b),
        BossBlindType::TheMark => assert(bosses_by_name()[15] == b),
        BossBlindType::TheMouth => assert(bosses_by_name()[16] == b),
        BossBlindType::TheNeedle => assert(bosses_by_name()[17] == b),
        BossBlindType::TheOx => assert(bosses_by_name()[18] == b),
        BossBlindType::ThePillar => assert(bosses_by_name()[19] == b),
        BossBlindType::ThePlant => assert(bosses_by_name()[20] == b),
        BossBlindType::ThePsychic => assert(bosses_by_name()[21] == b),
        BossBlindType::TheSerpent => assert(bosses_by_name()[22] == b),
        BossBlindType::TheTooth => assert(bosses_by_name()[23] == b),
        BossBlindType::TheWall => assert(bosses_by_name()[24] == b),
        BossBlindType::TheWater => assert(bosses_by_name()[25] == b),
        BossBlindType::TheWheel => assert(bosses_by_name()[26] == b),
        BossBlindType::TheWindow => assert(bosses_by_name()[27] == b),
    }
}

/// `a` comes before `b` in the order of their characters.
pub open spec fn name_before(a: Seq<char>, b: Seq<char>) -> bool
    decreases a.len(),
{
    if a.len() == 0 {
        b.len() > 0
    } else if b.len() == 0 {
        false
    } else if a[0] != b[0] {
        (a[0] as u32) < (b[0] as u32)
    } else {
        name_before(a.subrange(1, a.len() as int), b.subrange(1, b.len() as int))
    }
}

/// The by-name order lists the bosses with their game names strictly ascending.
pub proof fn lemma_bosses_by_name_ascend()
    ensures
        forall|i: int| 0 <= i < 27 ==> name_before(
            #[trigger] bosses_by_name()[i].name_of()@,
            bosses_by_name()[i + 1].name_of()@,
        ),
{
    reveal_with_fuel(name_before, 12);
    assert(name_before(bosses_by_name()[0].name_of()@, bosses_by_name()[1].name_of()@)) by {
        reveal_strlit("bl_arm");
        reveal_strlit("bl_club");
    }
    assert(name_before(bosses_by_name()[1].name_of()@, bosses_by_name()[2].name_of()@)) by {
        reveal_strlit("bl_club");
        reveal_strlit("bl_eye");
    }
    assert(name_before(bosses_by_name()[2].name_of()@, bosses_by_name()[3].name_of()@)) by {
        reveal_strlit("bl_eye");
        reveal_strlit("bl_final_acorn");
    }
    assert(name_before(bosses_by_name()[3].name_of()@, bosses_by_name()[4].name_of()@)) by {
        reveal_strlit("bl_final_acorn");
        reveal_strlit("bl_final_bell");
    }
    assert(name_before(bosses_by_name()[4].name_of()@, bosses_by_name()[5].name_of()@)) by {
        reveal_strlit("bl_final_bell");
        reveal_strlit("bl_final_heart");
    }
    assert(name_before(bosses_by_name()[5].name_of()@, bosses_by_name()[6].name_of()@)) by {
        reveal_strlit("bl_final_heart");
        reveal_strlit("bl_final_leaf");
    }
    assert(name_before(bosses_by_name()[6].name_of()@, bosses_by_name()[7].name_of()@)) by {
        reveal_strlit("bl_final_leaf");
        reveal_strlit("bl_final_vessel");
    }
    assert(name_before(bosses_by_name()[7].name_of()@, bosses_by_name()[8].name_of()@)) by {
        reveal_strlit("bl_final_vessel");
        reveal_strlit("bl_fish");
    }
    assert(name_before(bosses_by_name()[8].name_of()@, bosses_by_name()[9].name_of()@)) by {
        reveal_strlit("bl_fish");
        reveal_strlit("bl_flint");
    }
    assert(name_before(bosses_by_name()[9].name_of()@, bosses_by_name()[10].name_of()@)) by {
        reveal_strlit("bl_flint");
        reveal_strlit("bl_goad");
    }
    assert(name_before(bosses_by_name()[10].name_of()@, bosses_by_name()[11].name_of()@)) by {
        reveal_strlit("bl_goad");
        reveal_strlit("bl_head");
    }
    assert(name_before(bosses_by_name()[11].name_of()@, bosses_by_name()[12].name_of()@)) by {
        reveal_strlit("bl_head");
        reveal_strlit("bl_hook");
    }
    assert(name_before(bosses_by_name()[12].name_of()@, bosses_by_name()[13].name_of()@)) by {
        reveal_strlit("bl_hook");
        reveal_strlit("bl_house");
    }
    assert(name_before(bosses_by_name()[13].name_of()@, bosses_by_name()[14].name_of()@)) by {
        reveal_strlit("bl_house");
        reveal_strlit("bl_manacle");
    }
    assert(name_before(bosses_by_name()[14].name_of()@, bosses_by_name()[15].name_of()@)) by {
        reveal_strlit("bl_manacle");
        reveal_strlit("bl_mark");
    }
    assert(name_before(bosses_by_name()[15].name_of()@, bosses_by_name()[16].name_of()@)) by {
        reveal_strlit("bl_mark");
        reveal_strlit("bl_mouth");
    }
    assert(name_before(bosses_by_name()[16].name_of()@, bosses_by_name()[17].name_of()@)) by {
        reveal_strlit("bl_mouth");
        reveal_strlit("bl_needle");
    }
    assert(name_before(bosses_by_name()[17].name_of()@, bosses_by_name()[18].name_of()@)) by {
        reveal_strlit("bl_needle");
        reveal_strlit("bl_ox");
    }
    assert(name_before(bosses_by_name()[18].name_of()@, bosses_by_name()[19].name_of()@)) by {
        reveal_strlit("bl_ox");
        reveal_strlit("bl_pillar");
    }
    assert(name_before(bosses_by_name()[19].name_of()@, bosses_by_name()[20].name_of()@)) by {
        reveal_strlit("bl_pillar");
        reveal_strlit("bl_planet");
    }
    assert(name_before(bosses_by_name()[20].name_of()@, bosses_by_name()[21].name_of()@)) by {
        reveal_strlit("bl_planet");
        reveal_strlit("bl_psychic");
    }
    assert(name_before(bosses_by_name()[21].name_of()@, bosses_by_name()[22].name_of()@)) by {
        reveal_strlit("bl_psychic");
        reveal_strlit("bl_serpent");
    }
    assert(name_before(bosses_by_name()[22].name_of()@, bosses_by_name()[23].name_of()@)) by {
        reveal_strlit("bl_serpent");
        reveal_strlit("bl_tooth");
    }
    assert(name_before(bosses_by_name()[23].name_of()@, bosses_by_name()[24].name_of()@)) by {
        reveal_strlit("bl_tooth");
        reveal_strlit("bl_wall");
    }
    assert(name_before(bosses_by_name()[24].name_of()@, bosses_by_name()[25].name_of()@)) by {
        reveal_strlit("bl_wall");
        reveal_strlit("bl_water");
    }
    assert(name_before(bosses_by_name()[25].name_of()@, bosses_by_name()[26].name_of()@)) by {
        reveal_strlit("bl_water");
        reveal_strlit("bl_wheel");
    }
    assert(name_before(bosses_by_name()[26].name_of()@, bosses_by_name()[27].name_of()@)) by {
        reveal_strlit("bl_wheel");
        reveal_strlit("bl_window");
    }
}

/// Channel of the boss draw: `boss`.
pub open spec fn boss_channel() -> Seq<u8> {
    seq![98u8, 111, 115, 115]
}

/// Removing cards from a hand keeps every remaining card among the old ones, so
/// a bound on the old hand still holds.
pub proof fn lemma_without_bounded(held: Seq<usize>, sel: Seq<usize>, n: nat)
    requires
        forall|i: int| 0 <= i < held.len() ==> (#[trigger] held[i]) < n,
    ensures
        forall|i: int| 0 <= i < without(held, sel).len() ==> (#[trigger] without(held, sel)[i]) < n,
    decreases held.len(),
{
    reveal(Seq::filter);
    if held.len() > 0 {
        let rest = held.drop_last();
        assert forall|i: int| 0 <= i < rest.len() implies (#[trigger] rest[i]) < n by {
            assert(rest[i] == held[i]);
        }
        lemma_without_bounded(rest, sel, n);
        let w = without(held, sel);
        let wr = without(rest, sel);
        assert(w == if !sel.contains(held.last()) {
            wr.push(held.last())
        } else {
            wr
        });
        assert(held.last() == held[held.len() - 1]);
        assert forall|i: int| 0 <= i < w.len() implies (#[trigger] w[i]) < n by {
            if i < wr.len() {
                assert(w[i] == wr[i]);
            }
        }
    }
}

} // verus!
