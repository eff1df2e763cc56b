//! Jokers: identities, stickers, internal state, and the effects they apply.

use crate::blind::{Blind, HandPlayedEventData};
use crate::card::{Card, MultiSuit};
use crate::event::DispatcherOrder;
use crate::hands::{holds, HandType, HAND_TYPE_COUNT};
use crate::run::RunData;
use vstd::prelude::*;

verus! {

/// Identity of a joker.
#[derive(Debug, Clone, Copy, PartialEq, Eq, Hash, Structural)]
pub enum JokerType {
    Joker,
    GreedyJoker,
    LustyJoker,
    WrathfulJoker,
    GluttonousJoker,
    JollyJoker,
    ZanyJoker,
    MadJoker,
    CrazyJoker,
    DrollJoker,
    SlyJoker,
    WilyJoker,
    CleverJoker,
    DeviousJoker,
    CraftyJoker,
    HalfJoker,
    JokerStencil,
    FourFingers,
    Mime,
    CreditCard,
    CeremonialDagger,
    Banner,
    MysticSummit,
    MarbleJoker,
    LoyaltyCard,
    EightBall,
    Misprint,
    Dusk,
    RaisedFist,
    ChaosTheClown,
    Fibonacci,
    SteelJoker,
    ScaryFace,
    AbstractJoker,
    DelayedGratification,
    Hack,
    Pareidolia,
    GrosMichel,
    EvenSteven,
    OddTodd,
    Scholar,
    BusinessCard,
    Supernova,
    RideTheBus,
    SpaceJoker,
    Egg,
    Burglar,
    Blackboard,
    Runner,
    IceCream,
    DNA,
    Splash,
    BlueJoker,
    SixthSense,
    Constellation,
    Hiker,
    FacelessJoker,
    GreenJoker,
    Superposition,
    ToDoList,
    Cavendish,
    CardSharp,
    RedCard,
    Madness,
    SquareJoker,
    Seance,
    RiffRaff,
    Vampire,
    Shortcut,
    Hologram,
    Vagabond,
    Baron,
    Cloud9,
    Rocket,
    Obelisk,
    MidasMask,
    Luchador,
    Photograph,
    GiftCard,
    TurtleBean,
    Erosion,
    ReservedParking,
    MailInRebate,
    ToTheMoon,
    Hallucination,
    FortuneTeller,
    Juggler,
    Drunkard,
    StoneJoker,
    GoldenJoker,
    LuckyCat,
    BaseballCard,
    Bull,
    DietCola,
    TradingCard,
    FlashCard,
    Popcorn,
    SpareTrousers,
    AncientJoker,
    Ramen,
    WalkieTalkie,
    Seltzer,
    Castle,
    SmileyFace,
    Campfire,
    GoldenTicket,
    MrBones,
    Acrobat,
    SockAndBuskin,
    Swashbuckler,
    Troubadour,
    Certificate,
    SmearedJoker,
    Throwback,
    HangingChad,
    RoughGem,
    Bloodstone,
    Arrowhead,
    OnyxAgate,
    GlassJoker,
    Showman,
    FlowerPot,
    Blueprint,
    WeeJoker,
    MerryAndy,
    OopsAll6s,
    TheIdol,
    SeeingDouble,
    Matador,
    HitTheRoad,
    TheDuo,
    TheTrio,
    TheFamily,
    TheOrder,
    TheTribe,
    Stuntman,
    InvisibleJoker,
    Brainstorm,
    Satellite,
    ShootTheMoon,
    DriversLicense,
    Cartomancer,
    Astronomer,
    BurntJoker,
    Bootstraps,
    Canio,
    Triboulet,
    Yorick,
    Chicot,
    Perkeo,
}

/// Number of variants of [`JokerType`].
pub const JOKER_TYPE_COUNT: usize = 150;

impl JokerType {
    /// The position of the variant in declaration order.
    pub open spec fn index(self) -> nat {
        match self {
            JokerType::Joker => 0,
            JokerType::GreedyJoker => 1,
            JokerType::LustyJoker => 2,
            JokerType::WrathfulJoker => 3,
            JokerType::GluttonousJoker => 4,
            JokerType::JollyJoker => 5,
            JokerType::ZanyJoker => 6,
            JokerType::MadJoker => 7,
            JokerType::CrazyJoker => 8,
            JokerType::DrollJoker => 9,
            JokerType::SlyJoker => 10,
            JokerType::WilyJoker => 11,
            JokerType::CleverJoker => 12,
            JokerType::DeviousJoker => 13,
            JokerType::CraftyJoker => 14,
            JokerType::HalfJoker => 15,
            JokerType::JokerStencil => 16,
            JokerType::FourFingers => 17,
            JokerType::Mime => 18,
            JokerType::CreditCard => 19,
            JokerType::CeremonialDagger => 20,
            JokerType::Banner => 21,
            JokerType::MysticSummit => 22,
            JokerType::MarbleJoker => 23,
            JokerType::LoyaltyCard => 24,
            JokerType::EightBall => 25,
            JokerType::Misprint => 26,
            JokerType::Dusk => 27,
            JokerType::RaisedFist => 28,
            JokerType::ChaosTheClown => 29,
            JokerType::Fibonacci => 30,
            JokerType::SteelJoker => 31,
            JokerType::ScaryFace => 32,
            JokerType::AbstractJoker => 33,
            JokerType::DelayedGratification => 34,
            JokerType::Hack => 35,
            JokerType::Pareidolia => 36,
            JokerType::GrosMichel => 37,
            JokerType::EvenSteven => 38,
            JokerType::OddTodd => 39,
            JokerType::Scholar => 40,
            JokerType::BusinessCard => 41,
            JokerType::Supernova => 42,
            JokerType::RideTheBus => 43,
            JokerType::SpaceJoker => 44,
            JokerType::Egg => 45,
            JokerType::Burglar => 46,
            JokerType::Blackboard => 47,
            JokerType::Runner => 48,
            JokerType::IceCream => 49,
            JokerType::DNA => 50,
            JokerType::Splash => 51,
            JokerType::BlueJoker => 52,
            JokerType::SixthSense => 53,
            JokerType::Constellation => 54,
            JokerType::Hiker => 55,
            JokerType::FacelessJoker => 56,
            JokerType::GreenJoker => 57,
            JokerType::Superposition => 58,
            JokerType::ToDoList => 59,
            JokerType::Cavendish => 60,
            JokerType::CardSharp => 61,
            JokerType::RedCard => 62,
            JokerType::Madness => 63,
            JokerType::SquareJoker => 64,
            JokerType::Seance => 65,
            JokerType::RiffRaff => 66,
            JokerType::Vampire => 67,
            JokerType::Shortcut => 68,
            JokerType::Hologram => 69,
            JokerType::Vagabond => 70,
            JokerType::Baron => 71,
            JokerType::Cloud9 => 72,
            JokerType::Rocket => 73,
            JokerType::Obelisk => 74,
            JokerType::MidasMask => 75,
            JokerType::Luchador => 76,
            JokerType::Photograph => 77,
            JokerType::GiftCard => 78,
            JokerType::TurtleBean => 79,
            JokerType::Erosion => 80,
            JokerType::ReservedParking => 81,
            JokerType::MailInRebate => 82,
            JokerType::ToTheMoon => 83,
            JokerType::Hallucination => 84,
            JokerType::FortuneTeller => 85,
            JokerType::Juggler => 86,
            JokerType::Drunkard => 87,
            JokerType::StoneJoker => 88,
            JokerType::GoldenJoker => 89,
            JokerType::LuckyCat => 90,
            JokerType::BaseballCard => 91,
            JokerType::Bull => 92,
            JokerType::DietCola => 93,
            JokerType::TradingCard => 94,
            JokerType::FlashCard => 95,
            JokerType::Popcorn => 96,
            JokerType::SpareTrousers => 97,
            JokerType::AncientJoker => 98,
            JokerType::Ramen => 99,
            JokerType::WalkieTalkie => 100,
            JokerType::Seltzer => 101,
            JokerType::Castle => 102,
            JokerType::SmileyFace => 103,
            JokerType::Campfire => 104,
            JokerType::GoldenTicket => 105,
            JokerType::MrBones => 106,
            JokerType::Acrobat => 107,
            JokerType::SockAndBuskin => 108,
            JokerType::Swashbuckler => 109,
            JokerType::Troubadour => 110,
            JokerType::Certificate => 111,
            JokerType::SmearedJoker => 112,
            JokerType::Throwback => 113,
            JokerType::HangingChad => 114,
            JokerType::RoughGem => 115,
            JokerType::Bloodstone => 116,
            JokerType::Arrowhead => 117,
            JokerType::OnyxAgate => 118,
            JokerType::GlassJoker => 119,
            JokerType::Showman => 120,
            JokerType::FlowerPot => 121,
            JokerType::Blueprint => 122,
            JokerType::WeeJoker => 123,
            JokerType::MerryAndy => 124,
            JokerType::OopsAll6s => 125,
            JokerType::TheIdol => 126,
            JokerType::SeeingDouble => 127,
            JokerType::Matador => 128,
            JokerType::HitTheRoad => 129,
            JokerType::TheDuo => 130,
            JokerType::TheTrio => 131,
            JokerType::TheFamily => 132,
            JokerType::TheOrder => 133,
            JokerType::TheTribe => 134,
            JokerType::Stuntman => 135,
            JokerType::InvisibleJoker => 136,
            JokerType::Brainstorm => 137,
            JokerType::Satellite => 138,
            JokerType::ShootTheMoon => 139,
            JokerType::DriversLicense => 140,
            JokerType::Cartomancer => 141,
            JokerType::Astronomer => 142,
            JokerType::BurntJoker => 143,
            JokerType::Bootstraps => 144,
            JokerType::Canio => 145,
            JokerType::Triboulet => 146,
            JokerType::Yorick => 147,
            JokerType::Chicot => 148,
            JokerType::Perkeo => 149,
        }
    }

    /// The position of the variant in declaration order, as a `usize`.
    pub fn to_index(&self) -> (r: usize)
        ensures
            r == self.index(),
            r < 150,
    {
        match self {
            JokerType::Joker => 0,
            JokerType::GreedyJoker => 1,
            JokerType::LustyJoker => 2,
            JokerType::WrathfulJoker => 3,
            JokerType::GluttonousJoker => 4,
            JokerType::JollyJoker => 5,
            JokerType::ZanyJoker => 6,
            JokerType::MadJoker => 7,
            JokerType::CrazyJoker => 8,
            JokerType::DrollJoker => 9,
            JokerType::SlyJoker => 10,
            JokerType::WilyJoker => 11,
            JokerType::CleverJoker => 12,
            JokerType::DeviousJoker => 13,
            JokerType::CraftyJoker => 14,
            JokerType::HalfJoker => 15,
            JokerType::JokerStencil => 16,
            JokerType::FourFingers => 17,
            JokerType::Mime => 18,
            JokerType::CreditCard => 19,
            JokerType::CeremonialDagger => 20,
            JokerType::Banner => 21,
            JokerType::MysticSummit => 22,
            JokerType::MarbleJoker => 23,
            JokerType::LoyaltyCard => 24,
            JokerType::EightBall => 25,
            JokerType::Misprint => 26,
            JokerType::Dusk => 27,
            JokerType::RaisedFist => 28,
            JokerType::ChaosTheClown => 29,
            JokerType::Fibonacci => 30,
            JokerType::SteelJoker => 31,
            JokerType::ScaryFace => 32,
            JokerType::AbstractJoker => 33,
            JokerType::DelayedGratification => 34,
            JokerType::Hack => 35,
            JokerType::Pareidolia => 36,
            JokerType::GrosMichel => 37,
            JokerType::EvenSteven => 38,
            JokerType::OddTodd => 39,
            JokerType::Scholar => 40,
            JokerType::BusinessCard => 41,
            JokerType::Supernova => 42,
            JokerType::RideTheBus => 43,
            JokerType::SpaceJoker => 44,
            JokerType::Egg => 45,
            JokerType::Burglar => 46,
            JokerType::Blackboard => 47,
            JokerType::Runner => 48,
            JokerType::IceCream => 49,
            JokerType::DNA => 50,
            JokerType::Splash => 51,
            JokerType::BlueJoker => 52,
            JokerType::SixthSense => 53,
            JokerType::Constellation => 54,
            JokerType::Hiker => 55,
            JokerType::FacelessJoker => 56,
            JokerType::GreenJoker => 57,
            JokerType::Superposition => 58,
            JokerType::ToDoList => 59,
            JokerType::Cavendish => 60,
            JokerType::CardSharp => 61,
            JokerType::RedCard => 62,
            JokerType::Madness => 63,
            JokerType::SquareJoker => 64,
            JokerType::Seance => 65,
            JokerType::RiffRaff => 66,
            JokerType::Vampire => 67,
            JokerType::Shortcut => 68,
            JokerType::Hologram => 69,
            JokerType::Vagabond => 70,
            JokerType::Baron => 71,
            JokerType::Cloud9 => 72,
            JokerType::Rocket => 73,
            JokerType::Obelisk => 74,
            JokerType::MidasMask => 75,
            JokerType::Luchador => 76,
            JokerType::Photograph => 77,
            JokerType::GiftCard => 78,
            JokerType::TurtleBean => 79,
            JokerType::Erosion => 80,
            JokerType::ReservedParking => 81,
            JokerType::MailInRebate => 82,
            JokerType::ToTheMoon => 83,
            JokerType::Hallucination => 84,
            JokerType::FortuneTeller => 85,
            JokerType::Juggler => 86,
            JokerType::Drunkard => 87,
            JokerType::StoneJoker => 88,
            JokerType::GoldenJoker => 89,
            JokerType::LuckyCat => 90,
            JokerType::BaseballCard => 91,
            JokerType::Bull => 92,
            JokerType::DietCola => 93,
            JokerType::TradingCard => 94,
            JokerType::FlashCard => 95,
            JokerType::Popcorn => 96,
            JokerType::SpareTrousers => 97,
            JokerType::AncientJoker => 98,
            JokerType::Ramen => 99,
            JokerType::WalkieTalkie => 100,
            JokerType::Seltzer => 101,
            JokerType::Castle => 102,
            JokerType::SmileyFace => 103,
            JokerType::Campfire => 104,
            JokerType::GoldenTicket => 105,
            JokerType::MrBones => 106,
            JokerType::Acrobat => 107,
            JokerType::SockAndBuskin => 108,
            JokerType::Swashbuckler => 109,
            JokerType::Troubadour => 110,
            JokerType::Certificate => 111,
            JokerType::SmearedJoker => 112,
            JokerType::Throwback => 113,
            JokerType::HangingChad => 114,
            JokerType::RoughGem => 115,
            JokerType::Bloodstone => 116,
            JokerType::Arrowhead => 117,
            JokerType::OnyxAgate => 118,
            JokerType::GlassJoker => 119,
            JokerType::Showman => 120,
            JokerType::FlowerPot => 121,
            JokerType::Blueprint => 122,
            JokerType::WeeJoker => 123,
            JokerType::MerryAndy => 124,
            JokerType::OopsAll6s => 125,
            JokerType::TheIdol => 126,
            JokerType::SeeingDouble => 127,
            JokerType::Matador => 128,
            JokerType::HitTheRoad => 129,
            JokerType::TheDuo => 130,
            JokerType::TheTrio => 131,
            JokerType::TheFamily => 132,
            JokerType::TheOrder => 133,
            JokerType::TheTribe => 134,
            JokerType::Stuntman => 135,
            JokerType::InvisibleJoker => 136,
            JokerType::Brainstorm => 137,
            JokerType::Satellite => 138,
            JokerType::ShootTheMoon => 139,
            JokerType::DriversLicense => 140,
            JokerType::Cartomancer => 141,
            JokerType::Astronomer => 142,
            JokerType::BurntJoker => 143,
            JokerType::Bootstraps => 144,
            JokerType::Canio => 145,
            JokerType::Triboulet => 146,
            JokerType::Yorick => 147,
            JokerType::Chicot => 148,
            JokerType::Perkeo => 149,
        }
    }

    /// The variant at position `i` in declaration order.
    pub fn from_index(i: usize) -> (r: JokerType)
        requires
            i < 150,
        ensures
            r.index() == i,
    {
        match i {
            0 => JokerType::Joker,
            1 => JokerType::GreedyJoker,
            2 => JokerType::LustyJoker,
            3 => JokerType::WrathfulJoker,
            4 => JokerType::GluttonousJoker,
            5 => JokerType::JollyJoker,
            6 => JokerType::ZanyJoker,
            7 => JokerType::MadJoker,
            8 => JokerType::CrazyJoker,
            9 => JokerType::DrollJoker,
            10 => JokerType::SlyJoker,
            11 => JokerType::WilyJoker,
            12 => JokerType::CleverJoker,
            13 => JokerType::DeviousJoker,
            14 => JokerType::CraftyJoker,
            15 => JokerType::HalfJoker,
            16 => JokerType::JokerStencil,
            17 => JokerType::FourFingers,
            18 => JokerType::Mime,
            19 => JokerType::CreditCard,
            20 => JokerType::CeremonialDagger,
            21 => JokerType::Banner,
            22 => JokerType::MysticSummit,
            23 => JokerType::MarbleJoker,
            24 => JokerType::LoyaltyCard,
            25 => JokerType::EightBall,
            26 => JokerType::Misprint,
            27 => JokerType::Dusk,
            28 => JokerType::RaisedFist,
            29 => JokerType::ChaosTheClown,
            30 => JokerType::Fibonacci,
            31 => JokerType::SteelJoker,
            32 => JokerType::ScaryFace,
            33 => JokerType::AbstractJoker,
            34 => JokerType::DelayedGratification,
            35 => JokerType::Hack,
            36 => JokerType::Pareidolia,
            37 => JokerType::GrosMichel,
            38 => JokerType::EvenSteven,
            39 => JokerType::OddTodd,
            40 => JokerType::Scholar,
            41 => JokerType::BusinessCard,
            42 => JokerType::Supernova,
            43 => JokerType::RideTheBus,
            44 => JokerType::SpaceJoker,
            45 => JokerType::Egg,
            46 => JokerType::Burglar,
            47 => JokerType::Blackboard,
            48 => JokerType::Runner,
            49 => JokerType::IceCream,
            50 => JokerType::DNA,
            51 => JokerType::Splash,
            52 => JokerType::BlueJoker,
            53 => JokerType::SixthSense,
            54 => JokerType::Constellation,
            55 => JokerType::Hiker,
            56 => JokerType::FacelessJoker,
            57 => JokerType::GreenJoker,
            58 => JokerType::Superposition,
            59 => JokerType::ToDoList,
            60 => JokerType::Cavendish,
            61 => JokerType::CardSharp,
            62 => JokerType::RedCard,
            63 => JokerType::Madness,
            64 => JokerType::SquareJoker,
            65 => JokerType::Seance,
            66 => JokerType::RiffRaff,
            67 => JokerType::Vampire,
            68 => JokerType::Shortcut,
            69 => JokerType::Hologram,
            70 => JokerType::Vagabond,
            71 => JokerType::Baron,
            72 => JokerType::Cloud9,
            73 => JokerType::Rocket,
            74 => JokerType::Obelisk,
            75 => JokerType::MidasMask,
            76 => JokerType::Luchador,
            77 => JokerType::Photograph,
            78 => JokerType::GiftCard,
            79 => JokerType::TurtleBean,
            80 => JokerType::Erosion,
            81 => JokerType::ReservedParking,
            82 => JokerType::MailInRebate,
            83 => JokerType::ToTheMoon,
            84 => JokerType::Hallucination,
            85 => JokerType::FortuneTeller,
            86 => JokerType::Juggler,
            87 => JokerType::Drunkard,
            88 => JokerType::StoneJoker,
            89 => JokerType::GoldenJoker,
            90 => JokerType::LuckyCat,
            91 => JokerType::BaseballCard,
            92 => JokerType::Bull,
            93 => JokerType::DietCola,
            94 => JokerType::TradingCard,
            95 => JokerType::FlashCard,
            96 => JokerType::Popcorn,
            97 => JokerType::SpareTrousers,
            98 => JokerType::AncientJoker,
            99 => JokerType::Ramen,
            100 => JokerType::WalkieTalkie,
            101 => JokerType::Seltzer,
            102 => JokerType::Castle,
            103 => JokerType::SmileyFace,
            104 => JokerType::Campfire,
            105 => JokerType::GoldenTicket,
            106 => JokerType::MrBones,
            107 => JokerType::Acrobat,
            108 => JokerType::SockAndBuskin,
            109 => JokerType::Swashbuckler,
            110 => JokerType::Troubadour,
            111 => JokerType::Certificate,
            112 => JokerType::SmearedJoker,
            113 => JokerType::Throwback,
            114 => JokerType::HangingChad,
            115 => JokerType::RoughGem,
            116 => JokerType::Bloodstone,
            117 => JokerType::Arrowhead,
            118 => JokerType::OnyxAgate,
            119 => JokerType::GlassJoker,
            120 => JokerType::Showman,
            121 => JokerType::FlowerPot,
            122 => JokerType::Blueprint,
            123 => JokerType::WeeJoker,
            124 => JokerType::MerryAndy,
            125 => JokerType::OopsAll6s,
            126 => JokerType::TheIdol,
            127 => JokerType::SeeingDouble,
            128 => JokerType::Matador,
            129 => JokerType::HitTheRoad,
            130 => JokerType::TheDuo,
            131 => JokerType::TheTrio,
            132 => JokerType::TheFamily,
            133 => JokerType::TheOrder,
            134 => JokerType::TheTribe,
            135 => JokerType::Stuntman,
            136 => JokerType::InvisibleJoker,
            137 => JokerType::Brainstorm,
            138 => JokerType::Satellite,
            139 => JokerType::ShootTheMoon,
            140 => JokerType::DriversLicense,
            141 => JokerType::Cartomancer,
            142 => JokerType::Astronomer,
            143 => JokerType::BurntJoker,
            144 => JokerType::Bootstraps,
            145 => JokerType::Canio,
            146 => JokerType::Triboulet,
            147 => JokerType::Yorick,
            148 => JokerType::Chicot,
            _ => JokerType::Perkeo,
        }
    }
}
/// Jokers of common rarity, in pool order.
pub open spec fn common_jokers() -> Seq<JokerType> {
    seq![
        JokerType::Joker,
        JokerType::GreedyJoker,
        JokerType::LustyJoker,
        JokerType::WrathfulJoker,
        JokerType::GluttonousJoker,
        JokerType::JollyJoker,
        JokerType::ZanyJoker,
        JokerType::MadJoker,
        JokerType::CrazyJoker,
        JokerType::DrollJoker,
        JokerType::SlyJoker,
        JokerType::WilyJoker,
        JokerType::CleverJoker,
        JokerType::DeviousJoker,
        JokerType::CraftyJoker,
        JokerType::HalfJoker,
        JokerType::CreditCard,
        JokerType::Banner,
        JokerType::MysticSummit,
        JokerType::EightBall,
        JokerType::Misprint,
        JokerType::RaisedFist,
        JokerType::ChaosTheClown,
        JokerType::ScaryFace,
        JokerType::AbstractJoker,
        JokerType::DelayedGratification,
        JokerType::GrosMichel,
        JokerType::EvenSteven,
        JokerType::OddTodd,
        JokerType::Scholar,
        JokerType::BusinessCard,
        JokerType::Supernova,
        JokerType::RideTheBus,
        JokerType::Egg,
        JokerType::Runner,
        JokerType::IceCream,
        JokerType::Splash,
        JokerType::BlueJoker,
        JokerType::FacelessJoker,
        JokerType::GreenJoker,
        JokerType::Superposition,
        JokerType::ToDoList,
        JokerType::Cavendish,
        JokerType::RedCard,
        JokerType::SquareJoker,
        JokerType::RiffRaff,
        JokerType::Photograph,
        JokerType::ReservedParking,
        JokerType::MailInRebate,
        JokerType::Hallucination,
        JokerType::FortuneTeller,
        JokerType::Juggler,
        JokerType::Drunkard,
        JokerType::GoldenJoker,
        JokerType::Popcorn,
        JokerType::WalkieTalkie,
        JokerType::SmileyFace,
        JokerType::GoldenTicket,
        JokerType::Swashbuckler,
        JokerType::HangingChad,
        JokerType::ShootTheMoon,
    ]
}

/// The list of [`common_jokers`] as a vector.
pub fn common_jokers_vec() -> (r: Vec<JokerType>)
    ensures
        r@ == common_jokers(),
{
    vec![
        JokerType::Joker,
        JokerType::GreedyJoker,
        JokerType::LustyJoker,
        JokerType::WrathfulJoker,
        JokerType::GluttonousJoker,
        JokerType::JollyJoker,
        JokerType::ZanyJoker,
        JokerType::MadJoker,
        JokerType::CrazyJoker,
        JokerType::DrollJoker,
        JokerType::SlyJoker,
        JokerType::WilyJoker,
        JokerType::CleverJoker,
        JokerType::DeviousJoker,
        JokerType::CraftyJoker,
        JokerType::HalfJoker,
        JokerType::CreditCard,
        JokerType::Banner,
        JokerType::MysticSummit,
        JokerType::EightBall,
        JokerType::Misprint,
        JokerType::RaisedFist,
        JokerType::ChaosTheClown,
        JokerType::ScaryFace,
        JokerType::AbstractJoker,
        JokerType::DelayedGratification,
        JokerType::GrosMichel,
        JokerType::EvenSteven,
        JokerType::OddTodd,
        JokerType::Scholar,
        JokerType::BusinessCard,
        JokerType::Supernova,
        JokerType::RideTheBus,
        JokerType::Egg,
        JokerType::Runner,
        JokerType::IceCream,
        JokerType::Splash,
        JokerType::BlueJoker,
        JokerType::FacelessJoker,
        JokerType::GreenJoker,
        JokerType::Superposition,
        JokerType::ToDoList,
        JokerType::Cavendish,
        JokerType::RedCard,
        JokerType::SquareJoker,
        JokerType::RiffRaff,
        JokerType::Photograph,
        JokerType::ReservedParking,
        JokerType::MailInRebate,
        JokerType::Hallucination,
        JokerType::FortuneTeller,
        JokerType::Juggler,
        JokerType::Drunkard,
        JokerType::GoldenJoker,
        JokerType::Popcorn,
        JokerType::WalkieTalkie,
        JokerType::SmileyFace,
        JokerType::GoldenTicket,
        JokerType::Swashbuckler,
        JokerType::HangingChad,
        JokerType::ShootTheMoon,
    ]
}

/// Jokers of uncommon rarity, in pool order.
pub open spec fn uncommon_jokers() -> Seq<JokerType> {
    seq![
        JokerType::JokerStencil,
        JokerType::FourFingers,
        JokerType::Mime,
        JokerType::CeremonialDagger,
        JokerType::MarbleJoker,
        JokerType::LoyaltyCard,
        JokerType::Dusk,
        JokerType::Fibonacci,
        JokerType::SteelJoker,
        JokerType::Hack,
        JokerType::Pareidolia,
        JokerType::SpaceJoker,
        JokerType::Burglar,
        JokerType::Blackboard,
        JokerType::SixthSense,
        JokerType::Constellation,
        JokerType::Hiker,
        JokerType::CardSharp,
        JokerType::Madness,
        JokerType::Seance,
        JokerType::Vampire,
        JokerType::Shortcut,
        JokerType::Hologram,
        JokerType::Cloud9,
        JokerType::Rocket,
        JokerType::MidasMask,
        JokerType::Luchador,
        JokerType::GiftCard,
        JokerType::TurtleBean,
        JokerType::Erosion,
        JokerType::ToTheMoon,
        JokerType::StoneJoker,
        JokerType::LuckyCat,
        JokerType::Bull,
        JokerType::DietCola,
        JokerType::TradingCard,
        JokerType::FlashCard,
        JokerType::SpareTrousers,
        JokerType::Ramen,
        JokerType::Seltzer,
        JokerType::Castle,
        JokerType::MrBones,
        JokerType::Acrobat,
        JokerType::SockAndBuskin,
        JokerType::Troubadour,
        JokerType::Certificate,
        JokerType::SmearedJoker,
        JokerType::Throwback,
        JokerType::RoughGem,
        JokerType::Bloodstone,
        JokerType::Arrowhead,
        JokerType::OnyxAgate,
        JokerType::GlassJoker,
        JokerType::Showman,
        JokerType::FlowerPot,
        JokerType::MerryAndy,
        JokerType::OopsAll6s,
        JokerType::TheIdol,
        JokerType::SeeingDouble,
        JokerType::Matador,
        JokerType::Satellite,
        JokerType::Cartomancer,
        JokerType::Astronomer,
        JokerType::Bootstraps,
    ]
}

/// The list of [`uncommon_jokers`] as a vector.
pub fn uncommon_jokers_vec() -> (r: Vec<JokerType>)
    ensures
        r@ == uncommon_jokers(),
{
    vec![
        JokerType::JokerStencil,
        JokerType::FourFingers,
        JokerType::Mime,
        JokerType::CeremonialDagger,
        JokerType::MarbleJoker,
        JokerType::LoyaltyCard,
        JokerType::Dusk,
        JokerType::Fibonacci,
        JokerType::SteelJoker,
        JokerType::Hack,
        JokerType::Pareidolia,
        JokerType::SpaceJoker,
        JokerType::Burglar,
        JokerType::Blackboard,
        JokerType::SixthSense,
        JokerType::Constellation,
        JokerType::Hiker,
        JokerType::CardSharp,
        JokerType::Madness,
        JokerType::Seance,
        JokerType::Vampire,
        JokerType::Shortcut,
        JokerType::Hologram,
        JokerType::Cloud9,
        JokerType::Rocket,
        JokerType::MidasMask,
        JokerType::Luchador,
        JokerType::GiftCard,
        JokerType::TurtleBean,
        JokerType::Erosion,
        JokerType::ToTheMoon,
        JokerType::StoneJoker,
        JokerType::LuckyCat,
        JokerType::Bull,
        JokerType::DietCola,
        JokerType::TradingCard,
        JokerType::FlashCard,
        JokerType::SpareTrousers,
        JokerType::Ramen,
        JokerType::Seltzer,
        JokerType::Castle,
        JokerType::MrBones,
        JokerType::Acrobat,
        JokerType::SockAndBuskin,
        JokerType::Troubadour,
        JokerType::Certificate,
        JokerType::SmearedJoker,
        JokerType::Throwback,
        JokerType::RoughGem,
        JokerType::Bloodstone,
        JokerType::Arrowhead,
        JokerType::OnyxAgate,
        JokerType::GlassJoker,
        JokerType::Showman,
        JokerType::FlowerPot,
        JokerType::MerryAndy,
        JokerType::OopsAll6s,
        JokerType::TheIdol,
        JokerType::SeeingDouble,
        JokerType::Matador,
        JokerType::Satellite,
        JokerType::Cartomancer,
        JokerType::Astronomer,
        JokerType::Bootstraps,
    ]
}

/// Jokers of rare rarity, in pool order.
pub open spec fn rare_jokers() -> Seq<JokerType> {
    seq![
        JokerType::DNA,
        JokerType::Vagabond,
        JokerType::Baron,
        JokerType::Obelisk,
        JokerType::BaseballCard,
        JokerType::AncientJoker,
        JokerType::Campfire,
        JokerType::Blueprint,
        JokerType::WeeJoker,
        JokerType::HitTheRoad,
        JokerType::TheDuo,
        JokerType::TheTrio,
        JokerType::TheFamily,
        JokerType::TheOrder,
        JokerType::TheTribe,
        JokerType::Stuntman,
        JokerType::InvisibleJoker,
        JokerType::Brainstorm,
        JokerType::DriversLicense,
        JokerType::BurntJoker,
    ]
}

/// The list of [`rare_jokers`] as a vector.
pub fn rare_jokers_vec() -> (r: Vec<JokerType>)
    ensures
        r@ == rare_jokers(),
{
    vec![
        JokerType::DNA,
        JokerType::Vagabond,
        JokerType::Baron,
        JokerType::Obelisk,
        JokerType::BaseballCard,
        JokerType::AncientJoker,
        JokerType::Campfire,
        JokerType::Blueprint,
        JokerType::WeeJoker,
        JokerType::HitTheRoad,
        JokerType::TheDuo,
        JokerType::TheTrio,
        JokerType::TheFamily,
        JokerType::TheOrder,
        JokerType::TheTribe,
        JokerType::Stuntman,
        JokerType::InvisibleJoker,
        JokerType::Brainstorm,
        JokerType::DriversLicense,
        JokerType::BurntJoker,
    ]
}

/// Legendary jokers, in pool order.
pub open spec fn legendary_jokers() -> Seq<JokerType> {
    seq![
        JokerType::Canio,
        JokerType::Triboulet,
        JokerType::Yorick,
        JokerType::Chicot,
        JokerType::Perkeo,
    ]
}

/// The list of [`legendary_jokers`] as a vector.
pub fn legendary_jokers_vec() -> (r: Vec<JokerType>)
    ensures
        r@ == legendary_jokers(),
{
    vec![
        JokerType::Canio,
        JokerType::Triboulet,
        JokerType::Yorick,
        JokerType::Chicot,
        JokerType::Perkeo,
    ]
}

/// Edition of a joker.
#[derive(Debug, Clone, Copy, PartialEq, Eq, Hash, Structural)]
pub enum JokerEdition {
    Base,
    Foil,
    Holographic,
    Polychrome,
    Negative,
}

/// Number of variants of [`JokerEdition`].
pub const JOKER_EDITION_COUNT: usize = 5;

impl JokerEdition {
    /// The position of the variant in declaration order.
    pub open spec fn index(self) -> nat {
        match self {
            JokerEdition::Base => 0,
            JokerEdition::Foil => 1,
            JokerEdition::Holographic => 2,
            JokerEdition::Polychrome => 3,
            JokerEdition::Negative => 4,
        }
    }

    /// The position of the variant in declaration order, as a `usize`.
    pub fn to_index(&self) -> (r: usize)
        ensures
            r == self.index(),
            r < 5,
    {
        match self {
            JokerEdition::Base => 0,
            JokerEdition::Foil => 1,
            JokerEdition::Holographic => 2,
            JokerEdition::Polychrome => 3,
            JokerEdition::Negative => 4,
        }
    }

    /// The variant at position `i` in declaration order.
    pub fn from_index(i: usize) -> (r: JokerEdition)
        requires
            i < 5,
        ensures
            r.index() == i,
    {
        match i {
            0 => JokerEdition::Base,
            1 => JokerEdition::Foil,
            2 => JokerEdition::Holographic,
            3 => JokerEdition::Polychrome,
            _ => JokerEdition::Negative,
        }
    }
}
/// Stickers on a joker. An eternal joker cannot be destroyed.
#[derive(Debug, Clone, Copy, PartialEq, Eq, Structural)]
pub struct Stickers {
    pub eternal: bool,
    pub perishable: bool,
    pub rental: bool,
}

/// Memory that a joker keeps between events; only some identities have any.
#[derive(Debug, Clone, PartialEq, Eq)]
pub enum JokerInternalState {
    Stateless,
    DNA(bool),
    SixthSense(bool),
    TradingCard(bool),
    BurntJoker(bool),
    CeremonialDagger { mult: u32 },
    CardSharp { played_before: Vec<bool> },
    TurtleBean { hand_size: u32 },
}

/// Whether `data` is the kind of memory that jokers of identity `t` keep.
pub open spec fn state_fits(t: JokerType, data: JokerInternalState) -> bool {
    match t {
        JokerType::DNA => data is DNA,
        JokerType::SixthSense => data is SixthSense,
        JokerType::TradingCard => data is TradingCard,
        JokerType::BurntJoker => data is BurntJoker,
        JokerType::CeremonialDagger => data is CeremonialDagger,
        JokerType::CardSharp => match data {
            JokerInternalState::CardSharp { played_before } => played_before@.len()
                == HAND_TYPE_COUNT,
            _ => false,
        },
        JokerType::TurtleBean => data is TurtleBean,
        _ => data is Stateless,
    }
}

/// A joker owned by the run or offered for sale.
#[derive(Debug, Clone, PartialEq)]
pub struct Joker {
    pub data: JokerInternalState,
    pub joker_type: JokerType,
    pub edition: JokerEdition,
    pub stickers: Stickers,
    pub sell_value: u32,
    pub debuffed: bool,
    pub dispatcher_order: DispatcherOrder,
}

/// An action a joker asks to run once every joker has been visited for an event.
#[derive(Debug, Clone, Copy, PartialEq, Eq, Structural)]
pub enum DeferredAction {
    /// Destroy the joker to the right of the acting one, unless it is eternal, and
    /// add its sell value to the acting joker's mult.
    DestroyRightNeighbor,
}

/// Smallest rank position among `cards`; zero for no cards.
pub open spec fn min_rank(cards: Seq<Card>) -> nat
    decreases cards.len(),
{
    if cards.len() == 0 {
        0
    } else if cards.len() == 1 {
        cards[0].rank.index()
    } else {
        let rest = min_rank(cards.drop_last());
        let last = cards.last().rank.index();
        if last < rest {
            last
        } else {
            rest
        }
    }
}

/// `a + b`, capped at `u64::MAX`.
pub open spec fn sat_add(a: u64, b: nat) -> u64 {
    if a + b > u64::MAX {
        u64::MAX
    } else {
        (a + b) as u64
    }
}

/// `if c { v } else { 0 }`.
pub open spec fn bonus_if(c: bool, v: nat) -> nat {
    if c {
        v
    } else {
        0
    }
}

/// Chips a joker adds when a hand of `cards` (selected `hand_len` cards) is scored
/// with `discards` discards left.
pub open spec fn chip_bonus(j: Joker, cards: Seq<Card>, discards: nat) -> nat {
    match j.joker_type {
        JokerType::SlyJoker => bonus_if(holds(cards, HandType::Pair), 50),
        JokerType::WilyJoker => bonus_if(holds(cards, HandType::ThreeOfAKind), 100),
        JokerType::CleverJoker => bonus_if(holds(cards, HandType::TwoPair), 80),
        JokerType::DeviousJoker => bonus_if(holds(cards, HandType::Straight), 100),
        JokerType::CraftyJoker => bonus_if(holds(cards, HandType::Flush), 80),
        JokerType::Banner => discards * 30,
        _ => 0,
    }
}

/// Mult a joker adds when a hand of `cards` (selected `hand_len` cards) is scored
/// with `discards` discards left.
pub open spec fn mult_bonus(j: Joker, cards: Seq<Card>, hand_len: nat, discards: nat) -> nat {
    match j.joker_type {
        JokerType::JollyJoker => bonus_if(holds(cards, HandType::Pair), 8),
        JokerType::ZanyJoker => bonus_if(holds(cards, HandType::ThreeOfAKind), 12),
        JokerType::MadJoker => bonus_if(holds(cards, HandType::TwoPair), 10),
        JokerType::CrazyJoker => bonus_if(holds(cards, HandType::Straight), 12),
        JokerType::DrollJoker => bonus_if(holds(cards, HandType::Flush), 10),
        JokerType::Joker => 4,
        JokerType::HalfJoker => bonus_if(hand_len <= 3, 20),
        JokerType::MysticSummit => bonus_if(discards == 0, 15),
        JokerType::RaisedFist => 2 * min_rank(cards),
        JokerType::CeremonialDagger => match j.data {
            JokerInternalState::CeremonialDagger { mult } => mult as nat,
            _ => 0,
        },
        _ => 0,
    }
}

fn smallest_rank(cards: &Vec<Card>) -> (r: u64)
    ensures
        r == min_rank(cards@),
        r < 13,
{
    if cards.len() == 0 {
        return 0;
    }
    let mut m: u64 = cards[0].rank.to_index() as u64;
    let mut i: usize = 1;
    while i < cards.len()
        invariant
            1 <= i <= cards@.len(),
            m == min_rank(cards@.take(i as int)),
            m < 13,
        decreases cards@.len() - i,
    {
        proof {
            assert(cards@.take(i + 1).drop_last() =~= cards@.take(i as int));
            assert(cards@.take(1) =~= seq![cards@[0]]);
        }
        let k = cards[i].rank.to_index() as u64;
        if k < m {
            m = k;
        }
        i += 1;
    }
    proof {
        assert(cards@.take(cards@.len() as int) =~= cards@);
    }
    m
}

impl Joker {
    /// An eternal joker cannot be destroyed.
    pub fn cant_be_destroyed(&self) -> (r: bool)
        ensures
            r == self.stickers.eternal,
    {
        self.stickers.eternal
    }

    /// Effect of the joker when a hand is scored: adds its chip and mult bonus to
    /// the blind. No joker defers an action on this event.
    pub fn scored(&self, data: &RunData, blind: &mut Blind, event: &HandPlayedEventData) -> (r: Option<DeferredAction>)
        requires
            event.hand.len <= 5,
            forall|i: int| 0 <= i < event.hand.len ==> event.hand.cards@[i] < data.cards@.len(),
        ensures
            r is None,
            ({
                let cards = event.hand.indices().map_values(|i: usize| data.cards@[i as int]);
                &&& final(blind).chips == sat_add(
                    old(blind).chips,
                    chip_bonus(*self, cards, old(blind).discards as nat),
                )
                &&& final(blind).mult == sat_add(
                    old(blind).mult,
                    mult_bonus(*self, cards, event.hand.len as nat, old(blind).discards as nat),
                )
            }),
            (Blind { chips: final(blind).chips, mult: final(blind).mult, ..*old(blind) }) == *final(blind),
    {
        let hand = event.hand.resolve(&data.cards);
        let cards = &hand.0;
        let discards = blind.discards as u64;
        let mut chips: u64 = 0;
        let mut mult: u64 = 0;
        match self.joker_type {
            JokerType::JollyJoker => {
                if hand.contains(HandType::Pair) {
                    mult = 8;
                }
            },
            JokerType::ZanyJoker => {
                if hand.contains(HandType::ThreeOfAKind) {
                    mult = 12;
                }
            },
            JokerType::MadJoker => {
                if hand.contains(HandType::TwoPair) {
                    mult = 10;
                }
            },
            JokerType::CrazyJoker => {
                if hand.contains(HandType::Straight) {
                    mult = 12;
                }
            },
            JokerType::DrollJoker => {
                if hand.contains(HandType::Flush) {
                    mult = 10;
                }
            },
            JokerType::SlyJoker => {
                if hand.contains(HandType::Pair) {
                    chips = 50;
                }
            },
            JokerType::WilyJoker => {
                if hand.contains(HandType::ThreeOfAKind) {
                    chips = 100;
                }
            },
            JokerType::CleverJoker => {
                if hand.contains(HandType::TwoPair) {
                    chips = 80;
                }
            },
            JokerType::DeviousJoker => {
                if hand.contains(HandType::Straight) {
                    chips = 100;
                }
            },
            JokerType::CraftyJoker => {
                if hand.contains(HandType::Flush) {
                    chips = 80;
                }
            },
            JokerType::Joker => {
                mult = 4;
            },
            JokerType::HalfJoker => {
                if event.hand.len <= 3 {
                    mult = 20;
                }
            },
            JokerType::Banner => {
                chips = discards * 30;
            },
            JokerType::MysticSummit => {
                if discards == 0 {
                    mult = 15;
                }
            },
            JokerType::RaisedFist => {
                mult = smallest_rank(cards) * 2;
            },
            JokerType::CeremonialDagger => {
                if let JokerInternalState::CeremonialDagger { mult: m } = &self.data {
                    mult = *m as u64;
                }
            },
            _ => {},
        }
        blind.chips = blind.chips.saturating_add(chips);
        blind.mult = blind.mult.saturating_add(mult);
        None
    }

    /// Effect of the joker when a single card is scored: the smeared joker merges
    /// black and red suits, the suit jokers add three mult for their suit.
    pub fn card_scored(&self, blind: &mut Blind, suit: &mut MultiSuit)
        ensures
            self.joker_type == JokerType::SmearedJoker ==> {
                &&& final(suit).spade == (old(suit).spade || old(suit).club)
                &&& final(suit).club == (old(suit).spade || old(suit).club)
                &&& final(suit).heart == (old(suit).heart || old(suit).diamond)
                &&& final(suit).diamond == (old(suit).heart || old(suit).diamond)
            },
            self.joker_type != JokerType::SmearedJoker ==> *final(suit) == *old(suit),
            final(blind).mult == sat_add(
                old(blind).mult,
                match self.joker_type {
                    JokerType::WrathfulJoker => bonus_if(old(suit).spade, 3),
                    JokerType::LustyJoker => bonus_if(old(suit).heart, 3),
                    JokerType::GluttonousJoker => bonus_if(old(suit).club, 3),
                    JokerType::GreedyJoker => bonus_if(old(suit).diamond, 3),
                    _ => 0,
                },
            ),
            (Blind { mult: final(blind).mult, ..*old(blind) }) == *final(blind),
    {
        let mut add: u64 = 0;
        match self.joker_type {
            JokerType::SmearedJoker => {
                let black = suit.spade || suit.club;
                let red = suit.heart || suit.diamond;
                suit.spade = black;
                suit.club = black;
                suit.heart = red;
                suit.diamond = red;
            },
            JokerType::WrathfulJoker => {
                if suit.spade {
                    add = 3;
                }
            },
            JokerType::LustyJoker => {
                if suit.heart {
                    add = 3;
                }
            },
            JokerType::GluttonousJoker => {
                if suit.club {
                    add = 3;
                }
            },
            JokerType::GreedyJoker => {
                if suit.diamond {
                    add = 3;
                }
            },
            _ => {},
        }
        blind.mult = blind.mult.saturating_add(add);
    }

    /// Effect of the joker when a blind is entered: the ceremonial dagger defers
    /// destroying its right neighbour.
    pub fn blind_entered(&self) -> (r: Option<DeferredAction>)
        ensures
            r == (if self.joker_type == JokerType::CeremonialDagger {
                Some(DeferredAction::DestroyRightNeighbor)
            } else {
                None
            }),
    {
        match self.joker_type {
            JokerType::CeremonialDagger => Some(DeferredAction::DestroyRightNeighbor),
            _ => None,
        }
    }
}

} // verus!
