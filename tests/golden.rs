use balatro_logic::blind::BossBlindType;
use balatro_logic::boosters::{BoosterPackData, BoosterPackType, CelestialCard};
use balatro_logic::hands::HandType;
use balatro_logic::card::{Card, Rank, Suit};
use balatro_logic::consumable::{Consumable, Tarot};
use balatro_logic::decks::{default_cards, DeckType};
use balatro_logic::joker::JokerType;
use balatro_logic::run::{GameState, Run};
use balatro_logic::seeding::{Channels, UNIT_SCALE};
use balatro_logic::shop::ShopItem;
use balatro_logic::stake::Stake;
use balatro_logic::tags::Tag;
use balatro_logic::vouchers::Voucher;
use mlua::{Function, Lua, Table};
use std::cell::RefCell;
use std::f64::consts::PI;

fn lua_math(lua: &Lua, name: &str) -> Function {
    let math: Table = lua.globals().get("math").unwrap();
    math.get(name).unwrap()
}

fn hash(s: &[u8]) -> f64 {
    let mut num = 1.;
    let mut i = s.len();
    while i != 0 {
        let byte = s[i - 1];
        let magic_division = 1.1239285023 / num;
        num = ((magic_division * byte as f64 * PI) + (PI * i as f64)) % 1.;
        i -= 1;
    }
    num
}

struct Stream {
    lua: Lua,
    seed: String,
    hashed_seed: f64,
    states: Channels<f64>,
}

impl Stream {
    fn new(seed: &str) -> RefCell<Stream> {
        RefCell::new(Stream {
            lua: Lua::new(),
            seed: seed.to_string(),
            hashed_seed: hash(seed.as_bytes()),
            states: Channels::new(),
        })
    }

    fn reseed(&mut self, key: &[u8]) {
        let key = key.to_vec();
        let current = match self.states.get(&key) {
            Some(v) => v,
            None => hash(&[key.as_slice(), self.seed.as_bytes()].concat()),
        };
        let next = (((2.134453429141 + current * 1.72431234) % 1.) * 1e13).round() / 1e13;
        self.states.set(key, next);
        let value = (next + self.hashed_seed) / 2.0;
        lua_math(&self.lua, "randomseed").call::<()>(value).unwrap();
    }

    fn draw(&mut self, key: &[u8], _count: u64, n: u64) -> u64 {
        self.reseed(key);
        if n == UNIT_SCALE {
            (lua_math(&self.lua, "random").call::<f64>(()).unwrap() * UNIT_SCALE as f64) as u64
        } else {
            lua_math(&self.lua, "random").call::<u64>(n).unwrap() - 1
        }
    }

    fn shuffle(&mut self, key: &[u8], _count: u64, n: u64) -> Vec<u64> {
        self.reseed(key);
        (0..n).map(|t| lua_math(&self.lua, "random").call::<u64>(n - t).unwrap() - 1).collect()
    }
}

fn new_run(stream: &RefCell<Stream>, deck: DeckType) -> Run {
    let shuffle = |key: Vec<u8>, count: u64, n: u64| stream.borrow_mut().shuffle(&key, count, n);
    Run::new(deck, Stake::White, default_cards(), &shuffle)
}

#[test]
fn boss_blinds() {
    let stream = Stream::new("AAAAAAAA");
    let draw = |key: Vec<u8>, count: u64, n: u64| stream.borrow_mut().draw(&key, count, n);
    let mut run = new_run(&stream, DeckType::Red);
    assert_eq!(run.data.current_boss(&mut run.draws, &draw), Some(BossBlindType::TheManacle));
    for boss in [
        BossBlindType::TheHouse,
        BossBlindType::TheFish,
        BossBlindType::TheWindow,
        BossBlindType::TheWall,
        BossBlindType::TheTooth,
        BossBlindType::TheFlint,
        BossBlindType::VerdantLeaf,
    ] {
        run.data.ante += 1;
        assert_eq!(run.data.current_boss(&mut run.draws, &draw), Some(boss));
    }
}

#[test]
fn skip_tags() {
    let stream = Stream::new("AAAAAAAA");
    let draw = |key: Vec<u8>, count: u64, n: u64| stream.borrow_mut().draw(&key, count, n);
    let mut run = new_run(&stream, DeckType::Red);
    let expected = [
        (Tag::SpeedTag, Tag::EconomyTag),
        (Tag::JuggleTag, Tag::EtherealTag),
        (Tag::CouponTag, Tag::UncommonTag),
        (Tag::CouponTag, Tag::D6Tag),
        (Tag::CouponTag, Tag::GarbageTag),
        (Tag::StandardTag, Tag::RareTag),
        (Tag::BossTag, Tag::EtherealTag),
        (Tag::CharmTag, Tag::NegativeTag),
    ];
    for (fst, snd) in expected {
        assert_eq!(run.data.next_random_tag(&mut run.draws, &draw), fst);
        assert_eq!(run.data.next_random_tag(&mut run.draws, &draw), snd);
        run.data.ante += 1;
    }
}

#[test]
fn vouchers() {
    let stream = Stream::new("AAAAAAAA");
    let draw = |key: Vec<u8>, count: u64, n: u64| stream.borrow_mut().draw(&key, count, n);
    let mut run = new_run(&stream, DeckType::Red);
    run.data.ante = 0;
    for voucher in [
        Voucher::TarotMerchant,
        Voucher::PlanetMerchant,
        Voucher::MagicTrick,
        Voucher::SeedMoney,
        Voucher::Telescope,
        Voucher::PaintBrush,
        Voucher::SeedMoney,
        Voucher::Hieroglyph,
        Voucher::Blank,
    ] {
        run.enter_shop(true, &draw);
        run.data.ante += 1;
        assert_eq!(run.data.shop.vouchers[0], voucher);
    }
}

fn is_joker(item: &ShopItem, t: JokerType) -> bool {
    matches!(item, ShopItem::Joker(j) if j.joker_type == t)
}

#[test]
fn shop_inventory() {
    let stream = Stream::new("AAAAAAAA");
    let draw = |key: Vec<u8>, count: u64, n: u64| stream.borrow_mut().draw(&key, count, n);
    let mut run = new_run(&stream, DeckType::Red);
    run.enter_shop(true, &draw);
    assert!(is_joker(&run.data.shop.inventory[0], JokerType::Bull));
    assert!(is_joker(&run.data.shop.inventory[1], JokerType::FacelessJoker));

    run.reroll(&draw);
    assert!(is_joker(&run.data.shop.inventory[0], JokerType::Misprint));
    assert_eq!(
        &run.data.shop.inventory[1],
        &ShopItem::Consumable(Consumable::TarotCard(Tarot::TheSun))
    );

    run.data.ante = 2;
    run.enter_shop(true, &draw);
    assert!(is_joker(&run.data.shop.inventory[0], JokerType::Bloodstone));
}

#[test]
fn shop_packs() {
    let stream = Stream::new("AAAAAAAA");
    let draw = |key: Vec<u8>, count: u64, n: u64| stream.borrow_mut().draw(&key, count, n);
    let mut run = new_run(&stream, DeckType::Red);
    run.enter_shop(true, &draw);
    assert_eq!(
        run.data.shop.packs,
        vec![Some(BoosterPackType::BuffoonNormal), Some(BoosterPackType::CelestialJumbo)]
    );

    match run.open_booster_pack(BoosterPackType::BuffoonNormal, &draw) {
        BoosterPackData::BuffoonNormal(jokers) => {
            assert_eq!(jokers.len(), 2);
            assert_eq!(jokers[0].joker_type, JokerType::ShootTheMoon);
            assert_eq!(jokers[1].joker_type, JokerType::ZanyJoker);
        }
        other => panic!("unexpected pack {other:?}"),
    }

    let expected = vec![
        CelestialCard::Planet(HandType::ThreeOfAKind),
        CelestialCard::Planet(HandType::Pair),
        CelestialCard::Planet(HandType::FourOfAKind),
        CelestialCard::Planet(HandType::TwoPair),
        CelestialCard::Planet(HandType::HighCard),
    ];
    match run.open_booster_pack(BoosterPackType::CelestialJumbo, &draw) {
        BoosterPackData::CelestialJumbo(list) => assert_eq!(list, expected),
        other => panic!("unexpected pack {other:?}"),
    }
}

#[test]
fn erratic_bugged_seeds() {
    let stream = Stream::new("BGY5SDS");
    let draw = |key: Vec<u8>, count: u64, n: u64| stream.borrow_mut().draw(&key, count, n);
    assert_eq!(DeckType::gen_erratic(&mut Channels::new(), &draw), vec![Card::new(Suit::Spade, Rank::Rank10); 52]);
}

#[test]
fn initial_draw() {
    let stream = Stream::new("AAAAAAAA");
    let run = new_run(&stream, DeckType::Red);
    let blind = match &run.game_state {
        GameState::Blind(b) => b,
        _ => panic!("not in a blind"),
    };
    let mut held: Vec<Card> = blind.held.iter().map(|i| run.data.cards[*i]).collect();
    let mut expected = vec![
        Card::new(Suit::Diamond, Rank::Queen),
        Card::new(Suit::Club, Rank::Queen),
        Card::new(Suit::Heart, Rank::Rank10),
        Card::new(Suit::Spade, Rank::Rank8),
        Card::new(Suit::Diamond, Rank::Rank7),
        Card::new(Suit::Diamond, Rank::Rank2),
        Card::new(Suit::Heart, Rank::Rank2),
        Card::new(Suit::Spade, Rank::Rank2),
    ];
    held.sort_by_key(|c| (c.suit, c.rank));
    expected.sort_by_key(|c| (c.suit, c.rank));
    assert_eq!(held, expected);
}

#[test]
fn channel_values_ignore_interleaving() {
    let alone = Stream::new("AAAAAAAA");
    let mixed = Stream::new("AAAAAAAA");
    let mut a = Vec::new();
    let mut b = Vec::new();
    for _ in 0..3 {
        a.push(alone.borrow_mut().draw(b"boss", 0, 1000));
    }
    b.push(mixed.borrow_mut().draw(b"boss", 0, 1000));
    mixed.borrow_mut().draw(b"Tag1", 0, 24);
    b.push(mixed.borrow_mut().draw(b"boss", 0, 1000));
    mixed.borrow_mut().shuffle(b"nr1", 0, 52);
    mixed.borrow_mut().draw(b"Voucher1", 0, 32);
    b.push(mixed.borrow_mut().draw(b"boss", 0, 1000));
    assert_eq!(a, b);
}
