use balatro_logic::blind::{Blind, BlindType, BossBlindData, BossBlindType};
use balatro_logic::card::{Card, MultiSuit, Rank, Suit};
use balatro_logic::controller::{BlindAction, SimulationResult};
use balatro_logic::decks::{default_cards, DeckType};
use balatro_logic::dispatch::{dispatch_order, run_deferred};
use balatro_logic::event::Event;
use balatro_logic::hands::{Hand, HandType};
use balatro_logic::joker::{DeferredAction, Joker, JokerInternalState, JokerType};
use balatro_logic::pools::{poll_or_first, JokerRarity};
use balatro_logic::run::{requirement_for, GameState, Run, RunData};
use balatro_logic::seeding::{
    key_with_number, poll, resample_key, shuffle_with, weighted_pick, Channels, UNIT_SCALE,
};
use balatro_logic::stake::Stake;
use balatro_logic::vouchers::Voucher;
use std::cell::RefCell;

fn eye_blind(held: Vec<usize>, pile: Vec<usize>) -> Blind {
    let t = BlindType::Boss(BossBlindType::TheEye);
    Blind {
        chips: 0,
        mult: 1,
        blind_data: t.default_data(),
        blind_type: t,
        cards: pile,
        selected: Hand::empty(),
        held,
        score: 0,
        requirement: 100000,
        hands: 4,
        discards: 3,
    }
}

fn run_in(blind: Blind) -> Run {
    let mut run = Run::from_data(RunData::new(DeckType::Red, Stake::White, default_cards()));
    run.game_state = GameState::Blind(blind);
    run
}

fn blind_of(run: &Run) -> &Blind {
    match &run.game_state {
        GameState::Blind(b) => b,
        _ => panic!("not in a blind"),
    }
}

#[test]
fn eye_vetoes_a_repeated_category() {
    // Cards 0 and 13 are the two of clubs and of diamonds; 1 and 14 the threes.
    let mut run = run_in(eye_blind(vec![0, 13, 1, 14], vec![30, 31, 32]));
    run.data.hand_size = 4;
    run.blind_action(BlindAction::SelectCard(0));
    run.blind_action(BlindAction::SelectCard(1));
    assert_eq!(run.blind_action(BlindAction::Play), None);
    let b = blind_of(&run);
    assert_eq!((b.chips, b.mult), (10, 2));
    assert_eq!(b.score, 2 + 2 + 10 * 2);
    assert_eq!(b.hands, 3);
    assert_eq!(b.held, vec![1, 14, 32, 31]);
    match &b.blind_data {
        Some(BossBlindData::TheEye { was_already_played }) => {
            assert!(was_already_played[HandType::Pair.to_index()])
        }
        other => panic!("unexpected boss state {other:?}"),
    }

    run.blind_action(BlindAction::SelectCard(0));
    run.blind_action(BlindAction::SelectCard(1));
    assert_eq!(run.blind_action(BlindAction::Play), None);
    let b = blind_of(&run);
    assert_eq!(b.score, 24);
    assert_eq!(b.hands, 2);
    assert_eq!(b.held, vec![32, 31]);
    assert_eq!(b.cards, vec![30]);
}

#[test]
fn clearing_a_blind_moves_to_cash_out() {
    let mut blind = eye_blind(vec![0, 13], vec![]);
    blind.blind_type = BlindType::Small;
    blind.blind_data = None;
    blind.requirement = 24;
    let mut run = run_in(blind);
    run.blind_action(BlindAction::SelectCard(0));
    run.blind_action(BlindAction::SelectCard(1));
    assert_eq!(run.blind_action(BlindAction::Play), None);
    assert_eq!(run.game_state, GameState::CashOut);
    assert_eq!(run.data.ante, 1);
}

#[test]
fn clearing_the_last_boss_wins() {
    let mut blind = eye_blind(vec![0, 13], vec![]);
    blind.blind_type = BlindType::Boss(BossBlindType::VerdantLeaf);
    blind.blind_data = None;
    blind.requirement = 1;
    let mut run = run_in(blind);
    run.data.ante = 8;
    run.blind_action(BlindAction::SelectCard(0));
    assert_eq!(run.blind_action(BlindAction::Play), Some(SimulationResult::Won));
}

#[test]
fn invalid_actions_are_ignored() {
    let mut blind = eye_blind(vec![0, 13], vec![]);
    blind.discards = 0;
    let mut run = run_in(blind);
    let before = run.clone();
    run.blind_action(BlindAction::SelectCard(7));
    run.blind_action(BlindAction::Discard);
    assert_eq!(run, before);
    run.blind_action(BlindAction::SelectCard(0));
    run.blind_action(BlindAction::SelectCard(0));
    assert_eq!(blind_of(&run).selected.len, 1);
    assert_eq!(run.blind_action(BlindAction::Abort), Some(SimulationResult::Aborted));
}

#[test]
fn discard_spends_a_discard() {
    let mut run = run_in(eye_blind(vec![0, 13, 1], vec![]));
    run.blind_action(BlindAction::SelectCard(1));
    run.blind_action(BlindAction::Discard);
    let b = blind_of(&run);
    assert_eq!(b.held, vec![0, 1]);
    assert_eq!(b.discards, 2);
    assert_eq!(b.selected.len, 0);
}

#[test]
fn lost_without_hands() {
    let mut blind = eye_blind(vec![0], vec![]);
    blind.hands = 0;
    let run = run_in(blind);
    assert!(run.is_lost());
}

#[test]
fn requirement_table() {
    let expected: [[u64; 3]; 8] = [
        [300, 300, 300],
        [800, 900, 1000],
        [2000, 2600, 3200],
        [5000, 8000, 9000],
        [11000, 20000, 25000],
        [20000, 36000, 60000],
        [35000, 60000, 110000],
        [50000, 100000, 200000],
    ];
    let stakes = [(Stake::White, 0), (Stake::Red, 0), (Stake::Green, 1), (Stake::Blue, 1), (Stake::Purple, 2), (Stake::Gold, 2)];
    for (stake, tier) in stakes {
        let mut data = RunData::new(DeckType::Red, stake, default_cards());
        for ante in 1..=8 {
            data.ante = ante;
            assert_eq!(data.base_chip_requirement(), Some(expected[ante as usize - 1][tier]));
        }
        data.ante = 0;
        assert_eq!(data.base_chip_requirement(), Some(100));
        data.ante = 9;
        assert_eq!(data.base_chip_requirement(), None);
        assert_eq!(data.last_table_requirement(), expected[7][tier]);
    }
}

#[test]
fn requirement_scaling() {
    assert_eq!(requirement_for(BlindType::Small, 300), 300);
    assert_eq!(requirement_for(BlindType::Big, 300), 450);
    assert_eq!(requirement_for(BlindType::Big, 3), 5);
    assert_eq!(requirement_for(BlindType::Boss(BossBlindType::TheWall), 300), 1200);
    assert_eq!(requirement_for(BlindType::Boss(BossBlindType::TheNeedle), 300), 300);
    assert_eq!(requirement_for(BlindType::Boss(BossBlindType::VioletVessel), 300), 1800);
    assert_eq!(requirement_for(BlindType::Boss(BossBlindType::TheHook), 300), 600);
    assert_eq!(requirement_for(BlindType::Boss(BossBlindType::TheWall), u64::MAX / 2), u64::MAX);
}

#[test]
fn poll_skips_unavailable_indices() {
    let keys: RefCell<Vec<Vec<u8>>> = RefCell::new(Vec::new());
    let draw = |key: Vec<u8>, _count: u64, n: u64| {
        let mut k = keys.borrow_mut();
        k.push(key);
        (k.len() as u64 - 1) % n
    };
    let available = vec![false, false, true, false];
    let mut counts: Channels<u64> = Channels::new();
    counts.set(b"Tag1".to_vec(), 4);
    assert_eq!(poll(&available, &b"Tag1".to_vec(), &mut counts, &draw), 2);
    let keys = keys.into_inner();
    assert_eq!(keys, vec![b"Tag1".to_vec(), b"Tag1_resample2".to_vec(), b"Tag1_resample3".to_vec()]);
    assert_eq!(counts.get(&b"Tag1".to_vec()), Some(5));
    assert_eq!(counts.get(&b"Tag1_resample2".to_vec()), Some(1));
    assert_eq!(counts.get(&b"Tag1_resample3".to_vec()), Some(1));
    assert_eq!(counts.get(&b"Tag1_resample4".to_vec()), None);
}

#[test]
fn empty_pool_falls_back_to_its_first_slot() {
    let draw = |key: Vec<u8>, _count: u64, _n: u64| {
        if key == b"x".to_vec() {
            2
        } else if key.ends_with(b"2") {
            1
        } else {
            0
        }
    };
    let mut counts: Channels<u64> = Channels::new();
    assert_eq!(poll_or_first(vec![false, false, false], &b"x".to_vec(), &mut counts, &draw), 0);
    assert_eq!(counts.get(&b"x_resample3".to_vec()), Some(1));
}

#[test]
fn channel_keys() {
    assert_eq!(resample_key(&b"Voucher3".to_vec(), 1), b"Voucher3".to_vec());
    assert_eq!(resample_key(&b"Voucher3".to_vec(), 12), b"Voucher3_resample12".to_vec());
    assert_eq!(key_with_number(b"nr", -4), b"nr-4".to_vec());
    assert_eq!(key_with_number(b"nr", 10), b"nr10".to_vec());
}

#[test]
fn weighted_pick_includes_upper_bound() {
    let weights = vec![100, 0, 300];
    // The point is k / UNIT_SCALE * 400; a quarter lands on the first boundary.
    assert_eq!(weighted_pick(&weights, 0), 0);
    assert_eq!(weighted_pick(&weights, UNIT_SCALE / 4), 0);
    assert_eq!(weighted_pick(&weights, UNIT_SCALE / 4 + 1), 2);
    assert_eq!(weighted_pick(&weights, UNIT_SCALE - 1), 2);
}

#[test]
fn channels_are_independent() {
    let mut table: Channels<u64> = Channels::new();
    table.set(b"boss".to_vec(), 1);
    table.set(b"Tag1".to_vec(), 7);
    table.set(b"boss".to_vec(), 2);
    assert_eq!(table.get(&b"Tag1".to_vec()), Some(7));
    assert_eq!(table.get(&b"boss".to_vec()), Some(2));
    assert_eq!(table.get(&b"nr1".to_vec()), None);
}

#[test]
fn shuffle_applies_swaps_from_the_back() {
    let mut list = vec![0, 1, 2, 3];
    shuffle_with(&mut list, &vec![0, 0, 1, 0]);
    // swap(3, 0): [3,1,2,0]; swap(2, 0): [2,1,3,0]; swap(1, 1); swap(0, 0).
    assert_eq!(list, vec![2, 1, 3, 0]);
}

fn joker(t: JokerType, priority: i64) -> Joker {
    let mut j = Joker::fresh(t);
    j.dispatcher_order.events[Event::BlindEntered.to_index()] = priority;
    j.dispatcher_order.events[Event::Scored.to_index()] = priority;
    j
}

#[test]
fn dispatch_order_is_stable() {
    let jokers = vec![joker(JokerType::Joker, 2), joker(JokerType::Banner, 1), joker(JokerType::Egg, 2), joker(JokerType::Bull, 0)];
    assert_eq!(dispatch_order(&jokers, Event::Scored), vec![3, 1, 0, 2]);
}

#[test]
fn dagger_destroys_its_neighbour_unless_eternal() {
    let mut jokers = vec![joker(JokerType::CeremonialDagger, 0), joker(JokerType::Joker, 0), joker(JokerType::Egg, 0)];
    jokers[1].sell_value = 3;
    jokers[2].stickers.eternal = true;
    let acts = vec![(0, DeferredAction::DestroyRightNeighbor), (0, DeferredAction::DestroyRightNeighbor)];
    run_deferred(&mut jokers, &acts);
    assert_eq!(jokers.len(), 2);
    assert_eq!(jokers[1].joker_type, JokerType::Egg);
    assert_eq!(jokers[0].data, JokerInternalState::CeremonialDagger { mult: 3 });
}

#[test]
fn removed_actor_does_nothing() {
    let mut jokers = vec![joker(JokerType::CeremonialDagger, 0), joker(JokerType::CeremonialDagger, 0), joker(JokerType::Joker, 0)];
    jokers[1].sell_value = 5;
    let acts = vec![(0, DeferredAction::DestroyRightNeighbor), (1, DeferredAction::DestroyRightNeighbor)];
    run_deferred(&mut jokers, &acts);
    assert_eq!(jokers.len(), 2);
    assert_eq!(jokers[0].data, JokerInternalState::CeremonialDagger { mult: 5 });
    assert_eq!(jokers[1].joker_type, JokerType::Joker);
}

#[test]
fn entering_a_blind_runs_deferred_actions() {
    let mut run = Run::from_data(RunData::new(DeckType::Red, Stake::White, default_cards()));
    run.jokers = vec![joker(JokerType::CeremonialDagger, 0), joker(JokerType::Joker, 0)];
    run.jokers[1].sell_value = 4;
    let js: Vec<u64> = vec![0; 52];
    run.enter_blind(BlindType::Big, 300, &js);
    assert_eq!(run.jokers.len(), 1);
    assert_eq!(run.jokers[0].data, JokerInternalState::CeremonialDagger { mult: 4 });
    let b = blind_of(&run);
    assert_eq!(b.requirement, 450);
    assert_eq!(b.held.len(), 8);
    assert_eq!(b.cards.len(), 44);
    assert_eq!((b.hands, b.discards), (4, 4));
}

#[test]
fn jokers_add_their_bonuses_when_scoring() {
    let mut blind = eye_blind(vec![0, 13, 26], vec![]);
    blind.blind_type = BlindType::Small;
    blind.blind_data = None;
    let mut run = run_in(blind);
    run.jokers = vec![joker(JokerType::JollyJoker, 0), joker(JokerType::SlyJoker, 1), joker(JokerType::Banner, 2)];
    run.blind_action(BlindAction::SelectCard(0));
    run.blind_action(BlindAction::SelectCard(1));
    run.blind_action(BlindAction::Play);
    let b = blind_of(&run);
    assert_eq!(b.chips, 10 + 50 + 3 * 30);
    assert_eq!(b.mult, 2 + 8);
    assert_eq!(b.score, 4 + 150 * 10);
}

#[test]
fn smeared_joker_merges_suits() {
    let mut blind = eye_blind(vec![], vec![]);
    let mut suit = MultiSuit { spade: false, heart: true, club: true, diamond: false };
    Joker::fresh(JokerType::SmearedJoker).card_scored(&mut blind, &mut suit);
    assert_eq!(suit, MultiSuit { spade: true, heart: true, club: true, diamond: true });
    Joker::fresh(JokerType::WrathfulJoker).card_scored(&mut blind, &mut suit);
    assert_eq!(blind.mult, 4);
}

#[test]
fn vouchers_change_the_run() {
    let mut data = RunData::new(DeckType::Red, Stake::White, default_cards());
    data.apply_voucher_effects(Voucher::TarotMerchant);
    assert_eq!(data.shop.weights[1], 960);
    data.apply_voucher_effects(Voucher::Hieroglyph);
    assert_eq!((data.ante, data.starting_hands), (0, 3));
    data.apply_voucher_effects(Voucher::ClearanceSale);
    assert_eq!(data.shop.price_multiplier, 75);
    assert!(data.vouchers[Voucher::TarotMerchant.to_index()]);
    assert!(Voucher::TarotTycoon.requirements_fulfilled(&data.vouchers));
    assert!(!Voucher::PlanetTycoon.requirements_fulfilled(&data.vouchers));
}

#[test]
fn hand_levels_stay_positive() {
    let mut data = RunData::new(DeckType::Red, Stake::White, default_cards());
    data.change_hand_level(HandType::Pair, -5);
    assert_eq!(data.hand_levels[HandType::Pair.to_index()], 1);
    data.change_hand_level(HandType::Pair, 3);
    assert_eq!(data.hand_levels[HandType::Pair.to_index()], 4);
    data.times_played[HandType::Flush.to_index()] = 2;
    assert!(data.is_most_played_hand(HandType::Flush));
    assert!(!data.is_most_played_hand(HandType::Pair));
}

#[test]
fn decks_change_the_start() {
    let abandoned = RunData::new(DeckType::Abandoned, Stake::White, default_cards());
    assert_eq!(abandoned.cards.len(), 40);
    let checkered = RunData::new(DeckType::Checkered, Stake::Blue, default_cards());
    assert!(checkered.cards.iter().all(|c| c.suit == Suit::Spade || c.suit == Suit::Heart));
    assert_eq!(checkered.starting_discards, 2);
    let red = RunData::new(DeckType::Red, Stake::White, default_cards());
    assert_eq!(red.starting_discards, 4);
    assert_eq!(default_cards()[8], Card::new(Suit::Club, Rank::Ace));
}

#[test]
fn boss_candidates_start_with_any_ante_bosses() {
    let data = RunData::new(DeckType::Red, Stake::White, default_cards());
    let names: Vec<&str> = data.eligible_bosses().iter().map(|b| b.game_name()).collect();
    assert_eq!(names, vec!["bl_club", "bl_goad", "bl_head", "bl_hook", "bl_manacle", "bl_pillar", "bl_psychic", "bl_window"]);
    let mut sorted = names.clone();
    sorted.sort();
    assert_eq!(names, sorted);
}

#[test]
fn replay_is_deterministic() {
    let scripted = |key: Vec<u8>, count: u64, n: u64| ((key.iter().map(|b| *b as u64).sum::<u64>() + count) * 7919) % n;
    let shuffle = |key: Vec<u8>, count: u64, n: u64| (0..n).map(|t| (key.len() as u64 + count + t) % (n - t)).collect::<Vec<u64>>();
    let play = || {
        let mut run = Run::new(DeckType::Red, Stake::White, default_cards(), &shuffle);
        run.enter_shop(true, &scripted);
        let boss = run.data.current_boss(&mut run.draws, &scripted);
        run.blind_action(BlindAction::SelectCard(0));
        run.blind_action(BlindAction::SelectCard(1));
        run.blind_action(BlindAction::Play);
        (run, boss)
    };
    assert_eq!(play(), play());
    assert_eq!(JokerRarity::Legendary.pool().len(), 5);
}

#[test]
fn deck_listing_is_sorted_by_suit_then_rank() {
    let deck = balatro_logic::decks::Deck {
        deck_type: DeckType::Red,
        cards: vec![
            Card::new(Suit::Diamond, Rank::Rank2),
            Card::new(Suit::Spade, Rank::Rank3),
            Card::new(Suit::Heart, Rank::Ace),
            Card::new(Suit::Spade, Rank::King),
        ],
    };
    assert_eq!(
        deck.sorted(),
        vec![
            Card::new(Suit::Spade, Rank::King),
            Card::new(Suit::Spade, Rank::Rank3),
            Card::new(Suit::Heart, Rank::Ace),
            Card::new(Suit::Diamond, Rank::Rank2),
        ]
    );
}

#[test]
fn selection_stops_at_five() {
    let mut run = run_in(eye_blind(vec![0, 1, 2, 3, 4, 5], vec![]));
    for i in 0..6 {
        run.blind_action(BlindAction::SelectCard(i));
    }
    let b = blind_of(&run);
    assert_eq!(b.selected.len, 5);
    assert_eq!(b.selected.card_slice(), vec![0, 1, 2, 3, 4]);
}

#[test]
fn boss_is_least_used_among_bosses_past_their_ante() {
    let mut data = RunData::new(DeckType::Red, Stake::White, default_cards());
    for b in data.eligible_bosses() {
        data.times_boss_used[b.to_index()] = 1;
    }
    // Every boss allowed at ante one was used once; unused ones wait for later antes.
    assert_eq!(data.eligible_bosses().len(), 8);
    let mut counts: Channels<u64> = Channels::new();
    let draw = |_key: Vec<u8>, _count: u64, _n: u64| 0;
    assert_eq!(data.current_boss(&mut counts, &draw), Some(BossBlindType::TheClub));
    assert_eq!(data.times_boss_used[BossBlindType::TheClub.to_index()], 2);
    assert_eq!(counts.get(&b"boss".to_vec()), Some(1));
}

#[test]
fn no_boss_when_none_passes_the_ante_gate() {
    let mut data = RunData::new(DeckType::Red, Stake::White, default_cards());
    data.ante = -8;
    let before = data.clone();
    let mut counts: Channels<u64> = Channels::new();
    let draw = |_key: Vec<u8>, _count: u64, _n: u64| 0;
    assert_eq!(data.current_boss(&mut counts, &draw), None);
    assert_eq!(data, before);
    assert_eq!(counts.get(&b"boss".to_vec()), None);
}

#[test]
fn boss_order_follows_game_names() {
    let names: Vec<&str> = balatro_logic::blind::bosses_by_name_vec().iter().map(|b| b.game_name()).collect();
    let mut sorted = names.clone();
    sorted.sort();
    assert_eq!(names.len(), 28);
    assert_eq!(names, sorted);
}
