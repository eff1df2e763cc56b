use balatro_logic::card::{Card, Enhancement, Rank, Suit};
use balatro_logic::hands::{HandType, ResolvedHand};

fn cards(spec: &[(Suit, Rank)]) -> ResolvedHand {
    ResolvedHand(spec.iter().map(|(s, r)| Card::new(*s, *r)).collect())
}

#[test]
fn flush_five_beats_full_house() {
    let hand = cards(&[
        (Suit::Heart, Rank::Ace),
        (Suit::Heart, Rank::Ace),
        (Suit::Heart, Rank::Ace),
        (Suit::Heart, Rank::Ace),
        (Suit::Heart, Rank::Ace),
    ]);
    assert_eq!(hand.hand_type(), HandType::FlushFive);
    assert!(hand.contains(HandType::FiveOfAKind));
    assert!(hand.contains(HandType::Flush));
}

#[test]
fn wheel_is_a_straight() {
    let hand = cards(&[
        (Suit::Heart, Rank::Ace),
        (Suit::Club, Rank::Rank2),
        (Suit::Spade, Rank::Rank3),
        (Suit::Heart, Rank::Rank4),
        (Suit::Diamond, Rank::Rank5),
    ]);
    assert_eq!(hand.hand_type(), HandType::Straight);
}

#[test]
fn wild_card_completes_a_flush() {
    let mut hand = cards(&[
        (Suit::Heart, Rank::Rank2),
        (Suit::Heart, Rank::Rank7),
        (Suit::Heart, Rank::Rank9),
        (Suit::Heart, Rank::Jack),
        (Suit::Club, Rank::King),
    ]);
    assert_eq!(hand.hand_type(), HandType::HighCard);
    hand.0[4].enhancement = Enhancement::WildCard;
    assert_eq!(hand.hand_type(), HandType::Flush);
}

#[test]
fn four_cards_never_make_a_flush() {
    let hand = cards(&[
        (Suit::Heart, Rank::Rank2),
        (Suit::Heart, Rank::Rank3),
        (Suit::Heart, Rank::Rank4),
        (Suit::Heart, Rank::Rank5),
    ]);
    assert_eq!(hand.hand_type(), HandType::HighCard);
}

#[test]
fn two_pair_and_full_house() {
    let two_pair = cards(&[
        (Suit::Heart, Rank::Rank2),
        (Suit::Club, Rank::Rank2),
        (Suit::Heart, Rank::Rank9),
        (Suit::Spade, Rank::Rank9),
        (Suit::Club, Rank::King),
    ]);
    assert_eq!(two_pair.hand_type(), HandType::TwoPair);
    let full = cards(&[
        (Suit::Heart, Rank::Rank2),
        (Suit::Club, Rank::Rank2),
        (Suit::Heart, Rank::Rank9),
        (Suit::Spade, Rank::Rank9),
        (Suit::Club, Rank::Rank9),
    ]);
    assert_eq!(full.hand_type(), HandType::FullHouse);
    assert_eq!(cards(&[]).hand_type(), HandType::HighCard);
}

#[test]
fn base_values() {
    assert_eq!(HandType::base_chips()[HandType::Flush.to_index()], 35);
    assert_eq!(HandType::base_mult()[HandType::FlushFive.to_index()], 16);
}
