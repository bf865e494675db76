//! Tests for the planet registry and poker-hand detection.

use balatro_engine::card::{Card, Rank, Suit};
use balatro_engine::planet::{PlanetDefinition, PlanetFileConfig, PlanetModifier, Planets, PokerHand};

#[test]
fn test_high_card() {
    let planets = Planets::new_default().unwrap();

    let cards = vec![
        Card::new(Suit::Hearts, Rank::Two),
        Card::new(Suit::Diamonds, Rank::Five),
        Card::new(Suit::Clubs, Rank::Seven),
        Card::new(Suit::Spades, Rank::Nine),
        Card::new(Suit::Hearts, Rank::Jack),
    ];
    let res = planets.detect_poker_hand(&cards).unwrap();
    assert_eq!(res.0, PokerHand::HighCard);
    assert_eq!(res.1.len(), 1);
    assert_eq!(res.1[0].rank, Rank::Jack);

    let cards = vec![
        Card::new(Suit::Clubs, Rank::Ace),
        Card::new(Suit::Hearts, Rank::Ten),
        Card::new(Suit::Diamonds, Rank::Eight),
        Card::new(Suit::Spades, Rank::Four),
        Card::new(Suit::Clubs, Rank::Three),
    ];
    let res = planets.detect_poker_hand(&cards).unwrap();
    assert_eq!(res.0, PokerHand::HighCard);
    assert_eq!(res.1.len(), 1);
    assert_eq!(res.1[0].rank, Rank::Ace);
}

#[test]
fn test_pair() {
    let planets = Planets::new_default().unwrap();

    let cards = vec![
        Card::new(Suit::Hearts, Rank::Two),
        Card::new(Suit::Diamonds, Rank::Two),
        Card::new(Suit::Clubs, Rank::Seven),
        Card::new(Suit::Spades, Rank::Nine),
        Card::new(Suit::Hearts, Rank::Jack),
    ];
    let res = planets.detect_poker_hand(&cards).unwrap();
    assert_eq!(res.0, PokerHand::Pair);
    assert_eq!(res.1.len(), 2);
    assert!(res.1.iter().all(|c| c.rank == Rank::Two));

    let cards = vec![
        Card::new(Suit::Clubs, Rank::Ace),
        Card::new(Suit::Hearts, Rank::Ace),
        Card::new(Suit::Diamonds, Rank::Eight),
        Card::new(Suit::Spades, Rank::Four),
        Card::new(Suit::Clubs, Rank::Three),
    ];
    let res = planets.detect_poker_hand(&cards).unwrap();
    assert_eq!(res.0, PokerHand::Pair);
    assert_eq!(res.1.len(), 2);
    assert!(res.1.iter().all(|c| c.rank == Rank::Ace));
}

#[test]
fn test_two_pair() {
    let planets = Planets::new_default().unwrap();

    let cards = vec![
        Card::new(Suit::Hearts, Rank::Two),
        Card::new(Suit::Diamonds, Rank::Two),
        Card::new(Suit::Clubs, Rank::Seven),
        Card::new(Suit::Spades, Rank::Seven),
        Card::new(Suit::Hearts, Rank::Jack),
    ];
    let res = planets.detect_poker_hand(&cards).unwrap();
    assert_eq!(res.0, PokerHand::TwoPair);
    assert_eq!(res.1.len(), 4);
    let ranks: Vec<Rank> = res.1.iter().map(|c| c.rank).collect();
    assert!(ranks.iter().filter(|&&r| r == Rank::Two).count() == 2);
    assert!(ranks.iter().filter(|&&r| r == Rank::Seven).count() == 2);

    let cards = vec![
        Card::new(Suit::Clubs, Rank::Ace),
        Card::new(Suit::Hearts, Rank::Ace),
        Card::new(Suit::Diamonds, Rank::Eight),
        Card::new(Suit::Spades, Rank::Eight),
        Card::new(Suit::Clubs, Rank::Three),
    ];
    let res = planets.detect_poker_hand(&cards).unwrap();
    assert_eq!(res.0, PokerHand::TwoPair);
    assert_eq!(res.1.len(), 4);
    let ranks: Vec<Rank> = res.1.iter().map(|c| c.rank).collect();
    assert!(ranks.iter().filter(|&&r| r == Rank::Ace).count() == 2);
    assert!(ranks.iter().filter(|&&r| r == Rank::Eight).count() == 2);
}

#[test]
fn test_three_of_a_kind() {
    let planets = Planets::new_default().unwrap();

    let cards = vec![
        Card::new(Suit::Hearts, Rank::Two),
        Card::new(Suit::Diamonds, Rank::Two),
        Card::new(Suit::Clubs, Rank::Two),
        Card::new(Suit::Spades, Rank::Seven),
        Card::new(Suit::Hearts, Rank::Jack),
    ];
    let res = planets.detect_poker_hand(&cards).unwrap();
    assert_eq!(res.0, PokerHand::ThreeOfAKind);
    assert_eq!(res.1.len(), 3);
    assert!(res.1.iter().all(|c| c.rank == Rank::Two));

    let cards = vec![
        Card::new(Suit::Clubs, Rank::Ace),
        Card::new(Suit::Hearts, Rank::Ace),
        Card::new(Suit::Diamonds, Rank::Ace),
        Card::new(Suit::Spades, Rank::Eight),
        Card::new(Suit::Clubs, Rank::Three),
    ];
    let res = planets.detect_poker_hand(&cards).unwrap();
    assert_eq!(res.0, PokerHand::ThreeOfAKind);
    assert_eq!(res.1.len(), 3);
    assert!(res.1.iter().all(|c| c.rank == Rank::Ace));
}

#[test]
fn test_straight() {
    let planets = Planets::new_default().unwrap();

    let cards = vec![
        Card::new(Suit::Hearts, Rank::Two),
        Card::new(Suit::Diamonds, Rank::Three),
        Card::new(Suit::Clubs, Rank::Four),
        Card::new(Suit::Spades, Rank::Five),
        Card::new(Suit::Hearts, Rank::Six),
    ];
    let res = planets.detect_poker_hand(&cards).unwrap();
    assert_eq!(res.0, PokerHand::Straight);
    assert_eq!(res.1.len(), 5);
    let ranks: Vec<Rank> = res.1.iter().map(|c| c.rank).collect();
    assert!(matches!(ranks[..], [Rank::Two, Rank::Three, Rank::Four, Rank::Five, Rank::Six]));

    let cards = vec![
        Card::new(Suit::Clubs, Rank::Eight),
        Card::new(Suit::Hearts, Rank::Nine),
        Card::new(Suit::Diamonds, Rank::Ten),
        Card::new(Suit::Spades, Rank::Jack),
        Card::new(Suit::Clubs, Rank::Queen),
    ];
    let res = planets.detect_poker_hand(&cards).unwrap();
    assert_eq!(res.0, PokerHand::Straight);
    assert_eq!(res.1.len(), 5);
    let ranks: Vec<Rank> = res.1.iter().map(|c| c.rank).collect();
    assert!(matches!(ranks[..], [Rank::Eight, Rank::Nine, Rank::Ten, Rank::Jack, Rank::Queen]));
}

#[test]
fn test_flush() {
    let planets = Planets::new_default().unwrap();

    let cards = vec![
        Card::new(Suit::Hearts, Rank::Two),
        Card::new(Suit::Hearts, Rank::Five),
        Card::new(Suit::Hearts, Rank::Seven),
        Card::new(Suit::Hearts, Rank::Nine),
        Card::new(Suit::Hearts, Rank::Jack),
    ];
    let res = planets.detect_poker_hand(&cards).unwrap();
    assert_eq!(res.0, PokerHand::Flush);
    assert_eq!(res.1.len(), 5);
    assert!(res.1.iter().all(|c| c.suit == Suit::Hearts));

    let cards = vec![
        Card::new(Suit::Diamonds, Rank::Three),
        Card::new(Suit::Diamonds, Rank::Six),
        Card::new(Suit::Diamonds, Rank::Eight),
        Card::new(Suit::Diamonds, Rank::Ten),
        Card::new(Suit::Diamonds, Rank::King),
    ];
    let res = planets.detect_poker_hand(&cards).unwrap();
    assert_eq!(res.0, PokerHand::Flush);
    assert_eq!(res.1.len(), 5);
    assert!(res.1.iter().all(|c| c.suit == Suit::Diamonds));
}

#[test]
fn test_full_house() {
    let planets = Planets::new_default().unwrap();

    let cards = vec![
        Card::new(Suit::Hearts, Rank::Two),
        Card::new(Suit::Diamonds, Rank::Two),
        Card::new(Suit::Clubs, Rank::Two),
        Card::new(Suit::Spades, Rank::Seven),
        Card::new(Suit::Hearts, Rank::Seven),
    ];
    let res = planets.detect_poker_hand(&cards).unwrap();
    assert_eq!(res.0, PokerHand::FullHouse);
    assert_eq!(res.1.len(), 5);
    let ranks: Vec<Rank> = res.1.iter().map(|c| c.rank).collect();
    assert!(ranks.iter().filter(|&&r| r == Rank::Two).count() == 3);
    assert!(ranks.iter().filter(|&&r| r == Rank::Seven).count() == 2);

    let cards = vec![
        Card::new(Suit::Clubs, Rank::Ace),
        Card::new(Suit::Hearts, Rank::Ace),
        Card::new(Suit::Diamonds, Rank::Ace),
        Card::new(Suit::Spades, Rank::Eight),
        Card::new(Suit::Clubs, Rank::Eight),
    ];
    let res = planets.detect_poker_hand(&cards).unwrap();
    assert_eq!(res.0, PokerHand::FullHouse);
    assert_eq!(res.1.len(), 5);
    let ranks: Vec<Rank> = res.1.iter().map(|c| c.rank).collect();
    assert!(ranks.iter().filter(|&&r| r == Rank::Ace).count() == 3);
    assert!(ranks.iter().filter(|&&r| r == Rank::Eight).count() == 2);
}

#[test]
fn test_four_of_a_kind() {
    let planets = Planets::new_default().unwrap();

    let cards = vec![
        Card::new(Suit::Hearts, Rank::Two),
        Card::new(Suit::Diamonds, Rank::Two),
        Card::new(Suit::Clubs, Rank::Two),
        Card::new(Suit::Spades, Rank::Two),
        Card::new(Suit::Hearts, Rank::Jack),
    ];
    let res = planets.detect_poker_hand(&cards).unwrap();
    assert_eq!(res.0, PokerHand::FourOfAKind);
    assert_eq!(res.1.len(), 4);
    assert!(res.1.iter().all(|c| c.rank == Rank::Two));

    let cards = vec![
        Card::new(Suit::Clubs, Rank::Ace),
        Card::new(Suit::Hearts, Rank::Ace),
        Card::new(Suit::Diamonds, Rank::Ace),
        Card::new(Suit::Spades, Rank::Ace),
        Card::new(Suit::Clubs, Rank::Three),
    ];
    let res = planets.detect_poker_hand(&cards).unwrap();
    assert_eq!(res.0, PokerHand::FourOfAKind);
    assert_eq!(res.1.len(), 4);
    assert!(res.1.iter().all(|c| c.rank == Rank::Ace));
}

#[test]
fn test_straight_flush() {
    let planets = Planets::new_default().unwrap();

    let cards = vec![
        Card::new(Suit::Hearts, Rank::Two),
        Card::new(Suit::Hearts, Rank::Three),
        Card::new(Suit::Hearts, Rank::Four),
        Card::new(Suit::Hearts, Rank::Five),
        Card::new(Suit::Hearts, Rank::Six),
    ];
    let res = planets.detect_poker_hand(&cards).unwrap();
    assert_eq!(res.0, PokerHand::StraightFlush);
    assert_eq!(res.1.len(), 5);
    assert!(res.1.iter().all(|c| c.suit == Suit::Hearts));

    let cards = vec![
        Card::new(Suit::Diamonds, Rank::Eight),
        Card::new(Suit::Diamonds, Rank::Nine),
        Card::new(Suit::Diamonds, Rank::Ten),
        Card::new(Suit::Diamonds, Rank::Jack),
        Card::new(Suit::Diamonds, Rank::Queen),
    ];
    let res = planets.detect_poker_hand(&cards).unwrap();
    assert_eq!(res.0, PokerHand::StraightFlush);
    assert_eq!(res.1.len(), 5);
    assert!(res.1.iter().all(|c| c.suit == Suit::Diamonds));
}

#[test]
fn test_five_of_a_kind() {
    let planets = Planets::new_default().unwrap();
    let cards = vec![
        Card::new(Suit::Hearts, Rank::Five),
        Card::new(Suit::Spades, Rank::Five),
        Card::new(Suit::Clubs, Rank::Five),
        Card::new(Suit::Diamonds, Rank::Five),
        Card::new(Suit::Hearts, Rank::Five),
    ];
    let res = planets.detect_poker_hand(&cards).unwrap();
    assert_eq!(res.0, PokerHand::FiveOfAKind);
    assert_eq!(res.1.len(), 5);
    assert!(res.1.iter().all(|c| c.rank == Rank::Five));
}

#[test]
fn test_flush_house() {
    let planets = Planets::new_default().unwrap();
    let cards = vec![
        Card::new(Suit::Hearts, Rank::Two),
        Card::new(Suit::Hearts, Rank::Two),
        Card::new(Suit::Hearts, Rank::Two),
        Card::new(Suit::Hearts, Rank::Seven),
        Card::new(Suit::Hearts, Rank::Seven),
    ];
    let res = planets.detect_poker_hand(&cards).unwrap();
    assert_eq!(res.0, PokerHand::FlushHouse);
    assert_eq!(res.1.len(), 5);
    assert!(res.1.iter().all(|c| c.suit == Suit::Hearts));
}

#[test]
fn test_flush_five() {
    let planets = Planets::new_default().unwrap();
    let cards = vec![
        Card::new(Suit::Hearts, Rank::Nine),
        Card::new(Suit::Hearts, Rank::Nine),
        Card::new(Suit::Hearts, Rank::Nine),
        Card::new(Suit::Hearts, Rank::Nine),
        Card::new(Suit::Hearts, Rank::Nine),
    ];
    let res = planets.detect_poker_hand(&cards).unwrap();
    assert_eq!(res.0, PokerHand::FlushFive);
    assert_eq!(res.1.len(), 5);
    assert!(res.1.iter().all(|c| c.suit == Suit::Hearts && c.rank == Rank::Nine));
}

#[test]
fn test_flush_five_with_more_than_five_cards() {
    // Six cards, all the same rank and suit, still classify as flush five
    // and the scoring subset is all of them.
    let planets = Planets::new_default().unwrap();
    let cards: Vec<Card> = (0..6).map(|i| Card::with_id(i, Suit::Clubs, Rank::Queen)).collect();
    let res = planets.detect_poker_hand(&cards).unwrap();
    assert_eq!(res.0, PokerHand::FlushFive);
    assert_eq!(res.1.len(), 6);
}

#[test]
fn test_detect_empty_selection() {
    let planets = Planets::new_default().unwrap();
    assert!(planets.detect_poker_hand(&Vec::new()).is_none());
}

#[test]
fn test_planet_upgrade_and_base_score() {
    let mut planets = Planets::new_default().unwrap();

    let pair = planets.get_planet(PokerHand::Pair).unwrap();
    assert_eq!(pair.level, 1);
    let base = pair.get_base_score();
    assert_eq!(base.chip_score, 10);
    assert_eq!(base.mult_score, 200);

    let pair_mut = planets.get_planet_mut(PokerHand::Pair);
    pair_mut.upgrade();
    assert_eq!(pair_mut.level, 2);

    let pair = planets.get_planet(PokerHand::Pair).unwrap();
    let upgraded = pair.get_base_score();
    assert_eq!(upgraded.chip_score, 25);
    assert_eq!(upgraded.mult_score, 300);
}

#[test]
fn test_string_to_poker_hand_enum() {
    assert_eq!(Planets::string_to_poker_hand_enum("pair"), PokerHand::Pair);
    assert_eq!(Planets::string_to_poker_hand_enum("flush_five"), PokerHand::FlushFive);
    assert_eq!(Planets::string_to_poker_hand_enum("straight"), PokerHand::Straight);
    assert_eq!(Planets::string_to_poker_hand_enum("unknown"), PokerHand::HighCard);
}

#[test]
fn test_from_config_builds_sorted_catalogue() {
    let cfg = PlanetFileConfig {
        planets: vec![
            PlanetDefinition {
                name: "Mercury".to_string(),
                poker_hand: "pair".to_string(),
                poker_hand_name: "Pair".to_string(),
                addition: vec![PlanetModifier { mult: 1, chips: 15 }],
                hand_base_score: vec![PlanetModifier { mult: 2, chips: 10 }],
            },
            PlanetDefinition {
                name: "Eris".to_string(),
                poker_hand: "flush_five".to_string(),
                poker_hand_name: "Flush Five".to_string(),
                addition: vec![PlanetModifier { mult: 3, chips: 50 }],
                hand_base_score: vec![PlanetModifier { mult: 16, chips: 160 }],
            },
        ],
    };
    let planets = Planets::from_config(cfg).unwrap();
    assert_eq!(planets.planets.len(), 2);
    // Sorted by descending tier: the flush five entry comes first.
    assert_eq!(planets.planets[0].poker_hand, PokerHand::FlushFive);
    assert_eq!(planets.planets[1].poker_hand, PokerHand::Pair);
    assert_eq!(planets.planets[1].base_chips, 10);
    assert_eq!(planets.planets[1].level, 1);
}
