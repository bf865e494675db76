//! Tests for the deck: construction, drawing, discarding and shuffling.

use balatro_engine::card::Suit;
use balatro_engine::deck::{Deck, DeckType};
use balatro_engine::rng::GameRngManager;

#[test]
fn test_deck_creation() {
    let deck = Deck::new(DeckType::Red);
    assert_eq!(deck.n_remaining_cards(), 52);
    assert!(!deck.is_empty());
    assert_eq!(deck.discard_pile.len(), 0);
    assert_eq!(deck.n_cards_full_deck(), 52);
}

#[test]
fn test_deck_drawing() {
    let mut deck = Deck::new(DeckType::Red);

    let card = deck.draw().unwrap();
    assert!(card.is_some());
    assert_eq!(deck.n_remaining_cards(), 51);

    let cards = deck.draw_multiple(5).unwrap();
    assert_eq!(cards.len(), 5);
    assert_eq!(deck.n_remaining_cards(), 46);
}

#[test]
fn test_deck_drawing_empty() {
    let mut deck = Deck::new(DeckType::Red);

    for _ in 0..52 {
        deck.draw().unwrap();
    }

    assert!(deck.is_empty());
    assert_eq!(deck.n_remaining_cards(), 0);

    let card = deck.draw().unwrap();
    assert!(card.is_none());
}

#[test]
fn test_deck_discarding() {
    let mut deck = Deck::new(DeckType::Red);
    let card = deck.draw().unwrap().unwrap();

    deck.discard(card);
    assert_eq!(deck.discard_pile.len(), 1);
    assert_eq!(deck.discard_pile[0].id, card.id);
}

#[test]
fn test_deck_shuffling() {
    let mut rng1 = GameRngManager::new(99);
    let mut deck1 = Deck::new(DeckType::Red);
    let deck2 = Deck::new(DeckType::Red);

    deck1.shuffle(&mut rng1);

    // It is very unlikely the shuffled order matches the build order.
    let mut different = false;
    for i in 0..10 {
        if deck1.cards[i].id != deck2.cards[i].id {
            different = true;
            break;
        }
    }
    assert!(different);
}

#[test]
fn test_deck_type_variants() {
    let deck_types = [
        DeckType::Red,
        DeckType::Blue,
        DeckType::Yellow,
        DeckType::Green,
        DeckType::Black,
        DeckType::Magic,
        DeckType::Nebula,
        DeckType::Spectral,
        DeckType::Abandoned,
        DeckType::Checkered,
        DeckType::Zodiac,
        DeckType::Painted,
        DeckType::Anaglyph,
        DeckType::Plasma,
        DeckType::Erratic,
    ];

    for deck_type in deck_types {
        let deck = Deck::new(deck_type.clone());
        assert_eq!(deck.deck_type, deck_type);
        assert_eq!(deck.n_remaining_cards(), 52);
    }
}

#[test]
fn test_standard_deck_composition() {
    let mut deck = Deck::new(DeckType::Red);
    let mut suit_counts = [0; 4];
    let mut rank_counts = [0; 13];

    while let Some(card) = deck.draw().unwrap() {
        match card.suit {
            Suit::Hearts => suit_counts[0] += 1,
            Suit::Diamonds => suit_counts[1] += 1,
            Suit::Clubs => suit_counts[2] += 1,
            Suit::Spades => suit_counts[3] += 1,
        }
        rank_counts[(card.rank.value() as usize) - 2] += 1;
    }

    for count in suit_counts {
        assert_eq!(count, 13);
    }
    for count in rank_counts {
        assert_eq!(count, 4);
    }
}

#[test]
fn test_shuffle_is_permutation_of_full_deck() {
    let mut rng = GameRngManager::new(5);
    let mut deck = Deck::new(DeckType::Red);
    deck.draw_multiple(20).unwrap();
    deck.shuffle(&mut rng);

    assert_eq!(deck.n_remaining_cards(), 52);
    assert_eq!(deck.discard_pile.len(), 0);
    let mut ids: Vec<u64> = deck.cards.iter().map(|c| c.id).collect();
    ids.sort();
    for (expect, got) in (0u64..52).zip(ids.iter()) {
        assert_eq!(expect, *got);
    }
}

#[test]
fn test_shuffle_deterministic_per_seed() {
    let mut rng1 = GameRngManager::new(12345);
    let mut rng2 = GameRngManager::new(12345);
    let mut deck1 = Deck::new(DeckType::Red);
    let mut deck2 = Deck::new(DeckType::Blue);

    deck1.shuffle(&mut rng1);
    deck2.shuffle(&mut rng2);

    for i in 0..52 {
        assert_eq!(deck1.cards[i].id, deck2.cards[i].id);
    }
}
