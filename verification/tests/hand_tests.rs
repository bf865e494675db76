//! Tests for hand management: selection, reordering, sorting and removal.

use balatro_engine::card::{Card, Rank, Suit};
use balatro_engine::deck::{Deck, DeckType};
use balatro_engine::hand::Hand;

fn create_test_card(suit: Suit, rank: Rank) -> Card {
    Card::new(suit, rank)
}

#[test]
fn test_hand_creation() {
    let hand = Hand::new();
    assert!(hand.is_empty());
    assert_eq!(hand.len(), 0);
}

#[test]
fn test_hand_with_cards() {
    let cards = vec![
        create_test_card(Suit::Hearts, Rank::Ace),
        create_test_card(Suit::Spades, Rank::King),
    ];
    let hand = Hand::with_cards(cards);

    assert_eq!(hand.len(), 2);
    assert_eq!(hand.cards()[0].rank, Rank::Ace);
    assert_eq!(hand.cards()[1].rank, Rank::King);
}

#[test]
fn test_add_and_remove_cards() {
    let mut hand = Hand::new();
    let card = Card::with_id(7, Suit::Hearts, Rank::Ace);

    hand.add_card(card);
    assert_eq!(hand.len(), 1);

    let removed_card = hand.remove_card(0).unwrap();
    assert_eq!(removed_card.id, card.id);
    assert!(hand.is_empty());
}

#[test]
fn test_card_selection() {
    let mut hand = Hand::with_cards(vec![
        create_test_card(Suit::Hearts, Rank::Ace),
        create_test_card(Suit::Spades, Rank::King),
        create_test_card(Suit::Diamonds, Rank::Queen),
    ]);

    hand.select_card(0).unwrap();
    hand.select_card(2).unwrap();

    assert!(hand.is_selected(0));
    assert!(!hand.is_selected(1));
    assert!(hand.is_selected(2));

    assert_eq!(hand.selected_indices().as_slice(), &[0, 2]);
    assert_eq!(hand.selected_cards().len(), 2);

    hand.deselect_card(0);
    assert!(!hand.is_selected(0));
    assert_eq!(hand.selected_indices().as_slice(), &[2]);
}

#[test]
fn test_toggle_selection() {
    let mut hand = Hand::with_cards(vec![
        create_test_card(Suit::Hearts, Rank::Ace),
        create_test_card(Suit::Spades, Rank::King),
    ]);

    hand.toggle_selection(0).unwrap();
    assert!(hand.is_selected(0));

    hand.toggle_selection(0).unwrap();
    assert!(!hand.is_selected(0));
}

#[test]
fn test_move_cards() {
    let mut hand = Hand::with_cards(vec![
        create_test_card(Suit::Hearts, Rank::Ace),
        create_test_card(Suit::Spades, Rank::King),
        create_test_card(Suit::Diamonds, Rank::Queen),
    ]);

    hand.move_left(1).unwrap();
    assert_eq!(hand.get(0).unwrap().suit, Suit::Spades);
    assert_eq!(hand.get(1).unwrap().suit, Suit::Hearts);

    hand.move_right(0).unwrap();
    assert_eq!(hand.get(0).unwrap().suit, Suit::Hearts);
    assert_eq!(hand.get(1).unwrap().suit, Suit::Spades);
}

#[test]
fn test_sort_by_rank_desc() {
    let mut hand = Hand::with_cards(vec![
        create_test_card(Suit::Hearts, Rank::Two),
        create_test_card(Suit::Spades, Rank::Ace),
        create_test_card(Suit::Diamonds, Rank::King),
    ]);

    hand.sort_by_rank_desc();

    assert_eq!(hand.get(0).unwrap().rank, Rank::Ace);
    assert_eq!(hand.get(1).unwrap().rank, Rank::King);
    assert_eq!(hand.get(2).unwrap().rank, Rank::Two);
}

#[test]
fn test_sort_by_suit_then_rank() {
    let mut hand = Hand::with_cards(vec![
        create_test_card(Suit::Spades, Rank::Two),
        create_test_card(Suit::Hearts, Rank::Ace),
        create_test_card(Suit::Spades, Rank::King),
        create_test_card(Suit::Hearts, Rank::Queen),
    ]);

    hand.sort_by_suit_then_rank();

    assert_eq!(hand.get(0).unwrap().suit, Suit::Spades);
    assert_eq!(hand.get(0).unwrap().rank, Rank::King);
    assert_eq!(hand.get(1).unwrap().suit, Suit::Spades);
    assert_eq!(hand.get(1).unwrap().rank, Rank::Two);
    assert_eq!(hand.get(2).unwrap().suit, Suit::Hearts);
    assert_eq!(hand.get(2).unwrap().rank, Rank::Ace);
    assert_eq!(hand.get(3).unwrap().suit, Suit::Hearts);
    assert_eq!(hand.get(3).unwrap().rank, Rank::Queen);
}

#[test]
fn test_remove_multiple_cards() {
    let mut hand = Hand::with_cards(vec![
        create_test_card(Suit::Hearts, Rank::Ace),
        create_test_card(Suit::Spades, Rank::King),
        create_test_card(Suit::Diamonds, Rank::Queen),
        create_test_card(Suit::Clubs, Rank::Jack),
    ]);

    hand.select_card(0).unwrap();
    hand.select_card(2).unwrap();

    let removed = hand.remove_selected_cards().unwrap();
    assert_eq!(removed.len(), 2);
    assert_eq!(hand.len(), 2);

    assert_eq!(hand.get(0).unwrap().suit, Suit::Spades);
    assert_eq!(hand.get(1).unwrap().suit, Suit::Clubs);

    assert!(hand.selected_indices().is_empty());
}

#[test]
fn test_selection_persistence_after_move() {
    let mut hand = Hand::with_cards(vec![
        create_test_card(Suit::Hearts, Rank::Ace),
        create_test_card(Suit::Spades, Rank::King),
        create_test_card(Suit::Diamonds, Rank::Queen),
    ]);

    hand.select_card(1).unwrap();
    assert!(hand.is_selected(1));

    hand.move_left(1).unwrap();

    assert!(!hand.is_selected(1));
    assert!(hand.is_selected(0));
}

#[test]
fn test_error_handling() {
    let mut hand = Hand::new();

    assert!(hand.get(0).is_none());
    assert!(hand.remove_card(0).is_err());
    assert!(hand.select_card(0).is_err());
    assert!(hand.move_left(0).is_err());
    assert!(hand.move_right(0).is_err());
}

#[test]
fn test_total_values() {
    let hand = Hand::with_cards(vec![
        create_test_card(Suit::Hearts, Rank::Ace),
        create_test_card(Suit::Spades, Rank::King),
    ]);

    assert!(hand.total_chip_value() > 0);
    assert!(hand.total_mult_value() > 0);
}

#[test]
fn test_clear_operations() {
    let mut hand = Hand::with_cards(vec![
        create_test_card(Suit::Hearts, Rank::Ace),
        create_test_card(Suit::Spades, Rank::King),
    ]);

    hand.select_card(0).unwrap();
    assert!(!hand.is_empty());
    assert!(!hand.selected_indices().is_empty());

    hand.clear();
    assert!(hand.is_empty());
    assert!(hand.selected_indices().is_empty());
}

#[test]
fn test_clear_selections() {
    let mut hand = Hand::with_cards(vec![
        create_test_card(Suit::Hearts, Rank::Ace),
        create_test_card(Suit::Spades, Rank::King),
        create_test_card(Suit::Diamonds, Rank::Queen),
    ]);

    hand.select_card(0).unwrap();
    hand.select_card(2).unwrap();
    assert_eq!(hand.selected_indices().len(), 2);

    hand.clear_selections();
    assert!(hand.selected_indices().is_empty());
}

#[test]
fn test_default_hand() {
    let hand = Hand::default();
    assert!(hand.is_empty());
    assert_eq!(hand.len(), 0);
}

#[test]
fn test_deselect_unselected_is_noop() {
    // Deselecting an index that is not selected changes nothing and is no
    // error, even out of range.
    let mut hand = Hand::with_cards(vec![
        create_test_card(Suit::Hearts, Rank::Ace),
        create_test_card(Suit::Spades, Rank::King),
    ]);
    hand.select_card(1).unwrap();

    hand.deselect_card(0);
    assert_eq!(hand.selected_indices().as_slice(), &[1]);
    hand.deselect_card(99);
    assert_eq!(hand.selected_indices().as_slice(), &[1]);
}

#[test]
fn test_sort_preserves_selection_by_identity() {
    // The same logical cards stay selected after sorting, found by their
    // identity at their new positions.
    let mut hand = Hand::with_cards(vec![
        Card::with_id(0, Suit::Hearts, Rank::Two),
        Card::with_id(1, Suit::Spades, Rank::Ace),
        Card::with_id(2, Suit::Diamonds, Rank::King),
    ]);
    hand.select_card(0).unwrap();
    hand.select_card(1).unwrap();

    hand.sort_by_rank_desc();

    // Sorted: Ace (id 1), King (id 2), Two (id 0); ids 0 and 1 stay selected.
    let selected_ids: Vec<u64> = hand
        .selected_indices()
        .iter()
        .map(|&i| hand.cards()[i].id)
        .collect();
    assert_eq!(selected_ids.len(), 2);
    assert!(selected_ids.contains(&0));
    assert!(selected_ids.contains(&1));
    assert!(!selected_ids.contains(&2));
}

#[test]
fn test_discard_selected_clears_selection() {
    // After discarding the selection, no stale selected index remains and
    // every remaining position is valid.
    let mut deck = Deck::new(DeckType::Red);
    let mut hand = Hand::with_cards(vec![
        Card::with_id(100, Suit::Hearts, Rank::Ace),
        Card::with_id(101, Suit::Spades, Rank::King),
        Card::with_id(102, Suit::Diamonds, Rank::Queen),
    ]);
    hand.select_card(0).unwrap();
    hand.select_card(2).unwrap();

    hand.discard_selected_cards(&mut deck).unwrap();

    assert!(hand.selected_indices().is_empty());
    assert_eq!(hand.len(), 1);
    assert_eq!(hand.get(0).unwrap().id, 101);
    assert_eq!(deck.discard_pile.len(), 2);
}

#[test]
fn test_discard_selected_requires_selection() {
    let mut deck = Deck::new(DeckType::Red);
    let mut hand = Hand::with_cards(vec![create_test_card(Suit::Hearts, Rank::Ace)]);

    assert!(hand.discard_selected_cards(&mut deck).is_err());
    assert_eq!(hand.len(), 1);
    assert_eq!(deck.discard_pile.len(), 0);
}

#[test]
fn test_remove_card_remaps_selection() {
    let mut hand = Hand::with_cards(vec![
        Card::with_id(0, Suit::Hearts, Rank::Ace),
        Card::with_id(1, Suit::Spades, Rank::King),
        Card::with_id(2, Suit::Diamonds, Rank::Queen),
    ]);
    hand.select_card(1).unwrap();
    hand.select_card(2).unwrap();

    hand.remove_card(1).unwrap();

    // The selection of position 1 disappears; position 2 shifts to 1.
    assert_eq!(hand.selected_indices().as_slice(), &[1]);
    assert_eq!(hand.get(1).unwrap().id, 2);
}
