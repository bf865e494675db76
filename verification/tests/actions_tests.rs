//! Tests for the action system and its helpers.

use balatro_engine::actions::{
    Action, MenuAction, PlayingAction, all_deck_types, all_stake_levels, create_blind_actions,
    create_game_over_actions, create_menu_actions, create_playing_actions,
    create_round_end_actions, create_shop_actions,
};
use balatro_engine::card::{Card, Rank, Suit};
use balatro_engine::deck::DeckType;
use balatro_engine::hand::Hand;
use balatro_engine::play_limits::PlayLimits;

#[test]
fn test_menu_action_display() {
    let action = MenuAction::SelectDeck(DeckType::Red);
    assert_eq!(action.index(), 1);
    assert_eq!(action.description(), "Select Deck Type");
    assert!(action.is_valid());
}

#[test]
fn test_action_helpers() {
    let deck_types = all_deck_types();
    assert_eq!(deck_types.len(), 15);

    let stake_levels = all_stake_levels();
    assert_eq!(stake_levels.len(), 8);

    let menu_actions = create_menu_actions();
    assert!(menu_actions.len() > 10);
}

#[test]
fn test_fixed_action_lists() {
    assert_eq!(create_shop_actions().len(), 1);
    assert_eq!(create_blind_actions().len(), 4);
    assert_eq!(create_round_end_actions().len(), 1);
    assert_eq!(create_game_over_actions().len(), 4);
}

#[test]
fn test_playing_action_indices() {
    let action = PlayingAction::SelectCard(3);
    assert_eq!(action.card_index(), 3);
    assert_eq!(action.display_index(0), 5);
    assert_eq!(PlayingAction::PlaySelectedCards.display_index(0), 0);
    assert_eq!(PlayingAction::DiscardSelectedCards.display_index(0), 1);
}

#[test]
fn test_create_playing_actions_numbering() {
    let mut hand = Hand::with_cards(vec![
        Card::new(Suit::Hearts, Rank::Two),
        Card::new(Suit::Spades, Rank::Three),
    ]);
    hand.select_card(1).unwrap();
    let limits = PlayLimits::new();

    let actions = create_playing_actions(&hand, &limits);
    // Play, discard, one select and one deselect, one move right, one move
    // left, and the two sorts.
    assert_eq!(actions.len(), 8);
    assert_eq!(actions[0].1, PlayingAction::PlaySelectedCards);
    assert_eq!(actions[1].1, PlayingAction::DiscardSelectedCards);
    assert_eq!(actions[2].1, PlayingAction::SelectCard(0));
    assert_eq!(actions[3].1, PlayingAction::DeselectCard(1));
    for (t, action) in actions.iter().enumerate() {
        assert_eq!(action.0 as usize, t);
    }

    // Without discards left, the discard action disappears.
    let mut limits = PlayLimits::with_limits(4, 0);
    limits.reset_remaining();
    let actions = create_playing_actions(&hand, &limits);
    assert_eq!(actions.len(), 7);
    assert_eq!(actions[1].1, PlayingAction::SelectCard(0));
}
