//! Tests for the engine: run creation, full play cycles and persistence.

use balatro_engine::deck::{Deck, DeckType};
use balatro_engine::engine::BalatroEngine;
use balatro_engine::game::GamePhase;
use balatro_engine::joker::{
    JokerConfig, JokerDefinition, JokerEffect, JokerEffectType, JokerInstance, JokerManager,
    JokerRarity,
};

fn create_test_joker() -> JokerInstance {
    let effect = JokerEffect {
        effect_type: JokerEffectType::Scoring,
        per_card: false,
        in_hand: false,
        condition: None,
        action: None,
        base_effect: None,
        state_modifiers: Vec::new(),
        special_type: None,
        mult: Some(4),
        chips: None,
        mult_multiplier: None,
        chips_multiplier: None,
        formula: None,
        result_type: None,
    };
    let def = JokerDefinition {
        id: "test_joker".to_string(),
        name: "Test Joker".to_string(),
        description: "A test joker".to_string(),
        rarity: JokerRarity::Common,
        cost: 3,
        effect,
        state: None,
        behavior: None,
    };
    let manager = JokerManager::from_config(JokerConfig {
        schema_version: "1.0.0".to_string(),
        jokers: vec![def],
    });
    manager.create_joker("test_joker").unwrap()
}

#[test]
fn test_engine_creation_and_initialization() {
    let engine = BalatroEngine::new(12345);
    assert_eq!(engine.random_seed(), 12345);
}

#[test]
fn test_engine_start_new_run() {
    let mut engine = BalatroEngine::new(12345);
    engine.start_new_default_run().unwrap();

    let game_state = engine.game_state();
    assert_eq!(game_state.phase, GamePhase::BlindSelect);
    assert_eq!(game_state.ante, 1);
}

#[test]
fn test_full_game_cycle() {
    let mut engine = BalatroEngine::new(12345);
    engine.start_new_default_run().unwrap();

    let game_state = engine.game_state_mut();

    game_state.clear_and_draw_hand().unwrap();
    assert_eq!(game_state.hand.len(), 8);

    game_state.hand.select_card(0).unwrap();
    game_state.hand.select_card(1).unwrap();
    game_state.hand.select_card(2).unwrap();
    let score = game_state.play_hand().unwrap();
    assert!(score > 0);
    assert_eq!(game_state.hand.len(), 5);

    game_state.draw_hand().unwrap();
    assert_eq!(game_state.hand.len(), 8);

    game_state.end_round().unwrap();
    assert_eq!(game_state.phase, GamePhase::RoundEnd);

    game_state.start_new_ante().unwrap();
    assert_eq!(game_state.ante, 2);
    assert_eq!(game_state.phase, GamePhase::BlindSelect);
}

#[test]
fn test_joker_interaction_with_game_state() {
    let mut engine = BalatroEngine::new(12345);
    engine.start_new_default_run().unwrap();

    let game_state = engine.game_state_mut();
    game_state.jokers.push(create_test_joker());

    game_state.clear_and_draw_hand().unwrap();

    game_state.hand.select_card(0).unwrap();
    game_state.hand.select_card(1).unwrap();
    game_state.hand.select_card(2).unwrap();

    let score = game_state.play_hand().unwrap();
    assert!(score > 0);
}

#[test]
fn test_deck_interaction_with_game_state() {
    let mut engine = BalatroEngine::new(12345);
    engine.start_new_default_run().unwrap();

    let game_state = engine.game_state_mut();

    game_state.deck = Deck::new(DeckType::Blue);

    game_state.clear_and_draw_hand().unwrap();
    assert_eq!(game_state.hand.len(), 8);
    assert_eq!(game_state.deck.n_remaining_cards(), 44);
}

#[test]
fn test_multiple_rounds() {
    let mut engine = BalatroEngine::new(12345);
    engine.start_new_default_run().unwrap();

    let game_state = engine.game_state_mut();

    for round in 1..=3 {
        game_state.clear_and_draw_hand().unwrap();

        game_state.hand.select_card(0).unwrap();
        game_state.hand.select_card(1).unwrap();
        game_state.hand.select_card(2).unwrap();

        game_state.play_hand().unwrap();
        game_state.end_round().unwrap();

        assert_eq!(game_state.round_number, round + 1);
    }
}

#[test]
fn test_engine_state_persistence() {
    let mut engine = BalatroEngine::new(12345);
    engine.start_new_default_run().unwrap();

    let game_state = engine.game_state_mut();
    game_state.money = 100;
    game_state.ante = 3;

    let game_state = engine.game_state();
    assert_eq!(game_state.money, 100);
    assert_eq!(game_state.ante, 3);
}

#[test]
fn test_engine_selections() {
    let mut engine = BalatroEngine::new(7);
    assert_eq!(engine.selected_deck(), Some(&DeckType::Red));
    engine.set_selected_deck(DeckType::Blue);
    engine.set_selected_stake(balatro_engine::stakes::StakeLevel::Gold);

    engine.start_new_run_with_selections().unwrap();
    assert!(engine.selected_deck().is_none());
    assert!(engine.selected_stake().is_none());
    let gs = engine.game_state();
    assert_eq!(gs.deck.deck_type, DeckType::Blue);
    assert_eq!(gs.stake.level, balatro_engine::stakes::StakeLevel::Gold);

    assert_eq!(engine.available_deck_types().len(), 15);
    assert_eq!(engine.available_stake_levels().len(), 8);
}

#[test]
fn test_same_seed_same_shuffled_run() {
    // Two engines with one seed deal identical hands.
    let mut e1 = BalatroEngine::new(2024);
    let mut e2 = BalatroEngine::new(2024);
    e1.start_new_default_run().unwrap();
    e2.start_new_default_run().unwrap();
    e1.game_state_mut().clear_and_draw_hand().unwrap();
    e2.game_state_mut().clear_and_draw_hand().unwrap();

    let ids1: Vec<u64> = e1.game_state().hand.cards().iter().map(|c| c.id).collect();
    let ids2: Vec<u64> = e2.game_state().hand.cards().iter().map(|c| c.id).collect();
    assert_eq!(ids1, ids2);
}
