//! Tests for the scoring pipeline: base scores, enhancements, editions,
//! retriggers and whole-hand joker effects.

use balatro_engine::card::{Card, Enhancement, Rank, Seal, Suit};
use balatro_engine::game::GameState;
use balatro_engine::hand::Hand;
use balatro_engine::joker::{
    ActionType, ConditionType, JokerAction, JokerCondition, JokerConfig, JokerDefinition,
    JokerEffect, JokerEffectType, JokerInstance, JokerManager, JokerRarity,
};
use balatro_engine::planet::PokerHand;
use balatro_engine::rng::GameRngManager;
use balatro_engine::scoring::HandScore;

fn empty_effect(effect_type: JokerEffectType) -> JokerEffect {
    JokerEffect {
        effect_type,
        per_card: false,
        in_hand: false,
        condition: None,
        action: None,
        base_effect: None,
        state_modifiers: Vec::new(),
        special_type: None,
        mult: None,
        chips: None,
        mult_multiplier: None,
        chips_multiplier: None,
        formula: None,
        result_type: None,
    }
}

fn joker_with_effect(id: &str, effect: JokerEffect) -> JokerInstance {
    let def = JokerDefinition {
        id: id.to_string(),
        name: id.to_string(),
        description: String::new(),
        rarity: JokerRarity::Common,
        cost: 3,
        effect,
        state: None,
        behavior: None,
    };
    let manager = JokerManager::from_config(JokerConfig {
        schema_version: "1.0.0".to_string(),
        jokers: vec![def],
    });
    manager.create_joker(id).unwrap()
}

fn state_with_hand(cards: Vec<Card>) -> GameState {
    let mut gs = GameState::new(GameRngManager::new(1));
    gs.hand = Hand::with_cards(cards);
    gs
}

/// The summed base chip values of a hand.
fn calculate_base_score(cards: &[Card]) -> u64 {
    cards.iter().map(|card| card.chip_value()).sum()
}

/// Assert that a score lies in an expected range.
fn assert_score_in_range(score: u64, min: u64, max: u64) {
    assert!(score >= min, "score {} is below minimum {}", score, min);
    assert!(score <= max, "score {} is above maximum {}", score, max);
}

#[test]
fn test_score_reflects_card_chips() {
    // A played high-value hand scores at least its base chips times the
    // base mult and stays within an order-of-magnitude bound.
    let cards = vec![
        Card::with_id(100, Suit::Hearts, Rank::King),
        Card::with_id(101, Suit::Spades, Rank::King),
        Card::with_id(102, Suit::Diamonds, Rank::King),
        Card::with_id(103, Suit::Clubs, Rank::King),
        Card::with_id(104, Suit::Hearts, Rank::Ace),
    ];
    let chips = calculate_base_score(&cards);
    assert_eq!(chips, 51);

    let mut gs = state_with_hand(cards);
    for i in 0..4 {
        gs.hand.select_card(i).unwrap();
    }
    let score = gs.play_hand().unwrap();
    // Four of a kind: (60 + 40) chips at mult 7.
    assert_score_in_range(score, 100, 1000);
    assert_eq!(score, 700);
}

#[test]
fn test_hand_score_accumulator() {
    let mut hs = HandScore::new();
    assert_eq!(hs.chip_score, 0);
    assert_eq!(hs.mult_score, 100);

    hs.add_chips(30);
    hs.add_mult(4);
    assert_eq!(hs.chip_score, 30);
    assert_eq!(hs.mult_score, 500);

    hs.scale_mult(150, 100);
    assert_eq!(hs.mult_score, 750);

    // 30 chips times a multiplier of 7.5 gives 225.
    assert_eq!(hs.final_score(), 225);
}

#[test]
fn test_full_house_base_score() {
    // Kings over aces form a full house; the base score is the full-house
    // planet's effective base, and every card adds its chips once.
    let mut gs = state_with_hand(vec![
        Card::with_id(100, Suit::Hearts, Rank::King),
        Card::with_id(101, Suit::Spades, Rank::King),
        Card::with_id(102, Suit::Diamonds, Rank::King),
        Card::with_id(103, Suit::Clubs, Rank::Ace),
        Card::with_id(104, Suit::Hearts, Rank::Ace),
    ]);
    for i in 0..5 {
        gs.hand.select_card(i).unwrap();
    }

    let base = gs.planets.get_planet(PokerHand::FullHouse).unwrap().get_base_score();
    assert_eq!(base.chip_score, 40);
    assert_eq!(base.mult_score, 400);

    let score = gs.play_hand().unwrap();
    // Chips: 40 base + 3 kings at 10 + 2 aces at 11 = 92; mult 4.
    assert_eq!(score, 368);
}

#[test]
fn test_straight_scores_all_five_cards() {
    // A mixed-suit run of five classifies as a straight and every card of
    // the run scores.
    let mut gs = state_with_hand(vec![
        Card::with_id(100, Suit::Hearts, Rank::Two),
        Card::with_id(101, Suit::Diamonds, Rank::Three),
        Card::with_id(102, Suit::Clubs, Rank::Four),
        Card::with_id(103, Suit::Spades, Rank::Five),
        Card::with_id(104, Suit::Hearts, Rank::Six),
    ]);
    for i in 0..5 {
        gs.hand.select_card(i).unwrap();
    }

    let detected = gs.planets.detect_poker_hand(&gs.hand.selected_cards()).unwrap();
    assert_eq!(detected.0, PokerHand::Straight);
    assert_eq!(detected.1.len(), 5);

    let score = gs.play_hand().unwrap();
    // Chips: 30 base + 2 + 3 + 4 + 5 + 6 = 50; mult 4.
    assert_eq!(score, 200);
}

#[test]
fn test_red_seal_and_retrigger_joker_triple_chain() {
    // A red seal gives one retrigger and one retrigger joker another, so a
    // single played card runs its whole chain three times.
    let mut card = Card::with_id(100, Suit::Hearts, Rank::Two);
    card.seal = Some(Seal::Red);

    let mut retrigger_effect = empty_effect(JokerEffectType::Conditional);
    retrigger_effect.per_card = true;
    retrigger_effect.condition = Some(JokerCondition {
        condition_type: ConditionType::Any,
        hand_type: None,
        suit: None,
        rank: None,
        field: None,
        operator: None,
        value: None,
        size: None,
    });
    retrigger_effect.action = Some(JokerAction {
        action_type: ActionType::Retrigger,
        mult: None,
        chips: None,
        mult_multiplier: None,
        chips_multiplier: None,
        count: Some(1),
        formula: None,
        result_type: None,
    });

    let mut gs = state_with_hand(vec![card]);
    gs.jokers.push(joker_with_effect("echo", retrigger_effect));
    gs.hand.select_card(0).unwrap();

    let score = gs.play_hand().unwrap();
    // High card base: 5 chips, mult 1. Three repetitions of +2 chips
    // give 5 + 6 = 11; without the retriggers it would be 7.
    assert_eq!(score, 11);
}

#[test]
fn test_enhancement_and_edition_effects() {
    // Bonus adds 30 chips; holographic adds 10 mult: one enhanced, edited
    // card played as a high card.
    let mut card = Card::with_id(100, Suit::Hearts, Rank::Two);
    card.enhancement = Some(Enhancement::Bonus);
    card.edition = balatro_engine::card::Edition::Holographic;

    let mut gs = state_with_hand(vec![card]);
    gs.hand.select_card(0).unwrap();

    let score = gs.play_hand().unwrap();
    // Chips: 5 + 2 + 30 = 37; mult: 1 + 10 = 11; total 407.
    assert_eq!(score, 407);
}

#[test]
fn test_steel_card_held_in_hand() {
    // A steel card left in the hand scales the mult by one and a half.
    let mut steel = Card::with_id(101, Suit::Spades, Rank::King);
    steel.enhancement = Some(Enhancement::Steel);

    let mut gs = state_with_hand(vec![Card::with_id(100, Suit::Hearts, Rank::Two), steel]);
    gs.hand.select_card(0).unwrap();

    let score = gs.play_hand().unwrap();
    // Chips: 5 + 2 = 7; mult: 1.0 scaled to 1.5; total 10 (truncated).
    assert_eq!(score, 10);
}

#[test]
fn test_held_card_joker_effect() {
    // A per-card conditional effect tied to the held-in-hand context
    // applies against each unselected card.
    let mut effect = empty_effect(JokerEffectType::Conditional);
    effect.per_card = true;
    effect.in_hand = true;
    effect.condition = Some(JokerCondition {
        condition_type: ConditionType::Any,
        hand_type: None,
        suit: None,
        rank: None,
        field: None,
        operator: None,
        value: None,
        size: None,
    });
    effect.action = Some(JokerAction {
        action_type: ActionType::AddScore,
        mult: Some(2),
        chips: None,
        mult_multiplier: None,
        chips_multiplier: None,
        count: None,
        formula: None,
        result_type: None,
    });

    let mut gs = state_with_hand(vec![
        Card::with_id(100, Suit::Hearts, Rank::Two),
        Card::with_id(101, Suit::Spades, Rank::Nine),
    ]);
    gs.jokers.push(joker_with_effect("keepsake", effect));
    gs.hand.select_card(0).unwrap();

    let score = gs.play_hand().unwrap();
    // High card base 5 chips, mult 1; the played two adds 2 chips; the one
    // held card adds 2 mult: chips 7, mult 3; total 21.
    assert_eq!(score, 21);
}

#[test]
fn test_gold_seal_pays_money() {
    let mut card = Card::with_id(100, Suit::Hearts, Rank::Two);
    card.seal = Some(Seal::Gold);

    let mut gs = state_with_hand(vec![card]);
    gs.hand.select_card(0).unwrap();
    let money_before = gs.money;

    gs.play_hand().unwrap();
    assert_eq!(gs.money, money_before + 3);
}

#[test]
fn test_whole_hand_scoring_joker() {
    // A flat scoring joker applies once against the whole played set.
    let mut effect = empty_effect(JokerEffectType::Scoring);
    effect.mult = Some(4);

    let mut gs = state_with_hand(vec![Card::with_id(100, Suit::Hearts, Rank::Two)]);
    gs.jokers.push(joker_with_effect("flat", effect));
    gs.hand.select_card(0).unwrap();

    let score = gs.play_hand().unwrap();
    // Chips: 5 + 2 = 7; mult: 1 + 4 = 5; total 35.
    assert_eq!(score, 35);
}

#[test]
fn test_per_card_conditional_joker() {
    // Played diamonds give +3 mult when scored.
    let mut effect = empty_effect(JokerEffectType::Conditional);
    effect.per_card = true;
    effect.condition = Some(JokerCondition {
        condition_type: ConditionType::SuitScored,
        hand_type: None,
        suit: Some(balatro_engine::joker::SuitWrapper::from_name("diamonds")),
        rank: None,
        field: None,
        operator: None,
        value: None,
        size: None,
    });
    effect.action = Some(JokerAction {
        action_type: ActionType::AddScore,
        mult: Some(3),
        chips: None,
        mult_multiplier: None,
        chips_multiplier: None,
        count: None,
        formula: None,
        result_type: None,
    });

    let mut gs = state_with_hand(vec![
        Card::with_id(100, Suit::Diamonds, Rank::Two),
        Card::with_id(101, Suit::Diamonds, Rank::Two),
    ]);
    gs.jokers.push(joker_with_effect("gleam", effect));
    gs.hand.select_card(0).unwrap();
    gs.hand.select_card(1).unwrap();

    let score = gs.play_hand().unwrap();
    // Pair base: 10 chips, 2 mult. Each diamond adds 2 chips and 3 mult:
    // chips 14, mult 2 + 6 = 8; total 112.
    assert_eq!(score, 112);
}

#[test]
fn test_play_discards_selection_to_deck() {
    let mut gs = state_with_hand(vec![
        Card::with_id(100, Suit::Hearts, Rank::Two),
        Card::with_id(101, Suit::Spades, Rank::Nine),
    ]);
    gs.hand.select_card(0).unwrap();
    let discard_before = gs.deck.discard_pile.len();

    gs.play_hand().unwrap();

    assert_eq!(gs.hand.len(), 1);
    assert_eq!(gs.hand.get(0).unwrap().id, 101);
    assert!(gs.hand.selected_indices().is_empty());
    assert_eq!(gs.deck.discard_pile.len(), discard_before + 1);
    assert_eq!(gs.deck.discard_pile.last().unwrap().id, 100);
}
