//! Tests for the joker model: instances, stickers, rarities, the manager
//! and the catalogue validation.

use balatro_engine::card::{Rank, Suit};
use balatro_engine::joker::{
    ActionType, BehaviorAction, ConditionType, JokerAction, JokerBehavior, JokerCondition,
    JokerConfig, JokerDefinition, JokerEdition, JokerEffect, JokerEffectType, JokerManager,
    JokerRarity, JokerState, JokerSticker, RankWrapper, StateField, StateModifier, SuitWrapper,
};

fn empty_effect(effect_type: JokerEffectType) -> JokerEffect {
    JokerEffect {
        effect_type,
        per_card: false,
        in_hand: false,
        condition: None,
        action: None,
        base_effect: None,
        state_modifiers: Vec::new(),
        special_type: None,
        mult: None,
        chips: None,
        mult_multiplier: None,
        chips_multiplier: None,
        formula: None,
        result_type: None,
    }
}

fn scoring_def(id: &str, name: &str, rarity: JokerRarity, cost: i64, mult: u64) -> JokerDefinition {
    let mut effect = empty_effect(JokerEffectType::Scoring);
    effect.mult = Some(mult);
    JokerDefinition {
        id: id.to_string(),
        name: name.to_string(),
        description: "A test joker".to_string(),
        rarity,
        cost,
        effect,
        state: None,
        behavior: None,
    }
}

fn manager_with(defs: Vec<JokerDefinition>) -> JokerManager {
    JokerManager::from_config(JokerConfig { schema_version: "1.0.0".to_string(), jokers: defs })
}

#[test]
fn test_joker_instance_creation() {
    let manager = manager_with(vec![scoring_def("test_joker", "Test Joker", JokerRarity::Common, 3, 4)]);
    assert_eq!(manager.schema_version(), "1.0.0");
    let ids = manager.get_all_ids();
    assert_eq!(ids.len(), 1);
    assert_eq!(ids[0], "test_joker");

    let joker = manager.create_joker("test_joker").unwrap();
    assert_eq!(joker.definition.name, "Test Joker");
    assert_eq!(joker.definition.rarity, JokerRarity::Common);
    assert_eq!(joker.definition.cost, 3);
    assert_eq!(joker.sell_value(), 3);
    assert_eq!(joker.edition, JokerEdition::Base);
    assert!(joker.stickers.is_empty());
}

#[test]
fn test_create_joker_instance() {
    let manager = manager_with(vec![scoring_def("test_joker", "Test Joker", JokerRarity::Common, 3, 4)]);
    let joker = manager.create_joker("test_joker").unwrap();

    assert_eq!(joker.definition.name, "Test Joker");
    assert_eq!(joker.sell_value(), 3);

    assert!(manager.create_joker("missing").is_err());
}

#[test]
fn test_joker_instance_stickers() {
    let manager = manager_with(vec![scoring_def("test_joker", "Test Joker", JokerRarity::Common, 3, 4)]);
    let mut joker = manager.create_joker("test_joker").unwrap();

    joker.stickers.push(JokerSticker::Eternal);
    assert!(joker.has_sticker(JokerSticker::Eternal));
    assert!(!joker.has_sticker(JokerSticker::Perishable));
}

#[test]
fn test_joker_rarity_sell_values() {
    let manager = manager_with(vec![
        scoring_def("common_joker", "Common Joker", JokerRarity::Common, 3, 4),
        scoring_def("uncommon_joker", "Uncommon Joker", JokerRarity::Uncommon, 5, 8),
        scoring_def("rare_joker", "Rare Joker", JokerRarity::Rare, 7, 12),
        scoring_def("legendary_joker", "Legendary Joker", JokerRarity::Legendary, 10, 20),
    ]);

    assert_eq!(manager.create_joker("common_joker").unwrap().sell_value(), 3);
    assert_eq!(manager.create_joker("uncommon_joker").unwrap().sell_value(), 4);
    assert_eq!(manager.create_joker("rare_joker").unwrap().sell_value(), 5);
    assert_eq!(manager.create_joker("legendary_joker").unwrap().sell_value(), 6);
}

#[test]
fn test_joker_rarity_ordering() {
    assert!(JokerRarity::Common < JokerRarity::Uncommon);
    assert!(JokerRarity::Uncommon < JokerRarity::Rare);
    assert!(JokerRarity::Rare < JokerRarity::Legendary);
}

#[test]
fn test_joker_editions() {
    let manager = manager_with(vec![scoring_def("test_joker", "Test Joker", JokerRarity::Common, 3, 4)]);
    let mut joker = manager.create_joker("test_joker").unwrap();

    let editions = [
        JokerEdition::Base,
        JokerEdition::Foil,
        JokerEdition::Holographic,
        JokerEdition::Polychrome,
        JokerEdition::Negative,
    ];

    for edition in editions {
        joker.edition = edition.clone();
        assert_eq!(joker.edition, edition);
    }
}

#[test]
fn test_joker_stickers() {
    let manager = manager_with(vec![scoring_def("test_joker", "Test Joker", JokerRarity::Common, 3, 4)]);
    let mut joker = manager.create_joker("test_joker").unwrap();

    let stickers = [JokerSticker::Eternal, JokerSticker::Perishable, JokerSticker::Rental];

    for sticker in stickers {
        joker.stickers.push(sticker.clone());
        assert!(joker.has_sticker(sticker));
    }
}

#[test]
fn test_joker_multiple_stickers() {
    let manager = manager_with(vec![scoring_def("test_joker", "Test Joker", JokerRarity::Common, 3, 4)]);
    let mut joker = manager.create_joker("test_joker").unwrap();

    joker.stickers.push(JokerSticker::Eternal);
    joker.stickers.push(JokerSticker::Rental);

    assert!(joker.has_sticker(JokerSticker::Eternal));
    assert!(joker.has_sticker(JokerSticker::Rental));
    assert!(!joker.has_sticker(JokerSticker::Perishable));
}

#[test]
fn test_get_by_rarity() {
    let manager = manager_with(vec![
        scoring_def("common_joker", "Common Joker", JokerRarity::Common, 3, 4),
        scoring_def("uncommon_joker", "Uncommon Joker", JokerRarity::Uncommon, 5, 8),
    ]);
    let common_jokers = manager.get_by_rarity(JokerRarity::Common);
    let uncommon_jokers = manager.get_by_rarity(JokerRarity::Uncommon);

    assert_eq!(common_jokers.len(), 1);
    assert_eq!(uncommon_jokers.len(), 1);
    assert_eq!(common_jokers[0].id, "common_joker");
    assert_eq!(uncommon_jokers[0].id, "uncommon_joker");
}

#[test]
fn test_joker_manager_get_by_rarity() {
    let manager = manager_with(vec![
        scoring_def("common_joker", "Common Joker", JokerRarity::Common, 3, 4),
        scoring_def("uncommon_joker", "Uncommon Joker", JokerRarity::Uncommon, 5, 8),
    ]);
    assert_eq!(manager.get_by_rarity(JokerRarity::Common).len(), 1);
    assert_eq!(manager.get_by_rarity(JokerRarity::Rare).len(), 0);
    assert_eq!(manager.get_by_cost_range(4, 6).len(), 1);
}

#[test]
fn test_validation() {
    let manager = manager_with(vec![scoring_def("test_joker", "Test Joker", JokerRarity::Common, 3, 4)]);
    assert!(manager.validate().is_ok());
}

#[test]
fn test_joker_manager_validation() {
    let manager = manager_with(vec![scoring_def("test_joker", "Test Joker", JokerRarity::Common, 3, 4)]);
    assert!(manager.validate().is_ok());

    // A scoring effect without mult or chips is rejected.
    let mut bad = scoring_def("bad", "Bad", JokerRarity::Common, 3, 4);
    bad.effect.mult = None;
    let manager = manager_with(vec![bad]);
    let err = manager.validate();
    assert!(err.is_err());
    assert!(matches!(
        err.unwrap_err(),
        balatro_engine::error::GameError::InvalidJokerOperation(_)
    ));

    // A negative cost is rejected.
    let manager = manager_with(vec![scoring_def("neg", "Negative", JokerRarity::Common, -1, 4)]);
    assert!(manager.validate().is_err());
}

#[test]
fn test_validation_duplicate_id() {
    let manager = manager_with(vec![
        scoring_def("test_joker", "Test Joker", JokerRarity::Common, 3, 4),
        scoring_def("test_joker", "Another Test Joker", JokerRarity::Common, 3, 4),
    ]);
    assert!(manager.validate().is_err());
}

#[test]
fn test_conditional_joker_effect() {
    let mut effect = empty_effect(JokerEffectType::Conditional);
    effect.per_card = true;
    effect.condition = Some(JokerCondition {
        condition_type: ConditionType::SuitScored,
        hand_type: None,
        suit: Some(SuitWrapper::from_name("diamonds")),
        rank: None,
        field: None,
        operator: None,
        value: None,
        size: None,
    });
    effect.action = Some(JokerAction {
        action_type: ActionType::AddScore,
        mult: Some(3),
        chips: None,
        mult_multiplier: None,
        chips_multiplier: None,
        count: None,
        formula: None,
        result_type: None,
    });
    let def = JokerDefinition {
        id: "greedy_joker".to_string(),
        name: "Greedy Joker".to_string(),
        description: "Played diamonds give +3 mult when scored".to_string(),
        rarity: JokerRarity::Common,
        cost: 5,
        effect,
        state: None,
        behavior: None,
    };
    let manager = manager_with(vec![def]);
    let joker = manager.create_joker("greedy_joker").unwrap();

    assert_eq!(joker.definition.name, "Greedy Joker");
    assert_eq!(joker.definition.effect.effect_type, JokerEffectType::Conditional);
    assert!(joker.definition.effect.per_card);
    assert_eq!(joker.definition.effect.condition.as_ref().unwrap().suit.unwrap().suit(), Suit::Diamonds);
}

#[test]
fn test_dynamic_joker_effect() {
    let mut effect = empty_effect(JokerEffectType::Dynamic);
    effect.base_effect = Some(JokerAction {
        action_type: ActionType::AddScore,
        mult: None,
        chips: Some(100),
        mult_multiplier: None,
        chips_multiplier: None,
        count: None,
        formula: None,
        result_type: None,
    });
    effect.state_modifiers = vec![StateModifier {
        state_field: "hands_played".to_string(),
        multiplier: -500,
    }];
    let def = JokerDefinition {
        id: "melting_treat".to_string(),
        name: "Melting Treat".to_string(),
        description: "+100 chips, 5 fewer per hand played".to_string(),
        rarity: JokerRarity::Common,
        cost: 3,
        effect,
        state: Some(JokerState {
            persistent: true,
            fields: vec![StateField { name: "hands_played".to_string(), value: 0 }],
        }),
        behavior: Some(JokerBehavior {
            on_hand_played: Some(BehaviorAction {
                action_type: "modify_state".to_string(),
                field: Some("hands_played".to_string()),
                operation: Some("increment".to_string()),
                value: Some(1),
                target: None,
                special_type: None,
            }),
            on_round_end: None,
            on_discard: None,
            on_shop_open: None,
        }),
    };
    let manager = manager_with(vec![def]);
    let mut joker = manager.create_joker("melting_treat").unwrap();

    assert_eq!(joker.definition.effect.effect_type, JokerEffectType::Dynamic);
    assert!(joker.definition.state.is_some());
    assert!(joker.definition.behavior.is_some());
    assert_eq!(joker.state_value("hands_played"), Some(0));

    // The declared behavior is the only sanctioned state mutation.
    joker.on_hand_played();
    joker.on_hand_played();
    assert_eq!(joker.state_value("hands_played"), Some(2));
    joker.on_round_end();
    assert_eq!(joker.state_value("hands_played"), Some(2));
}

#[test]
fn test_rank_wrapper_names() {
    assert_eq!(RankWrapper::from_name("queen").rank(), Rank::Queen);
    assert_eq!(RankWrapper::from_name("two").rank(), Rank::Two);
    assert_eq!(RankWrapper::from_name("unknown").rank(), Rank::Ace);
    assert_eq!(SuitWrapper::from_name("spades").suit(), Suit::Spades);
    assert_eq!(SuitWrapper::from_name("unknown").suit(), Suit::Hearts);
}
