//! A rules engine for a roguelike poker deck-builder: deck, hand and card
//! state for one run, poker-hand detection with exact scoring subsets, a
//! four-phase scoring pipeline with per-card retriggers, and a data-driven
//! catalogue of joker, planet and stake modifiers.

pub mod actions;
pub mod arith;
pub mod blind;
pub mod card;
pub mod consumable;
pub mod deck;
pub mod detect;
pub mod driver;
pub mod engine;
pub mod error;
pub mod game;
pub mod hand;
pub mod joker;
pub mod planet;
pub mod play_limits;
pub mod scoring;
pub mod stakes;
pub mod strutil;
pub mod rng;

use vstd::prelude::*;

verus! {

} // verus!
