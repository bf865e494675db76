//! The engine: owns the run state, the run seed and the pre-run deck and
//! stake selections.

use vstd::prelude::*;

use crate::deck::DeckType;
use crate::error::GameResult;
use crate::game::GameState;
use crate::rng::GameRngManager;
use crate::stakes::StakeLevel;

verus! {

/// The main game engine that orchestrates all game systems.
pub struct BalatroEngine {
    pub game_state: Option<GameState>,
    pub random_seed: u64,
    pub selected_deck: Option<DeckType>,
    pub selected_stake: Option<StakeLevel>,
}

impl BalatroEngine {
    /// Create a new engine with the given seed; the red deck and the white
    /// stake start selected, and no run is underway.
    pub fn new(seed: u64) -> (r: BalatroEngine)
        ensures
            r.game_state is None,
            r.random_seed == seed,
            r.selected_deck == Some(DeckType::Red),
            r.selected_stake == Some(StakeLevel::White),
    {
        BalatroEngine {
            game_state: None,
            random_seed: seed,
            selected_deck: Some(DeckType::Red),
            selected_stake: Some(StakeLevel::White),
        }
    }

    /// Start a new run with default settings.
    pub fn start_new_default_run(&mut self) -> (r: GameResult<()>)
        ensures
            r is Ok,
            final(self).game_state matches Some(gs) && gs.wf() && gs.deck.deck_type
                == DeckType::Red && gs.stake.level == StakeLevel::White,
            final(self).random_seed == old(self).random_seed,
            final(self).selected_deck == old(self).selected_deck,
            final(self).selected_stake == old(self).selected_stake,
    {
        let rng = GameRngManager::new(self.random_seed);
        self.game_state = Some(GameState::new(rng));
        Ok(())
    }

    /// Start a new run with the given deck type and stake level.
    pub fn start_new_run(&mut self, deck_type: DeckType, stake_level: StakeLevel) -> (r: GameResult<
        (),
    >)
        ensures
            r is Ok,
            final(self).game_state matches Some(gs) && gs.wf() && gs.deck.deck_type == deck_type
                && gs.stake.level == stake_level,
            final(self).random_seed == old(self).random_seed,
            final(self).selected_deck == old(self).selected_deck,
            final(self).selected_stake == old(self).selected_stake,
    {
        let rng = GameRngManager::new(self.random_seed);
        self.game_state = Some(GameState::new_with_settings(deck_type, stake_level, rng));
        Ok(())
    }

    /// Start a new run with the currently selected deck and stake, taking
    /// the selections; a missing selection falls back to the red deck and
    /// the white stake.
    pub fn start_new_run_with_selections(&mut self) -> (r: GameResult<()>)
        ensures
            r is Ok,
            final(self).game_state matches Some(gs) && gs.wf() && gs.deck.deck_type == (match old(
                self,
            ).selected_deck {
                Some(d) => d,
                None => DeckType::Red,
            }) && gs.stake.level == (match old(self).selected_stake {
                Some(s) => s,
                None => StakeLevel::White,
            }),
            final(self).random_seed == old(self).random_seed,
            final(self).selected_deck is None,
            final(self).selected_stake is None,
    {
        let deck_type = match self.selected_deck {
            Some(d) => d,
            None => DeckType::Red,
        };
        let stake_level = match self.selected_stake {
            Some(s) => s,
            None => StakeLevel::White,
        };
        self.selected_deck = None;
        self.selected_stake = None;
        self.start_new_run(deck_type, stake_level)
    }

    /// Set the selected deck type.
    pub fn set_selected_deck(&mut self, deck_type: DeckType)
        ensures
            final(self).selected_deck == Some(deck_type),
            final(self).game_state == old(self).game_state,
            final(self).random_seed == old(self).random_seed,
            final(self).selected_stake == old(self).selected_stake,
    {
        self.selected_deck = Some(deck_type);
    }

    /// Set the selected stake level.
    pub fn set_selected_stake(&mut self, stake_level: StakeLevel)
        ensures
            final(self).selected_stake == Some(stake_level),
            final(self).game_state == old(self).game_state,
            final(self).random_seed == old(self).random_seed,
            final(self).selected_deck == old(self).selected_deck,
    {
        self.selected_stake = Some(stake_level);
    }

    /// The current game state; a run must be underway.
    pub fn game_state(&self) -> (r: &GameState)
        requires
            self.game_state is Some,
        ensures
            *r == self.game_state->Some_0,
    {
        match &self.game_state {
            Some(gs) => gs,
            None => {
                proof {
                    assert(false);
                }
                vstd::pervasive::unreached()
            },
        }
    }

    /// Mutable access to the current game state; a run must be underway.
    pub fn game_state_mut(&mut self) -> (r: &mut GameState)
        requires
            old(self).game_state is Some,
        ensures
            *r == old(self).game_state->Some_0,
            final(self).game_state == Some(*final(r)),
            final(self).random_seed == old(self).random_seed,
            final(self).selected_deck == old(self).selected_deck,
            final(self).selected_stake == old(self).selected_stake,
    {
        match &mut self.game_state {
            Some(gs) => gs,
            None => {
                proof {
                    assert(false);
                }
                vstd::pervasive::unreached()
            },
        }
    }

    /// All available deck types.
    pub fn available_deck_types(&self) -> (r: Vec<DeckType>)
        ensures
            r@.len() == 15,
    {
        crate::actions::all_deck_types()
    }

    /// All available stake levels.
    pub fn available_stake_levels(&self) -> (r: Vec<StakeLevel>)
        ensures
            r@.len() == 8,
    {
        crate::actions::all_stake_levels()
    }

    /// The selected deck type.
    pub fn selected_deck(&self) -> (r: Option<&DeckType>)
        ensures
            match self.selected_deck {
                Some(d) => r matches Some(p) && *p == d,
                None => r is None,
            },
    {
        self.selected_deck.as_ref()
    }

    /// The selected stake level.
    pub fn selected_stake(&self) -> (r: Option<&StakeLevel>)
        ensures
            match self.selected_stake {
                Some(s) => r matches Some(p) && *p == s,
                None => r is None,
            },
    {
        self.selected_stake.as_ref()
    }

    /// The run seed.
    pub fn random_seed(&self) -> (r: u64)
        ensures
            r == self.random_seed,
    {
        self.random_seed
    }
}

} // verus!
