//! The game state of one run and the operations the driver layer calls:
//! drawing and playing hands, ending rounds, starting antes, and the
//! decision logic behind each phase's actions. A play either completes or
//! fails before any hand, deck or money mutation is committed.

use vstd::prelude::*;

use crate::actions::{PlayingAction, RoundEndAction, ShopAction};
use crate::arith::{add_sat_i64, cap_i64};
use crate::blind::{Blind, BlindProcessor, BlindStatus, BlindType, UpcomingBlinds, BossEffect};
use crate::card::Card;
use crate::consumable::Consumable;
use crate::deck::{Deck, DeckType};
use crate::detect::spec_classify;
use crate::error::{GameError, GameResult};
use crate::hand::Hand;
use crate::joker::JokerInstance;
use crate::planet::{Planets, find_planet_index};
use crate::play_limits::PlayLimits;
use crate::rng::GameRngManager;
use crate::scoring::{calculate_hand_score, spec_play_score};
use crate::stakes::{Stake, StakeLevel};

verus! {

/// Current game phase.
#[derive(Debug, Clone, Copy, PartialEq, Eq, Structural)]
pub enum GamePhase {
    Shop,
    BlindSelect,
    Playing,
    RoundEnd,
    GameOver,
}

/// Main game state of one run.
#[derive(Debug, Clone)]
pub struct GameState {
    pub phase: GamePhase,
    pub ante: u32,
    pub hand_size: usize,
    pub money: i64,
    pub score: u64,
    pub deck: Deck,
    pub stake: Stake,
    pub jokers: Vec<JokerInstance>,
    pub hand: Hand,
    pub upcoming_blinds: UpcomingBlinds,
    pub consumables: Vec<Consumable>,
    pub round_number: u32,
    pub play_limits: PlayLimits,
    pub planets: Planets,
    pub rng: GameRngManager,
}

/// The planet entry a play of the given state scores from.
pub open spec fn spec_play_planet(gs: GameState) -> crate::planet::Planet {
    gs.planets.planets@[find_planet_index(
        gs.planets.planets@,
        spec_classify(gs.hand.spec_selected_by_position()),
    )]
}

impl GameState {
    /// Well-formedness of a run: the hand's selection is valid, every
    /// planet level is at least one, and the planet catalogue covers every
    /// hand type.
    pub open spec fn wf(self) -> bool {
        &&& self.hand.wf()
        &&& self.planets.wf()
        &&& self.planets.complete()
    }

    /// Create a new game state with default settings: a red deck, the
    /// white stake, the standard planet catalogue, fallback blinds, eight
    /// hand slots and four dollars.
    pub fn new(rng_manager: GameRngManager) -> (r: GameState)
        ensures
            r.phase == GamePhase::BlindSelect,
            r.ante == 1,
            r.hand_size == 8,
            r.money == 4,
            r.score == 0,
            r.jokers@.len() == 0,
            r.hand.cards@.len() == 0,
            r.hand.selected_indices@.len() == 0,
            r.consumables@.len() == 0,
            r.round_number == 1,
            r.deck.deck_type == DeckType::Red,
            r.deck.full_deck@.len() == 52,
            r.deck.cards@.to_multiset() == r.deck.full_deck@.to_multiset(),
            r.stake.level == StakeLevel::White,
            r.play_limits == (PlayLimits {
                n_hands: 4u32,
                n_discards: 3u32,
                n_hands_remaining: 4u32,
                n_discards_remaining: 3u32,
            }),
            r.wf(),
    {
        Self::new_with_settings(DeckType::Red, StakeLevel::White, rng_manager)
    }

    /// Create a new game state with the chosen deck type and stake level.
    pub fn new_with_settings(
        deck_type: DeckType,
        stake_level: StakeLevel,
        rng_manager: GameRngManager,
    ) -> (r: GameState)
        ensures
            r.phase == GamePhase::BlindSelect,
            r.ante == 1,
            r.hand_size == 8,
            r.money == 4,
            r.score == 0,
            r.jokers@.len() == 0,
            r.hand.cards@.len() == 0,
            r.hand.selected_indices@.len() == 0,
            r.consumables@.len() == 0,
            r.round_number == 1,
            r.deck.deck_type == deck_type,
            r.deck.full_deck@.len() == 52,
            r.deck.cards@.to_multiset() == r.deck.full_deck@.to_multiset(),
            r.stake.level == stake_level,
            r.play_limits == (PlayLimits {
                n_hands: 4u32,
                n_discards: 3u32,
                n_hands_remaining: 4u32,
                n_discards_remaining: 3u32,
            }),
            r.wf(),
    {
        let stake = Stake::new(stake_level);
        let upcoming_blinds = UpcomingBlinds::new(
            Blind::new("Small Blind 1".to_owned(), BlindType::Small, 300, 2),
            Blind::new("Big Blind 1".to_owned(), BlindType::Big, 450, 3),
            Blind::new_boss("Boss Blind 1".to_owned(), 600, 4, BossEffect::NoEffect),
        );
        let planets = match Planets::new_default() {
            Ok(p) => p,
            Err(_) => Planets::new_empty(),
        };
        proof {
            assert(planets.complete());
        }
        let mut rng = rng_manager;
        let mut deck = Deck::new(deck_type);
        deck.shuffle(&mut rng);
        GameState {
            phase: GamePhase::BlindSelect,
            ante: 1,
            hand_size: 8,
            money: 4,
            score: 0,
            deck,
            stake,
            jokers: Vec::new(),
            hand: Hand::new(),
            upcoming_blinds,
            consumables: Vec::new(),
            round_number: 1,
            play_limits: PlayLimits::new(),
            planets,
            rng,
        }
    }

    /// Draw cards from the deck until the hand is full; fails, changing
    /// nothing, when the hand is already full.
    pub fn draw_hand(&mut self) -> (r: GameResult<()>)
        requires
            old(self).wf(),
        ensures
            old(self).hand.cards@.len() >= old(self).hand_size ==> (r matches Err(e)
                && e is InvalidGameState && *final(self) == *old(self)),
            old(self).hand.cards@.len() < old(self).hand_size ==> (r is Ok && {
                let want = old(self).hand_size - old(self).hand.cards@.len();
                let got = vstd::math::min(want as int, old(self).deck.cards@.len() as int);
                &&& final(self).hand.cards@ == old(self).hand.cards@ + old(self).deck.cards@.take(
                    got,
                )
                &&& final(self).hand.selected_indices == old(self).hand.selected_indices
                &&& final(self).deck.cards@ == old(self).deck.cards@.skip(got)
                &&& final(self).deck.full_deck == old(self).deck.full_deck
                &&& final(self).deck.discard_pile == old(self).deck.discard_pile
                &&& unchanged_but_hand_and_deck(*old(self), *final(self))
            }),
            final(self).wf(),
    {
        if self.hand.len() >= self.hand_size {
            return Err(GameError::InvalidGameState("hand is already full".to_owned()));
        }
        let want = self.hand_size - self.hand.len();
        let drawn = match self.deck.draw_multiple(want) {
            Ok(v) => v,
            Err(e) => {
                proof {
                    assert(false);
                }
                return Err(e);
            },
        };
        let ghost drawn_seq = drawn@;
        let count = drawn.len();
        let mut k: usize = 0;
        let mut cards = drawn;
        while k < count
            invariant
                k <= count,
                count == drawn_seq.len(),
                cards@ == drawn_seq,
                self.hand.cards@ == old(self).hand.cards@ + drawn_seq.take(k as int),
                self.hand.selected_indices == old(self).hand.selected_indices,
                self.hand.wf(),
                self.phase == old(self).phase,
                self.ante == old(self).ante,
                self.hand_size == old(self).hand_size,
                self.money == old(self).money,
                self.score == old(self).score,
                self.deck.full_deck == old(self).deck.full_deck,
                self.deck.discard_pile == old(self).deck.discard_pile,
                self.deck.deck_type == old(self).deck.deck_type,
                self.deck.cards@ == old(self).deck.cards@.skip(
                    vstd::math::min(
                        (old(self).hand_size - old(self).hand.cards@.len()) as int,
                        old(self).deck.cards@.len() as int,
                    ),
                ),
                self.stake == old(self).stake,
                self.jokers == old(self).jokers,
                self.upcoming_blinds == old(self).upcoming_blinds,
                self.consumables == old(self).consumables,
                self.round_number == old(self).round_number,
                self.play_limits == old(self).play_limits,
                self.planets == old(self).planets,
                self.rng == old(self).rng,
            decreases count - k,
        {
            proof {
                assert(drawn_seq.take(k + 1) =~= drawn_seq.take(k as int).push(drawn_seq[k as int]));
                assert((old(self).hand.cards@ + drawn_seq.take(k as int)).push(drawn_seq[k as int])
                    =~= old(self).hand.cards@ + drawn_seq.take(k + 1));
            }
            let card = cards[k];
            self.hand.add_card(card);
            k = k + 1;
        }
        proof {
            assert(drawn_seq.take(count as int) =~= drawn_seq);
        }
        Ok(())
    }

    /// Clear the hand, refill it from the deck and sort it by descending
    /// rank. Fails only when the hand size is zero.
    pub fn clear_and_draw_hand(&mut self) -> (r: GameResult<()>)
        requires
            old(self).wf(),
        ensures
            final(self).wf(),
            old(self).hand_size == 0 ==> (r matches Err(e) && e is InvalidGameState),
            old(self).hand_size > 0 ==> (r is Ok && {
                let got = vstd::math::min(
                    old(self).hand_size as int,
                    old(self).deck.cards@.len() as int,
                );
                &&& final(self).hand.cards@.to_multiset() == old(self).deck.cards@.take(
                    got,
                ).to_multiset()
                &&& crate::hand::sorted_by(final(self).hand.cards@, false)
                &&& final(self).hand.selected_indices@.len() == 0
                &&& final(self).deck.cards@ == old(self).deck.cards@.skip(got)
                &&& final(self).deck.full_deck == old(self).deck.full_deck
                &&& final(self).deck.discard_pile == old(self).deck.discard_pile
                &&& unchanged_but_hand_and_deck(*old(self), *final(self))
            }),
    {
        self.hand.clear();
        match self.draw_hand() {
            Ok(()) => {},
            Err(e) => {
                return Err(e);
            },
        }
        self.hand.sort_by_rank_desc();
        proof {
            assert(final(self).hand.cards@.to_multiset() == old(self).deck.cards@.take(
                vstd::math::min(old(self).hand_size as int, old(self).deck.cards@.len() as int),
            ).to_multiset()) by {
                broadcast use vstd::seq_lib::group_to_multiset_ensures;

                assert(Seq::<Card>::empty() + old(self).deck.cards@.take(
                    vstd::math::min(old(self).hand_size as int, old(self).deck.cards@.len() as int),
                ) =~= old(self).deck.cards@.take(
                    vstd::math::min(old(self).hand_size as int, old(self).deck.cards@.len() as int),
                ));
            }
        }
        Ok(())
    }

    /// Play the selected cards: score them through the four-phase pipeline,
    /// record the final score, collect the gold-seal money, and discard the
    /// played cards into the deck's discard pile. Fails, changing nothing,
    /// when no card is selected.
    pub fn play_hand(&mut self) -> (r: GameResult<u64>)
        requires
            old(self).wf(),
        ensures
            final(self).wf(),
            old(self).hand.selected_indices@.len() == 0 ==> (r matches Err(e)
                && e is InvalidGameState && *final(self) == *old(self)),
            old(self).hand.selected_indices@.len() > 0 ==> (r matches Ok(score) && {
                let outcome = spec_play_score(
                    old(self).jokers@,
                    spec_play_planet(*old(self)),
                    old(self).hand,
                );
                &&& score == outcome.0.spec_final_score()
                &&& final(self).score == score
                &&& final(self).money == cap_i64(old(self).money + cap_i64(outcome.1))
                &&& final(self).hand.cards@ == old(self).hand.spec_unselected_cards()
                &&& final(self).hand.selected_indices@.len() == 0
                &&& final(self).deck.discard_pile@ == old(self).deck.discard_pile@ + old(self).hand.spec_selected_by_position().reverse()
                &&& final(self).deck.cards == old(self).deck.cards
                &&& final(self).deck.full_deck == old(self).deck.full_deck
                &&& final(self).deck.deck_type == old(self).deck.deck_type
                &&& final(self).upcoming_blinds == old(self).upcoming_blinds
                &&& final(self).phase == old(self).phase
                &&& final(self).ante == old(self).ante
                &&& final(self).hand_size == old(self).hand_size
                &&& final(self).jokers == old(self).jokers
                &&& final(self).planets == old(self).planets
                &&& final(self).play_limits == old(self).play_limits
                &&& final(self).round_number == old(self).round_number
                &&& final(self).stake == old(self).stake
                &&& final(self).consumables == old(self).consumables
                &&& final(self).rng == old(self).rng
            }),
    {
        let (hand_score, money_gain) = match calculate_hand_score(
            &self.jokers,
            &self.planets,
            &self.hand,
        ) {
            Ok(p) => p,
            Err(e) => {
                proof {
                    if self.hand.selected_indices@.len() > 0 {
                        assert(self.planets.has_planet(
                            spec_classify(self.hand.spec_selected_by_position()),
                        ));
                        assert(false);
                    }
                }
                return Err(e);
            },
        };
        let final_score = hand_score.final_score();
        self.score = final_score;
        let gain: i64 = if money_gain > i64::MAX as u64 {
            i64::MAX
        } else {
            money_gain as i64
        };
        self.money = add_sat_i64(self.money, gain);
        match self.hand.discard_selected_cards(&mut self.deck) {
            Ok(()) => {},
            Err(e) => {
                proof {
                    assert(false);
                }
                return Err(e);
            },
        }
        Ok(final_score)
    }

    /// End the current round: advance the round number and move to the
    /// round-end phase.
    pub fn end_round(&mut self) -> (r: GameResult<()>)
        ensures
            r is Ok,
            final(self).round_number == crate::planet::cap_u32(old(self).round_number + 1),
            final(self).phase == GamePhase::RoundEnd,
            unchanged_but_phase_round(*old(self), *final(self)),
    {
        if self.round_number < u32::MAX {
            self.round_number = self.round_number + 1;
        }
        self.phase = GamePhase::RoundEnd;
        Ok(())
    }

    /// Start a new ante: advance the ante counter and move to blind
    /// selection.
    pub fn start_new_ante(&mut self) -> (r: GameResult<()>)
        ensures
            r is Ok,
            final(self).ante == crate::planet::cap_u32(old(self).ante + 1),
            final(self).phase == GamePhase::BlindSelect,
            unchanged_but_phase_ante(*old(self), *final(self)),
    {
        if self.ante < u32::MAX {
            self.ante = self.ante + 1;
        }
        self.phase = GamePhase::BlindSelect;
        Ok(())
    }

    /// The blind currently being faced: the small blind of the ante.
    pub fn get_current_blind(&self) -> (r: Option<&Blind>)
        ensures
            r matches Some(b) && *b == self.upcoming_blinds.small,
    {
        Some(&self.upcoming_blinds.small)
    }

    /// The blind of the given type for this ante.
    pub fn get_blind(&self, blind_type: BlindType) -> (r: Option<&Blind>)
        ensures
            r matches Some(b) && *b == self.upcoming_blinds.spec_blind_of(blind_type),
    {
        self.upcoming_blinds.get_blind(blind_type)
    }

    /// Whether the player has beaten the given blind. Beaten blinds are not
    /// tracked yet, so this is always false.
    pub fn has_beaten_blind(&self, blind_type: BlindType) -> (r: bool)
        ensures
            !r,
    {
        let _ = blind_type;
        false
    }

    /// Generate the blinds of the current ante from the given processor's
    /// score table.
    pub fn generate_blinds(&mut self, processor: &BlindProcessor) -> (r: GameResult<()>)
        ensures
            r is Ok ==> unchanged_but_blinds(*old(self), *final(self)),
            r is Err ==> *final(self) == *old(self),
            crate::blind::find_row_index(processor.base_score_manager.rows@, old(self).ante as i64)
                == -1 ==> r is Err,
    {
        match processor.generate_blinds(self.ante, &self.stake) {
            Ok(blinds) => {
                self.upcoming_blinds = blinds;
                Ok(())
            },
            Err(e) => Err(e),
        }
    }
}

impl GameState {
    /// Decide a shop action: moving to the next round selects the blinds.
    pub fn process_shop_action(&mut self, action: &ShopAction) -> (r: GameResult<()>)
        ensures
            r is Ok,
            final(self).phase == GamePhase::BlindSelect,
            unchanged_but_phase(*old(self), *final(self)),
    {
        match action {
            ShopAction::NextRound => {
                self.phase = GamePhase::BlindSelect;
                Ok(())
            },
        }
    }

    /// Decide a round-end action: cashing out opens the shop.
    pub fn process_round_end_action(&mut self, action: &RoundEndAction) -> (r: GameResult<()>)
        ensures
            r is Ok,
            final(self).phase == GamePhase::Shop,
            unchanged_but_phase(*old(self), *final(self)),
    {
        match action {
            RoundEndAction::CashOut => {
                self.phase = GamePhase::Shop;
                Ok(())
            },
        }
    }

    /// Decide a game-over choice: choice one restarts, anything else
    /// exits. The state itself is untouched.
    pub fn process_game_over_action(&mut self, choice: u32) -> (r: GameResult<bool>)
        ensures
            r matches Ok(restart) && restart == (choice == 1),
            *final(self) == *old(self),
    {
        if choice == 1 {
            Ok(true)
        } else {
            Ok(false)
        }
    }

    /// Decide a blind-select choice. With an upcoming blind, choice one
    /// activates it, reshuffles the deck, deals and sorts a fresh hand and
    /// resets the play limits; choice two skips it when it can be skipped;
    /// anything else changes nothing. With no upcoming blind, choice one
    /// starts the next ante; anything else changes nothing.
    pub fn process_blind_select_action(&mut self, choice: u32) -> (r: GameResult<()>)
        requires
            old(self).wf(),
            old(self).hand_size > 0,
        ensures
            final(self).wf(),
            ({
                let upcoming = old(self).upcoming_blinds.spec_next_upcoming();
                match upcoming {
                    Some(bt) => {
                        &&& (choice == 1 ==> (r is Ok && final(self).phase == GamePhase::Playing
                            && final(self).upcoming_blinds.spec_blind_of(bt).status
                            == BlindStatus::Active && final(self).play_limits == (PlayLimits {
                            n_hands_remaining: old(self).play_limits.n_hands,
                            n_discards_remaining: old(self).play_limits.n_discards,
                            ..old(self).play_limits
                        }) && final(self).hand.selected_indices@.len() == 0
                            && crate::hand::sorted_by(final(self).hand.cards@, false)
                            && final(self).hand.cards@.len() == vstd::math::min(
                            old(self).hand_size as int,
                            old(self).deck.full_deck@.len() as int,
                        ) && final(self).deck.full_deck == old(self).deck.full_deck
                            && final(self).deck.cards@.len() + final(self).hand.cards@.len() == old(self).deck.full_deck@.len()
                            && final(self).hand.cards@.to_multiset().add(
                            final(self).deck.cards@.to_multiset(),
                        ) == old(self).deck.full_deck@.to_multiset()))
                        &&& (choice == 2 && old(self).upcoming_blinds.spec_blind_of(bt).blind_type
                            != BlindType::Boss ==> (r is Ok && final(self).upcoming_blinds.spec_blind_of(
                            bt,
                        ).status == BlindStatus::Skipped && unchanged_but_blinds(
                            *old(self),
                            *final(self),
                        ) && final(self).phase == old(self).phase))
                        &&& (choice == 2 && old(self).upcoming_blinds.spec_blind_of(bt).blind_type
                            == BlindType::Boss ==> r is Ok && *final(self) == *old(self))
                        &&& (choice != 1 && choice != 2 ==> r is Ok && *final(self) == *old(self))
                    },
                    None => {
                        &&& (choice == 1 ==> (r is Ok && final(self).ante == crate::planet::cap_u32(
                            old(self).ante + 1,
                        ) && final(self).phase == GamePhase::BlindSelect))
                        &&& (choice != 1 ==> r is Ok && *final(self) == *old(self))
                    },
                }
            }),
    {
        let has_upcoming = self.upcoming_blinds.get_next_upcoming_blind().is_some();
        if has_upcoming {
            if choice == 1 {
                {
                    let blind = self.upcoming_blinds.get_next_upcoming_blind_mut();
                    blind.status = BlindStatus::Active;
                }
                self.phase = GamePhase::Playing;
                self.deck.shuffle(&mut self.rng);
                let ghost mid = *self;
                match self.clear_and_draw_hand() {
                    Ok(()) => {},
                    Err(e) => {
                        proof {
                            assert(false);
                        }
                        return Err(e);
                    },
                }
                self.play_limits.reset_remaining();
                proof {
                    broadcast use vstd::seq_lib::group_to_multiset_ensures;
                    broadcast use vstd::seq_lib::lemma_multiset_commutative;

                    let got = vstd::math::min(mid.hand_size as int, mid.deck.cards@.len() as int);
                    assert(self.hand.cards@.to_multiset().len() == mid.deck.cards@.take(
                        got,
                    ).to_multiset().len());
                    assert(self.hand.cards@.len() == got);
                    // The dealt hand and the remaining pile together still
                    // hold exactly the full deck.
                    assert(mid.deck.cards@.take(got) + mid.deck.cards@.skip(got) =~= mid.deck.cards@);
                    assert(self.hand.cards@.to_multiset().add(self.deck.cards@.to_multiset())
                        == mid.deck.cards@.to_multiset());
                }
                Ok(())
            } else if choice == 2 {
                let can = self.upcoming_blinds.get_next_upcoming_blind().unwrap().can_skip();
                if can {
                    let blind = self.upcoming_blinds.get_next_upcoming_blind_mut();
                    blind.status = BlindStatus::Skipped;
                }
                Ok(())
            } else {
                Ok(())
            }
        } else {
            if choice == 1 {
                self.start_new_ante()
            } else {
                Ok(())
            }
        }
    }

    /// Decide a playing action. Card selection, movement and sorting
    /// delegate to the hand; playing runs the scoring pipeline, spends a
    /// hand, and moves to the round end when the blind is beaten, to the
    /// game over when the hands run out, and otherwise refills the hand;
    /// discarding spends a discard, discards the selection and refills the
    /// hand. Playing with no hands left moves straight to the game over.
    #[verifier::rlimit(60)]
    pub fn process_playing_action(&mut self, action: &PlayingAction) -> (r: GameResult<()>)
        requires
            old(self).wf(),
        ensures
            final(self).wf(),
            ({
                match *action {
                    PlayingAction::SelectCard(idx) => {
                        &&& (idx as int >= old(self).hand.cards@.len() ==> (r matches Err(e)
                            && e is InvalidGameState && *final(self) == *old(self)))
                        &&& ((idx as int) < old(self).hand.cards@.len() ==> (r is Ok && final(self).hand.cards == old(self).hand.cards && final(self).hand.selected_indices@
                            == (if old(self).hand.spec_is_selected(idx) {
                            old(self).hand.selected_indices@
                        } else {
                            old(self).hand.selected_indices@.push(idx)
                        }) && unchanged_but_hand(*old(self), *final(self))))
                    },
                    PlayingAction::DeselectCard(idx) => r is Ok && final(self).hand.cards == old(self).hand.cards && final(self).hand.selected_indices@ == crate::hand::sel_without(
                        old(self).hand.selected_indices@,
                        idx,
                    ) && unchanged_but_hand(*old(self), *final(self)),
                    PlayingAction::SortByRank => r is Ok && crate::hand::sorted_by(
                        final(self).hand.cards@,
                        false,
                    ) && final(self).hand.cards@.to_multiset() == old(self).hand.cards@.to_multiset() && final(self).hand.spec_selected_id_set() == old(self).hand.spec_selected_id_set() && unchanged_but_hand(*old(self), *final(self)),
                    PlayingAction::SortBySuit => r is Ok && crate::hand::sorted_by(
                        final(self).hand.cards@,
                        true,
                    ) && final(self).hand.cards@.to_multiset() == old(self).hand.cards@.to_multiset() && final(self).hand.spec_selected_id_set() == old(self).hand.spec_selected_id_set() && unchanged_but_hand(*old(self), *final(self)),
                    PlayingAction::PlaySelectedCards => {
                        if old(self).play_limits.n_hands_remaining == 0 {
                            r is Ok && final(self).phase == GamePhase::GameOver
                                && unchanged_but_phase(*old(self), *final(self))
                        } else if old(self).hand.selected_indices@.len() == 0 {
                            (r matches Err(e) && e is InvalidGameState) && *final(self) == *old(self)
                        } else {
                            let outcome = spec_play_score(
                                old(self).jokers@,
                                spec_play_planet(*old(self)),
                                old(self).hand,
                            );
                            let played_score = outcome.0.spec_final_score();
                            let required = old(self).upcoming_blinds.small.required_score;
                            let beaten = required <= 0 || played_score >= required;
                            let kept = old(self).hand.spec_unselected_cards();
                            let draws = !beaten && old(self).play_limits.n_hands_remaining != 1
                                && kept.len() < old(self).hand_size;
                            let got = vstd::math::min(
                                old(self).hand_size - kept.len(),
                                old(self).deck.cards@.len() as int,
                            );
                            &&& r is Ok
                            &&& final(self).score == played_score
                            &&& final(self).money == cap_i64(old(self).money + cap_i64(outcome.1))
                            &&& final(self).play_limits.n_hands_remaining == old(self).play_limits.n_hands_remaining - 1
                            &&& (beaten ==> final(self).phase == GamePhase::RoundEnd)
                            &&& (!beaten && old(self).play_limits.n_hands_remaining == 1 ==> final(self).phase == GamePhase::GameOver)
                            &&& (!beaten && old(self).play_limits.n_hands_remaining != 1 ==> final(self).phase == old(self).phase)
                            &&& final(self).deck.discard_pile@ == old(self).deck.discard_pile@
                                + old(self).hand.spec_selected_by_position().reverse()
                            &&& final(self).deck.full_deck == old(self).deck.full_deck
                            &&& final(self).hand.selected_indices@.len() == 0
                            &&& (draws ==> final(self).hand.cards@ == kept + old(self).deck.cards@.take(got)
                                && final(self).deck.cards@ == old(self).deck.cards@.skip(got))
                            &&& (!draws ==> final(self).hand.cards@ == kept && final(self).deck.cards
                                == old(self).deck.cards)
                        }
                    },
                    PlayingAction::DiscardSelectedCards => {
                        if old(self).play_limits.n_discards_remaining == 0 {
                            r is Ok && *final(self) == *old(self)
                        } else if old(self).hand.selected_indices@.len() == 0 {
                            (r matches Err(e) && e is InvalidGameState) && *final(self) == *old(self)
                        } else {
                            let kept = old(self).hand.spec_unselected_cards();
                            let draws = kept.len() < old(self).hand_size;
                            let got = vstd::math::min(
                                old(self).hand_size - kept.len(),
                                old(self).deck.cards@.len() as int,
                            );
                            &&& r is Ok
                            &&& final(self).play_limits.n_discards_remaining == old(self).play_limits.n_discards_remaining - 1
                            &&& final(self).hand.selected_indices@.len() == 0
                            &&& final(self).deck.discard_pile@ == old(self).deck.discard_pile@
                                + old(self).hand.spec_selected_by_position().reverse()
                            &&& final(self).deck.full_deck == old(self).deck.full_deck
                            &&& (draws ==> final(self).hand.cards@ == kept + old(self).deck.cards@.take(got)
                                && final(self).deck.cards@ == old(self).deck.cards@.skip(got))
                            &&& (!draws ==> final(self).hand.cards@ == kept && final(self).deck.cards
                                == old(self).deck.cards)
                            &&& final(self).score == old(self).score
                            &&& final(self).money == old(self).money
                            &&& final(self).phase == old(self).phase
                        }
                    },
                    PlayingAction::MoveLeft(idx) => {
                        &&& ((idx == 0 || idx as int >= old(self).hand.cards@.len()) ==> (r
                            matches Err(e) && e is InvalidGameState && *final(self) == *old(self)))
                        &&& ((0 < idx as int && (idx as int) < old(self).hand.cards@.len()) ==> (
                        r is Ok && final(self).hand.cards@ == old(self).hand.cards@.update(
                            idx - 1,
                            old(self).hand.cards@[idx as int],
                        ).update(idx as int, old(self).hand.cards@[idx - 1]) && final(self).hand.selected_indices@ == old(self).hand.selected_indices@.map_values(
                            crate::hand::swap_mapper(idx),
                        ) && unchanged_but_hand(*old(self), *final(self))))
                    },
                    PlayingAction::MoveRight(idx) => {
                        &&& ((old(self).hand.cards@.len() == 0 || idx + 1 >= old(self).hand.cards@.len()) ==> (r matches Err(e) && e is InvalidGameState && *final(self)
                            == *old(self)))
                        &&& (idx + 1 < old(self).hand.cards@.len() ==> (r is Ok && final(self).hand.cards@ == old(self).hand.cards@.update(
                            idx as int,
                            old(self).hand.cards@[idx + 1],
                        ).update(idx + 1, old(self).hand.cards@[idx as int]) && final(self).hand.selected_indices@ == old(self).hand.selected_indices@.map_values(
                            crate::hand::swap_mapper((idx + 1) as usize),
                        ) && unchanged_but_hand(*old(self), *final(self))))
                    },
                }
            }),
    {
        match action {
            PlayingAction::PlaySelectedCards => {
                if !self.play_limits.has_hands_remaining() {
                    self.phase = GamePhase::GameOver;
                    return Ok(());
                }
                let score = match self.play_hand() {
                    Ok(s) => s,
                    Err(e) => {
                        return Err(e);
                    },
                };
                self.play_limits.decrement_hands();
                let required = self.upcoming_blinds.small.required_score;
                let beaten = required <= 0 || score >= (required as u64);
                if beaten {
                    self.phase = GamePhase::RoundEnd;
                } else if !self.play_limits.has_hands_remaining() {
                    self.phase = GamePhase::GameOver;
                } else {
                    if self.hand.len() < self.hand_size {
                        match self.draw_hand() {
                            Ok(()) => {},
                            Err(e) => {
                                return Err(e);
                            },
                        }
                    }
                }
                Ok(())
            },
            PlayingAction::DiscardSelectedCards => {
                if !self.play_limits.has_discards_remaining() {
                    return Ok(());
                }
                match self.hand.discard_selected_cards(&mut self.deck) {
                    Ok(()) => {},
                    Err(e) => {
                        return Err(e);
                    },
                }
                if self.hand.len() < self.hand_size {
                    match self.draw_hand() {
                        Ok(()) => {},
                        Err(e) => {
                            return Err(e);
                        },
                    }
                }
                self.play_limits.decrement_discards();
                Ok(())
            },
            PlayingAction::SelectCard(idx) => {
                let r = self.hand.select_card(*idx);
                r
            },
            PlayingAction::DeselectCard(idx) => {
                self.hand.deselect_card(*idx);
                Ok(())
            },
            PlayingAction::MoveRight(idx) => self.hand.move_right(*idx),
            PlayingAction::MoveLeft(idx) => self.hand.move_left(*idx),
            PlayingAction::SortByRank => {
                self.hand.sort_by_rank_desc();
                Ok(())
            },
            PlayingAction::SortBySuit => {
                self.hand.sort_by_suit_then_rank();
                Ok(())
            },
        }
    }
}

/// The parts of the state that changing only the phase does not touch.
pub open spec fn unchanged_but_phase(pre: GameState, post: GameState) -> bool {
    &&& post.ante == pre.ante
    &&& post.hand_size == pre.hand_size
    &&& post.money == pre.money
    &&& post.score == pre.score
    &&& post.deck == pre.deck
    &&& post.stake == pre.stake
    &&& post.jokers == pre.jokers
    &&& post.hand == pre.hand
    &&& post.upcoming_blinds == pre.upcoming_blinds
    &&& post.consumables == pre.consumables
    &&& post.round_number == pre.round_number
    &&& post.play_limits == pre.play_limits
    &&& post.planets == pre.planets
    &&& post.rng == pre.rng
}

/// The parts of the state that hand-only actions do not touch.
pub open spec fn unchanged_but_hand(pre: GameState, post: GameState) -> bool {
    &&& post.phase == pre.phase
    &&& post.ante == pre.ante
    &&& post.hand_size == pre.hand_size
    &&& post.money == pre.money
    &&& post.score == pre.score
    &&& post.deck == pre.deck
    &&& post.stake == pre.stake
    &&& post.jokers == pre.jokers
    &&& post.upcoming_blinds == pre.upcoming_blinds
    &&& post.consumables == pre.consumables
    &&& post.round_number == pre.round_number
    &&& post.play_limits == pre.play_limits
    &&& post.planets == pre.planets
    &&& post.rng == pre.rng
}

/// The parts of the state that drawing a hand does not touch.
pub open spec fn unchanged_but_hand_and_deck(pre: GameState, post: GameState) -> bool {
    &&& post.phase == pre.phase
    &&& post.ante == pre.ante
    &&& post.hand_size == pre.hand_size
    &&& post.money == pre.money
    &&& post.score == pre.score
    &&& post.stake == pre.stake
    &&& post.jokers == pre.jokers
    &&& post.upcoming_blinds == pre.upcoming_blinds
    &&& post.consumables == pre.consumables
    &&& post.round_number == pre.round_number
    &&& post.play_limits == pre.play_limits
    &&& post.planets == pre.planets
    &&& post.rng == pre.rng
}

/// The parts of the state that ending a round does not touch.
pub open spec fn unchanged_but_phase_round(pre: GameState, post: GameState) -> bool {
    &&& post.ante == pre.ante
    &&& post.hand_size == pre.hand_size
    &&& post.money == pre.money
    &&& post.score == pre.score
    &&& post.deck == pre.deck
    &&& post.stake == pre.stake
    &&& post.jokers == pre.jokers
    &&& post.hand == pre.hand
    &&& post.upcoming_blinds == pre.upcoming_blinds
    &&& post.consumables == pre.consumables
    &&& post.play_limits == pre.play_limits
    &&& post.planets == pre.planets
    &&& post.rng == pre.rng
}

/// The parts of the state that starting an ante does not touch.
pub open spec fn unchanged_but_phase_ante(pre: GameState, post: GameState) -> bool {
    &&& post.hand_size == pre.hand_size
    &&& post.money == pre.money
    &&& post.score == pre.score
    &&& post.deck == pre.deck
    &&& post.stake == pre.stake
    &&& post.jokers == pre.jokers
    &&& post.hand == pre.hand
    &&& post.upcoming_blinds == pre.upcoming_blinds
    &&& post.consumables == pre.consumables
    &&& post.round_number == pre.round_number
    &&& post.play_limits == pre.play_limits
    &&& post.planets == pre.planets
    &&& post.rng == pre.rng
}

/// The parts of the state that regenerating the blinds does not touch.
pub open spec fn unchanged_but_blinds(pre: GameState, post: GameState) -> bool {
    &&& post.phase == pre.phase
    &&& post.ante == pre.ante
    &&& post.hand_size == pre.hand_size
    &&& post.money == pre.money
    &&& post.score == pre.score
    &&& post.deck == pre.deck
    &&& post.stake == pre.stake
    &&& post.jokers == pre.jokers
    &&& post.hand == pre.hand
    &&& post.consumables == pre.consumables
    &&& post.round_number == pre.round_number
    &&& post.play_limits == pre.play_limits
    &&& post.planets == pre.planets
    &&& post.rng == pre.rng
}

} // verus!
