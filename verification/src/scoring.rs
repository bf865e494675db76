//! The scoring engine: the hand-score accumulator and the four-phase,
//! order-sensitive pipeline over one played hand. Chips are plain units;
//! the multiplier is held in hundredths (a value of 100 is a multiplier of
//! one), so the pipeline is exact integer arithmetic throughout, saturating
//! at `u64::MAX`.
//!
//! Phase order is load-bearing: played-hand scoring walks the scoring cards
//! in hand order, repeating each card's whole effect chain once per
//! retrigger; held-card effects walk the unselected cards left to right;
//! whole-hand joker effects apply last, in joker-list order. Formula-driven
//! (`calculate`) and opaque `special` effects contribute nothing here.

use vstd::prelude::*;

use crate::arith::{add_delta_sat, add_sat, cap, cap_i64, cap_signed, mul_div_sat, spec_scaled_delta};
use crate::card::{Card, Enhancement, Edition, Seal};
use crate::detect::spec_classify;
use crate::error::{GameError, GameResult};
use crate::hand::Hand;
use crate::joker::{
    ActionType, ConditionType, JokerAction, JokerCondition, JokerEffectType, JokerInstance,
    StateField, StateModifier, find_state_value,
};
use crate::planet::{Planet, Planets, PokerHand, spec_poker_hand_of_key};
use crate::strutil::str_eq;

verus! {

/// Hand score tracking: chips and the multiplier in hundredths.
#[derive(Debug, Clone, Copy, PartialEq, Eq, Structural)]
pub struct HandScore {
    pub chip_score: u64,
    /// The multiplier, in hundredths: 100 means a multiplier of one.
    pub mult_score: u64,
}

impl HandScore {
    /// A fresh accumulator: no chips, multiplier one.
    pub fn new() -> (r: HandScore)
        ensures
            r == (HandScore { chip_score: 0u64, mult_score: 100u64 }),
    {
        HandScore { chip_score: 0, mult_score: 100 }
    }

    /// The final score: chips times the multiplier, truncated to an integer.
    pub open spec fn spec_final_score(self) -> int {
        cap((self.chip_score * self.mult_score) / 100)
    }

    /// Get the final score by multiplying chips by the multiplier.
    pub fn final_score(&self) -> (r: u64)
        ensures
            r == self.spec_final_score(),
    {
        mul_div_sat(self.chip_score, self.mult_score, 100)
    }

    /// Add chips.
    pub fn add_chips(&mut self, chips: u64)
        ensures
            final(self).chip_score == cap(old(self).chip_score + chips),
            final(self).mult_score == old(self).mult_score,
    {
        self.chip_score = add_sat(self.chip_score, chips);
    }

    /// Add to the multiplier, in whole units.
    pub fn add_mult(&mut self, mult: u64)
        ensures
            final(self).mult_score == cap(old(self).mult_score + 100 * mult),
            final(self).chip_score == old(self).chip_score,
    {
        self.mult_score = add_sat(self.mult_score, crate::arith::mul_sat(100, mult));
        proof {
            if 100 * mult > u64::MAX {
                assert(cap(old(self).mult_score + cap(100 * mult)) == cap(
                    old(self).mult_score + 100 * mult,
                ));
            }
        }
    }

    /// Scale the multiplier by `num / den`.
    pub fn scale_mult(&mut self, num: u64, den: u64)
        requires
            den > 0,
        ensures
            final(self).mult_score == cap((old(self).mult_score * num) / (den as int)),
            final(self).chip_score == old(self).chip_score,
    {
        self.mult_score = mul_div_sat(self.mult_score, num, den);
    }

    /// Scale the chips by `num / den`.
    pub fn scale_chips(&mut self, num: u64, den: u64)
        requires
            den > 0,
        ensures
            final(self).chip_score == cap((old(self).chip_score * num) / (den as int)),
            final(self).mult_score == old(self).mult_score,
    {
        self.chip_score = mul_div_sat(self.chip_score, num, den);
    }

    /// Add a signed chip delta, clamping at zero.
    pub fn add_chip_delta(&mut self, delta: i64)
        ensures
            final(self).chip_score == cap_signed(old(self).chip_score + delta),
            final(self).mult_score == old(self).mult_score,
    {
        self.chip_score = add_delta_sat(self.chip_score, delta);
    }
}

/// The accumulator with chips added (saturating).
pub open spec fn hs_add_chips(hs: HandScore, x: int) -> HandScore {
    HandScore { chip_score: cap(hs.chip_score + x) as u64, mult_score: hs.mult_score }
}

/// The accumulator with whole multiplier units added (saturating).
pub open spec fn hs_add_mult_units(hs: HandScore, m: int) -> HandScore {
    HandScore { chip_score: hs.chip_score, mult_score: cap(hs.mult_score + 100 * m) as u64 }
}

/// The accumulator with the multiplier scaled by a percentage.
pub open spec fn hs_scale_mult(hs: HandScore, pct: int) -> HandScore {
    HandScore { chip_score: hs.chip_score, mult_score: cap((hs.mult_score * pct) / 100) as u64 }
}

/// The accumulator with the chips scaled by a percentage.
pub open spec fn hs_scale_chips(hs: HandScore, pct: int) -> HandScore {
    HandScore { chip_score: cap((hs.chip_score * pct) / 100) as u64, mult_score: hs.mult_score }
}

/// The accumulator with a signed chip delta applied, clamping at zero.
pub open spec fn hs_add_chip_delta(hs: HandScore, d: int) -> HandScore {
    HandScore { chip_score: cap_signed(hs.chip_score + d) as u64, mult_score: hs.mult_score }
}

/// An optional amount, defaulting to zero.
pub open spec fn or_zero(x: Option<u64>) -> int {
    match x {
        Some(v) => v as int,
        None => 0,
    }
}

/// An optional percentage, defaulting to one hundred (no scaling).
pub open spec fn or_hundred(x: Option<u64>) -> int {
    match x {
        Some(v) => v as int,
        None => 100,
    }
}

/// What one action does to the accumulator: `add_score` adds its chip and
/// mult amounts; `multiply_score` scales the mult and the chips by its
/// percentages; retriggers are counted elsewhere; formula and special
/// actions contribute nothing here.
pub open spec fn spec_apply_action(a: JokerAction, hs: HandScore) -> HandScore {
    match a.action_type {
        ActionType::AddScore => hs_add_mult_units(hs_add_chips(hs, or_zero(a.chips)), or_zero(a.mult)),
        ActionType::MultiplyScore => hs_scale_chips(
            hs_scale_mult(hs, or_hundred(a.mult_multiplier)),
            or_hundred(a.chips_multiplier),
        ),
        _ => hs,
    }
}

/// The comparison a condition's operator names; the default is equality.
#[derive(Debug, Clone, Copy, PartialEq, Eq, Structural)]
pub enum CmpKind {
    Eq,
    Ne,
    Lt,
    Le,
    Gt,
    Ge,
}

/// The comparison kind of an optional operator name.
pub open spec fn spec_cmp_kind(op: Option<String>) -> CmpKind {
    match op {
        None => CmpKind::Eq,
        Some(o) => if o@ == "ne"@ {
            CmpKind::Ne
        } else if o@ == "lt"@ {
            CmpKind::Lt
        } else if o@ == "le"@ {
            CmpKind::Le
        } else if o@ == "gt"@ {
            CmpKind::Gt
        } else if o@ == "ge"@ {
            CmpKind::Ge
        } else {
            CmpKind::Eq
        },
    }
}

/// One integer comparison.
pub open spec fn spec_cmp(a: int, kind: CmpKind, b: int) -> bool {
    match kind {
        CmpKind::Eq => a == b,
        CmpKind::Ne => a != b,
        CmpKind::Lt => a < b,
        CmpKind::Le => a <= b,
        CmpKind::Gt => a > b,
        CmpKind::Ge => a >= b,
    }
}

/// Whether a condition holds of one scored or held card, in the context of
/// the played hand type and the hand size. A condition missing the literal
/// it compares against does not hold.
pub open spec fn spec_condition_holds_card(
    cond: JokerCondition,
    state: Seq<StateField>,
    hand_type: PokerHand,
    hand_size: int,
    card: Card,
) -> bool {
    match cond.condition_type {
        ConditionType::Any => true,
        ConditionType::SuitScored => match cond.suit {
            Some(sw) => card.suit == sw.0,
            None => false,
        },
        ConditionType::RankScored => match cond.rank {
            Some(rw) => card.rank == rw.0,
            None => false,
        },
        ConditionType::FaceCardScored => card.spec_is_face_card(),
        ConditionType::NoFaceCards => !card.spec_is_face_card(),
        ConditionType::HandType => match cond.hand_type {
            Some(ht) => spec_poker_hand_of_key(ht@) == hand_type,
            None => false,
        },
        ConditionType::StateValue => match (cond.field, cond.value) {
            (Option::Some(f), Option::Some(v)) => match find_state_value(state, f@) {
                Some(actual) => spec_cmp(actual as int, spec_cmp_kind(cond.operator), v as int),
                None => false,
            },
            _ => false,
        },
        ConditionType::HandSize => match cond.size {
            Some(sz) => spec_cmp(hand_size, spec_cmp_kind(cond.operator), sz as int),
            None => false,
        },
    }
}

/// Whether a condition holds of the whole played set: the card tests hold
/// if some played card matches (no face card at all for `NoFaceCards`); the
/// context tests are as for one card.
pub open spec fn spec_condition_holds_hand(
    cond: JokerCondition,
    state: Seq<StateField>,
    hand_type: PokerHand,
    hand_size: int,
    cards: Seq<Card>,
) -> bool {
    match cond.condition_type {
        ConditionType::Any => true,
        ConditionType::SuitScored => match cond.suit {
            Some(sw) => exists|k: int| 0 <= k < cards.len() && (#[trigger] cards[k]).suit == sw.0,
            None => false,
        },
        ConditionType::RankScored => match cond.rank {
            Some(rw) => exists|k: int| 0 <= k < cards.len() && (#[trigger] cards[k]).rank == rw.0,
            None => false,
        },
        ConditionType::FaceCardScored => exists|k: int|
            0 <= k < cards.len() && (#[trigger] cards[k]).spec_is_face_card(),
        ConditionType::NoFaceCards => forall|k: int|
            0 <= k < cards.len() ==> !(#[trigger] cards[k]).spec_is_face_card(),
        ConditionType::HandType => match cond.hand_type {
            Some(ht) => spec_poker_hand_of_key(ht@) == hand_type,
            None => false,
        },
        ConditionType::StateValue => match (cond.field, cond.value) {
            (Option::Some(f), Option::Some(v)) => match find_state_value(state, f@) {
                Some(actual) => spec_cmp(actual as int, spec_cmp_kind(cond.operator), v as int),
                None => false,
            },
            _ => false,
        },
        ConditionType::HandSize => match cond.size {
            Some(sz) => spec_cmp(hand_size, spec_cmp_kind(cond.operator), sz as int),
            None => false,
        },
    }
}

/// How many retriggers a card gets: one for a red seal, plus one per joker
/// whose action is a retrigger.
pub open spec fn spec_retrigger_count(jokers: Seq<JokerInstance>, card: Card) -> nat {
    (if card.seal == Some(Seal::Red) {
        1nat
    } else {
        0nat
    }) + count_retrigger_jokers(jokers)
}

/// How many jokers carry a retrigger action.
pub open spec fn count_retrigger_jokers(jokers: Seq<JokerInstance>) -> nat
    decreases jokers.len(),
{
    if jokers.len() == 0 {
        0
    } else {
        count_retrigger_jokers(jokers.drop_last()) + if joker_retriggers(jokers.last()) {
            1nat
        } else {
            0nat
        }
    }
}

/// Whether a joker's effect action is a retrigger.
pub open spec fn joker_retriggers(j: JokerInstance) -> bool {
    match j.definition.effect.action {
        Some(a) => a.action_type == ActionType::Retrigger,
        None => false,
    }
}

/// Whether a joker carries a per-card conditional effect for scored cards.
pub open spec fn is_per_card_scored_joker(j: JokerInstance) -> bool {
    &&& j.definition.effect.effect_type == JokerEffectType::Conditional
    &&& j.definition.effect.per_card
    &&& !j.definition.effect.in_hand
    &&& j.definition.effect.condition is Some
    &&& j.definition.effect.action is Some
}

/// Whether a joker carries a per-card conditional effect for held cards.
pub open spec fn is_per_card_held_joker(j: JokerInstance) -> bool {
    &&& j.definition.effect.effect_type == JokerEffectType::Conditional
    &&& j.definition.effect.per_card
    &&& j.definition.effect.in_hand
    &&& j.definition.effect.condition is Some
    &&& j.definition.effect.action is Some
}

/// One joker's per-card contribution against one scored card.
pub open spec fn spec_per_card_joker_step(
    j: JokerInstance,
    hand_type: PokerHand,
    hand_size: int,
    card: Card,
    hs: HandScore,
) -> HandScore {
    if is_per_card_scored_joker(j) && spec_condition_holds_card(
        j.definition.effect.condition->Some_0,
        j.state@,
        hand_type,
        hand_size,
        card,
    ) {
        spec_apply_action(j.definition.effect.action->Some_0, hs)
    } else {
        hs
    }
}

/// The first `i` jokers' per-card contributions against one scored card,
/// in joker-list order.
pub open spec fn spec_per_card_jokers_upto(
    jokers: Seq<JokerInstance>,
    hand_type: PokerHand,
    hand_size: int,
    card: Card,
    hs: HandScore,
    i: int,
) -> HandScore
    decreases i,
{
    if i <= 0 {
        hs
    } else {
        spec_per_card_joker_step(
            jokers[i - 1],
            hand_type,
            hand_size,
            card,
            spec_per_card_jokers_upto(jokers, hand_type, hand_size, card, hs, i - 1),
        )
    }
}

/// One joker's per-card contribution against one held card.
pub open spec fn spec_held_joker_step(
    j: JokerInstance,
    hand_type: PokerHand,
    hand_size: int,
    card: Card,
    hs: HandScore,
) -> HandScore {
    if is_per_card_held_joker(j) && spec_condition_holds_card(
        j.definition.effect.condition->Some_0,
        j.state@,
        hand_type,
        hand_size,
        card,
    ) {
        spec_apply_action(j.definition.effect.action->Some_0, hs)
    } else {
        hs
    }
}

/// The first `i` jokers' per-card contributions against one held card.
pub open spec fn spec_held_jokers_upto(
    jokers: Seq<JokerInstance>,
    hand_type: PokerHand,
    hand_size: int,
    card: Card,
    hs: HandScore,
    i: int,
) -> HandScore
    decreases i,
{
    if i <= 0 {
        hs
    } else {
        spec_held_joker_step(
            jokers[i - 1],
            hand_type,
            hand_size,
            card,
            spec_held_jokers_upto(jokers, hand_type, hand_size, card, hs, i - 1),
        )
    }
}

/// A scored card's enhancement effect: bonus adds 30 chips, mult adds 4
/// mult, glass doubles the mult, stone adds 50 chips; the rest contribute
/// nothing to the score directly.
pub open spec fn spec_enhancement_effect(card: Card, hs: HandScore) -> HandScore {
    match card.enhancement {
        Some(Enhancement::Bonus) => hs_add_chips(hs, 30),
        Some(Enhancement::Mult) => hs_add_mult_units(hs, 4),
        Some(Enhancement::Glass) => hs_scale_mult(hs, 200),
        Some(Enhancement::Stone) => hs_add_chips(hs, 50),
        _ => hs,
    }
}

/// A scored card's edition effect: foil adds 50 chips, holographic adds 10
/// mult, polychrome scales the mult by one and a half; base and negative
/// contribute nothing.
pub open spec fn spec_edition_effect(card: Card, hs: HandScore) -> HandScore {
    match card.edition {
        Edition::Foil => hs_add_chips(hs, 50),
        Edition::Holographic => hs_add_mult_units(hs, 10),
        Edition::Polychrome => hs_scale_mult(hs, 150),
        _ => hs,
    }
}

/// One repetition of a scored card's full effect chain: base chips, then
/// enhancement, then edition, then the per-card joker effects.
pub open spec fn spec_score_card_once(
    jokers: Seq<JokerInstance>,
    hand_type: PokerHand,
    hand_size: int,
    card: Card,
    hs: HandScore,
) -> HandScore {
    spec_per_card_jokers_upto(
        jokers,
        hand_type,
        hand_size,
        card,
        spec_edition_effect(
            card,
            spec_enhancement_effect(card, hs_add_chips(hs, card.spec_chip_value())),
        ),
        jokers.len() as int,
    )
}

/// `n` repetitions of a scored card's full effect chain.
pub open spec fn spec_score_card_reps(
    jokers: Seq<JokerInstance>,
    hand_type: PokerHand,
    hand_size: int,
    card: Card,
    hs: HandScore,
    n: nat,
) -> HandScore
    decreases n,
{
    if n == 0 {
        hs
    } else {
        spec_score_card_once(
            jokers,
            hand_type,
            hand_size,
            card,
            spec_score_card_reps(jokers, hand_type, hand_size, card, hs, (n - 1) as nat),
        )
    }
}

/// The money a gold seal pays per repetition.
pub open spec fn spec_card_money(card: Card) -> int {
    if card.seal == Some(Seal::Gold) {
        3
    } else {
        0
    }
}

/// Phase 2 over the first `i` scoring cards, in hand order: each card's
/// chain runs once plus once per retrigger.
pub open spec fn spec_phase2_upto(
    jokers: Seq<JokerInstance>,
    hand_type: PokerHand,
    hand_size: int,
    scoring: Seq<Card>,
    hs: HandScore,
    i: int,
) -> HandScore
    decreases i,
{
    if i <= 0 {
        hs
    } else {
        spec_score_card_reps(
            jokers,
            hand_type,
            hand_size,
            scoring[i - 1],
            spec_phase2_upto(jokers, hand_type, hand_size, scoring, hs, i - 1),
            1 + spec_retrigger_count(jokers, scoring[i - 1]),
        )
    }
}

/// All of phase 2.
pub open spec fn spec_phase2(
    jokers: Seq<JokerInstance>,
    hand_type: PokerHand,
    hand_size: int,
    scoring: Seq<Card>,
    hs: HandScore,
) -> HandScore {
    spec_phase2_upto(jokers, hand_type, hand_size, scoring, hs, scoring.len() as int)
}

/// The money phase 2 pays out: each scoring card's gold-seal payment, once
/// per repetition.
pub open spec fn spec_phase2_money(jokers: Seq<JokerInstance>, scoring: Seq<Card>) -> int
    decreases scoring.len(),
{
    if scoring.len() == 0 {
        0
    } else {
        cap(
            spec_phase2_money(jokers, scoring.drop_last()) + cap(
                (1 + spec_retrigger_count(jokers, scoring.last())) * spec_card_money(
                    scoring.last(),
                ),
            ),
        )
    }
}

/// One repetition of a held card's contribution: steel scales the mult by
/// one and a half, then the held-card joker effects apply.
pub open spec fn spec_held_card_once(
    jokers: Seq<JokerInstance>,
    hand_type: PokerHand,
    hand_size: int,
    card: Card,
    hs: HandScore,
) -> HandScore {
    spec_held_jokers_upto(
        jokers,
        hand_type,
        hand_size,
        card,
        if card.enhancement == Some(Enhancement::Steel) {
            hs_scale_mult(hs, 150)
        } else {
            hs
        },
        jokers.len() as int,
    )
}

/// `n` repetitions of a held card's contribution.
pub open spec fn spec_held_card_reps(
    jokers: Seq<JokerInstance>,
    hand_type: PokerHand,
    hand_size: int,
    card: Card,
    hs: HandScore,
    n: nat,
) -> HandScore
    decreases n,
{
    if n == 0 {
        hs
    } else {
        spec_held_card_once(
            jokers,
            hand_type,
            hand_size,
            card,
            spec_held_card_reps(jokers, hand_type, hand_size, card, hs, (n - 1) as nat),
        )
    }
}

/// Phase 3 over the first `i` unselected cards, left to right, with the
/// same retrigger count as phase 2.
pub open spec fn spec_phase3_upto(
    jokers: Seq<JokerInstance>,
    hand_type: PokerHand,
    hand_size: int,
    unselected: Seq<Card>,
    hs: HandScore,
    i: int,
) -> HandScore
    decreases i,
{
    if i <= 0 {
        hs
    } else {
        spec_held_card_reps(
            jokers,
            hand_type,
            hand_size,
            unselected[i - 1],
            spec_phase3_upto(jokers, hand_type, hand_size, unselected, hs, i - 1),
            1 + spec_retrigger_count(jokers, unselected[i - 1]),
        )
    }
}

/// All of phase 3.
pub open spec fn spec_phase3(
    jokers: Seq<JokerInstance>,
    hand_type: PokerHand,
    hand_size: int,
    unselected: Seq<Card>,
    hs: HandScore,
) -> HandScore {
    spec_phase3_upto(jokers, hand_type, hand_size, unselected, hs, unselected.len() as int)
}

/// The chip delta of a dynamic effect's first `i` state modifiers: each
/// scales its named state field (zero when absent), saturating per step.
pub open spec fn spec_modifier_sum_upto(
    state: Seq<StateField>,
    mods: Seq<StateModifier>,
    i: int,
) -> int
    decreases i,
{
    if i <= 0 {
        0
    } else {
        let field_value = match find_state_value(state, mods[i - 1].state_field@) {
            Some(v) => v as int,
            None => 0,
        };
        cap_i64(
            spec_modifier_sum_upto(state, mods, i - 1) + spec_scaled_delta(
                field_value,
                mods[i - 1].multiplier as int,
            ),
        )
    }
}

/// One joker's whole-hand contribution in phase 4. Per-card effects took
/// part in the earlier phases; a scoring effect adds its flat chips and
/// mult and applies its percentages; a conditional effect applies its
/// action when its condition holds of the played set; a dynamic effect
/// applies its base action and then its state-scaled chip delta; formula
/// and special effects contribute nothing here.
pub open spec fn spec_whole_joker_step(
    j: JokerInstance,
    hand_type: PokerHand,
    hand_size: int,
    cards: Seq<Card>,
    hs: HandScore,
) -> HandScore {
    if j.definition.effect.per_card {
        hs
    } else {
        match j.definition.effect.effect_type {
            JokerEffectType::Scoring => hs_scale_chips(
                hs_scale_mult(
                    hs_add_mult_units(
                        hs_add_chips(hs, or_zero(j.definition.effect.chips)),
                        or_zero(j.definition.effect.mult),
                    ),
                    or_hundred(j.definition.effect.mult_multiplier),
                ),
                or_hundred(j.definition.effect.chips_multiplier),
            ),
            JokerEffectType::Conditional => match (
                j.definition.effect.condition,
                j.definition.effect.action,
            ) {
                (Option::Some(cond), Option::Some(action)) => if spec_condition_holds_hand(
                    cond,
                    j.state@,
                    hand_type,
                    hand_size,
                    cards,
                ) {
                    spec_apply_action(action, hs)
                } else {
                    hs
                },
                _ => hs,
            },
            JokerEffectType::Dynamic => {
                let after_base = match j.definition.effect.base_effect {
                    Some(base) => spec_apply_action(base, hs),
                    None => hs,
                };
                hs_add_chip_delta(
                    after_base,
                    spec_modifier_sum_upto(
                        j.state@,
                        j.definition.effect.state_modifiers@,
                        j.definition.effect.state_modifiers@.len() as int,
                    ),
                )
            },
            _ => hs,
        }
    }
}

/// Phase 4 over the first `i` jokers, in joker-list order.
pub open spec fn spec_phase4_upto(
    jokers: Seq<JokerInstance>,
    hand_type: PokerHand,
    hand_size: int,
    cards: Seq<Card>,
    hs: HandScore,
    i: int,
) -> HandScore
    decreases i,
{
    if i <= 0 {
        hs
    } else {
        spec_whole_joker_step(
            jokers[i - 1],
            hand_type,
            hand_size,
            cards,
            spec_phase4_upto(jokers, hand_type, hand_size, cards, hs, i - 1),
        )
    }
}

/// All of phase 4.
pub open spec fn spec_phase4(
    jokers: Seq<JokerInstance>,
    hand_type: PokerHand,
    hand_size: int,
    cards: Seq<Card>,
    hs: HandScore,
) -> HandScore {
    spec_phase4_upto(jokers, hand_type, hand_size, cards, hs, jokers.len() as int)
}

/// The scoring cards of a played selection, in hand order: the cards the
/// classification's subset rule keeps; for a high card, the first card of
/// the highest rank.
pub open spec fn spec_scoring_cards(sel: Seq<Card>) -> Seq<Card> {
    match spec_classify(sel) {
        PokerHand::FlushFive | PokerHand::FlushHouse | PokerHand::StraightFlush
            | PokerHand::FullHouse => sel,
        PokerHand::FiveOfAKind => sel.filter(crate::detect::rank_count_at_least(sel, 5)),
        PokerHand::FourOfAKind => sel.filter(crate::detect::rank_count_is(sel, 4)),
        PokerHand::Flush => sel.filter(crate::detect::suit_is(crate::detect::flush_suit(sel))),
        PokerHand::Straight => sel.filter(
            crate::detect::in_window(crate::detect::straight_start(sel)),
        ),
        PokerHand::ThreeOfAKind => sel.filter(crate::detect::rank_count_is(sel, 3)),
        PokerHand::TwoPair | PokerHand::Pair => sel.filter(crate::detect::rank_count_is(sel, 2)),
        PokerHand::HighCard => if sel.len() == 0 {
            sel
        } else {
            seq![sel[first_max_index(sel)]]
        },
    }
}

/// The position of the first card with the highest rank value.
pub open spec fn first_max_index(s: Seq<Card>) -> int
    recommends
        s.len() > 0,
    decreases s.len(),
{
    if s.len() <= 1 {
        0
    } else {
        let p = first_max_index(s.drop_last());
        if s.last().rank.spec_value() > s[p].rank.spec_value() {
            s.len() - 1
        } else {
            p
        }
    }
}

/// Executable counterpart of [`spec_cmp_kind`].
fn cmp_kind(op: &Option<String>) -> (r: CmpKind)
    ensures
        r == spec_cmp_kind(*op),
{
    match op {
        None => CmpKind::Eq,
        Some(o) => {
            if str_eq(o.as_str(), "ne") {
                CmpKind::Ne
            } else if str_eq(o.as_str(), "lt") {
                CmpKind::Lt
            } else if str_eq(o.as_str(), "le") {
                CmpKind::Le
            } else if str_eq(o.as_str(), "gt") {
                CmpKind::Gt
            } else if str_eq(o.as_str(), "ge") {
                CmpKind::Ge
            } else {
                CmpKind::Eq
            }
        },
    }
}

/// One comparison of two signed values.
fn do_cmp(a: i64, kind: CmpKind, b: i64) -> (r: bool)
    ensures
        r == spec_cmp(a as int, kind, b as int),
{
    match kind {
        CmpKind::Eq => a == b,
        CmpKind::Ne => a != b,
        CmpKind::Lt => a < b,
        CmpKind::Le => a <= b,
        CmpKind::Gt => a > b,
        CmpKind::Ge => a >= b,
    }
}

/// One comparison of two sizes.
fn do_cmp_usize(a: usize, kind: CmpKind, b: usize) -> (r: bool)
    ensures
        r == spec_cmp(a as int, kind, b as int),
{
    match kind {
        CmpKind::Eq => a == b,
        CmpKind::Ne => a != b,
        CmpKind::Lt => a < b,
        CmpKind::Le => a <= b,
        CmpKind::Gt => a > b,
        CmpKind::Ge => a >= b,
    }
}

/// Executable counterpart of [`spec_condition_holds_card`].
fn condition_holds_card(
    cond: &JokerCondition,
    state: &Vec<StateField>,
    hand_type: PokerHand,
    hand_size: usize,
    card: &Card,
) -> (r: bool)
    ensures
        r == spec_condition_holds_card(*cond, state@, hand_type, hand_size as int, *card),
{
    match cond.condition_type {
        ConditionType::Any => true,
        ConditionType::SuitScored => match &cond.suit {
            Some(sw) => card.suit == sw.0,
            None => false,
        },
        ConditionType::RankScored => match &cond.rank {
            Some(rw) => card.rank == rw.0,
            None => false,
        },
        ConditionType::FaceCardScored => card.is_face_card(),
        ConditionType::NoFaceCards => !card.is_face_card(),
        ConditionType::HandType => match &cond.hand_type {
            Some(ht) => Planets::string_to_poker_hand_enum(ht.as_str()) == hand_type,
            None => false,
        },
        ConditionType::StateValue => match (&cond.field, &cond.value) {
            (Some(f), Some(v)) => {
                match find_state_value_exec(state, f.as_str()) {
                    Some(actual) => do_cmp(actual, cmp_kind(&cond.operator), *v),
                    None => false,
                }
            },
            _ => false,
        },
        ConditionType::HandSize => match &cond.size {
            Some(sz) => do_cmp_usize(hand_size, cmp_kind(&cond.operator), *sz),
            None => false,
        },
    }
}

/// Executable counterpart of [`spec_condition_holds_hand`].
fn condition_holds_hand(
    cond: &JokerCondition,
    state: &Vec<StateField>,
    hand_type: PokerHand,
    hand_size: usize,
    cards: &Vec<Card>,
) -> (r: bool)
    ensures
        r == spec_condition_holds_hand(*cond, state@, hand_type, hand_size as int, cards@),
{
    match cond.condition_type {
        ConditionType::Any => true,
        ConditionType::SuitScored => match &cond.suit {
            Some(sw) => any_card_of_suit(cards, sw.0),
            None => false,
        },
        ConditionType::RankScored => match &cond.rank {
            Some(rw) => any_card_of_rank(cards, rw.0),
            None => false,
        },
        ConditionType::FaceCardScored => any_face_card(cards),
        ConditionType::NoFaceCards => !any_face_card(cards),
        ConditionType::HandType => match &cond.hand_type {
            Some(ht) => Planets::string_to_poker_hand_enum(ht.as_str()) == hand_type,
            None => false,
        },
        ConditionType::StateValue => match (&cond.field, &cond.value) {
            (Some(f), Some(v)) => {
                match find_state_value_exec(state, f.as_str()) {
                    Some(actual) => do_cmp(actual, cmp_kind(&cond.operator), *v),
                    None => false,
                }
            },
            _ => false,
        },
        ConditionType::HandSize => match &cond.size {
            Some(sz) => do_cmp_usize(hand_size, cmp_kind(&cond.operator), *sz),
            None => false,
        },
    }
}

/// The first value bound to the named state field, if any.
fn find_state_value_exec(state: &Vec<StateField>, name: &str) -> (r: Option<i64>)
    ensures
        r == find_state_value(state@, name@),
{
    let n = state.len();
    let mut k: usize = 0;
    proof {
        assert(state@.skip(0) =~= state@);
    }
    while k < n
        invariant
            k <= n,
            n == state@.len(),
            find_state_value(state@, name@) == find_state_value(state@.skip(k as int), name@),
        decreases n - k,
    {
        proof {
            assert(state@.skip(k as int)[0] == state@[k as int]);
            assert(state@.skip(k as int).drop_first() =~= state@.skip(k + 1));
        }
        if str_eq(state[k].name.as_str(), name) {
            return Some(state[k].value);
        }
        k = k + 1;
    }
    proof {
        assert(state@.skip(n as int).len() == 0);
    }
    None
}

/// Whether some card has the given suit.
fn any_card_of_suit(cards: &Vec<Card>, suit: crate::card::Suit) -> (r: bool)
    ensures
        r == exists|k: int| 0 <= k < cards@.len() && (#[trigger] cards@[k]).suit == suit,
{
    let n = cards.len();
    let mut i: usize = 0;
    while i < n
        invariant
            i <= n,
            n == cards@.len(),
            forall|t: int| 0 <= t < i ==> (#[trigger] cards@[t]).suit != suit,
        decreases n - i,
    {
        if cards[i].suit == suit {
            return true;
        }
        i = i + 1;
    }
    false
}

/// Whether some card has the given rank.
fn any_card_of_rank(cards: &Vec<Card>, rank: crate::card::Rank) -> (r: bool)
    ensures
        r == exists|k: int| 0 <= k < cards@.len() && (#[trigger] cards@[k]).rank == rank,
{
    let n = cards.len();
    let mut i: usize = 0;
    while i < n
        invariant
            i <= n,
            n == cards@.len(),
            forall|t: int| 0 <= t < i ==> (#[trigger] cards@[t]).rank != rank,
        decreases n - i,
    {
        if cards[i].rank == rank {
            return true;
        }
        i = i + 1;
    }
    false
}

/// Whether some card is a face card.
fn any_face_card(cards: &Vec<Card>) -> (r: bool)
    ensures
        r == exists|k: int| 0 <= k < cards@.len() && (#[trigger] cards@[k]).spec_is_face_card(),
{
    let n = cards.len();
    let mut i: usize = 0;
    while i < n
        invariant
            i <= n,
            n == cards@.len(),
            forall|t: int| 0 <= t < i ==> !(#[trigger] cards@[t]).spec_is_face_card(),
        decreases n - i,
    {
        if cards[i].is_face_card() {
            return true;
        }
        i = i + 1;
    }
    false
}

/// Apply one action to the accumulator.
fn apply_action(hs: &mut HandScore, a: &JokerAction)
    ensures
        *final(hs) == spec_apply_action(*a, *old(hs)),
{
    match a.action_type {
        ActionType::AddScore => {
            let chips = match a.chips {
                Some(c) => c,
                None => 0,
            };
            let mult = match a.mult {
                Some(m) => m,
                None => 0,
            };
            hs.add_chips(chips);
            hs.add_mult(mult);
        },
        ActionType::MultiplyScore => {
            let mult_pct = match a.mult_multiplier {
                Some(p) => p,
                None => 100,
            };
            let chips_pct = match a.chips_multiplier {
                Some(p) => p,
                None => 100,
            };
            hs.scale_mult(mult_pct, 100);
            hs.scale_chips(chips_pct, 100);
        },
        _ => {},
    }
}

/// Whether a joker's effect action is a retrigger.
fn joker_retriggers_exec(j: &JokerInstance) -> (r: bool)
    ensures
        r == joker_retriggers(*j),
{
    match &j.definition.effect.action {
        Some(a) => matches!(a.action_type, ActionType::Retrigger),
        None => false,
    }
}

/// Count the jokers whose action is a retrigger.
fn count_retrigger_jokers_exec(jokers: &Vec<JokerInstance>) -> (r: usize)
    ensures
        r == count_retrigger_jokers(jokers@),
{
    let n = jokers.len();
    let mut count: usize = 0;
    let mut i: usize = 0;
    while i < n
        invariant
            i <= n,
            n == jokers@.len(),
            count == count_retrigger_jokers(jokers@.take(i as int)),
            count <= i,
        decreases n - i,
    {
        proof {
            assert(jokers@.take(i + 1).drop_last() =~= jokers@.take(i as int));
        }
        if joker_retriggers_exec(&jokers[i]) {
            count = count + 1;
        }
        i = i + 1;
    }
    proof {
        assert(jokers@.take(n as int) =~= jokers@);
    }
    count
}

/// No more jokers can retrigger than there are jokers.
proof fn lemma_count_retrigger_jokers_bound(jokers: Seq<JokerInstance>)
    ensures
        count_retrigger_jokers(jokers) <= jokers.len(),
    decreases jokers.len(),
{
    if jokers.len() > 0 {
        lemma_count_retrigger_jokers_bound(jokers.drop_last());
    }
}

/// Count the retriggers of a card: one for a red seal, one per retrigger
/// joker.
pub fn count_retriggers(jokers: &Vec<JokerInstance>, card: &Card) -> (r: u128)
    ensures
        r <= jokers@.len() + 1,
        r == spec_retrigger_count(jokers@, *card),
{
    proof {
        lemma_count_retrigger_jokers_bound(jokers@);
    }
    let red: u128 = match card.seal {
        Some(Seal::Red) => 1,
        _ => 0,
    };
    red + (count_retrigger_jokers_exec(jokers) as u128)
}

/// Apply a scored card's enhancement effect.
pub fn apply_enhanced_card_effects(card: &Card, hs: HandScore) -> (r: HandScore)
    ensures
        r == spec_enhancement_effect(*card, hs),
{
    let mut out = hs;
    match card.enhancement {
        Some(Enhancement::Bonus) => out.add_chips(30),
        Some(Enhancement::Mult) => out.add_mult(4),
        Some(Enhancement::Glass) => out.scale_mult(200, 100),
        Some(Enhancement::Stone) => out.add_chips(50),
        _ => {},
    }
    out
}

/// Apply a scored card's edition effect.
pub fn apply_card_edition(card: &Card, hs: HandScore) -> (r: HandScore)
    ensures
        r == spec_edition_effect(*card, hs),
{
    let mut out = hs;
    match card.edition {
        Edition::Foil => out.add_chips(50),
        Edition::Holographic => out.add_mult(10),
        Edition::Polychrome => out.scale_mult(150, 100),
        _ => {},
    }
    out
}

/// Apply the per-card conditional joker effects against one scored card,
/// in joker-list order.
pub fn apply_per_card_joker_effects(
    jokers: &Vec<JokerInstance>,
    hand_type: PokerHand,
    hand_size: usize,
    card: &Card,
    hs: HandScore,
) -> (r: HandScore)
    ensures
        r == spec_per_card_jokers_upto(
            jokers@,
            hand_type,
            hand_size as int,
            *card,
            hs,
            jokers@.len() as int,
        ),
{
    let n = jokers.len();
    let mut out = hs;
    let mut i: usize = 0;
    while i < n
        invariant
            i <= n,
            n == jokers@.len(),
            out == spec_per_card_jokers_upto(
                jokers@,
                hand_type,
                hand_size as int,
                *card,
                hs,
                i as int,
            ),
        decreases n - i,
    {
        let j = &jokers[i];
        if matches!(j.definition.effect.effect_type, JokerEffectType::Conditional)
            && j.definition.effect.per_card && !j.definition.effect.in_hand {
            match (&j.definition.effect.condition, &j.definition.effect.action) {
                (Some(cond), Some(action)) => {
                    if condition_holds_card(cond, &j.state, hand_type, hand_size, card) {
                        apply_action(&mut out, action);
                    }
                },
                _ => {},
            }
        }
        i = i + 1;
    }
    out
}

/// Apply the held-card conditional joker effects against one held card,
/// in joker-list order.
fn apply_held_joker_effects(
    jokers: &Vec<JokerInstance>,
    hand_type: PokerHand,
    hand_size: usize,
    card: &Card,
    hs: HandScore,
) -> (r: HandScore)
    ensures
        r == spec_held_jokers_upto(
            jokers@,
            hand_type,
            hand_size as int,
            *card,
            hs,
            jokers@.len() as int,
        ),
{
    let n = jokers.len();
    let mut out = hs;
    let mut i: usize = 0;
    while i < n
        invariant
            i <= n,
            n == jokers@.len(),
            out == spec_held_jokers_upto(
                jokers@,
                hand_type,
                hand_size as int,
                *card,
                hs,
                i as int,
            ),
        decreases n - i,
    {
        let j = &jokers[i];
        if matches!(j.definition.effect.effect_type, JokerEffectType::Conditional)
            && j.definition.effect.per_card && j.definition.effect.in_hand {
            match (&j.definition.effect.condition, &j.definition.effect.action) {
                (Some(cond), Some(action)) => {
                    if condition_holds_card(cond, &j.state, hand_type, hand_size, card) {
                        apply_action(&mut out, action);
                    }
                },
                _ => {},
            }
        }
        i = i + 1;
    }
    out
}

/// Score a single card once: base chips, enhancement, edition, per-card
/// joker effects.
pub fn score_card(
    jokers: &Vec<JokerInstance>,
    hand_type: PokerHand,
    hand_size: usize,
    card: &Card,
    hs: HandScore,
) -> (r: HandScore)
    ensures
        r == spec_score_card_once(jokers@, hand_type, hand_size as int, *card, hs),
{
    let mut out = hs;
    out.add_chips(card.chip_value());
    let out = apply_enhanced_card_effects(card, out);
    let out = apply_card_edition(card, out);
    apply_per_card_joker_effects(jokers, hand_type, hand_size, card, out)
}

/// Phase 2: walk the scoring cards in hand order, seeding from the given
/// base score; each card's chain runs once plus once per retrigger, and a
/// gold seal pays three per repetition. Returns the accumulator and the
/// money paid out.
pub fn apply_played_hand_scoring(
    jokers: &Vec<JokerInstance>,
    hand_type: PokerHand,
    hand_size: usize,
    scoring: &Vec<Card>,
    base: HandScore,
) -> (r: (HandScore, u64))
    ensures
        r.0 == spec_phase2(jokers@, hand_type, hand_size as int, scoring@, base),
        r.1 == spec_phase2_money(jokers@, scoring@),
{
    let n = scoring.len();
    let mut hs = base;
    let mut money: u64 = 0;
    let mut i: usize = 0;
    while i < n
        invariant
            i <= n,
            n == scoring@.len(),
            hs == spec_phase2_upto(jokers@, hand_type, hand_size as int, scoring@, base, i as int),
            money == spec_phase2_money(jokers@, scoring@.take(i as int)),
        decreases n - i,
    {
        proof {
            assert(scoring@.take(i + 1).drop_last() =~= scoring@.take(i as int));
        }
        let card = scoring[i];
        let retriggers = count_retriggers(jokers, &card);
        let joker_total = jokers.len();
        proof {
            assert(retriggers <= joker_total as u128 + 1);
        }
        let reps: u128 = 1 + retriggers;
        let mut t: u128 = 0;
        while t < reps
            invariant
                t <= reps,
                reps == 1 + spec_retrigger_count(jokers@, card),
                card == scoring@[i as int],
                i < n == scoring@.len(),
                hs == spec_score_card_reps(
                    jokers@,
                    hand_type,
                    hand_size as int,
                    card,
                    spec_phase2_upto(
                        jokers@,
                        hand_type,
                        hand_size as int,
                        scoring@,
                        base,
                        i as int,
                    ),
                    t as nat,
                ),
            decreases reps - t,
        {
            hs = score_card(jokers, hand_type, hand_size, &card, hs);
            t = t + 1;
        }
        let pay: u128 = match card.seal {
            Some(Seal::Gold) => 3,
            _ => 0,
        };
        proof {
            assert(reps * pay <= reps * 3) by (nonlinear_arith)
                requires
                    pay <= 3,
                    reps >= 0,
            ;
            assert(reps * 3 <= (u64::MAX as u128 + 2) * 3) by (nonlinear_arith)
                requires
                    reps <= u64::MAX as u128 + 2,
            ;
        }
        let pay_total: u128 = reps * pay;
        let pay64: u64 = if pay_total > u64::MAX as u128 {
            u64::MAX
        } else {
            pay_total as u64
        };
        money = add_sat(money, pay64);
        i = i + 1;
    }
    proof {
        assert(scoring@.take(n as int) =~= scoring@);
    }
    (hs, money)
}

/// Apply one held card's effects once: steel, then the held-card joker
/// effects.
pub fn apply_card_effects_in_hand(
    jokers: &Vec<JokerInstance>,
    hand_type: PokerHand,
    hand_size: usize,
    card: &Card,
    hs: HandScore,
) -> (r: HandScore)
    ensures
        r == spec_held_card_once(jokers@, hand_type, hand_size as int, *card, hs),
{
    let mut out = hs;
    match card.enhancement {
        Some(Enhancement::Steel) => out.scale_mult(150, 100),
        _ => {},
    }
    apply_held_joker_effects(jokers, hand_type, hand_size, card, out)
}

/// Phase 3: walk the unselected cards left to right; each card's held
/// contribution runs once plus once per retrigger, counted as in phase 2.
pub fn apply_effects_in_hand(
    jokers: &Vec<JokerInstance>,
    hand_type: PokerHand,
    hand_size: usize,
    unselected: &Vec<Card>,
    base: HandScore,
) -> (r: HandScore)
    ensures
        r == spec_phase3(jokers@, hand_type, hand_size as int, unselected@, base),
{
    let n = unselected.len();
    let mut hs = base;
    let mut i: usize = 0;
    while i < n
        invariant
            i <= n,
            n == unselected@.len(),
            hs == spec_phase3_upto(
                jokers@,
                hand_type,
                hand_size as int,
                unselected@,
                base,
                i as int,
            ),
        decreases n - i,
    {
        let card = unselected[i];
        let retriggers = count_retriggers(jokers, &card);
        let joker_total = jokers.len();
        proof {
            assert(retriggers <= joker_total as u128 + 1);
        }
        let reps: u128 = 1 + retriggers;
        let mut t: u128 = 0;
        while t < reps
            invariant
                t <= reps,
                reps == 1 + spec_retrigger_count(jokers@, card),
                card == unselected@[i as int],
                i < n == unselected@.len(),
                hs == spec_held_card_reps(
                    jokers@,
                    hand_type,
                    hand_size as int,
                    card,
                    spec_phase3_upto(
                        jokers@,
                        hand_type,
                        hand_size as int,
                        unselected@,
                        base,
                        i as int,
                    ),
                    t as nat,
                ),
            decreases reps - t,
        {
            hs = apply_card_effects_in_hand(jokers, hand_type, hand_size, &card, hs);
            t = t + 1;
        }
        i = i + 1;
    }
    hs
}

/// The chip delta of a dynamic effect's state modifiers.
fn modifier_sum(j: &JokerInstance) -> (r: i64)
    ensures
        r == spec_modifier_sum_upto(
            j.state@,
            j.definition.effect.state_modifiers@,
            j.definition.effect.state_modifiers@.len() as int,
        ),
{
    let n = j.definition.effect.state_modifiers.len();
    let mut sum: i64 = 0;
    let mut i: usize = 0;
    while i < n
        invariant
            i <= n,
            n == j.definition.effect.state_modifiers@.len(),
            sum == spec_modifier_sum_upto(j.state@, j.definition.effect.state_modifiers@, i as int),
        decreases n - i,
    {
        let m = &j.definition.effect.state_modifiers[i];
        let value: i64 = match find_state_value_exec(&j.state, m.state_field.as_str()) {
            Some(v) => v,
            None => 0,
        };
        let delta = crate::arith::scaled_delta(value, m.multiplier);
        sum = crate::arith::add_sat_i64(sum, delta);
        i = i + 1;
    }
    sum
}

/// Phase 4: apply the whole-hand joker effects once each, in joker-list
/// order, against the played set.
pub fn apply_joker_scoring(
    jokers: &Vec<JokerInstance>,
    hand_type: PokerHand,
    hand_size: usize,
    cards: &Vec<Card>,
    base: HandScore,
) -> (r: HandScore)
    ensures
        r == spec_phase4(jokers@, hand_type, hand_size as int, cards@, base),
{
    let n = jokers.len();
    let mut hs = base;
    let mut i: usize = 0;
    while i < n
        invariant
            i <= n,
            n == jokers@.len(),
            hs == spec_phase4_upto(jokers@, hand_type, hand_size as int, cards@, base, i as int),
        decreases n - i,
    {
        let j = &jokers[i];
        if !j.definition.effect.per_card {
            match j.definition.effect.effect_type {
                JokerEffectType::Scoring => {
                    let chips = match j.definition.effect.chips {
                        Some(c) => c,
                        None => 0,
                    };
                    let mult = match j.definition.effect.mult {
                        Some(m) => m,
                        None => 0,
                    };
                    let mult_pct = match j.definition.effect.mult_multiplier {
                        Some(p) => p,
                        None => 100,
                    };
                    let chips_pct = match j.definition.effect.chips_multiplier {
                        Some(p) => p,
                        None => 100,
                    };
                    hs.add_chips(chips);
                    hs.add_mult(mult);
                    hs.scale_mult(mult_pct, 100);
                    hs.scale_chips(chips_pct, 100);
                },
                JokerEffectType::Conditional => {
                    match (&j.definition.effect.condition, &j.definition.effect.action) {
                        (Some(cond), Some(action)) => {
                            if condition_holds_hand(cond, &j.state, hand_type, hand_size, cards) {
                                apply_action(&mut hs, action);
                            }
                        },
                        _ => {},
                    }
                },
                JokerEffectType::Dynamic => {
                    match &j.definition.effect.base_effect {
                        Some(base_action) => apply_action(&mut hs, base_action),
                        None => {},
                    }
                    let delta = modifier_sum(j);
                    hs.add_chip_delta(delta);
                },
                _ => {},
            }
        }
        i = i + 1;
    }
    hs
}

/// Phase 1, pre-scoring: jokers may mutate ambient game state before the
/// hand is evaluated. No effect of the present catalogue declares such a
/// mutation, so this phase touches nothing and cannot fail.
pub fn apply_pre_scoring(jokers: &Vec<JokerInstance>) -> (r: GameResult<()>)
    ensures
        r is Ok,
{
    let _ = jokers.len();
    Ok(())
}

/// The first card of the highest rank, by position.
fn first_max_card(cards: &Vec<Card>) -> (r: Card)
    requires
        cards@.len() > 0,
    ensures
        r == cards@[first_max_index(cards@)],
{
    let n = cards.len();
    let mut best: usize = 0;
    let mut i: usize = 1;
    proof {
        assert(cards@.take(1).len() == 1);
        assert(cards@.take(1)[0] == cards@[0]);
        assert(first_max_index(cards@.take(1)) == 0);
    }
    while i < n
        invariant
            1 <= i <= n,
            best < i,
            n == cards@.len(),
            best as int == first_max_index(cards@.take(i as int)),
            cards@.take(i as int)[best as int] == cards@[best as int],
        decreases n - i,
    {
        proof {
            assert(cards@.take(i + 1).drop_last() =~= cards@.take(i as int));
            assert(cards@.take(i + 1).last() == cards@[i as int]);
        }
        if cards[i].rank.value() > cards[best].rank.value() {
            best = i;
        }
        i = i + 1;
    }
    proof {
        assert(cards@.take(n as int) =~= cards@);
    }
    cards[best]
}

/// The scoring cards of a played selection, in hand order.
fn scoring_cards_of(sel: &Vec<Card>, hand_type: PokerHand) -> (r: Vec<Card>)
    requires
        sel@.len() > 0,
        hand_type == spec_classify(sel@),
    ensures
        r@ == spec_scoring_cards(sel@),
{
    match hand_type {
        PokerHand::FlushFive | PokerHand::FlushHouse | PokerHand::StraightFlush
            | PokerHand::FullHouse => crate::detect::copy_cards(sel),
        PokerHand::FiveOfAKind => crate::detect::filter_rank_count_at_least(sel, 5),
        PokerHand::FourOfAKind => crate::detect::filter_rank_count(sel, 4),
        PokerHand::Flush => crate::detect::filter_suit(sel, crate::detect::flush_suit_exec(sel)),
        PokerHand::Straight => {
            let start = match crate::detect::straight_start_exec(sel) {
                Some(s) => s,
                None => {
                    proof {
                        assert(false);
                    }
                    2
                },
            };
            crate::detect::filter_window(sel, start)
        },
        PokerHand::ThreeOfAKind => crate::detect::filter_rank_count(sel, 3),
        PokerHand::TwoPair | PokerHand::Pair => crate::detect::filter_rank_count(sel, 2),
        PokerHand::HighCard => {
            let top = first_max_card(sel);
            let mut out: Vec<Card> = Vec::new();
            out.push(top);
            proof {
                assert(out@ =~= spec_scoring_cards(sel@));
            }
            out
        },
    }
}

/// Calculate the score of the played hand: detect the poker hand over the
/// selected cards in hand order, seed from the matching planet's effective
/// base score, and run the three scoring phases. Nothing is mutated; the
/// result carries the final accumulator and the gold-seal money. Fails,
/// with an invalid-state error, on an empty selection or a hand type
/// missing from the planet catalogue.
pub fn calculate_hand_score(
    jokers: &Vec<JokerInstance>,
    planets: &Planets,
    hand: &Hand,
) -> (r: GameResult<(HandScore, u64)>)
    requires
        hand.wf(),
        planets.wf(),
    ensures
        hand.selected_indices@.len() == 0 ==> (r matches Err(e) && e is InvalidGameState),
        hand.selected_indices@.len() > 0 && !planets.has_planet(
            spec_classify(hand.spec_selected_by_position()),
        ) ==> (r matches Err(e) && e is InvalidGameState),
        hand.selected_indices@.len() > 0 && planets.has_planet(
            spec_classify(hand.spec_selected_by_position()),
        ) ==> (r matches Ok(p) && {
            let planet = planets.planets@[crate::planet::find_planet_index(
                planets.planets@,
                spec_classify(hand.spec_selected_by_position()),
            )];
            p.0 == spec_play_score(jokers@, planet, *hand).0 && p.1 == spec_play_score(
                jokers@,
                planet,
                *hand,
            ).1
        }),
{
    if hand.selected_indices().len() == 0 {
        return Err(GameError::InvalidGameState("cannot play empty hand".to_owned()));
    }
    match apply_pre_scoring(jokers) {
        Ok(()) => {},
        Err(e) => {
            proof {
                assert(false);
            }
            return Err(e);
        },
    }
    let selected = hand.selected_cards_by_position();
    proof {
        lemma_selected_by_position_nonempty(*hand);
    }
    let detected = planets.detect_poker_hand(&selected);
    let (hand_type, _subset) = match detected {
        Some(p) => p,
        None => {
            proof {
                assert(false);
            }
            return Err(GameError::InvalidGameState("no poker hand detected".to_owned()));
        },
    };
    let planet = match planets.get_planet(hand_type) {
        Some(p) => p,
        None => {
            return Err(GameError::InvalidGameState("no planet found for poker hand".to_owned()));
        },
    };
    proof {
        assert(planets.has_planet(hand_type));
        crate::planet::lemma_find_planet_index(planets.planets@, hand_type);
    }
    let base = planet.get_base_score();
    let hand_size = hand.len();
    let scoring = scoring_cards_of(&selected, hand_type);
    let (hs2, money) = apply_played_hand_scoring(jokers, hand_type, hand_size, &scoring, base);
    let unselected = hand.get_unselected_cards();
    let hs3 = apply_effects_in_hand(jokers, hand_type, hand_size, &unselected, hs2);
    let hs4 = apply_joker_scoring(jokers, hand_type, hand_size, &selected, hs3);
    Ok((hs4, money))
}

/// A well-formed hand with a selected position holds a selected card.
proof fn lemma_selected_by_position_nonempty(h: Hand)
    requires
        h.wf(),
        h.selected_indices@.len() > 0,
    ensures
        h.spec_selected_by_position().len() > 0,
{
    let j = h.selected_indices@[0];
    assert(h.spec_is_selected(j));
    lemma_sel_prefix_nonempty(h, j as int, h.cards@.len() as int);
}

/// Any prefix beyond a selected position holds at least one card.
proof fn lemma_sel_prefix_nonempty(h: Hand, j: int, m: int)
    requires
        0 <= j < m,
        h.spec_is_selected(j as usize),
    ensures
        h.sel_prefix(m).len() > 0,
    decreases m,
{
    if m == j + 1 {
        assert(h.sel_prefix(m) == h.sel_prefix(m - 1).push(h.cards@[m - 1]));
    } else {
        lemma_sel_prefix_nonempty(h, j, m - 1);
    }
}

/// The full pipeline over one played hand, given the planet entry for the
/// detected hand type: phase 2 seeds the accumulator from the planet's
/// effective base score and walks the scoring cards; phase 3 walks the
/// unselected cards; phase 4 applies the whole-hand joker effects. The
/// second component is the money paid out by gold seals.
pub open spec fn spec_play_score(
    jokers: Seq<JokerInstance>,
    planet: Planet,
    hand: Hand,
) -> (HandScore, int) {
    let sel = hand.spec_selected_by_position();
    let hand_type = spec_classify(sel);
    let hand_size = hand.cards@.len() as int;
    let scoring = spec_scoring_cards(sel);
    let base = HandScore {
        chip_score: planet.spec_effective_chips() as u64,
        mult_score: planet.spec_effective_mult_centi() as u64,
    };
    let hs2 = spec_phase2(jokers, hand_type, hand_size, scoring, base);
    let hs3 = spec_phase3(jokers, hand_type, hand_size, hand.spec_unselected_cards(), hs2);
    let hs4 = spec_phase4(jokers, hand_type, hand_size, sel, hs3);
    (hs4, spec_phase2_money(jokers, scoring))
}

impl Default for HandScore {
    /// The default accumulator: no chips, multiplier one.
    fn default() -> (r: HandScore)
        ensures
            r == (HandScore { chip_score: 0u64, mult_score: 100u64 }),
    {
        HandScore::new()
    }
}

} // verus!
