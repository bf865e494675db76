//! The joker model: data-driven modifier definitions with per-instance
//! persistent state. A definition is a tagged effect (scoring, conditional,
//! dynamic, calculate or special) with type-specific parameters; an
//! instance pairs a definition with its own mutable state, edition and
//! stickers. Multiplier-like numbers are integers in hundredths.

use vstd::prelude::*;

use crate::card::{Rank, Suit};
use crate::error::{GameError, GameResult};
use crate::strutil::str_eq;

verus! {

/// Joker rarity levels.
#[derive(Debug, Clone, Copy, PartialEq, Eq, PartialOrd, Ord, Structural)]
pub enum JokerRarity {
    Common,
    Uncommon,
    Rare,
    Legendary,
}

/// The kinds of joker effects.
#[derive(Debug, Clone, Copy, PartialEq, Eq, Structural)]
pub enum JokerEffectType {
    Scoring,
    Conditional,
    Dynamic,
    Calculate,
    Special,
}

/// What a condition tests.
#[derive(Debug, Clone, Copy, PartialEq, Eq, Structural)]
pub enum ConditionType {
    HandType,
    SuitScored,
    RankScored,
    FaceCardScored,
    NoFaceCards,
    StateValue,
    HandSize,
    Any,
}

/// What an action contributes.
#[derive(Debug, Clone, Copy, PartialEq, Eq, Structural)]
pub enum ActionType {
    AddScore,
    MultiplyScore,
    Retrigger,
    Calculate,
    Special,
}

/// Joker editions.
#[derive(Debug, Clone, Copy, PartialEq, Eq, Structural)]
pub enum JokerEdition {
    Base,
    Foil,
    Holographic,
    Polychrome,
    Negative,
}

/// Joker stickers: orthogonal boolean flags.
#[derive(Debug, Clone, Copy, PartialEq, Eq, Structural)]
pub enum JokerSticker {
    Eternal,
    Perishable,
    Rental,
}

/// A suit as the configuration names it (lowercase words); unknown names
/// fall back to hearts.
#[derive(Debug, Clone, Copy, PartialEq, Eq, Structural)]
pub struct SuitWrapper(pub Suit);

/// The suit a configuration name stands for.
pub open spec fn spec_suit_of_name(s: Seq<char>) -> Suit {
    if s == "diamonds"@ {
        Suit::Diamonds
    } else if s == "clubs"@ {
        Suit::Clubs
    } else if s == "spades"@ {
        Suit::Spades
    } else {
        Suit::Hearts
    }
}

impl SuitWrapper {
    /// Parse a lowercase suit name; unknown names fall back to hearts.
    pub fn from_name(s: &str) -> (r: SuitWrapper)
        ensures
            r.0 == spec_suit_of_name(s@),
    {
        if str_eq(s, "diamonds") {
            SuitWrapper(Suit::Diamonds)
        } else if str_eq(s, "clubs") {
            SuitWrapper(Suit::Clubs)
        } else if str_eq(s, "spades") {
            SuitWrapper(Suit::Spades)
        } else {
            SuitWrapper(Suit::Hearts)
        }
    }

    /// The wrapped suit.
    pub fn suit(self) -> (r: Suit)
        ensures
            r == self.0,
    {
        self.0
    }
}

/// A rank as the configuration names it (lowercase words); unknown names
/// fall back to the ace.
#[derive(Debug, Clone, Copy, PartialEq, Eq, Structural)]
pub struct RankWrapper(pub Rank);

/// The rank a configuration name stands for.
pub open spec fn spec_rank_of_name(s: Seq<char>) -> Rank {
    if s == "two"@ {
        Rank::Two
    } else if s == "three"@ {
        Rank::Three
    } else if s == "four"@ {
        Rank::Four
    } else if s == "five"@ {
        Rank::Five
    } else if s == "six"@ {
        Rank::Six
    } else if s == "seven"@ {
        Rank::Seven
    } else if s == "eight"@ {
        Rank::Eight
    } else if s == "nine"@ {
        Rank::Nine
    } else if s == "ten"@ {
        Rank::Ten
    } else if s == "jack"@ {
        Rank::Jack
    } else if s == "queen"@ {
        Rank::Queen
    } else if s == "king"@ {
        Rank::King
    } else {
        Rank::Ace
    }
}

impl RankWrapper {
    /// Parse a lowercase rank name; unknown names fall back to the ace.
    pub fn from_name(s: &str) -> (r: RankWrapper)
        ensures
            r.0 == spec_rank_of_name(s@),
    {
        if str_eq(s, "two") {
            RankWrapper(Rank::Two)
        } else if str_eq(s, "three") {
            RankWrapper(Rank::Three)
        } else if str_eq(s, "four") {
            RankWrapper(Rank::Four)
        } else if str_eq(s, "five") {
            RankWrapper(Rank::Five)
        } else if str_eq(s, "six") {
            RankWrapper(Rank::Six)
        } else if str_eq(s, "seven") {
            RankWrapper(Rank::Seven)
        } else if str_eq(s, "eight") {
            RankWrapper(Rank::Eight)
        } else if str_eq(s, "nine") {
            RankWrapper(Rank::Nine)
        } else if str_eq(s, "ten") {
            RankWrapper(Rank::Ten)
        } else if str_eq(s, "jack") {
            RankWrapper(Rank::Jack)
        } else if str_eq(s, "queen") {
            RankWrapper(Rank::Queen)
        } else if str_eq(s, "king") {
            RankWrapper(Rank::King)
        } else {
            RankWrapper(Rank::Ace)
        }
    }

    /// The wrapped rank.
    pub fn rank(self) -> (r: Rank)
        ensures
            r == self.0,
    {
        self.0
    }
}

/// A condition of a conditional effect: one property of the triggering
/// context tested against a literal.
#[derive(Debug, Clone)]
pub struct JokerCondition {
    pub condition_type: ConditionType,
    pub hand_type: Option<String>,
    pub suit: Option<SuitWrapper>,
    pub rank: Option<RankWrapper>,
    pub field: Option<String>,
    pub operator: Option<String>,
    pub value: Option<i64>,
    pub size: Option<usize>,
}

/// An action a joker performs: a chip delta, a mult delta or multiplier, a
/// retrigger count, or a deferred formula.
#[derive(Debug, Clone)]
pub struct JokerAction {
    pub action_type: ActionType,
    pub mult: Option<u64>,
    pub chips: Option<u64>,
    /// Multiplier in hundredths: 150 scales the mult by one and a half.
    pub mult_multiplier: Option<u64>,
    /// Multiplier in hundredths.
    pub chips_multiplier: Option<u64>,
    pub count: Option<u32>,
    pub formula: Option<String>,
    pub result_type: Option<String>,
}

/// A state modifier of a dynamic effect: scales a named state field, with
/// the multiplier in hundredths.
#[derive(Debug, Clone)]
pub struct StateModifier {
    pub state_field: String,
    /// Multiplier in hundredths; may be negative.
    pub multiplier: i64,
}

/// One named persistent state field of a joker.
#[derive(Debug, Clone)]
pub struct StateField {
    pub name: String,
    pub value: i64,
}

/// Initial persistent state of a joker definition.
#[derive(Debug, Clone)]
pub struct JokerState {
    pub persistent: bool,
    pub fields: Vec<StateField>,
}

/// One declared state mutation: an operation on a named field.
#[derive(Debug, Clone)]
pub struct BehaviorAction {
    pub action_type: String,
    pub field: Option<String>,
    pub operation: Option<String>,
    pub value: Option<i64>,
    pub target: Option<String>,
    pub special_type: Option<String>,
}

/// The declared state mutations of a joker, one per trigger. These are the
/// only sanctioned paths that mutate instance state.
#[derive(Debug, Clone)]
pub struct JokerBehavior {
    pub on_hand_played: Option<BehaviorAction>,
    pub on_round_end: Option<BehaviorAction>,
    pub on_discard: Option<BehaviorAction>,
    pub on_shop_open: Option<BehaviorAction>,
}

/// A joker effect: the tagged variant plus its type-specific parameters.
/// `per_card` effects are evaluated once per scored card; `in_hand` marks
/// per-card effects tied to the held-in-hand context instead of the played
/// cards.
#[derive(Debug, Clone)]
pub struct JokerEffect {
    pub effect_type: JokerEffectType,
    pub per_card: bool,
    pub in_hand: bool,
    pub condition: Option<JokerCondition>,
    pub action: Option<JokerAction>,
    pub base_effect: Option<JokerAction>,
    pub state_modifiers: Vec<StateModifier>,
    pub special_type: Option<String>,
    pub mult: Option<u64>,
    pub chips: Option<u64>,
    /// Multiplier in hundredths.
    pub mult_multiplier: Option<u64>,
    /// Multiplier in hundredths.
    pub chips_multiplier: Option<u64>,
    pub formula: Option<String>,
    pub result_type: Option<String>,
}

/// An immutable joker definition: identity, rarity, cost and effect tree,
/// with optional initial state and behaviors.
#[derive(Debug, Clone)]
pub struct JokerDefinition {
    pub id: String,
    pub name: String,
    pub description: String,
    pub rarity: JokerRarity,
    pub cost: i64,
    pub effect: JokerEffect,
    pub state: Option<JokerState>,
    pub behavior: Option<JokerBehavior>,
}

/// A whole joker catalogue as plain data.
#[derive(Debug, Clone)]
pub struct JokerConfig {
    pub schema_version: String,
    pub jokers: Vec<JokerDefinition>,
}

/// A runtime joker instance: a definition plus its own state, edition and
/// stickers. Two instances of the same definition have independent state.
#[derive(Debug, Clone)]
pub struct JokerInstance {
    pub definition: JokerDefinition,
    pub state: Vec<StateField>,
    pub edition: JokerEdition,
    pub stickers: Vec<JokerSticker>,
}

/// The first value bound to the named state field, if any.
pub open spec fn find_state_value(fields: Seq<StateField>, name: Seq<char>) -> Option<i64>
    decreases fields.len(),
{
    if fields.len() == 0 {
        None
    } else if fields[0].name@ == name {
        Some(fields[0].value)
    } else {
        find_state_value(fields.drop_first(), name)
    }
}

impl JokerInstance {
    /// Create a new instance of a definition: the initial state comes from
    /// the definition's state fields, the edition is base, no stickers.
    pub fn new(definition: JokerDefinition) -> (r: JokerInstance)
        ensures
            r.definition == definition,
            r.edition == JokerEdition::Base,
            r.stickers@ == Seq::<JokerSticker>::empty(),
            match definition.state {
                Some(st) => r.state@.len() == st.fields@.len() && forall|k: int|
                    0 <= k < st.fields@.len() ==> (#[trigger] r.state@[k]).name@
                        == st.fields@[k].name@ && r.state@[k].value == st.fields@[k].value,
                None => r.state@.len() == 0,
            },
    {
        let mut state: Vec<StateField> = Vec::new();
        match &definition.state {
            Some(st) => {
                let n = st.fields.len();
                let mut k: usize = 0;
                while k < n
                    invariant
                        k <= n,
                        n == st.fields@.len(),
                        state@.len() == k,
                        forall|t: int|
                            0 <= t < k ==> (#[trigger] state@[t]).name@ == st.fields@[t].name@
                                && state@[t].value == st.fields@[t].value,
                    decreases n - k,
                {
                    let field = StateField {
                        name: st.fields[k].name.clone(),
                        value: st.fields[k].value,
                    };
                    state.push(field);
                    k = k + 1;
                }
            },
            None => {},
        }
        JokerInstance { definition, state, edition: JokerEdition::Base, stickers: Vec::new() }
    }

    /// The sell value, fixed per rarity.
    pub fn sell_value(&self) -> (r: i64)
        ensures
            r == match self.definition.rarity {
                JokerRarity::Common => 3int,
                JokerRarity::Uncommon => 4int,
                JokerRarity::Rare => 5int,
                JokerRarity::Legendary => 6int,
            },
    {
        match self.definition.rarity {
            JokerRarity::Common => 3,
            JokerRarity::Uncommon => 4,
            JokerRarity::Rare => 5,
            JokerRarity::Legendary => 6,
        }
    }

    /// Whether the instance carries the given sticker.
    pub fn has_sticker(&self, sticker: JokerSticker) -> (r: bool)
        ensures
            r == self.stickers@.contains(sticker),
    {
        let n = self.stickers.len();
        let mut k: usize = 0;
        while k < n
            invariant
                k <= n,
                n == self.stickers@.len(),
                forall|t: int| 0 <= t < k ==> self.stickers@[t] != sticker,
            decreases n - k,
        {
            if self.stickers[k] == sticker {
                return true;
            }
            k = k + 1;
        }
        false
    }

    /// The first value bound to the named state field, if any.
    pub fn state_value(&self, name: &str) -> (r: Option<i64>)
        ensures
            r == find_state_value(self.state@, name@),
    {
        let n = self.state.len();
        let mut k: usize = 0;
        proof {
            assert(self.state@.skip(0) =~= self.state@);
        }
        while k < n
            invariant
                k <= n,
                n == self.state@.len(),
                find_state_value(self.state@, name@) == find_state_value(
                    self.state@.skip(k as int),
                    name@,
                ),
            decreases n - k,
        {
            proof {
                assert(self.state@.skip(k as int)[0] == self.state@[k as int]);
                assert(self.state@.skip(k as int).drop_first() =~= self.state@.skip(k + 1));
            }
            if str_eq(self.state[k].name.as_str(), name) {
                return Some(self.state[k].value);
            }
            k = k + 1;
        }
        proof {
            assert(self.state@.skip(n as int).len() == 0);
        }
        None
    }

    /// Apply the declared `on_hand_played` state mutation, if any.
    pub fn on_hand_played(&mut self)
        ensures
            final(self).definition == old(self).definition,
            final(self).edition == old(self).edition,
            final(self).stickers == old(self).stickers,
            state_steps_to(old(self).state@, final(self).state@, snapshot_of(
                spec_behavior_action(old(self).definition.behavior, BehaviorTrigger::HandPlayed),
            )),
    {
        let action = match &self.definition.behavior {
            Some(b) => match &b.on_hand_played {
                Some(a) => Some(a.clone_action()),
                None => None,
            },
            None => None,
        };
        self.apply_state_action(action);
    }

    /// Apply the declared `on_discard` state mutation, if any.
    pub fn on_discard(&mut self)
        ensures
            final(self).definition == old(self).definition,
            final(self).edition == old(self).edition,
            final(self).stickers == old(self).stickers,
            state_steps_to(old(self).state@, final(self).state@, snapshot_of(
                spec_behavior_action(old(self).definition.behavior, BehaviorTrigger::Discard),
            )),
    {
        let action = match &self.definition.behavior {
            Some(b) => match &b.on_discard {
                Some(a) => Some(a.clone_action()),
                None => None,
            },
            None => None,
        };
        self.apply_state_action(action);
    }

    /// Apply the declared `on_round_end` state mutation, if any.
    pub fn on_round_end(&mut self)
        ensures
            final(self).definition == old(self).definition,
            final(self).edition == old(self).edition,
            final(self).stickers == old(self).stickers,
            state_steps_to(old(self).state@, final(self).state@, snapshot_of(
                spec_behavior_action(old(self).definition.behavior, BehaviorTrigger::RoundEnd),
            )),
    {
        let action = match &self.definition.behavior {
            Some(b) => match &b.on_round_end {
                Some(a) => Some(a.clone_action()),
                None => None,
            },
            None => None,
        };
        self.apply_state_action(action);
    }

    /// Apply the declared `on_shop_open` state mutation, if any.
    pub fn on_shop_open(&mut self)
        ensures
            final(self).definition == old(self).definition,
            final(self).edition == old(self).edition,
            final(self).stickers == old(self).stickers,
            state_steps_to(old(self).state@, final(self).state@, snapshot_of(
                spec_behavior_action(old(self).definition.behavior, BehaviorTrigger::ShopOpen),
            )),
    {
        let action = match &self.definition.behavior {
            Some(b) => match &b.on_shop_open {
                Some(a) => Some(a.clone_action()),
                None => None,
            },
            None => None,
        };
        self.apply_state_action(action);
    }

    /// Apply one state mutation: an `increment` adds the action value
    /// (default one) to the named field, a `set` overwrites it (default
    /// zero); a missing field is created; anything else changes nothing.
    fn apply_state_action(&mut self, action: Option<BehaviorAction>)
        ensures
            final(self).definition == old(self).definition,
            final(self).edition == old(self).edition,
            final(self).stickers == old(self).stickers,
            state_steps_to(old(self).state@, final(self).state@, snapshot_of(action)),
    {
        let a = match action {
            Some(a) => a,
            None => {
                return ;
            },
        };
        let field_name = match &a.field {
            Some(f) => f,
            None => {
                return ;
            },
        };
        let op = a.operator_kind();
        if matches!(op, OperatorKind::Other) {
            return ;
        }
        let amount: i64 = match a.value {
            Some(v) => v,
            None => match op {
                OperatorKind::Increment => 1,
                _ => 0,
            },
        };
        proof {
            assert(snapshot_of(action) == Some(
                StateActionSnapshot { field: field_name@, op, amount },
            ));
            lemma_find_state_index(self.state@, field_name@);
        }
        let n = self.state.len();
        let mut k: usize = 0;
        while k < n
            invariant
                k <= n,
                n == self.state@.len(),
                self.definition == old(self).definition,
                self.edition == old(self).edition,
                self.stickers == old(self).stickers,
                self.state@ == old(self).state@,
                snapshot_of(action) == Some(StateActionSnapshot { field: field_name@, op, amount }),
                forall|t: int| 0 <= t < k ==> (#[trigger] self.state@[t]).name@ != field_name@,
            decreases n - k,
        {
            if str_eq(self.state[k].name.as_str(), field_name.as_str()) {
                let new_value = match op {
                    OperatorKind::Increment => crate::arith::add_sat_i64(
                        self.state[k].value,
                        amount,
                    ),
                    _ => amount,
                };
                let updated = StateField { name: self.state[k].name.clone(), value: new_value };
                proof {
                    lemma_find_state_index(self.state@, field_name@);
                    let i = find_state_index(self.state@, field_name@);
                    if i < k as int {
                        assert(self.state@[i].name@ == field_name@);
                        assert(false);
                    }
                    if i > k as int {
                        assert(self.state@[k as int].name@ != field_name@);
                        assert(false);
                    }
                }
                self.state[k] = updated;
                return ;
            }
            k = k + 1;
        }
        proof {
            lemma_find_state_index(self.state@, field_name@);
            let i = find_state_index(self.state@, field_name@);
            if i >= 0 {
                assert(self.state@[i].name@ == field_name@);
                assert(false);
            }
        }
        let fresh = StateField { name: field_name.clone(), value: amount };
        let ghost pre = self.state@;
        self.state.push(fresh);
        proof {
            assert(self.state@.take(pre.len() as int) =~= pre);
        }
    }
}

/// The four behavior triggers.
#[derive(Debug, Clone, Copy, PartialEq, Eq, Structural)]
pub enum BehaviorTrigger {
    HandPlayed,
    Discard,
    RoundEnd,
    ShopOpen,
}

/// The operation kind a behavior action's `operation` string names.
#[derive(Debug, Clone, Copy, PartialEq, Eq, Structural)]
pub enum OperatorKind {
    Increment,
    Assign,
    Other,
}

impl BehaviorAction {
    /// The operation kind this action performs.
    pub open spec fn spec_operator_kind(self) -> OperatorKind {
        match self.operation {
            Some(op) => if op@ == "increment"@ {
                OperatorKind::Increment
            } else if op@ == "set"@ {
                OperatorKind::Assign
            } else {
                OperatorKind::Other
            },
            None => OperatorKind::Other,
        }
    }

    /// Executable counterpart of [`BehaviorAction::spec_operator_kind`].
    pub fn operator_kind(&self) -> (r: OperatorKind)
        ensures
            r == self.spec_operator_kind(),
    {
        match &self.operation {
            Some(op) => {
                if str_eq(op.as_str(), "increment") {
                    OperatorKind::Increment
                } else if str_eq(op.as_str(), "set") {
                    OperatorKind::Assign
                } else {
                    OperatorKind::Other
                }
            },
            None => OperatorKind::Other,
        }
    }

    /// A copy of this action with the same content.
    pub fn clone_action(&self) -> (r: BehaviorAction)
        ensures
            snapshot_of(Some(r)) == snapshot_of(Some(*self)),
    {
        BehaviorAction {
            action_type: self.action_type.clone(),
            field: clone_opt_string(&self.field),
            operation: clone_opt_string(&self.operation),
            value: self.value,
            target: clone_opt_string(&self.target),
            special_type: clone_opt_string(&self.special_type),
        }
    }
}

/// Copy an optional string.
fn clone_opt_string(s: &Option<String>) -> (r: Option<String>)
    ensures
        match s {
            Some(v) => r matches Some(w) && w@ == v@,
            None => r is None,
        },
{
    match s {
        Some(v) => Some(v.clone()),
        None => None,
    }
}

/// What one behavior action does to the state, reduced to its essentials:
/// the field it touches, the operation kind, and the amount.
pub struct StateActionSnapshot {
    pub field: Seq<char>,
    pub op: OperatorKind,
    pub amount: i64,
}

/// The essential content of an optional behavior action; `None` when the
/// action does nothing to the state.
pub open spec fn snapshot_of(action: Option<BehaviorAction>) -> Option<StateActionSnapshot> {
    match action {
        None => None,
        Some(a) => match a.field {
            None => None,
            Some(f) => {
                let op = a.spec_operator_kind();
                if op == OperatorKind::Other {
                    None
                } else {
                    Some(
                        StateActionSnapshot {
                            field: f@,
                            op,
                            amount: match a.value {
                                Some(v) => v,
                                None => if op == OperatorKind::Increment {
                                    1
                                } else {
                                    0
                                },
                            },
                        },
                    )
                }
            },
        },
    }
}

/// The behavior action a definition declares for a trigger.
pub open spec fn spec_behavior_action(
    behavior: Option<JokerBehavior>,
    trigger: BehaviorTrigger,
) -> Option<BehaviorAction> {
    match behavior {
        None => None,
        Some(b) => match trigger {
            BehaviorTrigger::HandPlayed => b.on_hand_played,
            BehaviorTrigger::Discard => b.on_discard,
            BehaviorTrigger::RoundEnd => b.on_round_end,
            BehaviorTrigger::ShopOpen => b.on_shop_open,
        },
    }
}

/// How the state after one mutation relates to the state before it: with
/// no effective action nothing changes; with a named field present, only
/// that field's value changes (incremented with saturation, or set); with
/// the field missing, it is appended with the amount as its value.
pub open spec fn state_steps_to(
    pre: Seq<StateField>,
    post: Seq<StateField>,
    snap: Option<StateActionSnapshot>,
) -> bool {
    match snap {
        None => post == pre,
        Some(snap) => {
            let idx = find_state_index(pre, snap.field);
            if idx < 0 {
                &&& post.len() == pre.len() + 1
                &&& post.take(pre.len() as int) == pre
                &&& post.last().name@ == snap.field
                &&& post.last().value == snap.amount
            } else {
                &&& post.len() == pre.len()
                &&& (forall|t: int| 0 <= t < pre.len() && t != idx ==> post[t] == pre[t])
                &&& post[idx].name@ == pre[idx].name@
                &&& post[idx].value == match snap.op {
                    OperatorKind::Increment => crate::arith::cap_i64(
                        pre[idx].value + snap.amount,
                    ) as i64,
                    _ => snap.amount,
                }
            }
        },
    }
}

/// The index of the first state field with the given name, or `-1`.
pub open spec fn find_state_index(state: Seq<StateField>, name: Seq<char>) -> int
    decreases state.len(),
{
    if state.len() == 0 {
        -1
    } else if state[0].name@ == name {
        0
    } else {
        let rest = find_state_index(state.drop_first(), name);
        if rest < 0 {
            -1
        } else {
            rest + 1
        }
    }
}

/// Optional strings with the same characters.
pub open spec fn opt_str_matches(a: Option<String>, b: Option<String>) -> bool {
    match (a, b) {
        (Option::None, Option::None) => true,
        (Option::Some(x), Option::Some(y)) => x@ == y@,
        _ => false,
    }
}

/// Conditions with the same content.
pub open spec fn cond_matches(a: JokerCondition, b: JokerCondition) -> bool {
    &&& a.condition_type == b.condition_type
    &&& opt_str_matches(a.hand_type, b.hand_type)
    &&& a.suit == b.suit
    &&& a.rank == b.rank
    &&& opt_str_matches(a.field, b.field)
    &&& opt_str_matches(a.operator, b.operator)
    &&& a.value == b.value
    &&& a.size == b.size
}

/// Optional conditions with the same content.
pub open spec fn opt_cond_matches(a: Option<JokerCondition>, b: Option<JokerCondition>) -> bool {
    match (a, b) {
        (Option::None, Option::None) => true,
        (Option::Some(x), Option::Some(y)) => cond_matches(x, y),
        _ => false,
    }
}

/// Actions with the same content.
pub open spec fn action_matches(a: JokerAction, b: JokerAction) -> bool {
    &&& a.action_type == b.action_type
    &&& a.mult == b.mult
    &&& a.chips == b.chips
    &&& a.mult_multiplier == b.mult_multiplier
    &&& a.chips_multiplier == b.chips_multiplier
    &&& a.count == b.count
    &&& opt_str_matches(a.formula, b.formula)
    &&& opt_str_matches(a.result_type, b.result_type)
}

/// Optional actions with the same content.
pub open spec fn opt_action_matches(a: Option<JokerAction>, b: Option<JokerAction>) -> bool {
    match (a, b) {
        (Option::None, Option::None) => true,
        (Option::Some(x), Option::Some(y)) => action_matches(x, y),
        _ => false,
    }
}

/// State modifiers with the same content.
pub open spec fn modifier_matches(a: StateModifier, b: StateModifier) -> bool {
    a.state_field@ == b.state_field@ && a.multiplier == b.multiplier
}

/// State fields with the same content.
pub open spec fn state_field_matches(a: StateField, b: StateField) -> bool {
    a.name@ == b.name@ && a.value == b.value
}

/// Initial states with the same content.
pub open spec fn opt_state_matches(a: Option<JokerState>, b: Option<JokerState>) -> bool {
    match (a, b) {
        (Option::None, Option::None) => true,
        (Option::Some(x), Option::Some(y)) => x.persistent == y.persistent && x.fields@.len()
            == y.fields@.len() && forall|k: int|
            0 <= k < x.fields@.len() ==> state_field_matches(
                #[trigger] x.fields@[k],
                y.fields@[k],
            ),
        _ => false,
    }
}

/// Behavior actions with the same content.
pub open spec fn behavior_action_matches(a: BehaviorAction, b: BehaviorAction) -> bool {
    &&& a.action_type@ == b.action_type@
    &&& opt_str_matches(a.field, b.field)
    &&& opt_str_matches(a.operation, b.operation)
    &&& a.value == b.value
    &&& opt_str_matches(a.target, b.target)
    &&& opt_str_matches(a.special_type, b.special_type)
}

/// Optional behavior actions with the same content.
pub open spec fn opt_behavior_action_matches(
    a: Option<BehaviorAction>,
    b: Option<BehaviorAction>,
) -> bool {
    match (a, b) {
        (Option::None, Option::None) => true,
        (Option::Some(x), Option::Some(y)) => behavior_action_matches(x, y),
        _ => false,
    }
}

/// Behaviors with the same content.
pub open spec fn opt_behavior_matches(a: Option<JokerBehavior>, b: Option<JokerBehavior>) -> bool {
    match (a, b) {
        (Option::None, Option::None) => true,
        (Option::Some(x), Option::Some(y)) => opt_behavior_action_matches(
            x.on_hand_played,
            y.on_hand_played,
        ) && opt_behavior_action_matches(x.on_round_end, y.on_round_end)
            && opt_behavior_action_matches(x.on_discard, y.on_discard)
            && opt_behavior_action_matches(x.on_shop_open, y.on_shop_open),
        _ => false,
    }
}

/// Effects with the same content.
pub open spec fn effect_matches(a: JokerEffect, b: JokerEffect) -> bool {
    &&& a.effect_type == b.effect_type
    &&& a.per_card == b.per_card
    &&& a.in_hand == b.in_hand
    &&& opt_cond_matches(a.condition, b.condition)
    &&& opt_action_matches(a.action, b.action)
    &&& opt_action_matches(a.base_effect, b.base_effect)
    &&& a.state_modifiers@.len() == b.state_modifiers@.len()
    &&& (forall|k: int|
        0 <= k < a.state_modifiers@.len() ==> modifier_matches(
            #[trigger] a.state_modifiers@[k],
            b.state_modifiers@[k],
        ))
    &&& opt_str_matches(a.special_type, b.special_type)
    &&& a.mult == b.mult
    &&& a.chips == b.chips
    &&& a.mult_multiplier == b.mult_multiplier
    &&& a.chips_multiplier == b.chips_multiplier
    &&& opt_str_matches(a.formula, b.formula)
    &&& opt_str_matches(a.result_type, b.result_type)
}

/// Definitions with the same content.
pub open spec fn def_matches(a: JokerDefinition, b: JokerDefinition) -> bool {
    &&& a.id@ == b.id@
    &&& a.name@ == b.name@
    &&& a.description@ == b.description@
    &&& a.rarity == b.rarity
    &&& a.cost == b.cost
    &&& effect_matches(a.effect, b.effect)
    &&& opt_state_matches(a.state, b.state)
    &&& opt_behavior_matches(a.behavior, b.behavior)
}

/// Copy an optional condition.
fn clone_opt_condition(c: &Option<JokerCondition>) -> (r: Option<JokerCondition>)
    ensures
        opt_cond_matches(r, *c),
{
    match c {
        Some(c) => Some(
            JokerCondition {
                condition_type: c.condition_type,
                hand_type: clone_opt_string(&c.hand_type),
                suit: c.suit,
                rank: c.rank,
                field: clone_opt_string(&c.field),
                operator: clone_opt_string(&c.operator),
                value: c.value,
                size: c.size,
            },
        ),
        None => None,
    }
}

/// Copy an optional action.
fn clone_opt_joker_action(a: &Option<JokerAction>) -> (r: Option<JokerAction>)
    ensures
        opt_action_matches(r, *a),
{
    match a {
        Some(a) => Some(
            JokerAction {
                action_type: a.action_type,
                mult: a.mult,
                chips: a.chips,
                mult_multiplier: a.mult_multiplier,
                chips_multiplier: a.chips_multiplier,
                count: a.count,
                formula: clone_opt_string(&a.formula),
                result_type: clone_opt_string(&a.result_type),
            },
        ),
        None => None,
    }
}

/// Copy a state-modifier list.
fn clone_modifiers(ms: &Vec<StateModifier>) -> (r: Vec<StateModifier>)
    ensures
        r@.len() == ms@.len(),
        forall|k: int| 0 <= k < ms@.len() ==> modifier_matches(#[trigger] r@[k], ms@[k]),
{
    let n = ms.len();
    let mut out: Vec<StateModifier> = Vec::new();
    let mut i: usize = 0;
    while i < n
        invariant
            i <= n,
            n == ms@.len(),
            out@.len() == i,
            forall|k: int| 0 <= k < i ==> modifier_matches(#[trigger] out@[k], ms@[k]),
        decreases n - i,
    {
        let m = StateModifier {
            state_field: ms[i].state_field.clone(),
            multiplier: ms[i].multiplier,
        };
        out.push(m);
        i = i + 1;
    }
    out
}

/// Copy an optional initial state.
fn clone_opt_state(st: &Option<JokerState>) -> (r: Option<JokerState>)
    ensures
        opt_state_matches(r, *st),
{
    match st {
        Some(st) => {
            let n = st.fields.len();
            let mut fields: Vec<StateField> = Vec::new();
            let mut i: usize = 0;
            while i < n
                invariant
                    i <= n,
                    n == st.fields@.len(),
                    fields@.len() == i,
                    forall|k: int|
                        0 <= k < i ==> state_field_matches(#[trigger] fields@[k], st.fields@[k]),
                decreases n - i,
            {
                let f = StateField { name: st.fields[i].name.clone(), value: st.fields[i].value };
                fields.push(f);
                i = i + 1;
            }
            Some(JokerState { persistent: st.persistent, fields })
        },
        None => None,
    }
}

/// Copy an optional behavior action.
fn clone_opt_behavior_action(a: &Option<BehaviorAction>) -> (r: Option<BehaviorAction>)
    ensures
        opt_behavior_action_matches(r, *a),
{
    match a {
        Some(a) => Some(
            BehaviorAction {
                action_type: a.action_type.clone(),
                field: clone_opt_string(&a.field),
                operation: clone_opt_string(&a.operation),
                value: a.value,
                target: clone_opt_string(&a.target),
                special_type: clone_opt_string(&a.special_type),
            },
        ),
        None => None,
    }
}

/// Copy an optional behavior.
fn clone_opt_behavior(b: &Option<JokerBehavior>) -> (r: Option<JokerBehavior>)
    ensures
        opt_behavior_matches(r, *b),
{
    match b {
        Some(b) => Some(
            JokerBehavior {
                on_hand_played: clone_opt_behavior_action(&b.on_hand_played),
                on_round_end: clone_opt_behavior_action(&b.on_round_end),
                on_discard: clone_opt_behavior_action(&b.on_discard),
                on_shop_open: clone_opt_behavior_action(&b.on_shop_open),
            },
        ),
        None => None,
    }
}

/// Copy a definition, content for content.
fn clone_definition(d: &JokerDefinition) -> (r: JokerDefinition)
    ensures
        def_matches(r, *d),
{
    JokerDefinition {
        id: d.id.clone(),
        name: d.name.clone(),
        description: d.description.clone(),
        rarity: d.rarity,
        cost: d.cost,
        effect: JokerEffect {
            effect_type: d.effect.effect_type,
            per_card: d.effect.per_card,
            in_hand: d.effect.in_hand,
            condition: clone_opt_condition(&d.effect.condition),
            action: clone_opt_joker_action(&d.effect.action),
            base_effect: clone_opt_joker_action(&d.effect.base_effect),
            state_modifiers: clone_modifiers(&d.effect.state_modifiers),
            special_type: clone_opt_string(&d.effect.special_type),
            mult: d.effect.mult,
            chips: d.effect.chips,
            mult_multiplier: d.effect.mult_multiplier,
            chips_multiplier: d.effect.chips_multiplier,
            formula: clone_opt_string(&d.effect.formula),
            result_type: clone_opt_string(&d.effect.result_type),
        },
        state: clone_opt_state(&d.state),
        behavior: clone_opt_behavior(&d.behavior),
    }
}

/// The index of the first definition with the given identifier, or `-1`.
pub open spec fn find_def_index(defs: Seq<JokerDefinition>, id: Seq<char>) -> int
    decreases defs.len(),
{
    if defs.len() == 0 {
        -1
    } else if defs[0].id@ == id {
        0
    } else {
        let rest = find_def_index(defs.drop_first(), id);
        if rest < 0 {
            -1
        } else {
            rest + 1
        }
    }
}

/// What [`find_def_index`] returns: `-1` exactly when no definition
/// matches, otherwise the first matching index.
pub proof fn lemma_find_def_index(defs: Seq<JokerDefinition>, id: Seq<char>)
    ensures
        find_def_index(defs, id) == -1 ==> forall|k: int|
            0 <= k < defs.len() ==> (#[trigger] defs[k]).id@ != id,
        find_def_index(defs, id) >= 0 ==> {
            let i = find_def_index(defs, id);
            &&& 0 <= i < defs.len()
            &&& defs[i].id@ == id
            &&& forall|t: int| 0 <= t < i ==> (#[trigger] defs[t]).id@ != id
        },
    decreases defs.len(),
{
    if defs.len() > 0 {
        lemma_find_def_index(defs.drop_first(), id);
        assert forall|k: int| 1 <= k < defs.len() implies defs.drop_first()[k - 1] == defs[k] by {}
    }
}

/// A freshly created instance: base edition, no stickers, state taken from
/// its definition's initial fields.
pub open spec fn instance_fresh(j: JokerInstance) -> bool {
    &&& j.edition == JokerEdition::Base
    &&& j.stickers@.len() == 0
    &&& match j.definition.state {
        Some(st) => j.state@.len() == st.fields@.len() && forall|k: int|
            0 <= k < st.fields@.len() ==> state_field_matches(#[trigger] j.state@[k], st.fields@[k]),
        None => j.state@.len() == 0,
    }
}

/// A valid effect configuration: each effect kind carries the parameters
/// it needs.
pub open spec fn spec_effect_valid(e: JokerEffect) -> bool {
    match e.effect_type {
        JokerEffectType::Scoring => e.mult is Some || e.chips is Some,
        JokerEffectType::Conditional => e.condition is Some && e.action is Some,
        JokerEffectType::Dynamic => e.base_effect is Some || e.state_modifiers@.len() > 0,
        JokerEffectType::Calculate => e.formula is Some && e.result_type is Some,
        JokerEffectType::Special => e.special_type is Some,
    }
}

/// A valid definition: non-empty identifier and name, non-negative cost,
/// and a valid effect.
pub open spec fn spec_def_valid(d: JokerDefinition) -> bool {
    d.id@.len() > 0 && d.name@.len() > 0 && d.cost >= 0 && spec_effect_valid(d.effect)
}

/// No two definitions share an identifier.
pub open spec fn spec_no_dup_ids(defs: Seq<JokerDefinition>) -> bool {
    forall|k1: int, k2: int|
        0 <= k1 < k2 < defs.len() ==> (#[trigger] defs[k1]).id@ != (#[trigger] defs[k2]).id@
}

/// Manager for a loaded joker catalogue.
#[derive(Debug, Clone)]
pub struct JokerManager {
    pub config: JokerConfig,
}

impl JokerManager {
    /// Take over a parsed joker catalogue.
    pub fn from_config(config: JokerConfig) -> (r: JokerManager)
        ensures
            r.config == config,
    {
        JokerManager { config }
    }

    /// The schema version of the catalogue.
    pub fn schema_version(&self) -> (r: &str)
        ensures
            r@ == self.config.schema_version@,
    {
        self.config.schema_version.as_str()
    }

    /// The first definition with the given identifier, if any.
    pub fn get_definition(&self, id: &str) -> (r: Option<&JokerDefinition>)
        ensures
            find_def_index(self.config.jokers@, id@) >= 0 ==> (r matches Some(d) && *d
                == self.config.jokers@[find_def_index(self.config.jokers@, id@)]),
            find_def_index(self.config.jokers@, id@) == -1 ==> r is None,
    {
        match self.def_position(id) {
            Some(idx) => Some(&self.config.jokers[idx]),
            None => None,
        }
    }

    /// The position of the first definition with the given identifier.
    fn def_position(&self, id: &str) -> (r: Option<usize>)
        ensures
            find_def_index(self.config.jokers@, id@) >= 0 ==> (r matches Some(idx) && idx as int
                == find_def_index(self.config.jokers@, id@) && idx < self.config.jokers@.len()),
            find_def_index(self.config.jokers@, id@) == -1 ==> r is None,
    {
        proof {
            lemma_find_def_index(self.config.jokers@, id@);
        }
        let n = self.config.jokers.len();
        let mut k: usize = 0;
        while k < n
            invariant
                k <= n,
                n == self.config.jokers@.len(),
                forall|t: int| 0 <= t < k ==> (#[trigger] self.config.jokers@[t]).id@ != id@,
            decreases n - k,
        {
            if str_eq(self.config.jokers[k].id.as_str(), id) {
                proof {
                    lemma_find_def_index(self.config.jokers@, id@);
                    let i = find_def_index(self.config.jokers@, id@);
                    if i < k as int {
                        assert(self.config.jokers@[i].id@ == id@);
                        assert(false);
                    }
                    if i > k as int {
                        assert(self.config.jokers@[k as int].id@ != id@);
                        assert(false);
                    }
                }
                return Some(k);
            }
            k = k + 1;
        }
        None
    }

    /// All definition identifiers, in catalogue order.
    pub fn get_all_ids(&self) -> (r: Vec<String>)
        ensures
            r@.len() == self.config.jokers@.len(),
            forall|k: int| 0 <= k < r@.len() ==> (#[trigger] r@[k])@ == self.config.jokers@[k].id@,
    {
        let n = self.config.jokers.len();
        let mut out: Vec<String> = Vec::new();
        let mut i: usize = 0;
        while i < n
            invariant
                i <= n,
                n == self.config.jokers@.len(),
                out@.len() == i,
                forall|k: int| 0 <= k < i ==> (#[trigger] out@[k])@ == self.config.jokers@[k].id@,
            decreases n - i,
        {
            out.push(self.config.jokers[i].id.clone());
            i = i + 1;
        }
        out
    }

    /// All definitions of the given rarity, in catalogue order.
    pub fn get_by_rarity(&self, rarity: JokerRarity) -> (r: Vec<&JokerDefinition>)
        ensures
            r@.map_values(|d: &JokerDefinition| *d) == self.config.jokers@.filter(
                |d: JokerDefinition| d.rarity == rarity,
            ),
    {
        broadcast use vstd::seq_lib::group_seq_properties;

        let n = self.config.jokers.len();
        let mut out: Vec<&JokerDefinition> = Vec::new();
        let mut i: usize = 0;
        while i < n
            invariant
                i <= n,
                n == self.config.jokers@.len(),
                out@.map_values(|d: &JokerDefinition| *d) == self.config.jokers@.take(
                    i as int,
                ).filter(|d: JokerDefinition| d.rarity == rarity),
            decreases n - i,
        {
            proof {
                self.config.jokers@.lemma_take_succ_push(i as int);
                self.config.jokers@.take(i as int).lemma_filter_push(
                    self.config.jokers@[i as int],
                    |d: JokerDefinition| d.rarity == rarity,
                );
            }
            if matches_rarity(&self.config.jokers[i], rarity) {
                out.push(&self.config.jokers[i]);
                proof {
                    assert(out@.map_values(|d: &JokerDefinition| *d) =~= self.config.jokers@.take(
                        i + 1,
                    ).filter(|d: JokerDefinition| d.rarity == rarity));
                }
            } else {
                proof {
                    assert(out@.map_values(|d: &JokerDefinition| *d) =~= self.config.jokers@.take(
                        i + 1,
                    ).filter(|d: JokerDefinition| d.rarity == rarity));
                }
            }
            i = i + 1;
        }
        proof {
            assert(self.config.jokers@.take(n as int) =~= self.config.jokers@);
        }
        out
    }

    /// All definitions whose cost lies in the inclusive range.
    pub fn get_by_cost_range(&self, min_cost: i64, max_cost: i64) -> (r: Vec<&JokerDefinition>)
        ensures
            r@.map_values(|d: &JokerDefinition| *d) == self.config.jokers@.filter(
                |d: JokerDefinition| min_cost <= d.cost <= max_cost,
            ),
    {
        broadcast use vstd::seq_lib::group_seq_properties;

        let n = self.config.jokers.len();
        let mut out: Vec<&JokerDefinition> = Vec::new();
        let mut i: usize = 0;
        while i < n
            invariant
                i <= n,
                n == self.config.jokers@.len(),
                out@.map_values(|d: &JokerDefinition| *d) == self.config.jokers@.take(
                    i as int,
                ).filter(|d: JokerDefinition| min_cost <= d.cost <= max_cost),
            decreases n - i,
        {
            proof {
                self.config.jokers@.lemma_take_succ_push(i as int);
                self.config.jokers@.take(i as int).lemma_filter_push(
                    self.config.jokers@[i as int],
                    |d: JokerDefinition| min_cost <= d.cost <= max_cost,
                );
            }
            if min_cost <= self.config.jokers[i].cost && self.config.jokers[i].cost <= max_cost {
                out.push(&self.config.jokers[i]);
                proof {
                    assert(out@.map_values(|d: &JokerDefinition| *d) =~= self.config.jokers@.take(
                        i + 1,
                    ).filter(|d: JokerDefinition| min_cost <= d.cost <= max_cost));
                }
            } else {
                proof {
                    assert(out@.map_values(|d: &JokerDefinition| *d) =~= self.config.jokers@.take(
                        i + 1,
                    ).filter(|d: JokerDefinition| min_cost <= d.cost <= max_cost));
                }
            }
            i = i + 1;
        }
        proof {
            assert(self.config.jokers@.take(n as int) =~= self.config.jokers@);
        }
        out
    }

    /// Create a fresh instance of the identified definition: same content,
    /// initial state from the definition, base edition, no stickers. An
    /// unknown identifier is an error.
    pub fn create_joker(&self, id: &str) -> (r: GameResult<JokerInstance>)
        ensures
            find_def_index(self.config.jokers@, id@) >= 0 ==> (r matches Ok(j) && def_matches(
                j.definition,
                self.config.jokers@[find_def_index(self.config.jokers@, id@)],
            ) && instance_fresh(j)),
            find_def_index(self.config.jokers@, id@) == -1 ==> (r matches Err(e)
                && e is InvalidJokerOperation),
    {
        match self.def_position(id) {
            Some(idx) => {
                let cloned = clone_definition(&self.config.jokers[idx]);
                let j = JokerInstance::new(cloned);
                Ok(j)
            },
            None => Err(GameError::InvalidJokerOperation("joker not found".to_owned())),
        }
    }

    /// Validate the catalogue: identifiers must be unique, and every
    /// definition well-formed. Returns the catalogue's first fault.
    pub fn validate(&self) -> (r: GameResult<()>)
        ensures
            (r is Ok) == (spec_no_dup_ids(self.config.jokers@) && forall|k: int|
                0 <= k < self.config.jokers@.len() ==> spec_def_valid(
                    #[trigger] self.config.jokers@[k],
                )),
            r matches Err(e) ==> e is InvalidJokerOperation,
    {
        let n = self.config.jokers.len();
        let mut k1: usize = 0;
        while k1 < n
            invariant
                k1 <= n,
                n == self.config.jokers@.len(),
                forall|a: int, b: int|
                    0 <= a < b < n && a < k1 ==> (#[trigger] self.config.jokers@[a]).id@ != (
                    #[trigger] self.config.jokers@[b]).id@,
            decreases n - k1,
        {
            let mut k2: usize = k1 + 1;
            while k2 < n
                invariant
                    k1 < k2 <= n || (k1 + 1 == k2 && k2 >= n),
                    k1 < n,
                    n == self.config.jokers@.len(),
                    forall|b: int|
                        k1 < b < k2 ==> (#[trigger] self.config.jokers@[b]).id@
                            != self.config.jokers@[k1 as int].id@,
                decreases n - k2,
            {
                if str_eq(
                    self.config.jokers[k1].id.as_str(),
                    self.config.jokers[k2].id.as_str(),
                ) {
                    return Err(
                        GameError::InvalidJokerOperation("duplicate joker identifier".to_owned()),
                    );
                }
                k2 = k2 + 1;
            }
            k1 = k1 + 1;
        }
        let mut k: usize = 0;
        while k < n
            invariant
                k <= n,
                n == self.config.jokers@.len(),
                spec_no_dup_ids(self.config.jokers@),
                forall|t: int| 0 <= t < k ==> spec_def_valid(#[trigger] self.config.jokers@[t]),
            decreases n - k,
        {
            match self.validate_joker_definition(k) {
                Ok(()) => {},
                Err(e) => {
                    return Err(e);
                },
            }
            k = k + 1;
        }
        Ok(())
    }

    /// Validate one definition by position.
    fn validate_joker_definition(&self, k: usize) -> (r: GameResult<()>)
        requires
            k < self.config.jokers@.len(),
        ensures
            (r is Ok) == spec_def_valid(self.config.jokers@[k as int]),
            r matches Err(e) ==> e is InvalidJokerOperation,
    {
        let d = &self.config.jokers[k];
        if d.id.as_str().unicode_len() == 0 {
            return Err(GameError::InvalidJokerOperation("joker identifier is empty".to_owned()));
        }
        if d.name.as_str().unicode_len() == 0 {
            return Err(GameError::InvalidJokerOperation("joker name is empty".to_owned()));
        }
        if d.cost < 0 {
            return Err(GameError::InvalidJokerOperation("joker cost is negative".to_owned()));
        }
        self.validate_joker_effect(k)
    }

    /// Validate one definition's effect by position.
    fn validate_joker_effect(&self, k: usize) -> (r: GameResult<()>)
        requires
            k < self.config.jokers@.len(),
        ensures
            (r is Ok) == spec_effect_valid(self.config.jokers@[k as int].effect),
            r matches Err(e) ==> e is InvalidJokerOperation,
    {
        let e = &self.config.jokers[k].effect;
        match e.effect_type {
            JokerEffectType::Scoring => {
                if e.mult.is_none() && e.chips.is_none() {
                    return Err(
                        GameError::InvalidJokerOperation(
                            "scoring effect needs mult or chips".to_owned(),
                        ),
                    );
                }
            },
            JokerEffectType::Conditional => {
                if e.condition.is_none() || e.action.is_none() {
                    return Err(
                        GameError::InvalidJokerOperation(
                            "conditional effect needs condition and action".to_owned(),
                        ),
                    );
                }
            },
            JokerEffectType::Dynamic => {
                if e.base_effect.is_none() && e.state_modifiers.len() == 0 {
                    return Err(
                        GameError::InvalidJokerOperation(
                            "dynamic effect needs base effect or state modifiers".to_owned(),
                        ),
                    );
                }
            },
            JokerEffectType::Calculate => {
                if e.formula.is_none() || e.result_type.is_none() {
                    return Err(
                        GameError::InvalidJokerOperation(
                            "calculate effect needs formula and result type".to_owned(),
                        ),
                    );
                }
            },
            JokerEffectType::Special => {
                if e.special_type.is_none() {
                    return Err(
                        GameError::InvalidJokerOperation(
                            "special effect needs special type".to_owned(),
                        ),
                    );
                }
            },
        }
        Ok(())
    }
}

impl Default for JokerManager {
    /// An empty catalogue with the current schema version.
    fn default() -> (r: JokerManager)
        ensures
            r.config.jokers@.len() == 0,
            r.config.schema_version@ == "1.0.0"@,
    {
        JokerManager {
            config: JokerConfig { schema_version: "1.0.0".to_owned(), jokers: Vec::new() },
        }
    }
}

/// Whether the definition has the given rarity.
fn matches_rarity(d: &JokerDefinition, rarity: JokerRarity) -> (r: bool)
    ensures
        r == (d.rarity == rarity),
{
    d.rarity == rarity
}

/// What [`find_state_index`] returns: `-1` exactly when no field matches,
/// otherwise the first matching index.
pub proof fn lemma_find_state_index(state: Seq<StateField>, name: Seq<char>)
    ensures
        find_state_index(state, name) == -1 ==> forall|k: int|
            0 <= k < state.len() ==> (#[trigger] state[k]).name@ != name,
        find_state_index(state, name) >= 0 ==> {
            let i = find_state_index(state, name);
            &&& 0 <= i < state.len()
            &&& state[i].name@ == name
            &&& forall|t: int| 0 <= t < i ==> (#[trigger] state[t]).name@ != name
        },
    decreases state.len(),
{
    if state.len() > 0 {
        lemma_find_state_index(state.drop_first(), name);
        assert forall|k: int| 1 <= k < state.len() implies state.drop_first()[k - 1] == state[k] by {}
    }
}

} // verus!
