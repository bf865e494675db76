//! Stakes: difficulty tiers that modify the game through integer
//! multipliers. Percentages are in hundredths (100 means no change).

use vstd::prelude::*;

use crate::arith::cap_i64;

verus! {

/// The stake levels, in ascending difficulty.
#[derive(Debug, Clone, Copy, PartialEq, Eq, PartialOrd, Ord, Structural)]
pub enum StakeLevel {
    White,
    Red,
    Green,
    Blue,
    Black,
    Purple,
    Orange,
    Gold,
}

/// Modifiers a stake applies to the game. Multipliers are percentages in
/// hundredths: 100 means no change.
#[derive(Debug, Clone, Copy, PartialEq, Eq, Structural)]
pub struct StakeModifiers {
    /// Multiplier for blind scores, in hundredths.
    pub blind_score_multiplier: u32,
    /// Multiplier for blind money rewards, in hundredths.
    pub money_reward_multiplier: u32,
    /// Additional money cost for skipping blinds.
    pub skip_cost_bonus: i64,
    /// Multiplier for joker costs, in hundredths.
    pub joker_cost_multiplier: u32,
    /// Multiplier for consumable costs, in hundredths.
    pub consumable_cost_multiplier: u32,
    /// Additional hands per round (may be negative).
    pub hands_per_round_bonus: i64,
    /// Additional discards per round (may be negative).
    pub discards_per_round_bonus: i64,
    /// Starting money modifier (may be negative).
    pub starting_money_modifier: i64,
    /// Starting hand size modifier (may be negative).
    pub starting_hand_size_modifier: i64,
}

/// A stake configuration: a level with its modifiers.
#[derive(Debug, Clone)]
pub struct Stake {
    pub level: StakeLevel,
    pub name: String,
    pub description: String,
    pub modifiers: StakeModifiers,
}

/// A non-negative value scaled by a percentage in hundredths, truncating.
pub open spec fn spec_apply_pct(base: int, pct: int) -> int {
    (base * pct) / 100
}

impl StakeModifiers {
    /// Apply one percentage multiplier to a non-negative base value.
    fn apply_pct(base: i64, pct: u32) -> (r: i64)
        requires
            base >= 0,
        ensures
            r == cap_i64(spec_apply_pct(base as int, pct as int)),
    {
        proof {
            assert(base * pct <= i64::MAX * u32::MAX) by (nonlinear_arith)
                requires
                    0 <= base <= i64::MAX,
                    0 <= pct <= u32::MAX,
            ;
            assert(base * pct >= 0) by (nonlinear_arith)
                requires
                    base >= 0,
                    pct >= 0,
            ;
        }
        let wide: u128 = (base as u128) * (pct as u128) / 100;
        if wide > i64::MAX as u128 {
            i64::MAX
        } else {
            wide as i64
        }
    }

    /// Apply the blind-score multiplier to a base score.
    pub fn apply_to_score(&self, base_score: i64) -> (r: i64)
        requires
            base_score >= 0,
        ensures
            r == cap_i64(spec_apply_pct(base_score as int, self.blind_score_multiplier as int)),
    {
        Self::apply_pct(base_score, self.blind_score_multiplier)
    }

    /// Apply the money-reward multiplier to a base reward.
    pub fn apply_to_money(&self, base_money: i64) -> (r: i64)
        requires
            base_money >= 0,
        ensures
            r == cap_i64(spec_apply_pct(base_money as int, self.money_reward_multiplier as int)),
    {
        Self::apply_pct(base_money, self.money_reward_multiplier)
    }

    /// Apply the joker-cost multiplier to a base cost.
    pub fn apply_to_joker_cost(&self, base_cost: i64) -> (r: i64)
        requires
            base_cost >= 0,
        ensures
            r == cap_i64(spec_apply_pct(base_cost as int, self.joker_cost_multiplier as int)),
    {
        Self::apply_pct(base_cost, self.joker_cost_multiplier)
    }

    /// Apply the consumable-cost multiplier to a base cost.
    pub fn apply_to_consumable_cost(&self, base_cost: i64) -> (r: i64)
        requires
            base_cost >= 0,
        ensures
            r == cap_i64(spec_apply_pct(base_cost as int, self.consumable_cost_multiplier as int)),
    {
        Self::apply_pct(base_cost, self.consumable_cost_multiplier)
    }

    /// The skip cost with this stake's bonus.
    pub fn get_skip_cost(&self, base_skip_cost: i64) -> (r: i64)
        ensures
            r == cap_i64(base_skip_cost + self.skip_cost_bonus),
    {
        crate::arith::add_sat_i64(base_skip_cost, self.skip_cost_bonus)
    }

    /// Hands per round with this stake's bonus, at least one.
    pub fn get_hands_per_round(&self, base_hands: i64) -> (r: i64)
        ensures
            r == vstd::math::max(cap_i64(base_hands + self.hands_per_round_bonus), 1),
    {
        let v = crate::arith::add_sat_i64(base_hands, self.hands_per_round_bonus);
        if v < 1 {
            1
        } else {
            v
        }
    }

    /// Discards per round with this stake's bonus, at least zero.
    pub fn get_discards_per_round(&self, base_discards: i64) -> (r: i64)
        ensures
            r == vstd::math::max(cap_i64(base_discards + self.discards_per_round_bonus), 0),
    {
        let v = crate::arith::add_sat_i64(base_discards, self.discards_per_round_bonus);
        if v < 0 {
            0
        } else {
            v
        }
    }

    /// Starting money with this stake's modifier, at least zero.
    pub fn get_starting_money(&self, base_money: i64) -> (r: i64)
        ensures
            r == vstd::math::max(cap_i64(base_money + self.starting_money_modifier), 0),
    {
        let v = crate::arith::add_sat_i64(base_money, self.starting_money_modifier);
        if v < 0 {
            0
        } else {
            v
        }
    }

    /// Starting hand size with this stake's modifier, at least one.
    pub fn get_starting_hand_size(&self, base_hand_size: i64) -> (r: i64)
        ensures
            r == vstd::math::max(cap_i64(base_hand_size + self.starting_hand_size_modifier), 1),
    {
        let v = crate::arith::add_sat_i64(base_hand_size, self.starting_hand_size_modifier);
        if v < 1 {
            1
        } else {
            v
        }
    }
}

impl Default for StakeModifiers {
    /// The neutral modifiers: every multiplier one, every bonus zero.
    fn default() -> (r: StakeModifiers)
        ensures
            r == spec_default_modifiers(),
    {
        StakeModifiers {
            blind_score_multiplier: 100,
            money_reward_multiplier: 100,
            skip_cost_bonus: 0,
            joker_cost_multiplier: 100,
            consumable_cost_multiplier: 100,
            hands_per_round_bonus: 0,
            discards_per_round_bonus: 0,
            starting_money_modifier: 0,
            starting_hand_size_modifier: 0,
        }
    }
}

/// The neutral stake modifiers.
pub open spec fn spec_default_modifiers() -> StakeModifiers {
    StakeModifiers {
        blind_score_multiplier: 100,
        money_reward_multiplier: 100,
        skip_cost_bonus: 0,
        joker_cost_multiplier: 100,
        consumable_cost_multiplier: 100,
        hands_per_round_bonus: 0,
        discards_per_round_bonus: 0,
        starting_money_modifier: 0,
        starting_hand_size_modifier: 0,
    }
}

impl StakeLevel {
    /// The level's plain name.
    pub fn plain_name(self) -> (r: &'static str)
        ensures
            r@ == spec_level_name(self),
    {
        match self {
            StakeLevel::White => "White",
            StakeLevel::Red => "Red",
            StakeLevel::Green => "Green",
            StakeLevel::Blue => "Blue",
            StakeLevel::Black => "Black",
            StakeLevel::Purple => "Purple",
            StakeLevel::Orange => "Orange",
            StakeLevel::Gold => "Gold",
        }
    }
}

/// The plain name of a stake level.
pub open spec fn spec_level_name(level: StakeLevel) -> Seq<char> {
    match level {
        StakeLevel::White => "White"@,
        StakeLevel::Red => "Red"@,
        StakeLevel::Green => "Green"@,
        StakeLevel::Blue => "Blue"@,
        StakeLevel::Black => "Black"@,
        StakeLevel::Purple => "Purple"@,
        StakeLevel::Orange => "Orange"@,
        StakeLevel::Gold => "Gold"@,
    }
}

impl Stake {
    /// Create a stake with the level's name and neutral modifiers.
    pub fn new(level: StakeLevel) -> (r: Stake)
        ensures
            r.level == level,
            r.name@ == spec_level_name(level),
            r.description@ == spec_level_name(level),
            r.modifiers == spec_default_modifiers(),
    {
        let name = level.plain_name();
        Stake {
            level,
            name: name.to_owned(),
            description: name.to_owned(),
            modifiers: StakeModifiers::default(),
        }
    }

    /// Create a stake with a custom name and description and neutral
    /// modifiers.
    pub fn new_verbose(level: StakeLevel, name: String, description: String) -> (r: Stake)
        ensures
            r.level == level,
            r.name == name,
            r.description == description,
            r.modifiers == spec_default_modifiers(),
    {
        Stake { level, name, description, modifiers: StakeModifiers::default() }
    }

    /// Create a stake with custom modifiers.
    pub fn with_modifiers(
        level: StakeLevel,
        name: String,
        description: String,
        modifiers: StakeModifiers,
    ) -> (r: Stake)
        ensures
            r.level == level,
            r.name == name,
            r.description == description,
            r.modifiers == modifiers,
    {
        Stake { level, name, description, modifiers }
    }

    /// The display color of this stake.
    pub fn color(&self) -> (r: &'static str)
        ensures
            r@ == spec_stake_color(self.level),
    {
        match self.level {
            StakeLevel::White => "white",
            StakeLevel::Red => "red",
            StakeLevel::Green => "green",
            StakeLevel::Blue => "blue",
            StakeLevel::Black => "black",
            StakeLevel::Purple => "purple",
            StakeLevel::Orange => "orange",
            StakeLevel::Gold => "gold",
        }
    }

    /// The difficulty multiplier of this stake, in hundredths.
    pub fn difficulty_multiplier(&self) -> (r: u32)
        ensures
            r == spec_difficulty_multiplier(self.level),
    {
        match self.level {
            StakeLevel::White => 100,
            StakeLevel::Red => 110,
            StakeLevel::Green => 120,
            StakeLevel::Blue => 130,
            StakeLevel::Black => 140,
            StakeLevel::Purple => 150,
            StakeLevel::Orange => 160,
            StakeLevel::Gold => 170,
        }
    }
}

/// The display color of a stake level.
pub open spec fn spec_stake_color(level: StakeLevel) -> Seq<char> {
    match level {
        StakeLevel::White => "white"@,
        StakeLevel::Red => "red"@,
        StakeLevel::Green => "green"@,
        StakeLevel::Blue => "blue"@,
        StakeLevel::Black => "black"@,
        StakeLevel::Purple => "purple"@,
        StakeLevel::Orange => "orange"@,
        StakeLevel::Gold => "gold"@,
    }
}

/// The difficulty multiplier of a stake level, in hundredths.
pub open spec fn spec_difficulty_multiplier(level: StakeLevel) -> int {
    match level {
        StakeLevel::White => 100,
        StakeLevel::Red => 110,
        StakeLevel::Green => 120,
        StakeLevel::Blue => 130,
        StakeLevel::Black => 140,
        StakeLevel::Purple => 150,
        StakeLevel::Orange => 160,
        StakeLevel::Gold => 170,
    }
}

/// Manager for the default stakes configuration.
#[derive(Debug, Clone)]
pub struct StakeManager {
    pub stakes: Vec<Stake>,
}

impl StakeManager {
    /// Create the default configuration: one stake per level, in level
    /// order, with the standard modifiers.
    pub fn new() -> (r: StakeManager)
        ensures
            r.stakes@.len() == 8,
            forall|k: int|
                0 <= k < 8 ==> (#[trigger] r.stakes@[k]).level == spec_level_at(k)
                    && r.stakes@[k].modifiers == spec_default_stake_modifiers(spec_level_at(k)),
    {
        let mut stakes: Vec<Stake> = Vec::new();
        stakes.push(
            Stake::with_modifiers(
                StakeLevel::White,
                "White".to_owned(),
                "Base difficulty with no modifiers".to_owned(),
                StakeModifiers::default(),
            ),
        );
        stakes.push(
            Stake::with_modifiers(
                StakeLevel::Red,
                "Red".to_owned(),
                "Blind scores increased by 10%".to_owned(),
                StakeModifiers { blind_score_multiplier: 110, ..StakeModifiers::default() },
            ),
        );
        stakes.push(
            Stake::with_modifiers(
                StakeLevel::Green,
                "Green".to_owned(),
                "Skip costs increased by $2".to_owned(),
                StakeModifiers { skip_cost_bonus: 2, ..StakeModifiers::default() },
            ),
        );
        stakes.push(
            Stake::with_modifiers(
                StakeLevel::Blue,
                "Blue".to_owned(),
                "Blind scores +20%, skip costs +$3".to_owned(),
                StakeModifiers {
                    blind_score_multiplier: 120,
                    skip_cost_bonus: 3,
                    ..StakeModifiers::default()
                },
            ),
        );
        stakes.push(
            Stake::with_modifiers(
                StakeLevel::Black,
                "Black".to_owned(),
                "Money rewards reduced by 25%".to_owned(),
                StakeModifiers { money_reward_multiplier: 75, ..StakeModifiers::default() },
            ),
        );
        stakes.push(
            Stake::with_modifiers(
                StakeLevel::Purple,
                "Purple".to_owned(),
                "Joker costs increased by 50%".to_owned(),
                StakeModifiers { joker_cost_multiplier: 150, ..StakeModifiers::default() },
            ),
        );
        stakes.push(
            Stake::with_modifiers(
                StakeLevel::Orange,
                "Orange".to_owned(),
                "One less hand per round".to_owned(),
                StakeModifiers { hands_per_round_bonus: -1, ..StakeModifiers::default() },
            ),
        );
        stakes.push(
            Stake::with_modifiers(
                StakeLevel::Gold,
                "Gold".to_owned(),
                "All previous modifiers combined".to_owned(),
                StakeModifiers {
                    blind_score_multiplier: 130,
                    money_reward_multiplier: 75,
                    skip_cost_bonus: 5,
                    joker_cost_multiplier: 150,
                    consumable_cost_multiplier: 125,
                    hands_per_round_bonus: -1,
                    discards_per_round_bonus: -1,
                    starting_money_modifier: -2,
                    starting_hand_size_modifier: -1,
                },
            ),
        );
        StakeManager { stakes }
    }

    /// All stakes.
    pub fn all_stakes(&self) -> (r: &Vec<Stake>)
        ensures
            r == &self.stakes,
    {
        &self.stakes
    }

    /// The first stake of the given level, if any.
    pub fn get_stake(&self, level: StakeLevel) -> (r: Option<&Stake>)
        ensures
            (r is Some) == exists|k: int|
                0 <= k < self.stakes@.len() && (#[trigger] self.stakes@[k]).level == level,
            r matches Some(s) ==> exists|k: int|
                0 <= k < self.stakes@.len() && *s == self.stakes@[k] && (
                #[trigger] self.stakes@[k]).level == level,
    {
        let n = self.stakes.len();
        let mut k: usize = 0;
        while k < n
            invariant
                k <= n,
                n == self.stakes@.len(),
                forall|t: int| 0 <= t < k ==> (#[trigger] self.stakes@[t]).level != level,
            decreases n - k,
        {
            if level_eq(self.stakes[k].level, level) {
                return Some(&self.stakes[k]);
            }
            k = k + 1;
        }
        None
    }
}

/// Whether two stake levels are the same.
fn level_eq(a: StakeLevel, b: StakeLevel) -> (r: bool)
    ensures
        r == (a == b),
{
    a == b
}

impl Default for StakeManager {
    /// The default stakes configuration.
    fn default() -> (r: StakeManager)
        ensures
            r.stakes@.len() == 8,
    {
        StakeManager::new()
    }
}

/// The stake level at a position of the default configuration.
pub open spec fn spec_level_at(k: int) -> StakeLevel {
    if k == 0 {
        StakeLevel::White
    } else if k == 1 {
        StakeLevel::Red
    } else if k == 2 {
        StakeLevel::Green
    } else if k == 3 {
        StakeLevel::Blue
    } else if k == 4 {
        StakeLevel::Black
    } else if k == 5 {
        StakeLevel::Purple
    } else if k == 6 {
        StakeLevel::Orange
    } else {
        StakeLevel::Gold
    }
}

/// The standard modifiers of each stake level in the default configuration.
pub open spec fn spec_default_stake_modifiers(level: StakeLevel) -> StakeModifiers {
    match level {
        StakeLevel::White => spec_default_modifiers(),
        StakeLevel::Red => StakeModifiers {
            blind_score_multiplier: 110,
            ..spec_default_modifiers()
        },
        StakeLevel::Green => StakeModifiers { skip_cost_bonus: 2, ..spec_default_modifiers() },
        StakeLevel::Blue => StakeModifiers {
            blind_score_multiplier: 120,
            skip_cost_bonus: 3,
            ..spec_default_modifiers()
        },
        StakeLevel::Black => StakeModifiers {
            money_reward_multiplier: 75,
            ..spec_default_modifiers()
        },
        StakeLevel::Purple => StakeModifiers {
            joker_cost_multiplier: 150,
            ..spec_default_modifiers()
        },
        StakeLevel::Orange => StakeModifiers {
            hands_per_round_bonus: -1i64,
            ..spec_default_modifiers()
        },
        StakeLevel::Gold => StakeModifiers {
            blind_score_multiplier: 130,
            money_reward_multiplier: 75,
            skip_cost_bonus: 5,
            joker_cost_multiplier: 150,
            consumable_cost_multiplier: 125,
            hands_per_round_bonus: -1i64,
            discards_per_round_bonus: -1i64,
            starting_money_modifier: -2i64,
            starting_hand_size_modifier: -1i64,
        },
    }
}

} // verus!
