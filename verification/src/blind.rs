//! Blinds: the score targets of an ante. A base-score table (handed in as
//! plain data by the configuration loader) gives the required score per
//! ante and stake tier; the processor derives the small, big and boss
//! blinds from it.

use vstd::prelude::*;

use crate::arith::cap_i64;
use crate::error::{GameError, GameResult};
use crate::stakes::{Stake, StakeLevel, spec_apply_pct};

verus! {

/// Types of blinds in the game.
#[derive(Debug, Clone, Copy, PartialEq, Eq, Structural)]
pub enum BlindType {
    Small,
    Big,
    Boss,
}

/// Status of a blind in the game.
#[derive(Debug, Clone, Copy, PartialEq, Eq, Structural)]
pub enum BlindStatus {
    Upcoming,
    Active,
    Complete,
    Skipped,
}

/// Boss blind effects. No specific effect is defined yet.
#[derive(Debug, Clone, Copy, PartialEq, Eq, Structural)]
pub enum BossEffect {
    NoEffect,
}

/// One row of the base required scores table: the required score for one
/// ante, per stake-tier column.
#[derive(Debug, Clone, Copy, PartialEq, Eq, Structural)]
pub struct BaseScoreRow {
    pub ante: i64,
    pub required_score: i64,
    pub green_stake_required_score: i64,
    pub purple_stake_required_score: i64,
}

/// A blind the player must overcome.
#[derive(Debug, Clone)]
pub struct Blind {
    pub name: String,
    pub blind_type: BlindType,
    pub required_score: i64,
    pub reward_money: i64,
    pub boss_effect: Option<BossEffect>,
    pub status: BlindStatus,
}

impl Blind {
    /// Create a new upcoming blind without a boss effect.
    pub fn new(name: String, blind_type: BlindType, required_score: i64, reward_money: i64) -> (r:
        Blind)
        ensures
            r.name == name,
            r.blind_type == blind_type,
            r.required_score == required_score,
            r.reward_money == reward_money,
            r.boss_effect is None,
            r.status == BlindStatus::Upcoming,
    {
        Blind {
            name,
            blind_type,
            required_score,
            reward_money,
            boss_effect: None,
            status: BlindStatus::Upcoming,
        }
    }

    /// Create a new upcoming boss blind with an effect.
    pub fn new_boss(name: String, required_score: i64, reward_money: i64, effect: BossEffect) -> (r:
        Blind)
        ensures
            r.name == name,
            r.blind_type == BlindType::Boss,
            r.required_score == required_score,
            r.reward_money == reward_money,
            r.boss_effect == Some(effect),
            r.status == BlindStatus::Upcoming,
    {
        Blind {
            name,
            blind_type: BlindType::Boss,
            required_score,
            reward_money,
            boss_effect: Some(effect),
            status: BlindStatus::Upcoming,
        }
    }

    /// Only small and big blinds can be skipped.
    pub fn can_skip(&self) -> (r: bool)
        ensures
            r == (self.blind_type == BlindType::Small || self.blind_type == BlindType::Big),
    {
        match self.blind_type {
            BlindType::Small | BlindType::Big => true,
            BlindType::Boss => false,
        }
    }
}

/// The three blinds of one ante.
#[derive(Debug, Clone)]
pub struct UpcomingBlinds {
    pub small: Blind,
    pub big: Blind,
    pub boss: Blind,
}

impl UpcomingBlinds {
    /// Bundle the three blinds of an ante.
    pub fn new(small: Blind, big: Blind, boss: Blind) -> (r: UpcomingBlinds)
        ensures
            r.small == small,
            r.big == big,
            r.boss == boss,
    {
        UpcomingBlinds { small, big, boss }
    }

    /// The blind of the given type.
    pub fn get_blind(&self, blind_type: BlindType) -> (r: Option<&Blind>)
        ensures
            r matches Some(b) && *b == match blind_type {
                BlindType::Small => self.small,
                BlindType::Big => self.big,
                BlindType::Boss => self.boss,
            },
    {
        match blind_type {
            BlindType::Small => Some(&self.small),
            BlindType::Big => Some(&self.big),
            BlindType::Boss => Some(&self.boss),
        }
    }

    /// Mutable access to the blind of the given type.
    pub fn get_blind_mut(&mut self, blind_type: BlindType) -> (r: &mut Blind)
        ensures
            *r == match blind_type {
                BlindType::Small => old(self).small,
                BlindType::Big => old(self).big,
                BlindType::Boss => old(self).boss,
            },
            *final(self) == match blind_type {
                BlindType::Small => UpcomingBlinds { small: *final(r), ..*old(self) },
                BlindType::Big => UpcomingBlinds { big: *final(r), ..*old(self) },
                BlindType::Boss => UpcomingBlinds { boss: *final(r), ..*old(self) },
            },
    {
        match blind_type {
            BlindType::Small => &mut self.small,
            BlindType::Big => &mut self.big,
            BlindType::Boss => &mut self.boss,
        }
    }

    /// Which blind is the next upcoming one: small before big before boss.
    pub open spec fn spec_next_upcoming(self) -> Option<BlindType> {
        if self.small.status == BlindStatus::Upcoming {
            Some(BlindType::Small)
        } else if self.big.status == BlindStatus::Upcoming {
            Some(BlindType::Big)
        } else if self.boss.status == BlindStatus::Upcoming {
            Some(BlindType::Boss)
        } else {
            None
        }
    }

    /// The blind a type names.
    pub open spec fn spec_blind_of(self, blind_type: BlindType) -> Blind {
        match blind_type {
            BlindType::Small => self.small,
            BlindType::Big => self.big,
            BlindType::Boss => self.boss,
        }
    }

    /// The next upcoming blind, if any: the first of small, big, boss whose
    /// status is upcoming.
    pub fn get_next_upcoming_blind(&self) -> (r: Option<&Blind>)
        ensures
            match self.spec_next_upcoming() {
                Some(bt) => r matches Some(b) && *b == self.spec_blind_of(bt),
                None => r is None,
            },
    {
        if matches!(self.small.status, BlindStatus::Upcoming) {
            Some(&self.small)
        } else if matches!(self.big.status, BlindStatus::Upcoming) {
            Some(&self.big)
        } else if matches!(self.boss.status, BlindStatus::Upcoming) {
            Some(&self.boss)
        } else {
            None
        }
    }

    /// Mutable access to the next upcoming blind, which must exist.
    pub fn get_next_upcoming_blind_mut(&mut self) -> (r: &mut Blind)
        requires
            old(self).spec_next_upcoming() is Some,
        ensures
            *r == old(self).spec_blind_of(old(self).spec_next_upcoming()->Some_0),
            *final(self) == match old(self).spec_next_upcoming()->Some_0 {
                BlindType::Small => UpcomingBlinds { small: *final(r), ..*old(self) },
                BlindType::Big => UpcomingBlinds { big: *final(r), ..*old(self) },
                BlindType::Boss => UpcomingBlinds { boss: *final(r), ..*old(self) },
            },
    {
        if matches!(self.small.status, BlindStatus::Upcoming) {
            &mut self.small
        } else if matches!(self.big.status, BlindStatus::Upcoming) {
            &mut self.big
        } else {
            &mut self.boss
        }
    }

    /// Which blind is active, if any: the first of small, big, boss whose
    /// status is active.
    pub open spec fn spec_active(self) -> Option<BlindType> {
        if self.small.status == BlindStatus::Active {
            Some(BlindType::Small)
        } else if self.big.status == BlindStatus::Active {
            Some(BlindType::Big)
        } else if self.boss.status == BlindStatus::Active {
            Some(BlindType::Boss)
        } else {
            None
        }
    }

    /// The currently active blind, if any.
    pub fn get_active_blind(&self) -> (r: Option<&Blind>)
        ensures
            match self.spec_active() {
                Some(bt) => r matches Some(b) && *b == self.spec_blind_of(bt),
                None => r is None,
            },
    {
        if matches!(self.small.status, BlindStatus::Active) {
            Some(&self.small)
        } else if matches!(self.big.status, BlindStatus::Active) {
            Some(&self.big)
        } else if matches!(self.boss.status, BlindStatus::Active) {
            Some(&self.boss)
        } else {
            None
        }
    }
}

/// The first row for the given ante, or `-1`.
pub open spec fn find_row_index(rows: Seq<BaseScoreRow>, ante: i64) -> int
    decreases rows.len(),
{
    if rows.len() == 0 {
        -1
    } else if rows[0].ante == ante {
        0
    } else {
        let rest = find_row_index(rows.drop_first(), ante);
        if rest < 0 {
            -1
        } else {
            rest + 1
        }
    }
}

/// What [`find_row_index`] returns: `-1` exactly when no row matches,
/// otherwise the first matching index.
pub proof fn lemma_find_row_index(rows: Seq<BaseScoreRow>, ante: i64)
    ensures
        find_row_index(rows, ante) == -1 ==> forall|k: int|
            0 <= k < rows.len() ==> (#[trigger] rows[k]).ante != ante,
        find_row_index(rows, ante) >= 0 ==> {
            let i = find_row_index(rows, ante);
            &&& 0 <= i < rows.len()
            &&& rows[i].ante == ante
            &&& forall|t: int| 0 <= t < i ==> (#[trigger] rows[t]).ante != ante
        },
    decreases rows.len(),
{
    if rows.len() > 0 {
        lemma_find_row_index(rows.drop_first(), ante);
        assert forall|k: int| 1 <= k < rows.len() implies rows.drop_first()[k - 1] == rows[k] by {}
    }
}

/// The table column a stake level reads: white and red read the base
/// column, green, blue and black the green column, purple, orange and gold
/// the purple column.
pub open spec fn spec_row_score(row: BaseScoreRow, level: StakeLevel) -> int {
    match level {
        StakeLevel::White | StakeLevel::Red => row.required_score as int,
        StakeLevel::Green | StakeLevel::Blue | StakeLevel::Black => row.green_stake_required_score as int,
        StakeLevel::Purple | StakeLevel::Orange | StakeLevel::Gold => row.purple_stake_required_score as int,
    }
}

/// Access to the base required scores by ante, handed in as plain rows.
#[derive(Debug, Clone)]
pub struct BaseScoreManager {
    pub rows: Vec<BaseScoreRow>,
}

impl BaseScoreManager {
    /// Take over a parsed score table.
    pub fn from_rows(rows: Vec<BaseScoreRow>) -> (r: BaseScoreManager)
        ensures
            r.rows == rows,
    {
        BaseScoreManager { rows }
    }

    /// The base required score for an ante and stake level: the stake's
    /// column of the first row for that ante. An ante missing from the
    /// table is an error.
    pub fn get_base_score(&self, ante: i64, stake_level: &StakeLevel) -> (r: GameResult<i64>)
        ensures
            find_row_index(self.rows@, ante) >= 0 ==> (r matches Ok(v) && v as int == spec_row_score(
                self.rows@[find_row_index(self.rows@, ante)],
                *stake_level,
            )),
            find_row_index(self.rows@, ante) == -1 ==> (r matches Err(e) && e is InvalidGameState),
    {
        proof {
            lemma_find_row_index(self.rows@, ante);
        }
        let n = self.rows.len();
        let mut k: usize = 0;
        while k < n
            invariant
                k <= n,
                n == self.rows@.len(),
                forall|t: int| 0 <= t < k ==> (#[trigger] self.rows@[t]).ante != ante,
            decreases n - k,
        {
            if self.rows[k].ante == ante {
                proof {
                    lemma_find_row_index(self.rows@, ante);
                    let i = find_row_index(self.rows@, ante);
                    if i < k as int {
                        assert(self.rows@[i].ante == ante);
                        assert(false);
                    }
                    if i > k as int {
                        assert(self.rows@[k as int].ante != ante);
                        assert(false);
                    }
                }
                let row = self.rows[k];
                let v = match stake_level {
                    StakeLevel::White | StakeLevel::Red => row.required_score,
                    StakeLevel::Green | StakeLevel::Blue | StakeLevel::Black => row.green_stake_required_score,
                    StakeLevel::Purple | StakeLevel::Orange | StakeLevel::Gold => row.purple_stake_required_score,
                };
                return Ok(v);
            }
            k = k + 1;
        }
        Err(GameError::InvalidGameState("no base score found for ante".to_owned()))
    }
}

/// Processor for generating the blinds of an ante from the score table.
#[derive(Debug, Clone)]
pub struct BlindProcessor {
    pub base_score_manager: BaseScoreManager,
}

impl BlindProcessor {
    /// Create a processor over the given score table.
    pub fn new(base_score_manager: BaseScoreManager) -> (r: BlindProcessor)
        ensures
            r.base_score_manager == base_score_manager,
    {
        BlindProcessor { base_score_manager }
    }

    /// Generate the three blinds of an ante: the small blind requires the
    /// table's base score, the big blind one and a half times it and the
    /// boss blind twice it; money rewards are two, three and four times the
    /// ante, scaled by the stake's money multiplier. Fails when the table
    /// has no row for the ante.
    pub fn generate_blinds(&self, ante: u32, stake: &Stake) -> (r: GameResult<UpcomingBlinds>)
        ensures
            find_row_index(self.base_score_manager.rows@, ante as i64) == -1 ==> (r matches Err(e)
                && e is InvalidGameState),
            ({
                let idx = find_row_index(self.base_score_manager.rows@, ante as i64);
                let base = spec_row_score(self.base_score_manager.rows@[idx], stake.level);
                idx >= 0 && base >= 0 ==> (r matches Ok(b) && b.small.required_score == base
                    && b.big.required_score == cap_i64((base * 3) / 2)
                    && b.boss.required_score == cap_i64(base * 2) && b.small.reward_money == cap_i64(
                    spec_apply_pct(2 * (ante as int), stake.modifiers.money_reward_multiplier as int),
                ) && b.big.reward_money == cap_i64(
                    spec_apply_pct(3 * (ante as int), stake.modifiers.money_reward_multiplier as int),
                ) && b.boss.reward_money == cap_i64(
                    spec_apply_pct(4 * (ante as int), stake.modifiers.money_reward_multiplier as int),
                ) && b.small.blind_type == BlindType::Small && b.big.blind_type == BlindType::Big
                    && b.boss.blind_type == BlindType::Boss && b.small.status
                    == BlindStatus::Upcoming && b.big.status == BlindStatus::Upcoming
                    && b.boss.status == BlindStatus::Upcoming)
            }),
            ({
                let idx = find_row_index(self.base_score_manager.rows@, ante as i64);
                idx >= 0 && spec_row_score(self.base_score_manager.rows@[idx], stake.level) < 0
                    ==> (r matches Err(e) && e is InvalidGameState)
            }),
    {
        let base_score = match self.base_score_manager.get_base_score(ante as i64, &stake.level) {
            Ok(v) => v,
            Err(e) => {
                return Err(e);
            },
        };
        if base_score < 0 {
            return Err(GameError::InvalidGameState("negative base score for ante".to_owned()));
        }
        let small_score = base_score;
        proof {
            assert(base_score * 3 <= i64::MAX * 3) by (nonlinear_arith)
                requires
                    0 <= base_score <= i64::MAX,
            ;
            assert(base_score * 3 >= 0) by (nonlinear_arith)
                requires
                    base_score >= 0,
            ;
        }
        let big_wide: u128 = (base_score as u128) * 3 / 2;
        let big_score: i64 = if big_wide > i64::MAX as u128 {
            i64::MAX
        } else {
            big_wide as i64
        };
        let boss_score: i64 = if base_score > i64::MAX / 2 {
            i64::MAX
        } else {
            base_score * 2
        };
        let small_money = stake.modifiers.apply_to_money(2 * (ante as i64));
        let big_money = stake.modifiers.apply_to_money(3 * (ante as i64));
        let boss_money = stake.modifiers.apply_to_money(4 * (ante as i64));
        let small = Blind::new(
            "Small Blind".to_owned(),
            BlindType::Small,
            small_score,
            small_money,
        );
        let big = Blind::new("Big Blind".to_owned(), BlindType::Big, big_score, big_money);
        let boss = Blind::new_boss("Boss Blind".to_owned(), boss_score, boss_money, BossEffect::NoEffect);
        Ok(UpcomingBlinds::new(small, big, boss))
    }
}

} // verus!
