//! The planet registry: one upgradeable entry per poker-hand type holding
//! its base score and per-level growth. The effective base score is
//! `base + add * (level - 1)` on both the chip and the multiplier axis.

use vstd::prelude::*;

use crate::arith::{add_sat, cap, mul_sat};
use crate::error::GameResult;
use crate::scoring::HandScore;
use crate::strutil::str_eq;

verus! {

/// Poker hand types that can be detected and upgraded by planets, in
/// ascending order of rarity.
#[derive(Debug, Clone, Copy, PartialEq, Eq, PartialOrd, Ord, Hash, Structural)]
pub enum PokerHand {
    HighCard,
    Pair,
    TwoPair,
    ThreeOfAKind,
    Straight,
    Flush,
    FullHouse,
    FourOfAKind,
    StraightFlush,
    FiveOfAKind,
    FlushHouse,
    FlushFive,
}

impl PokerHand {
    /// The tier of the hand type: 1 for the commonest (high card) up to 12
    /// for the rarest (flush five).
    pub open spec fn spec_tier(self) -> int {
        match self {
            PokerHand::HighCard => 1,
            PokerHand::Pair => 2,
            PokerHand::TwoPair => 3,
            PokerHand::ThreeOfAKind => 4,
            PokerHand::Straight => 5,
            PokerHand::Flush => 6,
            PokerHand::FullHouse => 7,
            PokerHand::FourOfAKind => 8,
            PokerHand::StraightFlush => 9,
            PokerHand::FiveOfAKind => 10,
            PokerHand::FlushHouse => 11,
            PokerHand::FlushFive => 12,
        }
    }

    /// Executable counterpart of [`PokerHand::spec_tier`].
    pub fn tier(self) -> (r: u64)
        ensures
            r == self.spec_tier(),
    {
        match self {
            PokerHand::HighCard => 1,
            PokerHand::Pair => 2,
            PokerHand::TwoPair => 3,
            PokerHand::ThreeOfAKind => 4,
            PokerHand::Straight => 5,
            PokerHand::Flush => 6,
            PokerHand::FullHouse => 7,
            PokerHand::FourOfAKind => 8,
            PokerHand::StraightFlush => 9,
            PokerHand::FiveOfAKind => 10,
            PokerHand::FlushHouse => 11,
            PokerHand::FlushFive => 12,
        }
    }
}

/// One score modifier of a planet definition: a chip part and a mult part.
#[derive(Debug, Clone, Copy, PartialEq, Eq, Structural)]
pub struct PlanetModifier {
    pub mult: u64,
    pub chips: u64,
}

/// A planet definition as plain data, as the configuration loader hands
/// it in: the first entry of `hand_base_score` is the base score and the
/// first entry of `addition` the per-level growth.
#[derive(Debug, Clone)]
pub struct PlanetDefinition {
    pub name: String,
    pub poker_hand: String,
    pub poker_hand_name: String,
    pub addition: Vec<PlanetModifier>,
    pub hand_base_score: Vec<PlanetModifier>,
}

/// A whole planet catalogue as plain data.
#[derive(Debug, Clone)]
pub struct PlanetFileConfig {
    pub planets: Vec<PlanetDefinition>,
}

/// An upgradeable planet: base score and per-level growth for one
/// poker-hand type. The level starts at 1 and only ever grows.
#[derive(Debug, Clone)]
pub struct Planet {
    pub name: String,
    pub poker_hand: PokerHand,
    pub poker_hand_name: String,
    pub base_mult: u64,
    pub base_chips: u64,
    pub add_mult: u64,
    pub add_chips: u64,
    pub level: u32,
}

impl Planet {
    /// The effective base chips at the current level.
    pub open spec fn spec_effective_chips(self) -> int {
        cap(self.base_chips + self.add_chips * (self.level - 1))
    }

    /// The effective base multiplier at the current level, in hundredths.
    pub open spec fn spec_effective_mult_centi(self) -> int {
        cap(100 * cap(self.base_mult + self.add_mult * (self.level - 1)))
    }

    /// Upgrading increments the level; this is the only mutation.
    pub fn upgrade(&mut self)
        ensures
            final(self).level == cap_u32(old(self).level + 1),
            final(self).name == old(self).name,
            final(self).poker_hand == old(self).poker_hand,
            final(self).poker_hand_name == old(self).poker_hand_name,
            final(self).base_mult == old(self).base_mult,
            final(self).base_chips == old(self).base_chips,
            final(self).add_mult == old(self).add_mult,
            final(self).add_chips == old(self).add_chips,
    {
        if self.level < u32::MAX {
            self.level = self.level + 1;
        }
    }

    /// The effective base score for this planet's hand type at its current
    /// level: `base + add * (level - 1)` on both axes.
    pub fn get_base_score(&self) -> (r: HandScore)
        requires
            self.level >= 1,
        ensures
            r.chip_score == self.spec_effective_chips(),
            r.mult_score == self.spec_effective_mult_centi(),
    {
        let growth_chips = mul_sat(self.add_chips, (self.level - 1) as u64);
        let growth_mult = mul_sat(self.add_mult, (self.level - 1) as u64);
        let chips = add_sat(self.base_chips, growth_chips);
        let mult_units = add_sat(self.base_mult, growth_mult);
        proof {
            assert(cap(self.base_chips + cap(self.add_chips * (self.level - 1))) == cap(
                self.base_chips + self.add_chips * (self.level - 1),
            ));
            assert(cap(self.base_mult + cap(self.add_mult * (self.level - 1))) == cap(
                self.base_mult + self.add_mult * (self.level - 1),
            ));
        }
        HandScore { chip_score: chips, mult_score: mul_sat(100, mult_units) }
    }
}

/// Clamp a mathematical integer into the `u32` range from above.
pub open spec fn cap_u32(x: int) -> int {
    if x > u32::MAX {
        u32::MAX as int
    } else {
        x
    }
}

/// The poker-hand type a configuration key names; unknown keys fall back
/// to the high card.
pub open spec fn spec_poker_hand_of_key(s: Seq<char>) -> PokerHand {
    if s == "pair"@ {
        PokerHand::Pair
    } else if s == "two_pair"@ {
        PokerHand::TwoPair
    } else if s == "three_of_a_kind"@ {
        PokerHand::ThreeOfAKind
    } else if s == "straight"@ {
        PokerHand::Straight
    } else if s == "flush"@ {
        PokerHand::Flush
    } else if s == "full_house"@ {
        PokerHand::FullHouse
    } else if s == "four_of_a_kind"@ {
        PokerHand::FourOfAKind
    } else if s == "straight_flush"@ {
        PokerHand::StraightFlush
    } else if s == "five_of_a_kind"@ {
        PokerHand::FiveOfAKind
    } else if s == "flush_house"@ {
        PokerHand::FlushHouse
    } else if s == "flush_five"@ {
        PokerHand::FlushFive
    } else {
        PokerHand::HighCard
    }
}

/// The planet built from one definition: base score and growth are the
/// first entries of the respective lists (zero if absent), the level one.
pub open spec fn spec_planet_of_def(def: PlanetDefinition) -> Planet {
    let base = if def.hand_base_score@.len() > 0 {
        def.hand_base_score@[0]
    } else {
        PlanetModifier { mult: 0, chips: 0 }
    };
    let add = if def.addition@.len() > 0 {
        def.addition@[0]
    } else {
        PlanetModifier { mult: 0, chips: 0 }
    };
    Planet {
        name: def.name,
        poker_hand: spec_poker_hand_of_key(def.poker_hand@),
        poker_hand_name: def.poker_hand_name,
        base_mult: base.mult,
        base_chips: base.chips,
        add_mult: add.mult,
        add_chips: add.chips,
        level: 1,
    }
}

/// The index of the first planet for the given hand type, or `-1`.
pub open spec fn find_planet_index(s: Seq<Planet>, poker_hand: PokerHand) -> int
    decreases s.len(),
{
    if s.len() == 0 {
        -1
    } else if s[0].poker_hand == poker_hand {
        0
    } else {
        let rest = find_planet_index(s.drop_first(), poker_hand);
        if rest < 0 {
            -1
        } else {
            rest + 1
        }
    }
}

/// What [`find_planet_index`] returns: `-1` exactly when no entry matches,
/// otherwise the first matching index.
pub proof fn lemma_find_planet_index(s: Seq<Planet>, poker_hand: PokerHand)
    ensures
        find_planet_index(s, poker_hand) == -1 ==> forall|k: int|
            0 <= k < s.len() ==> (#[trigger] s[k]).poker_hand != poker_hand,
        find_planet_index(s, poker_hand) >= 0 ==> {
            let i = find_planet_index(s, poker_hand);
            &&& 0 <= i < s.len()
            &&& s[i].poker_hand == poker_hand
            &&& forall|t: int| 0 <= t < i ==> (#[trigger] s[t]).poker_hand != poker_hand
        },
    decreases s.len(),
{
    if s.len() > 0 {
        lemma_find_planet_index(s.drop_first(), poker_hand);
        assert forall|k: int| 1 <= k < s.len() implies s.drop_first()[k - 1] == s[k] by {}
    }
}

/// The planet catalogue, ordered by descending hand-type tier.
#[derive(Debug, Clone)]
pub struct Planets {
    pub planets: Vec<Planet>,
}

impl Planets {
    /// Whether the catalogue holds an entry for the hand type.
    pub open spec fn has_planet(self, poker_hand: PokerHand) -> bool {
        exists|k: int|
            0 <= k < self.planets@.len() && (#[trigger] self.planets@[k]).poker_hand == poker_hand
    }

    /// Every planet level is at least one.
    pub open spec fn wf(self) -> bool {
        forall|k: int| 0 <= k < self.planets@.len() ==> (#[trigger] self.planets@[k]).level >= 1
    }

    /// The catalogue holds an entry for every hand type.
    pub open spec fn complete(self) -> bool {
        forall|ph: PokerHand| self.has_planet(ph)
    }

    /// The standard catalogue: one planet per hand type, at level one, in
    /// descending tier order, with the standard base scores and growths.
    pub fn new_default() -> (r: GameResult<Planets>)
        ensures
            r matches Ok(ps) && ps.planets@.len() == 12 && (forall|k: int|
                0 <= k < 12 ==> {
                    let p = #[trigger] ps.planets@[k];
                    &&& p.poker_hand == default_order(k)
                    &&& p.level == 1
                    &&& p.base_chips == default_base_chips(default_order(k))
                    &&& p.base_mult == default_base_mult(default_order(k))
                    &&& p.add_chips == default_add_chips(default_order(k))
                    &&& p.add_mult == default_add_mult(default_order(k))
                    &&& p.name@ == default_planet_title(default_order(k))
                }) && ps.wf() && ps.complete() && sorted_by_tier_desc(ps.planets@),
    {
        let mut planets: Vec<Planet> = Vec::new();
        planets.push(Self::default_entry("Eris", PokerHand::FlushFive, "Flush Five", 16, 160, 3, 50));
        planets.push(
            Self::default_entry("Ceres", PokerHand::FlushHouse, "Flush House", 14, 140, 4, 40),
        );
        planets.push(
            Self::default_entry("Planet X", PokerHand::FiveOfAKind, "Five of a Kind", 12, 120, 3, 35),
        );
        planets.push(
            Self::default_entry(
                "Neptune",
                PokerHand::StraightFlush,
                "Straight Flush",
                8,
                100,
                4,
                40,
            ),
        );
        planets.push(
            Self::default_entry("Mars", PokerHand::FourOfAKind, "Four of a Kind", 7, 60, 3, 30),
        );
        planets.push(Self::default_entry("Earth", PokerHand::FullHouse, "Full House", 4, 40, 2, 25));
        planets.push(Self::default_entry("Jupiter", PokerHand::Flush, "Flush", 4, 35, 2, 15));
        planets.push(Self::default_entry("Saturn", PokerHand::Straight, "Straight", 4, 30, 3, 30));
        planets.push(
            Self::default_entry("Venus", PokerHand::ThreeOfAKind, "Three of a Kind", 3, 30, 2, 20),
        );
        planets.push(Self::default_entry("Uranus", PokerHand::TwoPair, "Two Pair", 2, 20, 1, 20));
        planets.push(Self::default_entry("Mercury", PokerHand::Pair, "Pair", 2, 10, 1, 15));
        planets.push(Self::default_entry("Pluto", PokerHand::HighCard, "High Card", 1, 5, 1, 10));
        let ps = Planets { planets };
        proof {
            assert forall|ph: PokerHand| ps.has_planet(ph) by {
                let k: int = 12 - ph.spec_tier();
                assert(ps.planets@[k].poker_hand == ph);
            }
        }
        Ok(ps)
    }

    /// One level-1 entry of the standard catalogue.
    fn default_entry(
        name: &str,
        poker_hand: PokerHand,
        poker_hand_name: &str,
        base_mult: u64,
        base_chips: u64,
        add_mult: u64,
        add_chips: u64,
    ) -> (r: Planet)
        ensures
            r == (Planet {
                name: r.name,
                poker_hand,
                poker_hand_name: r.poker_hand_name,
                base_mult,
                base_chips,
                add_mult,
                add_chips,
                level: 1u32,
            }),
            r.name@ == name@,
            r.poker_hand_name@ == poker_hand_name@,
    {
        Planet {
            name: name.to_owned(),
            poker_hand,
            poker_hand_name: poker_hand_name.to_owned(),
            base_mult,
            base_chips,
            add_mult,
            add_chips,
            level: 1,
        }
    }

    /// An empty catalogue.
    pub fn new_empty() -> (r: Planets)
        ensures
            r.planets@ == Seq::<Planet>::empty(),
            r.wf(),
    {
        Planets { planets: Vec::new() }
    }

    /// Parse a configuration key into its poker-hand type; unknown keys
    /// fall back to the high card.
    pub fn string_to_poker_hand_enum(poker_hand_str: &str) -> (r: PokerHand)
        ensures
            r == spec_poker_hand_of_key(poker_hand_str@),
    {
        if str_eq(poker_hand_str, "pair") {
            PokerHand::Pair
        } else if str_eq(poker_hand_str, "two_pair") {
            PokerHand::TwoPair
        } else if str_eq(poker_hand_str, "three_of_a_kind") {
            PokerHand::ThreeOfAKind
        } else if str_eq(poker_hand_str, "straight") {
            PokerHand::Straight
        } else if str_eq(poker_hand_str, "flush") {
            PokerHand::Flush
        } else if str_eq(poker_hand_str, "full_house") {
            PokerHand::FullHouse
        } else if str_eq(poker_hand_str, "four_of_a_kind") {
            PokerHand::FourOfAKind
        } else if str_eq(poker_hand_str, "straight_flush") {
            PokerHand::StraightFlush
        } else if str_eq(poker_hand_str, "five_of_a_kind") {
            PokerHand::FiveOfAKind
        } else if str_eq(poker_hand_str, "flush_house") {
            PokerHand::FlushHouse
        } else if str_eq(poker_hand_str, "flush_five") {
            PokerHand::FlushFive
        } else {
            PokerHand::HighCard
        }
    }

    /// Build the catalogue from plain configuration data: each definition
    /// becomes one level-1 planet, and the catalogue is ordered by
    /// descending hand-type tier.
    pub fn from_config(cfg: PlanetFileConfig) -> (r: GameResult<Planets>)
        ensures
            r matches Ok(ps) && ps.planets@.to_multiset() == cfg.planets@.map_values(
                |d: PlanetDefinition| spec_planet_of_def(d),
            ).to_multiset() && sorted_by_tier_desc(ps.planets@) && ps.wf(),
    {
        broadcast use vstd::seq_lib::group_to_multiset_ensures;

        let ghost defs = cfg.planets@;
        let mut planets: Vec<Planet> = Vec::new();
        let mut rest = cfg.planets;
        while rest.len() > 0
            invariant
                planets@.len() + rest@.len() == defs.len(),
                planets@ =~= defs.take(planets@.len() as int).map_values(
                    |d: PlanetDefinition| spec_planet_of_def(d),
                ),
                rest@ =~= defs.skip(planets@.len() as int),
            decreases rest@.len(),
        {
            let ghost l = planets@.len() as int;
            let def = rest.remove(0);
            let ghost gdef = def;
            proof {
                assert(gdef == defs[l]);
                assert(rest@ =~= defs.skip(l + 1));
            }
            let base = if def.hand_base_score.len() > 0 {
                def.hand_base_score[0]
            } else {
                PlanetModifier { mult: 0, chips: 0 }
            };
            let add = if def.addition.len() > 0 {
                def.addition[0]
            } else {
                PlanetModifier { mult: 0, chips: 0 }
            };
            let poker_hand = Self::string_to_poker_hand_enum(def.poker_hand.as_str());
            let planet = Planet {
                name: def.name,
                poker_hand,
                poker_hand_name: def.poker_hand_name,
                base_mult: base.mult,
                base_chips: base.chips,
                add_mult: add.mult,
                add_chips: add.chips,
                level: 1,
            };
            proof {
                assert(planet == spec_planet_of_def(gdef));
            }
            planets.push(planet);
            proof {
                assert(planets@ =~= defs.take(l + 1).map_values(
                    |d: PlanetDefinition| spec_planet_of_def(d),
                ));
            }
        }
        proof {
            assert(planets@ =~= defs.map_values(|d: PlanetDefinition| spec_planet_of_def(d)));
        }
        let mut out = Planets { planets };
        let ghost built = out.planets@;
        out.sort_by_tier_desc();
        proof {
            built.to_multiset_ensures();
            out.planets@.to_multiset_ensures();
            assert forall|k: int| 0 <= k < out.planets@.len() implies (
            #[trigger] out.planets@[k]).level >= 1 by {
                let c = out.planets@[k];
                assert(out.planets@.contains(c));
                assert(out.planets@.to_multiset().count(c) > 0);
                assert(built.contains(c));
                let t = choose|t: int| 0 <= t < built.len() && built[t] == c;
                assert(built[t] == spec_planet_of_def(defs[t]));
            }
        }
        Ok(out)
    }

    /// Sort the catalogue by descending hand-type tier (insertion sort).
    fn sort_by_tier_desc(&mut self)
        ensures
            final(self).planets@.to_multiset() == old(self).planets@.to_multiset(),
            sorted_by_tier_desc(final(self).planets@),
    {
        let n = self.planets.len();
        let mut i: usize = 0;
        while i < n
            invariant
                i <= n,
                n == self.planets@.len(),
                self.planets@.to_multiset() == old(self).planets@.to_multiset(),
                sorted_by_tier_desc(self.planets@.take(i as int)),
            decreases n - i,
        {
            proof {
                assert forall|k1: int, k2: int|
                    0 <= k1 < k2 <= i as int && k2 != i as int implies tier_ge(
                    self.planets@[k1],
                    self.planets@[k2],
                ) by {
                    assert(self.planets@.take(i as int)[k1] == self.planets@[k1]);
                    assert(self.planets@.take(i as int)[k2] == self.planets@[k2]);
                }
            }
            let mut j: usize = i;
            while j > 0 && self.planets[j - 1].poker_hand.tier() < self.planets[j].poker_hand.tier()
                invariant
                    j <= i < n,
                    n == self.planets@.len(),
                    self.planets@.to_multiset() == old(self).planets@.to_multiset(),
                    forall|k1: int, k2: int|
                        0 <= k1 < k2 <= i as int && k2 != j as int ==> tier_ge(
                            self.planets@[k1],
                            self.planets@[k2],
                        ),
                decreases j,
            {
                let ghost before = self.planets@;
                let a = self.planets.remove(j - 1);
                self.planets.insert(j, a);
                proof {
                    broadcast use vstd::seq_lib::to_multiset_update;
                    broadcast use vstd::multiset::group_multiset_axioms;

                    assert(self.planets@ =~= before.update(j - 1, before[j as int]).update(
                        j as int,
                        before[j - 1],
                    ));
                    let mset = before.to_multiset();
                    let s1 = before.update(j - 1, before[j as int]);
                    assert(s1.to_multiset() == mset.insert(before[j as int]).remove(before[j - 1]));
                    assert(s1[j as int] == before[j as int]);
                    assert(self.planets@.to_multiset() == s1.to_multiset().insert(
                        before[j - 1],
                    ).remove(before[j as int]));
                    before.to_multiset_ensures();
                    assert(before.contains(before[j - 1]) && before.contains(before[j as int]));
                    assert(mset.count(before[j - 1]) > 0 && mset.count(before[j as int]) > 0);
                    assert(self.planets@.to_multiset() =~= mset);
                }
                j = j - 1;
            }
            proof {
                assert(sorted_by_tier_desc(self.planets@.take(i + 1))) by {
                    assert forall|k1: int, k2: int|
                        0 <= k1 < k2 < i + 1 implies tier_ge(
                        #[trigger] self.planets@.take(i + 1)[k1],
                        #[trigger] self.planets@.take(i + 1)[k2],
                    ) by {
                        if k2 == j as int && j > 0 {
                            assert(tier_ge(self.planets@[j - 1], self.planets@[j as int]));
                            if k1 < j - 1 {
                                assert(tier_ge(self.planets@[k1], self.planets@[j - 1]));
                            }
                        }
                    }
                }
            }
            i = i + 1;
        }
        proof {
            assert(self.planets@.take(n as int) =~= self.planets@);
        }
    }

    /// Get the planet for the given hand type: the first matching entry,
    /// or `None` if the catalogue has none.
    pub fn get_planet(&self, poker_hand: PokerHand) -> (r: Option<&Planet>)
        ensures
            self.has_planet(poker_hand) ==> (r matches Some(p) && *p == self.planets@[
                find_planet_index(self.planets@, poker_hand)] && p.poker_hand == poker_hand),
            !self.has_planet(poker_hand) ==> r is None,
    {
        proof {
            lemma_find_planet_index(self.planets@, poker_hand);
        }
        let n = self.planets.len();
        let mut k: usize = 0;
        while k < n
            invariant
                k <= n,
                n == self.planets@.len(),
                forall|t: int| 0 <= t < k ==> (#[trigger] self.planets@[t]).poker_hand != poker_hand,
            decreases n - k,
        {
            if self.planets[k].poker_hand.tier() == poker_hand.tier() {
                proof {
                    assert(self.planets@[k as int].poker_hand == poker_hand) by {
                        lemma_tier_injective(self.planets@[k as int].poker_hand, poker_hand);
                    }
                    lemma_find_planet_index(self.planets@, poker_hand);
                    let i = find_planet_index(self.planets@, poker_hand);
                    if i < k as int {
                        assert(self.planets@[i].poker_hand == poker_hand);
                        assert(false);
                    }
                    if i > k as int {
                        assert(self.planets@[k as int].poker_hand != poker_hand);
                        assert(false);
                    }
                }
                return Some(&self.planets[k]);
            }
            proof {
                lemma_tier_injective(self.planets@[k as int].poker_hand, poker_hand);
            }
            k = k + 1;
        }
        None
    }

    /// The position of the first planet for the given hand type, which must
    /// be present.
    fn planet_index(&self, poker_hand: PokerHand) -> (r: usize)
        requires
            self.has_planet(poker_hand),
        ensures
            r as int == find_planet_index(self.planets@, poker_hand),
            r < self.planets@.len(),
            self.planets@[r as int].poker_hand == poker_hand,
    {
        proof {
            lemma_find_planet_index(self.planets@, poker_hand);
        }
        let n = self.planets.len();
        let mut k: usize = 0;
        while k < n
            invariant
                k <= n,
                n == self.planets@.len(),
                self.has_planet(poker_hand),
                forall|t: int| 0 <= t < k ==> (#[trigger] self.planets@[t]).poker_hand != poker_hand,
            decreases n - k,
        {
            if self.planets[k].poker_hand.tier() == poker_hand.tier() {
                proof {
                    lemma_tier_injective(self.planets@[k as int].poker_hand, poker_hand);
                    lemma_find_planet_index(self.planets@, poker_hand);
                    let i = find_planet_index(self.planets@, poker_hand);
                    if i < k as int {
                        assert(self.planets@[i].poker_hand == poker_hand);
                        assert(false);
                    }
                    if i > k as int {
                        assert(self.planets@[k as int].poker_hand != poker_hand);
                        assert(false);
                    }
                }
                return k;
            }
            proof {
                lemma_tier_injective(self.planets@[k as int].poker_hand, poker_hand);
            }
            k = k + 1;
        }
        proof {
            assert(false);
        }
        0
    }

    /// Get mutable access to the planet for the given hand type, which must
    /// be present (the first matching entry).
    pub fn get_planet_mut(&mut self, poker_hand: PokerHand) -> (r: &mut Planet)
        requires
            old(self).has_planet(poker_hand),
        ensures
            *r == old(self).planets@[find_planet_index(old(self).planets@, poker_hand)],
            r.poker_hand == poker_hand,
            final(self).planets@ == old(self).planets@.update(
                find_planet_index(old(self).planets@, poker_hand),
                *final(r),
            ),
    {
        let idx = self.planet_index(poker_hand);
        &mut self.planets[idx]
    }
}

/// The hand type at a position of the standard catalogue: descending tier,
/// flush five first, high card last.
pub open spec fn default_order(k: int) -> PokerHand {
    if k == 0 {
        PokerHand::FlushFive
    } else if k == 1 {
        PokerHand::FlushHouse
    } else if k == 2 {
        PokerHand::FiveOfAKind
    } else if k == 3 {
        PokerHand::StraightFlush
    } else if k == 4 {
        PokerHand::FourOfAKind
    } else if k == 5 {
        PokerHand::FullHouse
    } else if k == 6 {
        PokerHand::Flush
    } else if k == 7 {
        PokerHand::Straight
    } else if k == 8 {
        PokerHand::ThreeOfAKind
    } else if k == 9 {
        PokerHand::TwoPair
    } else if k == 10 {
        PokerHand::Pair
    } else {
        PokerHand::HighCard
    }
}

/// The standard base chips of each hand type.
pub open spec fn default_base_chips(ph: PokerHand) -> int {
    match ph {
        PokerHand::HighCard => 5,
        PokerHand::Pair => 10,
        PokerHand::TwoPair => 20,
        PokerHand::ThreeOfAKind => 30,
        PokerHand::Straight => 30,
        PokerHand::Flush => 35,
        PokerHand::FullHouse => 40,
        PokerHand::FourOfAKind => 60,
        PokerHand::StraightFlush => 100,
        PokerHand::FiveOfAKind => 120,
        PokerHand::FlushHouse => 140,
        PokerHand::FlushFive => 160,
    }
}

/// The standard base multiplier of each hand type, in whole units.
pub open spec fn default_base_mult(ph: PokerHand) -> int {
    match ph {
        PokerHand::HighCard => 1,
        PokerHand::Pair => 2,
        PokerHand::TwoPair => 2,
        PokerHand::ThreeOfAKind => 3,
        PokerHand::Straight => 4,
        PokerHand::Flush => 4,
        PokerHand::FullHouse => 4,
        PokerHand::FourOfAKind => 7,
        PokerHand::StraightFlush => 8,
        PokerHand::FiveOfAKind => 12,
        PokerHand::FlushHouse => 14,
        PokerHand::FlushFive => 16,
    }
}

/// The standard per-level chip growth of each hand type.
pub open spec fn default_add_chips(ph: PokerHand) -> int {
    match ph {
        PokerHand::HighCard => 10,
        PokerHand::Pair => 15,
        PokerHand::TwoPair => 20,
        PokerHand::ThreeOfAKind => 20,
        PokerHand::Straight => 30,
        PokerHand::Flush => 15,
        PokerHand::FullHouse => 25,
        PokerHand::FourOfAKind => 30,
        PokerHand::StraightFlush => 40,
        PokerHand::FiveOfAKind => 35,
        PokerHand::FlushHouse => 40,
        PokerHand::FlushFive => 50,
    }
}

/// The standard per-level multiplier growth of each hand type, in whole
/// units.
pub open spec fn default_add_mult(ph: PokerHand) -> int {
    match ph {
        PokerHand::HighCard => 1,
        PokerHand::Pair => 1,
        PokerHand::TwoPair => 1,
        PokerHand::ThreeOfAKind => 2,
        PokerHand::Straight => 3,
        PokerHand::Flush => 2,
        PokerHand::FullHouse => 2,
        PokerHand::FourOfAKind => 3,
        PokerHand::StraightFlush => 4,
        PokerHand::FiveOfAKind => 3,
        PokerHand::FlushHouse => 4,
        PokerHand::FlushFive => 3,
    }
}

/// The planet name of each hand type in the standard catalogue.
pub open spec fn default_planet_title(ph: PokerHand) -> Seq<char> {
    match ph {
        PokerHand::HighCard => "Pluto"@,
        PokerHand::Pair => "Mercury"@,
        PokerHand::TwoPair => "Uranus"@,
        PokerHand::ThreeOfAKind => "Venus"@,
        PokerHand::Straight => "Saturn"@,
        PokerHand::Flush => "Jupiter"@,
        PokerHand::FullHouse => "Earth"@,
        PokerHand::FourOfAKind => "Mars"@,
        PokerHand::StraightFlush => "Neptune"@,
        PokerHand::FiveOfAKind => "Planet X"@,
        PokerHand::FlushHouse => "Ceres"@,
        PokerHand::FlushFive => "Eris"@,
    }
}

/// Planets are ordered by descending tier of their hand type.
pub open spec fn tier_ge(a: Planet, b: Planet) -> bool {
    a.poker_hand.spec_tier() >= b.poker_hand.spec_tier()
}

/// The catalogue is sorted by descending tier.
pub open spec fn sorted_by_tier_desc(s: Seq<Planet>) -> bool {
    forall|k1: int, k2: int| 0 <= k1 < k2 < s.len() ==> tier_ge(#[trigger] s[k1], #[trigger] s[k2])
}

/// Two hand types with the same tier are the same hand type.
pub proof fn lemma_tier_injective(a: PokerHand, b: PokerHand)
    ensures
        (a.spec_tier() == b.spec_tier()) == (a == b),
{
}

} // verus!
