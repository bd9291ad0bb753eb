//! Fighter progression and matchmaking tiers.
//!
//! A fighter is identified by a plain account identifier and carries its
//! level, experience and combat stats. Leveling, tier placement, the
//! damage-range and defense formulas, and the consecutive-hit combo
//! tracker are all pure integer logic.

use vstd::prelude::*;
use crate::types::sat_sub_u32;

verus! {

/// Fighter NFT tiers that evolve with level.
#[derive(Debug, Clone, Copy, PartialEq, Eq, Structural)]
pub enum FighterTier {
    Bronze,
    Silver,
    Gold,
    Platinum,
    Diamond,
    Legendary,
}

/// The tier a fighter of the given level holds.
pub open spec fn spec_fighter_tier(level: u32) -> FighterTier {
    if 1 <= level <= 10 {
        FighterTier::Bronze
    } else if 11 <= level <= 25 {
        FighterTier::Silver
    } else if 26 <= level <= 50 {
        FighterTier::Gold
    } else if 51 <= level <= 75 {
        FighterTier::Platinum
    } else if 76 <= level <= 99 {
        FighterTier::Diamond
    } else {
        FighterTier::Legendary
    }
}

impl FighterTier {
    /// Places a level on the tier ladder.
    pub fn from_level(level: u32) -> (r: Self)
        ensures
            r == spec_fighter_tier(level),
    {
        if 1 <= level && level <= 10 {
            FighterTier::Bronze
        } else if 11 <= level && level <= 25 {
            FighterTier::Silver
        } else if 26 <= level && level <= 50 {
            FighterTier::Gold
        } else if 51 <= level && level <= 75 {
            FighterTier::Platinum
        } else if 76 <= level && level <= 99 {
            FighterTier::Diamond
        } else {
            FighterTier::Legendary
        }
    }
}

/// Matchmaking tiers for fair pairings.
#[derive(Debug, Clone, Copy, PartialEq, Eq, Structural)]
pub enum MatchmakingTier {
    Novice,
    Intermediate,
    Advanced,
    Expert,
    Master,
}

/// The matchmaking tier of a fighter of the given level.
pub open spec fn spec_matchmaking_tier(level: u32) -> MatchmakingTier {
    if 1 <= level <= 10 {
        MatchmakingTier::Novice
    } else if 11 <= level <= 25 {
        MatchmakingTier::Intermediate
    } else if 26 <= level <= 50 {
        MatchmakingTier::Advanced
    } else if 51 <= level <= 100 {
        MatchmakingTier::Expert
    } else {
        MatchmakingTier::Master
    }
}

/// The rank of a matchmaking tier on the ladder.
pub open spec fn spec_tier_rank(t: MatchmakingTier) -> int {
    match t {
        MatchmakingTier::Novice => 0,
        MatchmakingTier::Intermediate => 1,
        MatchmakingTier::Advanced => 2,
        MatchmakingTier::Expert => 3,
        MatchmakingTier::Master => 4,
    }
}

/// Whether two tiers are close enough to be matched: the same tier or an
/// adjacent one.
pub open spec fn spec_can_match(a: MatchmakingTier, b: MatchmakingTier) -> bool {
    -1 <= spec_tier_rank(a) - spec_tier_rank(b) <= 1
}

impl MatchmakingTier {
    /// Places a level on the matchmaking ladder.
    pub fn from_level(level: u32) -> (r: Self)
        ensures
            r == spec_matchmaking_tier(level),
    {
        if 1 <= level && level <= 10 {
            MatchmakingTier::Novice
        } else if 11 <= level && level <= 25 {
            MatchmakingTier::Intermediate
        } else if 26 <= level && level <= 50 {
            MatchmakingTier::Advanced
        } else if 51 <= level && level <= 100 {
            MatchmakingTier::Expert
        } else {
            MatchmakingTier::Master
        }
    }

    /// The rank of this tier on the ladder.
    fn rank(&self) -> (r: u8)
        ensures
            r == spec_tier_rank(*self),
    {
        match self {
            MatchmakingTier::Novice => 0,
            MatchmakingTier::Intermediate => 1,
            MatchmakingTier::Advanced => 2,
            MatchmakingTier::Expert => 3,
            MatchmakingTier::Master => 4,
        }
    }

    /// Whether fighters of these two tiers may be matched: within the
    /// same tier or an adjacent one.
    pub fn can_match(&self, other: &Self) -> (r: bool)
        ensures
            r == spec_can_match(*self, *other),
    {
        let a = self.rank();
        let b = other.rank();
        let diff = if a >= b {
            a - b
        } else {
            b - a
        };
        diff <= 1
    }
}

/// Tracks consecutive hits in the same damage bracket for bonus damage.
#[derive(Debug, Clone, Copy, PartialEq, Eq, Structural)]
pub struct ComboTracker {
    pub last_damage_range: Option<u32>,
    pub combo_count: u32,
}

/// One combo step: the damage bracket is the damage rounded down to a
/// multiple of ten; a hit in the same bracket as the last one extends the
/// combo and earns a bonus multiplier (150 on the second hit, 200 from
/// the third on), any other hit restarts the count.
pub open spec fn spec_check_combo(t: ComboTracker, damage: u32) -> (ComboTracker, Option<u32>) {
    let bracket = ((damage / 10) * 10) as u32;
    if t.last_damage_range == Some(bracket) {
        let count = if t.combo_count == u32::MAX {
            u32::MAX
        } else {
            (t.combo_count + 1) as u32
        };
        let bonus: u32 = if count == 2 {
            150
        } else {
            200
        };
        (ComboTracker { last_damage_range: Some(bracket), combo_count: count }, Some(bonus))
    } else {
        (ComboTracker { last_damage_range: Some(bracket), combo_count: 1 }, None)
    }
}

impl ComboTracker {
    /// A tracker with no hit recorded yet.
    pub fn new() -> (t: Self)
        ensures
            t == (ComboTracker { last_damage_range: None::<u32>, combo_count: 0u32 }),
    {
        Self { last_damage_range: None, combo_count: 0 }
    }

    /// Records a hit and returns the bonus multiplier the combo earns, if
    /// the hit extends one.
    pub fn check_combo(&mut self, damage: u32) -> (bonus: Option<u32>)
        ensures
            (*final(self), bonus) == spec_check_combo(*old(self), damage),
    {
        let damage_range = (damage / 10) * 10;
        let matches_last = match self.last_damage_range {
            Some(last) => last == damage_range,
            None => false,
        };
        if matches_last {
            self.combo_count = self.combo_count.saturating_add(1);
            let bonus: u32 = if self.combo_count == 2 {
                150
            } else {
                200
            };
            self.last_damage_range = Some(damage_range);
            Some(bonus)
        } else {
            self.combo_count = 1;
            self.last_damage_range = Some(damage_range);
            None
        }
    }
}

/// Kinds of battles a fighter can enter.
#[derive(Debug, Clone, Copy, PartialEq, Eq, Structural)]
pub enum BattleType {
    FreePlay,
    Staked,
    Tournament,
    Ranked,
}

/// Lifecycle of a fighter-versus-fighter battle.
#[derive(Debug, Clone, Copy, PartialEq, Eq, Structural)]
pub enum BattleStatus {
    Active,
    Finished,
    Cancelled,
    TimedOut,
}

/// Kinds of logged battle actions.
#[derive(Debug, Clone, Copy, PartialEq, Eq, Structural)]
pub enum ActionType {
    Strike,
    CriticalStrike,
    ComboBonus,
    SpecialAbility,
}

/// One round of a tournament: the battles it comprises.
#[derive(Debug, Clone)]
pub struct TournamentBracket {
    pub round: u32,
    pub matches: Vec<u64>,
}

/// Lifecycle of a tournament.
#[derive(Debug, Clone, Copy, PartialEq, Eq, Structural)]
pub enum TournamentStatus {
    Registration,
    InProgress,
    Finished,
    Cancelled,
}

/// A fighter's statistics and progression. The owning account is carried
/// as a plain identifier, timestamps as plain microsecond counts.
#[derive(Debug, Clone)]
pub struct Fighter {
    pub owner: u64,
    pub name: String,
    pub level: u32,
    pub xp: u64,
    pub total_wins: u32,
    pub total_losses: u32,
    pub total_damage_dealt: u64,
    pub total_damage_taken: u64,
    pub current_streak: u32,
    pub highest_streak: u32,
    pub max_hp: u32,
    pub base_attack: u32,
    pub defense: u32,
    pub critical_chance: u32,
    pub critical_multiplier: u32,
    pub nft_tier: FighterTier,
    pub special_abilities: Vec<String>,
    pub visual_traits: Vec<String>,
    pub created_at: u64,
    pub last_battle: Option<u64>,
}

/// Experience required to leave the given level.
pub open spec fn spec_xp_for_next_level(level: u32) -> int {
    100 * level * level
}

/// The critical chance after reaching `new_level`: it grows by two every
/// fifth level, capped at 30.
pub open spec fn spec_next_crit_chance(current: u32, new_level: u32) -> u32 {
    if new_level % 5 == 0 {
        if current >= 28 {
            30u32
        } else {
            (current + 2) as u32
        }
    } else {
        current
    }
}

/// The milestone abilities unlocked on reaching `new_level`: one fixed
/// ability is appended at levels 10, 25 and 50; otherwise the list stays.
pub open spec fn spec_abilities_after_level_up(
    before: Seq<Seq<char>>,
    after: Seq<Seq<char>>,
    new_level: u32,
) -> bool {
    if new_level == 10 {
        after == before.push("Power Strike"@)
    } else if new_level == 25 {
        after == before.push("Defensive Stance"@)
    } else if new_level == 50 {
        after == before.push("Berserker Mode"@)
    } else {
        after == before
    }
}

impl Fighter {
    /// A fresh level-1 fighter with base stats.
    pub fn new(owner: u64, name: String, created_at: u64) -> (f: Self)
        ensures
            f.owner == owner,
            f.name@ == name@,
            f.level == 1,
            f.xp == 0,
            f.total_wins == 0,
            f.total_losses == 0,
            f.total_damage_dealt == 0,
            f.total_damage_taken == 0,
            f.current_streak == 0,
            f.highest_streak == 0,
            f.max_hp == 100,
            f.base_attack == 10,
            f.defense == 5,
            f.critical_chance == 5,
            f.critical_multiplier == 150,
            f.nft_tier == FighterTier::Bronze,
            f.special_abilities@.len() == 0,
            f.visual_traits@.len() == 0,
            f.created_at == created_at,
            f.last_battle is None,
    {
        Self {
            owner,
            name,
            level: 1,
            xp: 0,
            total_wins: 0,
            total_losses: 0,
            total_damage_dealt: 0,
            total_damage_taken: 0,
            current_streak: 0,
            highest_streak: 0,
            max_hp: 100,
            base_attack: 10,
            defense: 5,
            critical_chance: 5,
            critical_multiplier: 150,
            nft_tier: FighterTier::Bronze,
            special_abilities: Vec::new(),
            visual_traits: Vec::new(),
            created_at,
            last_battle: None,
        }
    }

    /// The damage range the fighter's level and attack give it.
    pub fn calculate_damage_range(&self) -> (r: (u32, u32))
        requires
            self.base_attack + self.level * 5 <= u32::MAX,
        ensures
            r.0 == self.base_attack + self.level * 2,
            r.1 == self.base_attack + self.level * 5,
    {
        let min_damage = self.base_attack + (self.level * 2);
        let max_damage = self.base_attack + (self.level * 5);
        (min_damage, max_damage)
    }

    /// Reduces incoming damage by the fighter's defense, as a percentage.
    pub fn apply_defense(&self, incoming_damage: u32) -> (r: u32)
        requires
            incoming_damage * self.defense <= u32::MAX,
        ensures
            r == sat_sub_u32(
                incoming_damage,
                (incoming_damage * self.defense / 100) as u32,
            ),
    {
        let defense_reduction = (incoming_damage * self.defense) / 100;
        incoming_damage.saturating_sub(defense_reduction)
    }

    /// Whether a draw lands a critical hit for this fighter.
    pub fn is_critical_hit(&self, random_value: u64) -> (r: bool)
        ensures
            r == (random_value % 100 < self.critical_chance),
    {
        (random_value % 100) < self.critical_chance as u64
    }

    /// Scales damage by the fighter's critical multiplier.
    pub fn apply_critical(&self, base_damage: u32) -> (r: u32)
        requires
            base_damage * self.critical_multiplier <= u32::MAX,
        ensures
            r == base_damage * self.critical_multiplier / 100,
    {
        (base_damage * self.critical_multiplier) / 100
    }

    /// Experience required to leave the current level.
    pub fn xp_for_next_level(&self) -> (r: u64)
        requires
            spec_xp_for_next_level(self.level) <= u64::MAX,
        ensures
            r == spec_xp_for_next_level(self.level),
    {
        let l = self.level as u64;
        proof {
            assert(100 * l <= u64::MAX && 100 * l * l == spec_xp_for_next_level(self.level))
                by (nonlinear_arith)
                requires
                    l == self.level,
                    100 * (self.level as int) * (self.level as int) <= u64::MAX,
            ;
        }
        100 * l * l
    }

    /// Adds experience; when the requirement for the next level is met,
    /// the fighter levels up once and the call reports it.
    pub fn add_xp(&mut self, xp_gain: u64) -> (leveled_up: bool)
        requires
            old(self).xp + xp_gain <= u64::MAX,
            spec_xp_for_next_level(old(self).level) <= u64::MAX,
            old(self).level < u32::MAX,
            old(self).max_hp + 10 <= u32::MAX,
            old(self).base_attack + 3 <= u32::MAX,
            old(self).defense + 1 <= u32::MAX,
        ensures
            final(self).xp == old(self).xp + xp_gain,
            leveled_up == (old(self).xp + xp_gain >= spec_xp_for_next_level(old(self).level)),
            !leveled_up ==> *final(self) == (Fighter { xp: final(self).xp, ..*old(self) }),
            leveled_up ==> *final(self) == (Fighter {
                xp: final(self).xp,
                level: (old(self).level + 1) as u32,
                max_hp: (old(self).max_hp + 10) as u32,
                base_attack: (old(self).base_attack + 3) as u32,
                defense: (old(self).defense + 1) as u32,
                critical_chance: spec_next_crit_chance(
                    old(self).critical_chance,
                    (old(self).level + 1) as u32,
                ),
                nft_tier: spec_fighter_tier((old(self).level + 1) as u32),
                special_abilities: final(self).special_abilities,
                ..*old(self)
            }),
            leveled_up ==> spec_abilities_after_level_up(
                old(self).special_abilities@.map_values(|a: String| a@),
                final(self).special_abilities@.map_values(|a: String| a@),
                (old(self).level + 1) as u32,
            ),
    {
        self.xp = self.xp + xp_gain;
        let required_xp = self.xp_for_next_level();
        if self.xp >= required_xp {
            self.level_up();
            true
        } else {
            false
        }
    }

    /// Levels the fighter up once, improving its stats, updating its tier
    /// and unlocking milestone abilities.
    fn level_up(&mut self)
        requires
            old(self).level < u32::MAX,
            old(self).max_hp + 10 <= u32::MAX,
            old(self).base_attack + 3 <= u32::MAX,
            old(self).defense + 1 <= u32::MAX,
        ensures
            *final(self) == (Fighter {
                level: (old(self).level + 1) as u32,
                max_hp: (old(self).max_hp + 10) as u32,
                base_attack: (old(self).base_attack + 3) as u32,
                defense: (old(self).defense + 1) as u32,
                critical_chance: spec_next_crit_chance(
                    old(self).critical_chance,
                    (old(self).level + 1) as u32,
                ),
                nft_tier: spec_fighter_tier((old(self).level + 1) as u32),
                special_abilities: final(self).special_abilities,
                ..*old(self)
            }),
            spec_abilities_after_level_up(
                old(self).special_abilities@.map_values(|a: String| a@),
                final(self).special_abilities@.map_values(|a: String| a@),
                (old(self).level + 1) as u32,
            ),
    {
        self.level = self.level + 1;
        self.max_hp = self.max_hp + 10;
        self.base_attack = self.base_attack + 3;
        self.defense = self.defense + 1;

        // Every five levels the critical chance grows, capped at 30.
        if self.level % 5 == 0 {
            if self.critical_chance >= 28 {
                self.critical_chance = 30;
            } else {
                self.critical_chance = self.critical_chance + 2;
            }
        }

        self.nft_tier = FighterTier::from_level(self.level);

        // Milestone abilities.
        let ghost before = self.special_abilities@.map_values(|a: String| a@);
        if self.level == 10 {
            self.special_abilities.push("Power Strike".to_owned());
            proof {
                assert(self.special_abilities@.map_values(|a: String| a@) =~= before.push(
                    "Power Strike"@,
                ));
            }
        } else if self.level == 25 {
            self.special_abilities.push("Defensive Stance".to_owned());
            proof {
                assert(self.special_abilities@.map_values(|a: String| a@) =~= before.push(
                    "Defensive Stance"@,
                ));
            }
        } else if self.level == 50 {
            self.special_abilities.push("Berserker Mode".to_owned());
            proof {
                assert(self.special_abilities@.map_values(|a: String| a@) =~= before.push(
                    "Berserker Mode"@,
                ));
            }
        }
    }

    /// The matchmaking tier the fighter's level places it in.
    pub fn get_tier(&self) -> (r: MatchmakingTier)
        ensures
            r == spec_matchmaking_tier(self.level),
    {
        MatchmakingTier::from_level(self.level)
    }
}

} // verus!
