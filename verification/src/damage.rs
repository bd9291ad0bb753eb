//! The damage resolution pipeline.
//!
//! A pure function of the attacker's and defender's characters, both
//! stances, the special-ability flag, the attacker's combo stack, and three
//! pseudo-random rolls (base damage, critical check, dodge check). All
//! scaling runs in fixed-point integers so every replica computes the same
//! result. A dodged hit deals exactly 0 damage; every hit that lands deals
//! at least 1, whatever the defense modifiers are.

use vstd::prelude::*;
use vstd::arithmetic::mul::lemma_mul_upper_bound;
use vstd::arithmetic::div_mod::lemma_div_is_ordered;
use crate::fixed::{FP_SCALE, MAX_COMBO_STACK};
use crate::types::{CharacterSnapshot, CharacterSnapshotView, Stance};

verus! {

/// Largest damage a single hit can deal, given the ranges of the
/// character stats and the stance and trait multipliers.
pub const MAX_SINGLE_DAMAGE: u32 = 45_000_000;

/// Attack-side stance multiplier, in fixed-point units.
pub open spec fn spec_stance_attack_mul(s: Stance) -> int {
    match s {
        Stance::Balanced => 1_000_000,
        Stance::Aggressive => 1_300_000,
        Stance::Defensive => 700_000,
        Stance::Berserker => 2_000_000,
        Stance::Counter => 900_000,
    }
}

/// Defense-side stance multiplier, in fixed-point units.
pub open spec fn spec_stance_defense_mul(s: Stance) -> int {
    match s {
        Stance::Balanced => 1_000_000,
        Stance::Aggressive => 1_500_000,
        Stance::Defensive => 500_000,
        Stance::Berserker => 1_000_000,
        Stance::Counter => 600_000,
    }
}

/// The attacker's trait factor in basis points, floored at zero so a
/// crippling trait cannot turn damage negative.
pub open spec fn spec_attack_trait_factor(bps: i16) -> int {
    if 10000 + bps < 0 {
        0
    } else {
        10000 + bps
    }
}

/// Critical-hit threshold: base chance plus the positive part of the crit
/// trait, clamped to 10000 basis points.
pub open spec fn spec_crit_threshold(c: CharacterSnapshotView) -> int {
    let bonus: int = if c.crit_bps > 0 {
        c.crit_bps as int
    } else {
        0
    };
    let t = c.crit_chance + bonus;
    if t > 10000 {
        10000
    } else {
        t
    }
}

/// The damage pipeline as a mathematical function of the characters, the
/// stances, the flags and the three rolls. Returns (damage, crit, dodged).
pub open spec fn spec_damage_pipeline(
    att: CharacterSnapshotView,
    combo: u8,
    def: CharacterSnapshotView,
    ast: Stance,
    dst: Stance,
    special: bool,
    base: u64,
    crit_roll: u64,
    dodge_roll: u64,
) -> (u32, bool, bool) {
    let d0 = base * 1_000_000;
    let d1 = d0 * spec_attack_trait_factor(att.attack_bps) / 10000;
    let d2 = d1 * spec_stance_attack_mul(ast) / 1_000_000;
    let d3 = if combo > 0 {
        d2 * (1_000_000 + combo * 50_000) / 1_000_000
    } else {
        d2
    };
    let was_crit = (crit_roll as int) < spec_crit_threshold(att);
    let d4 = if was_crit {
        d3 * (att.crit_multiplier * 100) / 1_000_000
    } else {
        d3
    };
    let d5 = if special {
        d4 * 1_500_000 / 1_000_000
    } else {
        d4
    };
    if dodge_roll < def.dodge_chance {
        (0u32, was_crit, true)
    } else {
        let dr = def.defense * 10_000;
        let d6 = if dr < 1_000_000 {
            d5 * (1_000_000 - dr) / 1_000_000
        } else {
            1_000_000
        };
        let d7 = d6 * spec_stance_defense_mul(dst) / 1_000_000;
        let d8 = if 10000 - def.defense_bps > 0 {
            d7 * (10000 - def.defense_bps) / 10000
        } else {
            1_000_000
        };
        let f = d8 / 1_000_000;
        let dmg: u32 = if f < 1 {
            1u32
        } else if f > u32::MAX {
            u32::MAX
        } else {
            f as u32
        };
        (dmg, was_crit, false)
    }
}

/// A scaled multiply keeps both the product and the quotient under the
/// bounds given for its operands.
proof fn lemma_scale_bound(x: int, m: int, d: int, xb: int, mb: int)
    requires
        0 <= x <= xb,
        0 <= m <= mb,
        d >= 1,
    ensures
        x * m <= xb * mb,
        x * m / d <= xb * mb / d,
{
    lemma_mul_upper_bound(x, xb, m, mb);
    lemma_div_is_ordered(x * m, xb * mb, d);
}

/// Attack-side stance multiplier.
fn stance_attack_multiplier(s: Stance) -> (r: u128)
    ensures
        r == spec_stance_attack_mul(s),
{
    match s {
        Stance::Balanced => FP_SCALE,
        Stance::Aggressive => 13 * FP_SCALE / 10,
        Stance::Defensive => 7 * FP_SCALE / 10,
        Stance::Berserker => 2 * FP_SCALE,
        Stance::Counter => 9 * FP_SCALE / 10,
    }
}

/// Defense-side stance multiplier.
fn stance_defense_multiplier(s: Stance) -> (r: u128)
    ensures
        r == spec_stance_defense_mul(s),
{
    match s {
        Stance::Balanced => FP_SCALE,
        Stance::Aggressive => 15 * FP_SCALE / 10,
        Stance::Defensive => 5 * FP_SCALE / 10,
        Stance::Berserker => FP_SCALE,
        Stance::Counter => 6 * FP_SCALE / 10,
    }
}

/// Resolves one hit from the three pseudo-random rolls.
///
/// Step by step: base damage scaled to fixed point, attack trait, attacker
/// stance, combo bonus, critical hit, special ability; then the dodge check
/// cuts the pipeline short; then flat defense, defender stance and defense
/// trait reduce the result, which is truncated and floored at 1.
#[verifier::rlimit(100)]
pub fn calculate_damage_with_rolls(
    attacker: &CharacterSnapshot,
    combo_stack: u8,
    defender: &CharacterSnapshot,
    attacker_stance: Stance,
    defender_stance: Stance,
    special_used: bool,
    base_damage: u64,
    crit_roll: u64,
    dodge_roll: u64,
) -> (r: (u32, bool, bool))
    requires
        attacker.min_damage <= base_damage <= attacker.max_damage,
        crit_roll <= 9999,
        dodge_roll <= 9999,
        combo_stack <= MAX_COMBO_STACK,
    ensures
        r == spec_damage_pipeline(
            attacker@,
            combo_stack,
            defender@,
            attacker_stance,
            defender_stance,
            special_used,
            base_damage,
            crit_roll,
            dodge_roll,
        ),
        r.2 ==> r.0 == 0,
        !r.2 ==> 1 <= r.0 <= MAX_SINGLE_DAMAGE,
{
    let d0: u128 = (base_damage as u128) * FP_SCALE;
    assert(d0 <= 66_000_000_000u128);

    // Attack trait, floored at a zero factor.
    let am_signed: i32 = 10000i32 + (attacker.attack_bps as i32);
    let am: u128 = if am_signed < 0 {
        0
    } else {
        am_signed as u128
    };
    proof {
        lemma_scale_bound(d0 as int, am as int, 10000, 66_000_000_000, 42767);
    }
    let d1: u128 = d0 * am / 10000;
    assert(d1 <= 283_000_000_000u128);

    // Attacker stance.
    let sm = stance_attack_multiplier(attacker_stance);
    proof {
        lemma_scale_bound(d1 as int, sm as int, 1_000_000, 283_000_000_000, 2_000_000);
    }
    let d2: u128 = d1 * sm / FP_SCALE;
    assert(d2 <= 566_000_000_000u128);

    // Combo bonus.
    let d3: u128 = if combo_stack > 0 {
        proof {
            lemma_mul_upper_bound(combo_stack as int, 5, (FP_SCALE / 20) as int, 50_000);
        }
        let combo_bonus: u128 = FP_SCALE + (combo_stack as u128) * (FP_SCALE / 20);
        proof {
            lemma_scale_bound(d2 as int, combo_bonus as int, 1_000_000, 566_000_000_000, 1_250_000);
        }
        d2 * combo_bonus / FP_SCALE
    } else {
        d2
    };
    assert(d3 <= 708_000_000_000u128);

    // Critical hit.
    let crit_bonus: u32 = if attacker.crit_bps > 0 {
        attacker.crit_bps as u32
    } else {
        0
    };
    let mut crit_threshold: u32 = attacker.crit_chance as u32 + crit_bonus;
    if crit_threshold > 10000 {
        crit_threshold = 10000;
    }
    let was_crit = crit_roll < crit_threshold as u64;
    let d4: u128 = if was_crit {
        proof {
            lemma_mul_upper_bound(attacker.crit_multiplier as int, 65535, (FP_SCALE / 10000) as int, 100);
        }
        let crit_mult: u128 = (attacker.crit_multiplier as u128) * (FP_SCALE / 10000);
        proof {
            lemma_scale_bound(d3 as int, crit_mult as int, 1_000_000, 708_000_000_000, 6_553_500);
        }
        d3 * crit_mult / FP_SCALE
    } else {
        d3
    };
    assert(d4 <= 4_650_000_000_000u128);

    // Special ability.
    let d5: u128 = if special_used {
        proof {
            lemma_scale_bound(d4 as int, 1_500_000, 1_000_000, 4_650_000_000_000, 1_500_000);
        }
        d4 * (15 * FP_SCALE / 10) / FP_SCALE
    } else {
        d4
    };
    assert(d5 <= 7_000_000_000_000u128);

    // Dodge check: a dodged hit deals no damage at all.
    if dodge_roll < defender.dodge_chance as u64 {
        return (0, was_crit, true);
    }

    // Flat defense as a percentage reduction.
    proof {
        lemma_mul_upper_bound(defender.defense as int, 65535, (FP_SCALE / 100) as int, 10_000);
    }
    let def_reduction: u128 = (defender.defense as u128) * (FP_SCALE / 100);
    let d6: u128 = if def_reduction < FP_SCALE {
        proof {
            lemma_scale_bound(
                d5 as int,
                (FP_SCALE - def_reduction) as int,
                1_000_000,
                7_000_000_000_000,
                1_000_000,
            );
        }
        d5 * (FP_SCALE - def_reduction) / FP_SCALE
    } else {
        FP_SCALE
    };
    assert(d6 <= 7_000_000_000_000u128);

    // Defender stance.
    let dm = stance_defense_multiplier(defender_stance);
    proof {
        lemma_scale_bound(d6 as int, dm as int, 1_000_000, 7_000_000_000_000, 1_500_000);
    }
    let d7: u128 = d6 * dm / FP_SCALE;
    assert(d7 <= 10_500_000_000_000u128);

    // Defense trait; if it would zero the damage out, one fixed-point unit
    // is kept instead.
    let dm_signed: i32 = 10000i32 - (defender.defense_bps as i32);
    let d8: u128 = if dm_signed > 0 {
        proof {
            lemma_scale_bound(d7 as int, dm_signed as int, 10000, 10_500_000_000_000, 42768);
        }
        d7 * (dm_signed as u128) / 10000
    } else {
        FP_SCALE
    };
    assert(d8 <= 45_000_000_000_000u128);

    // Truncate and floor at 1; the cast saturates, though the bound above
    // keeps the value far below it.
    let truncated: u128 = d8 / FP_SCALE;
    let final_damage: u32 = if truncated < 1 {
        1
    } else if truncated > u32::MAX as u128 {
        u32::MAX
    } else {
        truncated as u32
    };
    (final_damage, was_crit, false)
}

} // verus!
