use majorules::damage::calculate_damage_with_rolls;
use majorules::fixed::{fp_to_u64, mul_fp, FP_SCALE};
use majorules::rng::{derive_random_u64, random_in_range};
use majorules::types::{BattleParticipant, CharacterClass, CharacterSnapshot, Stance};

fn snapshot(min_damage: u16, max_damage: u16, crit_chance: u16, dodge_chance: u16, defense: u16) -> CharacterSnapshot {
    CharacterSnapshot {
        nft_id: "char".to_string(),
        class: CharacterClass::Warrior,
        level: 1,
        hp_max: 100,
        min_damage,
        max_damage,
        crit_chance,
        crit_multiplier: 20000,
        dodge_chance,
        defense,
        attack_bps: 0,
        defense_bps: 0,
        crit_bps: 0,
    }
}

#[test]
fn balanced_vs_balanced_plain_hit() {
    // A: damage range 8..=15, 15% crit, no dodge; B: no defense, no dodge.
    // Base roll 10, crit roll misses (9999 >= 1500), dodge roll lands.
    let a = snapshot(8, 15, 1500, 0, 0);
    let b = snapshot(8, 15, 1500, 0, 0);
    let (damage, was_crit, was_dodged) = calculate_damage_with_rolls(
        &a, 0, &b, Stance::Balanced, Stance::Balanced, false, 10, 9999, 0,
    );
    assert_eq!(damage, 10);
    assert!(!was_crit);
    assert!(!was_dodged);

    // B's HP drops by exactly 10.
    let mut bp = BattleParticipant::new(2, 2, b, 0);
    let defeated = bp.take_damage(damage);
    assert_eq!(bp.current_hp, 90);
    assert!(!defeated);
}

#[test]
fn attacker_stance_multipliers() {
    let a = snapshot(100, 100, 0, 0, 0);
    let b = snapshot(8, 15, 0, 0, 0);
    let dmg = |stance| {
        calculate_damage_with_rolls(&a, 0, &b, stance, Stance::Balanced, false, 100, 9999, 0).0
    };
    assert_eq!(dmg(Stance::Balanced), 100);
    assert_eq!(dmg(Stance::Aggressive), 130);
    assert_eq!(dmg(Stance::Defensive), 70);
    assert_eq!(dmg(Stance::Berserker), 200);
    assert_eq!(dmg(Stance::Counter), 90);
}

#[test]
fn defender_stance_multipliers() {
    let a = snapshot(100, 100, 0, 0, 0);
    let b = snapshot(8, 15, 0, 0, 0);
    let dmg = |stance| {
        calculate_damage_with_rolls(&a, 0, &b, Stance::Balanced, stance, false, 100, 9999, 0).0
    };
    assert_eq!(dmg(Stance::Balanced), 100);
    assert_eq!(dmg(Stance::Aggressive), 150);
    assert_eq!(dmg(Stance::Defensive), 50);
    assert_eq!(dmg(Stance::Berserker), 100);
    assert_eq!(dmg(Stance::Counter), 60);
}

#[test]
fn crit_special_and_combo_scaling() {
    let a = snapshot(100, 100, 1500, 0, 0);
    let b = snapshot(8, 15, 0, 0, 0);
    // Crit roll under the threshold doubles (multiplier 20000 bps).
    let (damage, was_crit, _) = calculate_damage_with_rolls(
        &a, 0, &b, Stance::Balanced, Stance::Balanced, false, 100, 1499, 0,
    );
    assert!(was_crit);
    assert_eq!(damage, 200);

    // Special ability: x1.5.
    let (damage, _, _) = calculate_damage_with_rolls(
        &a, 0, &b, Stance::Balanced, Stance::Balanced, true, 100, 9999, 0,
    );
    assert_eq!(damage, 150);

    // Combo stack of 4: x(1 + 4/20) = x1.2.
    let (damage, _, _) = calculate_damage_with_rolls(
        &a, 4, &b, Stance::Balanced, Stance::Balanced, false, 100, 9999, 0,
    );
    assert_eq!(damage, 120);
}

#[test]
fn dodge_deals_zero() {
    let a = snapshot(100, 100, 0, 0, 0);
    let b = snapshot(8, 15, 0, 10000, 0);
    let (damage, _, was_dodged) = calculate_damage_with_rolls(
        &a, 0, &b, Stance::Balanced, Stance::Balanced, false, 100, 9999, 9999,
    );
    assert!(was_dodged);
    assert_eq!(damage, 0);
}

#[test]
fn damage_floors_at_one_under_extreme_defense() {
    let a = snapshot(8, 15, 0, 0, 0);
    // Full flat defense, defensive stance, and an extreme defensive trait.
    let mut b = snapshot(8, 15, 0, 0, 100);
    b.defense_bps = 32767;
    let (damage, _, was_dodged) = calculate_damage_with_rolls(
        &a, 0, &b, Stance::Balanced, Stance::Defensive, false, 8, 9999, 0,
    );
    assert!(!was_dodged);
    assert_eq!(damage, 1);

    // A merely strong trait also cannot push a hit below 1.
    let mut c = snapshot(8, 15, 0, 0, 99);
    c.defense_bps = 9999;
    let (damage, _, _) = calculate_damage_with_rolls(
        &a, 0, &c, Stance::Balanced, Stance::Defensive, false, 8, 9999, 0,
    );
    assert_eq!(damage, 1);
}

#[test]
fn attack_trait_scales_damage() {
    let mut a = snapshot(100, 100, 0, 0, 0);
    a.attack_bps = 2500; // +25%
    let b = snapshot(8, 15, 0, 0, 0);
    let (damage, _, _) = calculate_damage_with_rolls(
        &a, 0, &b, Stance::Balanced, Stance::Balanced, false, 100, 9999, 0,
    );
    assert_eq!(damage, 125);

    a.attack_bps = -5000; // -50%
    let (damage, _, _) = calculate_damage_with_rolls(
        &a, 0, &b, Stance::Balanced, Stance::Balanced, false, 100, 9999, 0,
    );
    assert_eq!(damage, 50);
}

#[test]
fn fixed_point_helpers() {
    assert_eq!(FP_SCALE, 1_000_000);
    assert_eq!(mul_fp(3_000_000, 2_000_000), 6_000_000);
    assert_eq!(mul_fp(1_500_000, 1_500_000), 2_250_000);
    assert_eq!(fp_to_u64(2_500_000), 2);
    assert_eq!(fp_to_u64(999_999), 0);
}

#[test]
fn derived_randomness_is_reproducible() {
    let seed = [7u8; 32];
    let first = derive_random_u64(&seed, 3);
    let second = derive_random_u64(&seed, 3);
    assert_eq!(first, second);

    for tag in 0..16u8 {
        let v = random_in_range(&seed, tag, 8, 15);
        assert!((8..=15).contains(&v));
        assert_eq!(v, random_in_range(&seed, tag, 8, 15));
    }
    assert_eq!(random_in_range(&seed, 0, 42, 42), 42);
}
