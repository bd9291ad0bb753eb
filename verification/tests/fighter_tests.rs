use majorules::fighter::{ComboTracker, Fighter, FighterTier, MatchmakingTier};

#[test]
fn test_fighter_creation_and_leveling() {
    let owner: u64 = 1;
    let timestamp: u64 = 0;
    let mut fighter = Fighter::new(owner, "TestFighter".to_string(), timestamp);

    assert_eq!(fighter.level, 1);
    assert_eq!(fighter.xp, 0);
    assert_eq!(fighter.max_hp, 100);

    // Add enough XP to level up
    let leveled_up = fighter.add_xp(100);
    assert!(leveled_up);
    assert_eq!(fighter.level, 2);
    assert_eq!(fighter.max_hp, 110);
}

#[test]
fn test_damage_calculation() {
    let owner: u64 = 1;
    let timestamp: u64 = 0;
    let fighter = Fighter::new(owner, "TestFighter".to_string(), timestamp);

    let (min, max) = fighter.calculate_damage_range();
    assert_eq!(min, 12); // base_attack(10) + level(1) * 2
    assert_eq!(max, 15); // base_attack(10) + level(1) * 5
}

#[test]
fn test_combo_tracker() {
    let mut tracker = ComboTracker::new();

    // First hit, no combo
    assert_eq!(tracker.check_combo(45), None);

    // Second hit in same range (40-49), combo!
    assert_eq!(tracker.check_combo(48), Some(150));

    // Third hit, bigger combo!
    assert_eq!(tracker.check_combo(42), Some(200));

    // Different range, combo breaks
    assert_eq!(tracker.check_combo(55), None);
}

#[test]
fn fighter_tier_ladder() {
    assert_eq!(FighterTier::from_level(1), FighterTier::Bronze);
    assert_eq!(FighterTier::from_level(10), FighterTier::Bronze);
    assert_eq!(FighterTier::from_level(11), FighterTier::Silver);
    assert_eq!(FighterTier::from_level(25), FighterTier::Silver);
    assert_eq!(FighterTier::from_level(26), FighterTier::Gold);
    assert_eq!(FighterTier::from_level(50), FighterTier::Gold);
    assert_eq!(FighterTier::from_level(51), FighterTier::Platinum);
    assert_eq!(FighterTier::from_level(75), FighterTier::Platinum);
    assert_eq!(FighterTier::from_level(76), FighterTier::Diamond);
    assert_eq!(FighterTier::from_level(99), FighterTier::Diamond);
    assert_eq!(FighterTier::from_level(100), FighterTier::Legendary);
}

#[test]
fn matchmaking_tier_adjacency() {
    assert_eq!(MatchmakingTier::from_level(5), MatchmakingTier::Novice);
    assert_eq!(MatchmakingTier::from_level(20), MatchmakingTier::Intermediate);
    assert_eq!(MatchmakingTier::from_level(40), MatchmakingTier::Advanced);
    assert_eq!(MatchmakingTier::from_level(80), MatchmakingTier::Expert);
    assert_eq!(MatchmakingTier::from_level(150), MatchmakingTier::Master);

    let novice = MatchmakingTier::Novice;
    let intermediate = MatchmakingTier::Intermediate;
    let advanced = MatchmakingTier::Advanced;
    let expert = MatchmakingTier::Expert;
    assert!(novice.can_match(&novice));
    assert!(novice.can_match(&intermediate));
    assert!(intermediate.can_match(&novice));
    assert!(!novice.can_match(&advanced));
    assert!(!expert.can_match(&novice));
    assert!(expert.can_match(&advanced));
}

#[test]
fn fighter_defense_and_crits() {
    let mut fighter = Fighter::new(7, "Blocker".to_string(), 0);
    fighter.defense = 25;
    // 100 incoming, 25% reduction
    assert_eq!(fighter.apply_defense(100), 75);
    // defense over 100% saturates at zero
    fighter.defense = 200;
    assert_eq!(fighter.apply_defense(100), 0);

    let fresh = Fighter::new(7, "Critter".to_string(), 0);
    // base crit chance is 5: rolls 0..=4 crit, 5..=99 do not
    assert!(fresh.is_critical_hit(4));
    assert!(!fresh.is_critical_hit(5));
    assert!(fresh.is_critical_hit(104));
    // critical multiplier 150 = 1.5x
    assert_eq!(fresh.apply_critical(40), 60);
}

#[test]
fn fighter_xp_curve_and_milestones() {
    let mut fighter = Fighter::new(3, "Grinder".to_string(), 0);
    assert_eq!(fighter.xp_for_next_level(), 100); // level 1
    assert!(!fighter.add_xp(99));
    assert_eq!(fighter.level, 1);
    assert!(fighter.add_xp(1)); // total 100 = required
    assert_eq!(fighter.level, 2);
    assert_eq!(fighter.xp_for_next_level(), 400);

    // Level a fighter to 10 and check the milestone ability
    let mut veteran = Fighter::new(3, "Veteran".to_string(), 0);
    while veteran.level < 10 {
        let need = veteran.xp_for_next_level();
        veteran.add_xp(need - veteran.xp);
    }
    assert_eq!(veteran.level, 10);
    assert_eq!(veteran.special_abilities.len(), 1);
    assert_eq!(veteran.special_abilities[0], "Power Strike");
    assert_eq!(veteran.nft_tier, FighterTier::Bronze);
    // crit chance grew at levels 5 and 10
    assert_eq!(veteran.critical_chance, 9);
}
