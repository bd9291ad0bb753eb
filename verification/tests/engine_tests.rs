use majorules::session::{BattleState, Message};
use majorules::types::{
    BattleParticipant, BattleStatus, CharacterClass, CharacterSnapshot, CombatAction, CombatStats,
    RoundResult, Stance,
};
use majorules::stats::calculate_combat_stats;

fn snapshot(hp_max: u32, min_damage: u16, max_damage: u16) -> CharacterSnapshot {
    CharacterSnapshot {
        nft_id: "char".to_string(),
        class: CharacterClass::Warrior,
        level: 1,
        hp_max,
        min_damage,
        max_damage,
        crit_chance: 0,
        crit_multiplier: 15000,
        dodge_chance: 0,
        defense: 0,
        attack_bps: 0,
        defense_bps: 0,
        crit_bps: 0,
    }
}

fn participant(owner: u64, stake: u128) -> BattleParticipant {
    BattleParticipant::new(owner, owner, snapshot(1000, 1, 2), stake)
}

fn started_session(stake1: u128, stake2: u128) -> BattleState {
    let mut s = BattleState::new();
    s.initialize_battle(
        BattleParticipant::new(1, 1, snapshot(1000, 1, 2), stake1),
        BattleParticipant::new(2, 2, snapshot(1000, 1, 2), stake2),
        99,
        99,
        300,
        77,
        [0u8; 32],
    );
    s
}

#[test]
fn initialization_binds_players_once() {
    let mut s = started_session(100, 100);
    assert_eq!(s.status, BattleStatus::InProgress);
    assert_eq!(s.current_round, 1);
    assert_eq!(s.max_rounds, 10);
    assert_eq!(s.player1.as_ref().unwrap().owner, 1);
    assert_eq!(s.player2.as_ref().unwrap().owner, 2);
    assert_eq!(s.player1.as_ref().unwrap().current_hp, 1000);

    // A second initialization is a no-op.
    s.initialize_battle(
        participant(8, 5),
        participant(9, 5),
        99,
        99,
        500,
        77,
        [1u8; 32],
    );
    assert_eq!(s.player1.as_ref().unwrap().owner, 1);
    assert_eq!(s.platform_fee_bps, 300);
}

#[test]
fn both_submissions_trigger_exactly_one_execution() {
    // Two simultaneous submissions for round 2, slot 1 trigger exactly one
    // executor run and clear both submissions; a third for the same slot
    // is rejected.
    let mut s = started_session(0, 0);

    // Advance to round 2 by both readiness signals.
    s.execute_round(1);
    assert_eq!(s.current_round, 1);
    s.execute_round(2);
    assert_eq!(s.current_round, 2);

    // First submission alone does not execute.
    s.submit_turn(1, 2, 1, "Balanced".to_string(), false);
    assert_eq!(s.rng.counter, 0);
    assert!(s.player1.as_ref().unwrap().turns_submitted[1].is_some());

    // The counterpart's submission executes the slot exactly once: three
    // draws per direction, both submissions cleared, slot consumed.
    s.submit_turn(2, 2, 1, "Balanced".to_string(), false);
    assert_eq!(s.rng.counter, 6);
    assert!(s.player1.as_ref().unwrap().turns_submitted[1].is_none());
    assert!(s.player2.as_ref().unwrap().turns_submitted[1].is_none());
    assert!(s.slot_consumed[1]);
    let hp1 = s.player1.as_ref().unwrap().current_hp;
    let hp2 = s.player2.as_ref().unwrap().current_hp;
    assert!(hp1 < 1000 && hp2 < 1000);

    // A third submission for the consumed slot changes nothing.
    s.submit_turn(1, 2, 1, "Aggressive".to_string(), true);
    assert_eq!(s.rng.counter, 6);
    assert!(s.player1.as_ref().unwrap().turns_submitted[1].is_none());
    assert_eq!(s.player1.as_ref().unwrap().current_hp, hp1);
    assert_eq!(s.player2.as_ref().unwrap().current_hp, hp2);
}

#[test]
fn double_submission_is_rejected() {
    let mut s = started_session(0, 0);
    s.submit_turn(1, 1, 0, "Balanced".to_string(), false);
    let stored = s.player1.as_ref().unwrap().turns_submitted[0].unwrap();
    assert_eq!(stored.stance, Stance::Balanced);

    // Same (account, slot) pair again: state unchanged, first stance kept.
    s.submit_turn(1, 1, 0, "Aggressive".to_string(), true);
    let kept = s.player1.as_ref().unwrap().turns_submitted[0].unwrap();
    assert_eq!(kept.stance, Stance::Balanced);
    assert!(!kept.use_special);
    assert_eq!(s.rng.counter, 0);
}

#[test]
fn rejected_inputs_change_nothing() {
    let mut s = started_session(0, 0);

    // Wrong round number.
    s.submit_turn(1, 5, 0, "Balanced".to_string(), false);
    assert!(s.player1.as_ref().unwrap().turns_submitted[0].is_none());

    // Slot index out of range.
    s.submit_turn(1, 1, 3, "Balanced".to_string(), false);
    assert!(s.player1.as_ref().unwrap().turns_submitted.iter().all(|t| t.is_none()));

    // Unknown stance name (the protocol takes exact names).
    s.submit_turn(1, 1, 0, "balanced".to_string(), false);
    s.submit_turn(1, 1, 0, "Sneaky".to_string(), false);
    assert!(s.player1.as_ref().unwrap().turns_submitted[0].is_none());

    // A caller who is not a participant.
    s.submit_turn(42, 1, 0, "Balanced".to_string(), false);
    assert!(s.player1.as_ref().unwrap().turns_submitted[0].is_none());
    assert!(s.player2.as_ref().unwrap().turns_submitted[0].is_none());

    // A readiness signal from a stranger.
    s.execute_round(42);
    assert!(!s.ready1 && !s.ready2);

    // A duplicate readiness signal from the same participant.
    s.execute_round(1);
    s.execute_round(1);
    assert_eq!(s.current_round, 1);
    assert!(s.ready1 && !s.ready2);
}

#[test]
fn max_rounds_decides_by_hit_points() {
    // max_rounds reached with player 1 at 40 HP and player 2 at 55 HP and
    // neither at zero: the session completes with player 2 as winner,
    // without any damage event in the final round.
    let mut s = started_session(100, 100);
    s.player1.as_mut().unwrap().current_hp = 40;
    s.player2.as_mut().unwrap().current_hp = 55;

    for _ in 1..10 {
        s.execute_round(1);
        s.execute_round(2);
    }
    assert_eq!(s.current_round, 10);
    assert_eq!(s.status, BattleStatus::InProgress);

    let counter_before = s.rng.counter;
    s.execute_round(1);
    s.execute_round(2);
    assert_eq!(s.status, BattleStatus::Completed);
    assert_eq!(s.winner, Some(2));
    // No damage event happened in round 10.
    assert_eq!(s.rng.counter, counter_before);
    assert_eq!(s.player1.as_ref().unwrap().current_hp, 40);
    assert_eq!(s.player2.as_ref().unwrap().current_hp, 55);
    let settlement = s.settlement.unwrap();
    assert_eq!(settlement.winner, 2);
    assert_eq!(settlement.rounds_played, 10);

    // Settlement runs exactly once: further signals change nothing.
    s.execute_round(1);
    s.execute_round(2);
    assert_eq!(s.outbox.len(), 3);
}

#[test]
fn settlement_conserves_the_stakes() {
    let mut s = started_session(1000, 500);
    // Put player 2 on the brink so the first executed slot ends the battle.
    s.player2.as_mut().unwrap().current_hp = 1;
    s.submit_turn(1, 1, 0, "Balanced".to_string(), false);
    s.submit_turn(2, 1, 0, "Balanced".to_string(), false);

    assert_eq!(s.status, BattleStatus::Completed);
    assert_eq!(s.winner, Some(1));
    let st = s.settlement.unwrap();
    assert_eq!(st.total_stake, 1500);
    assert_eq!(st.platform_fee, 45); // 1500 * 300 / 10000
    assert_eq!(st.winner_payout, 1455);
    assert_eq!(st.winner_payout + st.platform_fee, st.total_stake);
    assert_eq!(st.winner_xp, 150);
    assert_eq!(st.loser_xp, 50);

    // The three outbound messages carry the same split.
    assert_eq!(s.outbox.len(), 3);
    match s.outbox[0] {
        Message::BattleResult { winner, loser, winner_payout, xp_gained, .. } => {
            assert_eq!((winner, loser, winner_payout, xp_gained), (1, 2, 1455, 150));
        }
        _ => panic!("expected a winner result message"),
    }
    match s.outbox[1] {
        Message::BattleResult { winner_payout, xp_gained, .. } => {
            assert_eq!((winner_payout, xp_gained), (0, 50));
        }
        _ => panic!("expected a loser result message"),
    }
    match s.outbox[2] {
        Message::BattleCompleted { winner, rounds_played, total_stake, .. } => {
            assert_eq!((winner, rounds_played, total_stake), (1, 1, 1500));
        }
        _ => panic!("expected a completion message"),
    }

    // The recorded rounds carry the real actions: stats see the damage.
    assert!(st.winner_stats.damage_dealt >= 1);
    assert_eq!(st.loser_stats.damage_taken, st.winner_stats.damage_dealt);
}

#[test]
fn replay_is_deterministic() {
    let seed = [9u8; 32];
    let run = || {
        let mut s = BattleState::new();
        s.initialize_battle(
            BattleParticipant::new(1, 1, snapshot(50, 3, 9), 10),
            BattleParticipant::new(2, 2, snapshot(50, 3, 9), 10),
            4,
            4,
            250,
            7,
            seed,
        );
        for turn in 0..3u8 {
            s.submit_turn(1, 1, turn, "Aggressive".to_string(), turn == 0);
            s.submit_turn(2, 1, turn, "Counter".to_string(), false);
        }
        s.execute_round(1);
        s.execute_round(2);
        s
    };
    let a = run();
    let b = run();
    assert_eq!(a.status, b.status);
    assert_eq!(a.current_round, b.current_round);
    assert_eq!(a.rng.counter, b.rng.counter);
    assert_eq!(
        a.player1.as_ref().unwrap().current_hp,
        b.player1.as_ref().unwrap().current_hp
    );
    assert_eq!(
        a.player2.as_ref().unwrap().current_hp,
        b.player2.as_ref().unwrap().current_hp
    );
    assert_eq!(a.outbox, b.outbox);
    assert_eq!(a.settlement, b.settlement);
}

#[test]
fn submissions_after_completion_are_ignored() {
    let mut s = started_session(0, 0);
    s.player2.as_mut().unwrap().current_hp = 1;
    s.submit_turn(1, 1, 0, "Balanced".to_string(), false);
    s.submit_turn(2, 1, 0, "Balanced".to_string(), false);
    assert_eq!(s.status, BattleStatus::Completed);

    let counter = s.rng.counter;
    s.submit_turn(1, 1, 1, "Balanced".to_string(), false);
    s.submit_turn(2, 1, 1, "Balanced".to_string(), false);
    assert_eq!(s.rng.counter, counter);
    assert!(s.player1.as_ref().unwrap().turns_submitted[1].is_none());
}

#[test]
fn base_damage_ten_scenario_with_searched_seed() {
    // A seed whose first draw in [8, 15] is 10 and whose crit draw misses
    // the 1500 bps threshold: balanced versus balanced then deals exactly
    // 10 damage, and the defender's HP drops by exactly 10.
    let mut found = None;
    'search: for hi in 0..=255u8 {
        for lo in 0..=255u8 {
            let mut seed = [0u8; 32];
            seed[0] = hi;
            seed[1] = lo;
            let base = majorules::rng::random_in_range(&seed, 0, 8, 15);
            let crit = majorules::rng::random_in_range(&seed, 1, 0, 9999);
            if base == 10 && crit >= 1500 {
                found = Some(seed);
                break 'search;
            }
        }
    }
    let seed = found.expect("some two-byte seed gives base 10 and no crit");

    let mut a_char = snapshot(200, 8, 15);
    a_char.crit_chance = 1500;
    let b_char = snapshot(200, 0, 0);
    let mut s = BattleState::new();
    s.initialize_battle(
        BattleParticipant::new(1, 1, a_char, 0),
        BattleParticipant::new(2, 2, b_char, 0),
        4,
        4,
        300,
        7,
        seed,
    );
    s.submit_turn(1, 1, 0, "Balanced".to_string(), false);
    s.submit_turn(2, 1, 0, "Balanced".to_string(), false);
    assert_eq!(s.player2.as_ref().unwrap().current_hp, 190);
}

#[test]
fn stats_aggregation_attributes_sides() {
    let hit = CombatAction {
        attacker: 1,
        defender: 2,
        damage: 30,
        was_crit: true,
        was_dodged: false,
        was_countered: false,
        special_used: false,
        defender_hp_remaining: 70,
    };
    let dodged = CombatAction {
        attacker: 2,
        defender: 1,
        damage: 0,
        was_crit: false,
        was_dodged: true,
        was_countered: false,
        special_used: false,
        defender_hp_remaining: 100,
    };
    let small = CombatAction {
        attacker: 2,
        defender: 1,
        damage: 7,
        was_crit: false,
        was_dodged: false,
        was_countered: false,
        special_used: false,
        defender_hp_remaining: 93,
    };
    let rounds = vec![RoundResult {
        round: 1,
        player1_actions: vec![hit],
        player2_actions: vec![dodged, small],
        player1_hp: 93,
        player2_hp: 70,
    }];
    let (winner_stats, loser_stats) = calculate_combat_stats(&rounds, 1);
    assert_eq!(
        winner_stats,
        CombatStats { damage_dealt: 30, damage_taken: 7, crits: 1, dodges: 1, highest_crit: 30 }
    );
    assert_eq!(
        loser_stats,
        CombatStats { damage_dealt: 7, damage_taken: 30, crits: 0, dodges: 0, highest_crit: 0 }
    );
}

#[test]
fn exact_hp_tie_at_max_rounds_goes_to_player_two() {
    // The round limit with exactly equal hit points: the engine's stated
    // policy gives the battle to player 2, deterministically.
    let mut s = started_session(10, 10);
    s.player1.as_mut().unwrap().current_hp = 77;
    s.player2.as_mut().unwrap().current_hp = 77;
    for _ in 0..10 {
        s.execute_round(1);
        s.execute_round(2);
    }
    assert_eq!(s.status, BattleStatus::Completed);
    assert_eq!(s.winner, Some(2));
}

#[test]
fn crit_streak_never_lifts_combo_over_five() {
    // Every hit crits; after eight executed exchanges per side the combo
    // stack still respects its cap.
    let mut snap = snapshot(100000, 1, 1);
    snap.crit_chance = 10000;
    snap.crit_multiplier = 10000; // x1, so nobody dies
    let mut s = BattleState::new();
    s.initialize_battle(
        BattleParticipant::new(1, 1, snap.clone(), 0),
        BattleParticipant::new(2, 2, snap, 0),
        4,
        4,
        300,
        7,
        [3u8; 32],
    );
    for round in 1..=3u8 {
        for turn in 0..3u8 {
            s.submit_turn(1, round, turn, "Balanced".to_string(), false);
            s.submit_turn(2, round, turn, "Balanced".to_string(), false);
        }
        s.execute_round(1);
        s.execute_round(2);
    }
    assert_eq!(s.status, BattleStatus::InProgress);
    assert_eq!(s.player1.as_ref().unwrap().combo_stack, 5);
    assert_eq!(s.player2.as_ref().unwrap().combo_stack, 5);
}

#[test]
fn fee_rate_above_full_stake_pays_nothing_out() {
    // A fee rate above 10000 basis points eats the whole stake: the
    // payout saturates at zero and never exceeds the total.
    let mut s = BattleState::new();
    s.initialize_battle(
        BattleParticipant::new(1, 1, snapshot(1000, 1, 2), 400),
        BattleParticipant::new(2, 2, snapshot(1000, 1, 2), 600),
        4,
        4,
        20000,
        7,
        [0u8; 32],
    );
    s.player2.as_mut().unwrap().current_hp = 1;
    s.submit_turn(1, 1, 0, "Balanced".to_string(), false);
    s.submit_turn(2, 1, 0, "Balanced".to_string(), false);
    let st = s.settlement.unwrap();
    assert_eq!(st.total_stake, 1000);
    assert_eq!(st.platform_fee, 2000);
    assert_eq!(st.winner_payout, 0);
    assert!(st.winner_payout <= st.total_stake);
}

#[test]
fn combo_stack_caps_at_five() {
    let mut p = participant(1, 0);
    for _ in 0..12 {
        p.add_combo();
    }
    assert_eq!(p.combo_stack, 5);
    p.reset_combo();
    assert_eq!(p.combo_stack, 0);
}

#[test]
fn hp_saturates_at_zero() {
    let mut p = participant(1, 0);
    assert_eq!(p.current_hp, 1000);
    let defeated = p.take_damage(5000);
    assert!(defeated);
    assert_eq!(p.current_hp, 0);
    let still = p.take_damage(1);
    assert!(still);
    assert_eq!(p.current_hp, 0);
}

#[test]
fn participant_turn_slots() {
    let mut p = participant(1, 0);
    assert!(!p.all_turns_submitted());
    for turn in 0..3u8 {
        p.turns_submitted[turn as usize] = Some(majorules::types::TurnSubmission {
            round: 1,
            turn,
            stance: Stance::Balanced,
            use_special: false,
        });
    }
    assert!(p.all_turns_submitted());
    p.reset_turns();
    assert!(!p.all_turns_submitted());
    assert!(p.turns_submitted.iter().all(|t| t.is_none()));
}

#[test]
fn cooldown_cycle() {
    let mut p = participant(1, 0);
    assert!(p.use_special());
    assert_eq!(p.special_cooldown, 3); // Warrior
    assert!(!p.use_special());
    p.tick_cooldown();
    p.tick_cooldown();
    p.tick_cooldown();
    assert_eq!(p.special_cooldown, 0);
    p.tick_cooldown();
    assert_eq!(p.special_cooldown, 0);
    assert!(p.use_special());
}
