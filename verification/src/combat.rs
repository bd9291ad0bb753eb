//! The combat action executor: one directional exchange.
//!
//! For one attacker-versus-defender exchange it activates the special
//! ability if requested and off cooldown, resolves the hit through the
//! damage pipeline, applies berserker self-damage, defender damage, combo
//! updates, a possible counter-attack, and ticks both cooldowns. Every
//! pseudo-random draw comes from the session source, so the whole exchange
//! is a function of the two participants, the submission and the source.

use vstd::prelude::*;
use crate::fixed::MAX_COMBO_STACK;
use crate::types::{
    BattleParticipant, CombatAction, ParticipantView, Stance, TurnSubmission, sat_sub_u32,
    spec_special_cooldown,
};
use crate::damage::{calculate_damage_with_rolls, spec_damage_pipeline, MAX_SINGLE_DAMAGE};
use crate::rng::{SessionRng, spec_rng_draw, spec_rng_next};

verus! {

/// Basis-point threshold under which a counter-attack fires.
pub const COUNTER_CHANCE_BPS: u64 = 4000;

/// One directional exchange as a mathematical function: the attacker and
/// defender after it, the pseudo-random source after it, and the action
/// record. The draws consumed, in order: base damage, critical check,
/// dodge check, and — only when a counter-attack is possible — the
/// counter check.
pub open spec fn spec_execute_attack(
    att: ParticipantView,
    def: ParticipantView,
    sub: TurnSubmission,
    def_stance: Stance,
    rng0: SessionRng,
) -> (ParticipantView, ParticipantView, SessionRng, CombatAction) {
    let special_used = sub.use_special && att.special_cooldown == 0;
    let cd0 = if special_used {
        spec_special_cooldown(att.character.class)
    } else {
        att.special_cooldown
    };
    let base = spec_rng_draw(rng0, att.character.min_damage as u64, att.character.max_damage as u64);
    let rng1 = spec_rng_next(rng0);
    let crit_roll = spec_rng_draw(rng1, 0, 9999);
    let rng2 = spec_rng_next(rng1);
    let dodge_roll = spec_rng_draw(rng2, 0, 9999);
    let rng3 = spec_rng_next(rng2);
    let result = spec_damage_pipeline(
        att.character,
        att.combo_stack,
        def.character,
        sub.stance,
        def_stance,
        special_used,
        base,
        crit_roll,
        dodge_roll,
    );
    let damage = result.0;
    let was_crit = result.1;
    let was_dodged = result.2;
    let att_hp1 = if sub.stance == Stance::Berserker && !was_dodged {
        sat_sub_u32(att.current_hp, (damage / 4) as u32)
    } else {
        att.current_hp
    };
    let def_hp1 = if !was_dodged {
        sat_sub_u32(def.current_hp, damage)
    } else {
        def.current_hp
    };
    let combo1 = if was_crit && att.combo_stack < MAX_COMBO_STACK {
        (att.combo_stack + 1) as u8
    } else if was_dodged {
        0u8
    } else {
        att.combo_stack
    };
    let counter_possible = def_stance == Stance::Counter && !was_dodged && def_hp1 > 0;
    let rng4 = if counter_possible {
        spec_rng_next(rng3)
    } else {
        rng3
    };
    let was_countered = counter_possible && spec_rng_draw(rng3, 0, 9999) < COUNTER_CHANCE_BPS;
    let att_hp2 = if was_countered {
        sat_sub_u32(att_hp1, (damage as int * 4 / 10) as u32)
    } else {
        att_hp1
    };
    let cd1 = if cd0 > 0 {
        (cd0 - 1) as u8
    } else {
        0u8
    };
    let dcd1 = if def.special_cooldown > 0 {
        (def.special_cooldown - 1) as u8
    } else {
        0u8
    };
    (
        ParticipantView { current_hp: att_hp2, combo_stack: combo1, special_cooldown: cd1, ..att },
        ParticipantView { current_hp: def_hp1, special_cooldown: dcd1, ..def },
        rng4,
        CombatAction {
            attacker: att.owner,
            defender: def.owner,
            damage,
            was_crit,
            was_dodged,
            was_countered,
            special_used,
            defender_hp_remaining: def_hp1,
        },
    )
}

/// Executes one directional exchange, mutating both participants and the
/// pseudo-random source exactly as `spec_execute_attack` describes.
pub fn execute_attack(
    attacker: &mut BattleParticipant,
    defender: &mut BattleParticipant,
    attacker_turn: &TurnSubmission,
    defender_stance: Stance,
    rng: &mut SessionRng,
) -> (action: CombatAction)
    requires
        old(attacker).wf(),
        old(defender).wf(),
    ensures
        final(attacker).wf(),
        final(defender).wf(),
        (final(attacker)@, final(defender)@, *final(rng), action) == spec_execute_attack(
            old(attacker)@,
            old(defender)@,
            *attacker_turn,
            defender_stance,
            *old(rng),
        ),
        final(attacker).owner == old(attacker).owner,
        final(defender).owner == old(defender).owner,
{
    // Special-ability activation.
    let special_used = attacker_turn.use_special && attacker.special_cooldown == 0;
    if special_used {
        attacker.special_cooldown = attacker.character.class.special_cooldown();
    }

    // The three pipeline draws, each consuming the counter once.
    let base_damage = rng.draw(
        attacker.character.min_damage as u64,
        attacker.character.max_damage as u64,
    );
    let crit_roll = rng.draw(0, 9999);
    let dodge_roll = rng.draw(0, 9999);
    let (damage, was_crit, was_dodged) = calculate_damage_with_rolls(
        &attacker.character,
        attacker.combo_stack,
        &defender.character,
        attacker_turn.stance,
        defender_stance,
        special_used,
        base_damage,
        crit_roll,
        dodge_roll,
    );

    // Berserker stance costs the attacker a quarter of the damage dealt.
    if attacker_turn.stance == Stance::Berserker && !was_dodged {
        attacker.current_hp = attacker.current_hp.saturating_sub(damage / 4);
    }

    // Apply the hit unless it was dodged.
    if !was_dodged {
        defender.current_hp = defender.current_hp.saturating_sub(damage);
    }

    // Combo stack: grows on a critical hit, capped; resets on a dodge.
    if was_crit && attacker.combo_stack < MAX_COMBO_STACK {
        attacker.combo_stack = attacker.combo_stack + 1;
    } else if was_dodged {
        attacker.combo_stack = 0;
    }

    // Counter stance: a surviving defender may strike back for 4/10 of the
    // damage dealt, on a separate deterministic draw.
    let mut was_countered = false;
    if defender_stance == Stance::Counter && !was_dodged && defender.current_hp > 0 {
        let counter_roll = rng.draw(0, 9999);
        if counter_roll < COUNTER_CHANCE_BPS {
            was_countered = true;
            assert(damage <= MAX_SINGLE_DAMAGE);
            attacker.current_hp = attacker.current_hp.saturating_sub(damage * 4 / 10);
        }
    }

    // Both cooldowns tick down at the end of the exchange.
    if attacker.special_cooldown > 0 {
        attacker.special_cooldown = attacker.special_cooldown - 1;
    }
    if defender.special_cooldown > 0 {
        defender.special_cooldown = defender.special_cooldown - 1;
    }

    CombatAction {
        attacker: attacker.owner,
        defender: defender.owner,
        damage,
        was_crit,
        was_dodged,
        was_countered,
        special_used,
        defender_hp_remaining: defender.current_hp,
    }
}

} // verus!
