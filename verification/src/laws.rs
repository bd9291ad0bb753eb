//! The laws the session engine guarantees, stated and proved over the
//! session's mathematical model.

use vstd::prelude::*;
use vstd::arithmetic::div_mod::{lemma_fundamental_div_mod, lemma_fundamental_div_mod_converse};
use vstd::arithmetic::mul::lemma_mul_inequality;
use crate::fixed::MAX_COMBO_STACK;
use crate::types::{CharacterSnapshotView, ParticipantView, Stance, TurnSubmission, sat_sub_u32};
use crate::damage::spec_damage_pipeline;
use crate::combat::spec_execute_attack;
use crate::rng::SessionRng;
use crate::session::{
    spec_execute_round, spec_fee, spec_finalize, spec_submit_turn, BattleStateView,
};

verus! {

/// An inbound operation on a running session, as the replay law sees it.
pub enum SessionOp {
    SubmitTurn { caller: u64, round: u8, turn: u8, stance: Seq<char>, use_special: bool },
    ExecuteRound { caller: u64 },
}

/// The transition one inbound operation makes.
pub open spec fn spec_apply_op(s: BattleStateView, op: SessionOp) -> BattleStateView {
    match op {
        SessionOp::SubmitTurn { caller, round, turn, stance, use_special } => spec_submit_turn(
            s,
            caller,
            round,
            turn,
            stance,
            use_special,
        ),
        SessionOp::ExecuteRound { caller } => spec_execute_round(s, caller),
    }
}

/// The state a sequence of inbound operations leaves a session in.
pub open spec fn spec_replay(s: BattleStateView, ops: Seq<SessionOp>) -> BattleStateView
    decreases ops.len(),
{
    if ops.len() == 0 {
        s
    } else {
        spec_replay(spec_apply_op(s, ops.first()), ops.drop_first())
    }
}

/// Determinism: replaying the same operations against the same session
/// state — the same participants, seed and draw counter — yields the
/// identical final state, including the identical outbound messages.
/// Every public transition of the engine is pinned to `spec_apply_op` by
/// its contract, so two replicas that apply the same inputs agree.
pub proof fn lemma_replay_deterministic(
    s1: BattleStateView,
    s2: BattleStateView,
    ops: Seq<SessionOp>,
)
    requires
        s1 == s2,
    ensures
        spec_replay(s1, ops) == spec_replay(s2, ops),
        spec_replay(s1, ops).outbox == spec_replay(s2, ops).outbox,
{
}

/// Terminal states are final: no inbound operation changes a completed or
/// cancelled session, so settlement can never run a second time and a
/// recorded winner never changes.
pub proof fn lemma_terminal_states_are_final(s: BattleStateView, op: SessionOp)
    requires
        s.wf(),
        s.status == crate::types::BattleStatus::Completed || s.status
            == crate::types::BattleStatus::Cancelled,
    ensures
        spec_apply_op(s, op) == s,
{
}

/// At-most-once execution, first half: a submission for an
/// already-consumed turn slot leaves the session unchanged, whoever sends
/// it, so no slot can ever execute twice.
pub proof fn lemma_consumed_slot_rejects(
    s: BattleStateView,
    caller: u64,
    round: u8,
    turn: u8,
    stance: Seq<char>,
    use_special: bool,
)
    requires
        s.wf(),
        turn < 3,
        s.slot_consumed[turn as int],
    ensures
        spec_submit_turn(s, caller, round, turn, stance, use_special) == s,
{
}

/// At-most-once execution, second half: never zero times. When the
/// counterpart's submission is already present and every acceptance
/// condition holds, the accepted submission triggers execution
/// immediately, and the slot comes out consumed — after which the first
/// half applies.
pub proof fn lemma_second_submission_executes(
    s: BattleStateView,
    caller: u64,
    round: u8,
    turn: u8,
    stance: Seq<char>,
    use_special: bool,
)
    requires
        s.wf(),
        s.status == crate::types::BattleStatus::InProgress,
        round == s.current_round,
        turn < 3,
        crate::session::spec_parse_stance_exact(stance) is Some,
        !s.slot_consumed[turn as int],
        caller == s.player1.unwrap().owner || caller == s.player2.unwrap().owner,
        caller == s.player1.unwrap().owner ==> {
            &&& s.player1.unwrap().turns_submitted[turn as int] is None
            &&& s.player2.unwrap().turns_submitted[turn as int] is Some
        },
        caller == s.player2.unwrap().owner ==> {
            &&& s.player2.unwrap().turns_submitted[turn as int] is None
            &&& s.player1.unwrap().turns_submitted[turn as int] is Some
        },
    ensures
        spec_submit_turn(s, caller, round, turn, stance, use_special).slot_consumed[turn as int],
{
}

/// No double submission: a second submission for an (account, slot) pair
/// that is already filled leaves the session unchanged.
pub proof fn lemma_no_double_submission(
    s: BattleStateView,
    caller: u64,
    round: u8,
    turn: u8,
    stance: Seq<char>,
    use_special: bool,
)
    requires
        s.wf(),
        turn < 3,
        s.status == crate::types::BattleStatus::InProgress ==> {
            let p1 = s.player1.unwrap();
            let p2 = s.player2.unwrap();
            &&& (caller == p1.owner ==> p1.turns_submitted[turn as int] is Some)
            &&& (caller == p2.owner ==> p2.turns_submitted[turn as int] is Some)
        },
    ensures
        spec_submit_turn(s, caller, round, turn, stance, use_special) == s,
{
}

/// HP floor: damage application saturates at zero hit points, and a
/// dodged hit deals exactly zero damage and leaves the defender's hit
/// points untouched.
pub proof fn lemma_hp_floor(
    att: ParticipantView,
    def: ParticipantView,
    sub: TurnSubmission,
    def_stance: Stance,
    rng: SessionRng,
)
    requires
        att.wf(),
        def.wf(),
    ensures
        ({
            let r = spec_execute_attack(att, def, sub, def_stance, rng);
            &&& r.1.current_hp == sat_sub_u32(
                def.current_hp,
                if r.3.was_dodged {
                    0u32
                } else {
                    r.3.damage
                },
            )
            &&& r.3.was_dodged ==> r.3.damage == 0
        }),
{
}

/// Damage floor: a hit that is not dodged deals at least 1 damage,
/// however extreme the defense, the defender's stance and the defensive
/// trait are.
pub proof fn lemma_damage_floor(
    att: CharacterSnapshotView,
    combo: u8,
    def: CharacterSnapshotView,
    ast: Stance,
    dst: Stance,
    special: bool,
    base: u64,
    crit_roll: u64,
    dodge_roll: u64,
)
    ensures
        ({
            let r = spec_damage_pipeline(att, combo, def, ast, dst, special, base, crit_roll, dodge_roll);
            &&& !r.2 ==> r.0 >= 1
            &&& r.2 ==> r.0 == 0
        }),
{
}

/// Combo cap: however long a streak of critical hits runs, an exchange
/// never leaves the attacker's combo stack above the cap, and never
/// touches the defender's.
pub proof fn lemma_combo_cap(
    att: ParticipantView,
    def: ParticipantView,
    sub: TurnSubmission,
    def_stance: Stance,
    rng: SessionRng,
)
    requires
        att.wf(),
        def.wf(),
    ensures
        spec_execute_attack(att, def, sub, def_stance, rng).0.combo_stack <= MAX_COMBO_STACK,
        spec_execute_attack(att, def, sub, def_stance, rng).1.combo_stack == def.combo_stack,
{
}

/// With a fee rate of at most 10000 basis points the fee formula is exact
/// and never exceeds the total: `spec_fee` equals `total * bps / 10000`.
pub proof fn lemma_fee_exact(total: u128, bps: u16)
    requires
        bps <= 10000,
    ensures
        spec_fee(total, bps) == total * bps / 10000,
        spec_fee(total, bps) <= total,
{
    let q = total as int / 10000;
    let r = total as int % 10000;
    lemma_fundamental_div_mod(total as int, 10000);
    assert(total == 10000 * q + r);

    // No saturation: q * bps stays under the total.
    lemma_mul_inequality(bps as int, 10000, q);
    assert(q * bps == bps * q) by (nonlinear_arith);
    assert(10000 * q == q * 10000) by (nonlinear_arith);
    assert(q * bps <= q * 10000) by (nonlinear_arith)
        requires
            bps <= 10000,
            q >= 0,
    ;
    assert(r * bps / 10000 <= r) by (nonlinear_arith)
        requires
            0 <= r < 10000,
            0 <= bps <= 10000,
    ;
    assert(spec_fee(total, bps) == q * bps + r * bps / 10000);
    assert(q * bps + r * bps / 10000 <= q * 10000 + r);

    // Exactness: total * bps == (q * bps) * 10000 + r * bps, and carrying
    // the remainder term through the division gives the fee.
    let a = q * bps;
    let b = r * bps;
    assert(total * bps == a * 10000 + b) by (nonlinear_arith)
        requires
            total == 10000 * q + r,
            a == q * bps,
            b == r * bps,
    ;
    lemma_fundamental_div_mod(b, 10000);
    assert(b == 10000 * (b / 10000) + b % 10000);
    assert(total * bps == (a + b / 10000) * 10000 + b % 10000) by (nonlinear_arith)
        requires
            total * bps == a * 10000 + b,
            b == 10000 * (b / 10000) + b % 10000,
    ;
    assert(0 <= b % 10000 < 10000);
    lemma_fundamental_div_mod_converse(total * bps, 10000, a + b / 10000, b % 10000);
}

/// Conservation: for every settled session with a fee rate of at most
/// 10000 basis points, winner payout plus platform fee equals the total
/// stake, exactly.
pub proof fn lemma_settlement_conserves_stake(s: BattleStateView, winner: u64, loser: u64)
    requires
        s.wf(),
        s.status == crate::types::BattleStatus::InProgress,
        s.platform_fee_bps <= 10000,
    ensures
        ({
            let st = spec_finalize(s, winner, loser).settlement.unwrap();
            &&& spec_finalize(s, winner, loser).settlement is Some
            &&& st.winner_payout + st.platform_fee == st.total_stake
        }),
{
    let total = crate::session::sat_add_u128(s.player1.unwrap().stake, s.player2.unwrap().stake);
    lemma_fee_exact(total, s.platform_fee_bps);
}

} // verus!
