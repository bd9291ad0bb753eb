//! The battle session: turn synchronization, lifecycle and settlement.
//!
//! A session accepts one turn submission per participant per turn slot and
//! resolves a slot exactly once, when both submissions are present. Round
//! closing is driven by a readiness signal from each participant. When a
//! participant's hit points reach zero, or the configured round limit is
//! reached, the session completes: stakes are split net of the platform
//! fee, statistics are aggregated, and the outbound result messages are
//! queued. Every transition is a pure function of the session state and
//! the operation's arguments, stated by the `spec_` functions below.

use vstd::prelude::*;
use crate::types::{
    BattleParticipant, BattleStatus, CombatAction, CombatStats, ParticipantView, RoundResult,
    RoundResultView, Stance, TurnSubmission,
};
use crate::combat::{execute_attack, spec_execute_attack};
use crate::rng::SessionRng;
use crate::stats::{calculate_combat_stats, spec_combat_stats, spec_rounds_view};

verus! {

/// Experience points awarded to the winner of a settled session.
pub const WINNER_XP: u64 = 150;

/// Experience points awarded to the loser of a settled session.
pub const LOSER_XP: u64 = 50;

/// Default number of rounds before a session is decided on hit points.
pub const DEFAULT_MAX_ROUNDS: u8 = 10;

/// The settlement computed exactly once when a session completes.
#[derive(Debug, Clone, Copy, PartialEq, Eq, Structural)]
pub struct Settlement {
    pub winner: u64,
    pub loser: u64,
    pub total_stake: u128,
    pub platform_fee: u128,
    pub winner_payout: u128,
    pub winner_xp: u64,
    pub loser_xp: u64,
    pub winner_stats: CombatStats,
    pub loser_stats: CombatStats,
    pub rounds_played: u8,
}

/// An outbound notification queued for the coordinating session.
#[derive(Debug, Clone, Copy, PartialEq, Eq, Structural)]
pub enum Message {
    /// One party's result: the payout it receives, the experience it
    /// gains, and its aggregated statistics.
    BattleResult {
        winner: u64,
        loser: u64,
        winner_payout: u128,
        xp_gained: u64,
        battle_stats: CombatStats,
    },
    /// The session summary: rounds played, the total stake, and both
    /// sides' statistics.
    BattleCompleted {
        winner: u64,
        loser: u64,
        rounds_played: u8,
        total_stake: u128,
        winner_stats: CombatStats,
        loser_stats: CombatStats,
    },
}

/// One two-party combat session.
pub struct BattleState {
    pub player1: Option<BattleParticipant>,
    pub player2: Option<BattleParticipant>,
    pub status: BattleStatus,
    pub current_round: u8,
    pub max_rounds: u8,
    /// Per turn slot of the current round: whether that slot has already
    /// been executed.
    pub slot_consumed: Vec<bool>,
    /// Round-readiness signals of the two participants.
    pub ready1: bool,
    pub ready2: bool,
    pub winner: Option<u64>,
    pub round_results: Vec<RoundResult>,
    /// Actions of the still-open round, by the side that dealt them.
    pub pending1: Vec<CombatAction>,
    pub pending2: Vec<CombatAction>,
    pub rng: SessionRng,
    pub lobby_chain_id: Option<u64>,
    pub platform_fee_bps: u16,
    pub treasury_owner: Option<u64>,
    pub settlement: Option<Settlement>,
    pub outbox: Vec<Message>,
}

/// Mathematical model of a session.
pub struct BattleStateView {
    pub player1: Option<ParticipantView>,
    pub player2: Option<ParticipantView>,
    pub status: BattleStatus,
    pub current_round: u8,
    pub max_rounds: u8,
    pub slot_consumed: Seq<bool>,
    pub ready1: bool,
    pub ready2: bool,
    pub winner: Option<u64>,
    pub round_results: Seq<RoundResultView>,
    pub pending1: Seq<CombatAction>,
    pub pending2: Seq<CombatAction>,
    pub rng: SessionRng,
    pub lobby_chain_id: Option<u64>,
    pub platform_fee_bps: u16,
    pub treasury_owner: Option<u64>,
    pub settlement: Option<Settlement>,
    pub outbox: Seq<Message>,
}

impl View for BattleState {
    type V = BattleStateView;

    open spec fn view(&self) -> BattleStateView {
        BattleStateView {
            player1: match self.player1 {
                Some(p) => Some(p@),
                None => None,
            },
            player2: match self.player2 {
                Some(p) => Some(p@),
                None => None,
            },
            status: self.status,
            current_round: self.current_round,
            max_rounds: self.max_rounds,
            slot_consumed: self.slot_consumed@,
            ready1: self.ready1,
            ready2: self.ready2,
            winner: self.winner,
            round_results: spec_rounds_view(self.round_results@),
            pending1: self.pending1@,
            pending2: self.pending2@,
            rng: self.rng,
            lobby_chain_id: self.lobby_chain_id,
            platform_fee_bps: self.platform_fee_bps,
            treasury_owner: self.treasury_owner,
            settlement: self.settlement,
            outbox: self.outbox@,
        }
    }
}

impl BattleStateView {
    /// Session invariant: one consumed-flag per turn slot; whenever a
    /// battle is running or settled, both participants are bound, well
    /// formed and distinct; a completed session has a recorded winner and
    /// settlement; and a settled payout never exceeds the total stake.
    pub open spec fn wf(self) -> bool {
        &&& self.slot_consumed.len() == 3
        &&& (self.status == BattleStatus::InProgress || self.status == BattleStatus::Completed)
            ==> {
            &&& self.player1 is Some
            &&& self.player2 is Some
            &&& self.player1.unwrap().wf()
            &&& self.player2.unwrap().wf()
            &&& self.player1.unwrap().owner != self.player2.unwrap().owner
        }
        &&& self.status == BattleStatus::Completed ==> {
            &&& self.winner is Some
            &&& self.settlement is Some
        }
        &&& self.settlement is Some ==> self.settlement.unwrap().winner_payout
            <= self.settlement.unwrap().total_stake
    }
}

impl BattleState {
    /// Session invariant, as stated on the session's model.
    pub open spec fn wf(self) -> bool {
        self@.wf()
    }
}

/// The stance names the turn protocol accepts, exactly.
pub open spec fn spec_parse_stance_exact(s: Seq<char>) -> Option<Stance> {
    if s == "Balanced"@ {
        Some(Stance::Balanced)
    } else if s == "Aggressive"@ {
        Some(Stance::Aggressive)
    } else if s == "Defensive"@ {
        Some(Stance::Defensive)
    } else if s == "Berserker"@ {
        Some(Stance::Berserker)
    } else if s == "Counter"@ {
        Some(Stance::Counter)
    } else {
        None
    }
}

/// Saturating addition on stake amounts.
pub open spec fn sat_add_u128(a: u128, b: u128) -> u128 {
    if a + b > u128::MAX {
        u128::MAX
    } else {
        (a + b) as u128
    }
}

/// The platform fee on a total stake: `total * bps / 10000`, computed
/// without intermediate overflow, saturating only when the fee rate
/// exceeds 10000 basis points.
pub open spec fn spec_fee(total: u128, bps: u16) -> u128 {
    let q = total / 10000;
    let r = total % 10000;
    let qp = if q * bps > u128::MAX {
        u128::MAX
    } else {
        (q * bps) as u128
    };
    sat_add_u128(qp, (r * bps / 10000) as u128)
}

/// A participant as it enters a freshly initialized battle: full health,
/// no combo, no cooldown, no submissions.
pub open spec fn spec_reset_participant(p: ParticipantView) -> ParticipantView {
    ParticipantView {
        current_hp: p.character.hp_max,
        combo_stack: 0,
        special_cooldown: 0,
        turns_submitted: seq![None, None, None],
        ..p
    }
}

/// Initialization: binds both participants and starts round 1, unless the
/// session already holds a participant, in which case nothing changes.
pub open spec fn spec_initialize_battle(
    s: BattleStateView,
    p1: ParticipantView,
    p2: ParticipantView,
    lobby_chain_id: u64,
    platform_fee_bps: u16,
    treasury_owner: u64,
    seed: [u8; 32],
) -> BattleStateView {
    if s.player1 is Some || s.player2 is Some {
        s
    } else {
        BattleStateView {
            player1: Some(spec_reset_participant(p1)),
            player2: Some(spec_reset_participant(p2)),
            status: BattleStatus::InProgress,
            current_round: 1,
            max_rounds: DEFAULT_MAX_ROUNDS,
            slot_consumed: seq![false, false, false],
            ready1: false,
            ready2: false,
            winner: None,
            round_results: Seq::empty(),
            pending1: Seq::empty(),
            pending2: Seq::empty(),
            rng: SessionRng { seed, counter: 0 },
            lobby_chain_id: Some(lobby_chain_id),
            platform_fee_bps,
            treasury_owner: Some(treasury_owner),
            settlement: None,
            outbox: s.outbox,
        }
    }
}

/// Closing the open round: its actions and the current hit points are
/// appended as an immutable round record, and the pending lists clear.
pub open spec fn spec_record_round(s: BattleStateView) -> BattleStateView
    recommends
        s.player1 is Some,
        s.player2 is Some,
{
    let rr = RoundResultView {
        round: s.current_round,
        player1_actions: s.pending1,
        player2_actions: s.pending2,
        player1_hp: s.player1.unwrap().current_hp,
        player2_hp: s.player2.unwrap().current_hp,
    };
    BattleStateView {
        round_results: s.round_results.push(rr),
        pending1: Seq::empty(),
        pending2: Seq::empty(),
        ..s
    }
}

/// Settlement: the session completes with the given winner; stakes are
/// split net of the platform fee, statistics are aggregated over all
/// recorded rounds, and the result messages are queued for the
/// coordinating session. A session not in progress is left unchanged, so
/// settlement can never run twice.
pub open spec fn spec_finalize(s: BattleStateView, winner: u64, loser: u64) -> BattleStateView
    recommends
        s.player1 is Some,
        s.player2 is Some,
{
    if s.status != BattleStatus::InProgress {
        s
    } else {
        let total_stake = sat_add_u128(s.player1.unwrap().stake, s.player2.unwrap().stake);
        let fee = spec_fee(total_stake, s.platform_fee_bps);
        let payout = if total_stake >= fee {
            (total_stake - fee) as u128
        } else {
            0
        };
        let stats = spec_combat_stats(s.round_results, winner);
        let settlement = Settlement {
            winner,
            loser,
            total_stake,
            platform_fee: fee,
            winner_payout: payout,
            winner_xp: WINNER_XP,
            loser_xp: LOSER_XP,
            winner_stats: stats.0,
            loser_stats: stats.1,
            rounds_played: s.current_round,
        };
        let outbox = if s.lobby_chain_id is Some {
            s.outbox.push(
                Message::BattleResult {
                    winner,
                    loser,
                    winner_payout: payout,
                    xp_gained: WINNER_XP,
                    battle_stats: stats.0,
                },
            ).push(
                Message::BattleResult {
                    winner,
                    loser,
                    winner_payout: 0,
                    xp_gained: LOSER_XP,
                    battle_stats: stats.1,
                },
            ).push(
                Message::BattleCompleted {
                    winner,
                    loser,
                    rounds_played: s.current_round,
                    total_stake,
                    winner_stats: stats.0,
                    loser_stats: stats.1,
                },
            )
        } else {
            s.outbox
        };
        BattleStateView {
            status: BattleStatus::Completed,
            winner: Some(winner),
            settlement: Some(settlement),
            outbox,
            ..s
        }
    }
}

/// Execution of one ready turn slot: each living participant attacks once
/// (player 1 first), the slot is marked consumed and both submissions for
/// it clear, and if anyone fell the round closes and the session settles.
pub open spec fn spec_execute_single_turn(s: BattleStateView, turn: u8) -> BattleStateView
    recommends
        s.wf(),
{
    if s.status != BattleStatus::InProgress || turn >= 3 {
        s
    } else {
        let p1 = s.player1.unwrap();
        let p2 = s.player2.unwrap();
        if !(p1.turns_submitted[turn as int] is Some && p2.turns_submitted[turn as int] is Some) {
            s
        } else {
            let sub1 = p1.turns_submitted[turn as int].unwrap();
            let sub2 = p2.turns_submitted[turn as int].unwrap();
            let first = if p1.current_hp > 0 && p2.current_hp > 0 {
                let r = spec_execute_attack(p1, p2, sub1, sub2.stance, s.rng);
                (r.0, r.1, r.2, Some(r.3))
            } else {
                (p1, p2, s.rng, None::<CombatAction>)
            };
            let p1a = first.0;
            let p2a = first.1;
            let second = if p2a.current_hp > 0 && p1a.current_hp > 0 {
                let r = spec_execute_attack(p2a, p1a, sub2, sub1.stance, first.2);
                (r.0, r.1, r.2, Some(r.3))
            } else {
                (p2a, p1a, first.2, None::<CombatAction>)
            };
            let p2b = second.0;
            let p1b = second.1;
            let p1c = ParticipantView {
                turns_submitted: p1b.turns_submitted.update(turn as int, None),
                ..p1b
            };
            let p2c = ParticipantView {
                turns_submitted: p2b.turns_submitted.update(turn as int, None),
                ..p2b
            };
            let pending1 = if first.3 is Some {
                s.pending1.push(first.3.unwrap())
            } else {
                s.pending1
            };
            let pending2 = if second.3 is Some {
                s.pending2.push(second.3.unwrap())
            } else {
                s.pending2
            };
            let s1 = BattleStateView {
                player1: Some(p1c),
                player2: Some(p2c),
                slot_consumed: s.slot_consumed.update(turn as int, true),
                pending1,
                pending2,
                rng: second.2,
                ..s
            };
            if p1c.current_hp == 0 || p2c.current_hp == 0 {
                let winner = if p1c.current_hp > 0 {
                    p1c.owner
                } else {
                    p2c.owner
                };
                let loser = if winner == p1c.owner {
                    p2c.owner
                } else {
                    p1c.owner
                };
                spec_finalize(spec_record_round(s1), winner, loser)
            } else {
                s1
            }
        }
    }
}

/// Acceptance and effect of one turn submission. A submission is accepted
/// if and only if the session is in progress, the round matches, the slot
/// index is valid and not yet consumed, the stance name is known, the
/// caller is a participant, and the caller has not already filled this
/// slot; everything else is a no-op. Once both submissions for the slot
/// are present, the slot executes immediately and exactly once.
pub open spec fn spec_submit_turn(
    s: BattleStateView,
    caller: u64,
    round: u8,
    turn: u8,
    stance: Seq<char>,
    use_special: bool,
) -> BattleStateView
    recommends
        s.wf(),
{
    if s.status != BattleStatus::InProgress || round != s.current_round || turn >= 3 {
        s
    } else if spec_parse_stance_exact(stance) is None {
        s
    } else {
        let st = spec_parse_stance_exact(stance).unwrap();
        let p1 = s.player1.unwrap();
        let p2 = s.player2.unwrap();
        if caller != p1.owner && caller != p2.owner {
            s
        } else if s.slot_consumed[turn as int] {
            s
        } else {
            let is_p1 = caller == p1.owner;
            let target = if is_p1 {
                p1
            } else {
                p2
            };
            if target.turns_submitted[turn as int] is Some {
                s
            } else {
                let sub = TurnSubmission { round, turn, stance: st, use_special };
                let updated = ParticipantView {
                    turns_submitted: target.turns_submitted.update(turn as int, Some(sub)),
                    ..target
                };
                let s1 = if is_p1 {
                    BattleStateView { player1: Some(updated), ..s }
                } else {
                    BattleStateView { player2: Some(updated), ..s }
                };
                if s1.player1.unwrap().turns_submitted[turn as int] is Some
                    && s1.player2.unwrap().turns_submitted[turn as int] is Some {
                    spec_execute_single_turn(s1, turn)
                } else {
                    s1
                }
            }
        }
    }
}

/// Acceptance and effect of one round-readiness signal. The round closes
/// only once both participants have signaled: the round record is
/// appended, all slots and submissions clear, and the session either
/// settles (someone fell, or the round limit is reached — the winner then
/// being whoever has more hit points, player 2 on an exact tie) or the
/// round counter advances.
pub open spec fn spec_execute_round(s: BattleStateView, caller: u64) -> BattleStateView
    recommends
        s.wf(),
{
    if s.status != BattleStatus::InProgress {
        s
    } else {
        let p1 = s.player1.unwrap();
        let p2 = s.player2.unwrap();
        if caller != p1.owner && caller != p2.owner {
            s
        } else {
            let is_p1 = caller == p1.owner;
            if (is_p1 && s.ready1) || (!is_p1 && s.ready2) {
                s
            } else {
                let s1 = if is_p1 {
                    BattleStateView { ready1: true, ..s }
                } else {
                    BattleStateView { ready2: true, ..s }
                };
                if s1.ready1 && s1.ready2 {
                    let s2 = spec_record_round(s1);
                    let s3 = BattleStateView {
                        player1: Some(
                            ParticipantView {
                                turns_submitted: seq![None, None, None],
                                ..p1
                            },
                        ),
                        player2: Some(
                            ParticipantView {
                                turns_submitted: seq![None, None, None],
                                ..p2
                            },
                        ),
                        slot_consumed: seq![false, false, false],
                        ready1: false,
                        ready2: false,
                        ..s2
                    };
                    if p1.current_hp == 0 || p2.current_hp == 0 {
                        let winner = if p1.current_hp > 0 {
                            p1.owner
                        } else {
                            p2.owner
                        };
                        let loser = if winner == p1.owner {
                            p2.owner
                        } else {
                            p1.owner
                        };
                        spec_finalize(s3, winner, loser)
                    } else if s3.current_round >= s3.max_rounds {
                        let winner = if p1.current_hp > p2.current_hp {
                            p1.owner
                        } else {
                            p2.owner
                        };
                        let loser = if winner == p1.owner {
                            p2.owner
                        } else {
                            p1.owner
                        };
                        spec_finalize(s3, winner, loser)
                    } else {
                        BattleStateView { current_round: (s3.current_round + 1) as u8, ..s3 }
                    }
                } else {
                    s1
                }
            }
        }
    }
}

/// Replaces the element of `v` at `i`.
fn set_at<T>(v: &mut Vec<T>, i: usize, value: T)
    requires
        i < old(v)@.len(),
    ensures
        final(v)@ == old(v)@.update(i as int, value),
{
    v.remove(i);
    v.insert(i, value);
    proof {
        assert(final(v)@ =~= old(v)@.update(i as int, value));
    }
}

/// Parses the exact stance names the turn protocol accepts.
fn parse_stance_exact(stance: &String) -> (r: Option<Stance>)
    ensures
        r == spec_parse_stance_exact(stance@),
{
    if *stance == "Balanced".to_owned() {
        Some(Stance::Balanced)
    } else if *stance == "Aggressive".to_owned() {
        Some(Stance::Aggressive)
    } else if *stance == "Defensive".to_owned() {
        Some(Stance::Defensive)
    } else if *stance == "Berserker".to_owned() {
        Some(Stance::Berserker)
    } else if *stance == "Counter".to_owned() {
        Some(Stance::Counter)
    } else {
        None
    }
}

/// Computes the platform fee without intermediate overflow.
fn compute_fee(total: u128, bps: u16) -> (r: u128)
    ensures
        r == spec_fee(total, bps),
{
    let q = total / 10000;
    let rem = total % 10000;
    let qp = match q.checked_mul(bps as u128) {
        Some(v) => v,
        None => u128::MAX,
    };
    proof {
        vstd::arithmetic::mul::lemma_mul_upper_bound(rem as int, 9999, bps as int, 65535);
    }
    let rp = rem * (bps as u128) / 10000;
    qp.saturating_add(rp)
}

/// A fresh vector of three `false` flags.
fn fresh_flags() -> (v: Vec<bool>)
    ensures
        v@ =~= seq![false, false, false],
{
    let mut v: Vec<bool> = Vec::new();
    v.push(false);
    v.push(false);
    v.push(false);
    v
}

impl BattleState {
    /// An uninitialized session, waiting for its participants.
    pub fn new() -> (s: Self)
        ensures
            s@.wf(),
            s@.player1 is None,
            s@.player2 is None,
            s@.status == BattleStatus::WaitingForPlayers,
            s@.current_round == 0,
            s@.max_rounds == DEFAULT_MAX_ROUNDS,
            s@.slot_consumed =~= seq![false, false, false],
            !s@.ready1 && !s@.ready2,
            s@.winner is None,
            s@.round_results =~= Seq::<RoundResultView>::empty(),
            s@.pending1 =~= Seq::<CombatAction>::empty(),
            s@.pending2 =~= Seq::<CombatAction>::empty(),
            s@.rng.counter == 0,
            s@.lobby_chain_id is None,
            s@.platform_fee_bps == 300,
            s@.treasury_owner is None,
            s@.settlement is None,
            s@.outbox =~= Seq::<Message>::empty(),
    {
        BattleState {
            player1: None,
            player2: None,
            status: BattleStatus::WaitingForPlayers,
            current_round: 0,
            max_rounds: DEFAULT_MAX_ROUNDS,
            slot_consumed: fresh_flags(),
            ready1: false,
            ready2: false,
            winner: None,
            round_results: Vec::new(),
            pending1: Vec::new(),
            pending2: Vec::new(),
            rng: SessionRng::new([0u8; 32]),
            lobby_chain_id: None,
            platform_fee_bps: 300,
            treasury_owner: None,
            settlement: None,
            outbox: Vec::new(),
        }
    }

    /// Binds both participants and starts the battle. Only the configured
    /// coordinating session may initialize, and a session that already
    /// holds a participant is left unchanged.
    pub fn initialize_battle(
        &mut self,
        player1: BattleParticipant,
        player2: BattleParticipant,
        sender_chain: u64,
        lobby_chain_id: u64,
        platform_fee_bps: u16,
        treasury_owner: u64,
        seed: [u8; 32],
    )
        requires
            old(self)@.wf(),
            player1.wf(),
            player2.wf(),
            player1.owner != player2.owner,
            sender_chain == lobby_chain_id,
        ensures
            final(self)@ == spec_initialize_battle(
                old(self)@,
                player1@,
                player2@,
                lobby_chain_id,
                platform_fee_bps,
                treasury_owner,
                seed,
            ),
            final(self)@.wf(),
    {
        if self.player1.is_some() || self.player2.is_some() {
            return;
        }
        let p1 = BattleParticipant::new(player1.owner, player1.chain, player1.character, player1.stake);
        let p2 = BattleParticipant::new(player2.owner, player2.chain, player2.character, player2.stake);
        self.player1 = Some(p1);
        self.player2 = Some(p2);
        self.status = BattleStatus::InProgress;
        self.current_round = 1;
        self.max_rounds = DEFAULT_MAX_ROUNDS;
        self.slot_consumed = fresh_flags();
        self.ready1 = false;
        self.ready2 = false;
        self.winner = None;
        self.round_results = Vec::new();
        self.pending1 = Vec::new();
        self.pending2 = Vec::new();
        self.rng = SessionRng::new(seed);
        self.lobby_chain_id = Some(lobby_chain_id);
        self.platform_fee_bps = platform_fee_bps;
        self.treasury_owner = Some(treasury_owner);
        self.settlement = None;
        proof {
            assert(spec_rounds_view(self.round_results@) =~= Seq::<RoundResultView>::empty());
            assert(self.pending1@ =~= Seq::<CombatAction>::empty());
            assert(self.pending2@ =~= Seq::<CombatAction>::empty());
        }
    }

    /// Closes the open round into an immutable record.
    fn record_round(&mut self)
        requires
            old(self)@.wf(),
            old(self)@.player1 is Some,
            old(self)@.player2 is Some,
        ensures
            final(self)@ == spec_record_round(old(self)@),
            final(self)@.wf(),
    {
        let hp1 = if let Some(p) = &self.player1 {
            p.current_hp
        } else {
            0
        };
        let hp2 = if let Some(p) = &self.player2 {
            p.current_hp
        } else {
            0
        };
        let mut acts1: Vec<CombatAction> = Vec::new();
        let mut acts2: Vec<CombatAction> = Vec::new();
        core::mem::swap(&mut acts1, &mut self.pending1);
        core::mem::swap(&mut acts2, &mut self.pending2);
        let rr = RoundResult {
            round: self.current_round,
            player1_actions: acts1,
            player2_actions: acts2,
            player1_hp: hp1,
            player2_hp: hp2,
        };
        let ghost old_rounds = spec_rounds_view(self.round_results@);
        let ghost rr_view = rr@;
        self.round_results.push(rr);
        proof {
            assert(spec_rounds_view(self.round_results@) =~= old_rounds.push(rr_view));
        }
    }

    /// Settles the session exactly once: computes the stake split and the
    /// statistics, records the settlement, and queues the result messages.
    fn finalize_battle(&mut self, winner: u64, loser: u64)
        requires
            old(self)@.wf(),
        ensures
            final(self)@ == spec_finalize(old(self)@, winner, loser),
            final(self)@.wf(),
    {
        if !(self.status == BattleStatus::InProgress) {
            return;
        }
        let stake1 = if let Some(p) = &self.player1 {
            p.stake
        } else {
            0
        };
        let stake2 = if let Some(p) = &self.player2 {
            p.stake
        } else {
            0
        };
        let total_stake = stake1.saturating_add(stake2);
        let fee = compute_fee(total_stake, self.platform_fee_bps);
        let payout = total_stake.saturating_sub(fee);
        let (winner_stats, loser_stats) = calculate_combat_stats(&self.round_results, winner);
        self.status = BattleStatus::Completed;
        self.winner = Some(winner);
        self.settlement = Some(
            Settlement {
                winner,
                loser,
                total_stake,
                platform_fee: fee,
                winner_payout: payout,
                winner_xp: WINNER_XP,
                loser_xp: LOSER_XP,
                winner_stats,
                loser_stats,
                rounds_played: self.current_round,
            },
        );
        if self.lobby_chain_id.is_some() {
            self.outbox.push(
                Message::BattleResult {
                    winner,
                    loser,
                    winner_payout: payout,
                    xp_gained: WINNER_XP,
                    battle_stats: winner_stats,
                },
            );
            self.outbox.push(
                Message::BattleResult {
                    winner,
                    loser,
                    winner_payout: 0,
                    xp_gained: LOSER_XP,
                    battle_stats: loser_stats,
                },
            );
            self.outbox.push(
                Message::BattleCompleted {
                    winner,
                    loser,
                    rounds_played: self.current_round,
                    total_stake,
                    winner_stats,
                    loser_stats,
                },
            );
        }
    }

    /// Executes one turn slot for which both submissions are present.
    fn execute_single_turn(&mut self, turn: u8)
        requires
            old(self)@.wf(),
        ensures
            final(self)@ == spec_execute_single_turn(old(self)@, turn),
            final(self)@.wf(),
    {
        if !(self.status == BattleStatus::InProgress) || turn >= 3 {
            return;
        }
        let mut p1 = self.player1.take().unwrap();
        let mut p2 = self.player2.take().unwrap();
        let sub1_opt = p1.turns_submitted[turn as usize];
        let sub2_opt = p2.turns_submitted[turn as usize];
        if sub1_opt.is_none() || sub2_opt.is_none() {
            self.player1 = Some(p1);
            self.player2 = Some(p2);
            return;
        }
        let sub1 = sub1_opt.unwrap();
        let sub2 = sub2_opt.unwrap();

        // Each living participant attacks once; a fallen one does not.
        if p1.current_hp > 0 && p2.current_hp > 0 {
            let act = execute_attack(&mut p1, &mut p2, &sub1, sub2.stance, &mut self.rng);
            self.pending1.push(act);
        }
        if p2.current_hp > 0 && p1.current_hp > 0 {
            let act = execute_attack(&mut p2, &mut p1, &sub2, sub1.stance, &mut self.rng);
            self.pending2.push(act);
        }

        // The slot is consumed: both submissions clear and no further
        // execution can happen for it.
        set_at(&mut p1.turns_submitted, turn as usize, None);
        set_at(&mut p2.turns_submitted, turn as usize, None);
        set_at(&mut self.slot_consumed, turn as usize, true);

        let terminal = p1.current_hp == 0 || p2.current_hp == 0;
        let winner = if p1.current_hp > 0 {
            p1.owner
        } else {
            p2.owner
        };
        let loser = if winner == p1.owner {
            p2.owner
        } else {
            p1.owner
        };
        self.player1 = Some(p1);
        self.player2 = Some(p2);
        if terminal {
            self.record_round();
            self.finalize_battle(winner, loser);
        }
    }

    /// Accepts one turn submission, as `spec_submit_turn` states; a
    /// rejected submission leaves the session unchanged.
    pub fn submit_turn(&mut self, caller: u64, round: u8, turn: u8, stance: String, use_special: bool)
        requires
            old(self)@.wf(),
        ensures
            final(self)@ == spec_submit_turn(old(self)@, caller, round, turn, stance@, use_special),
            final(self)@.wf(),
    {
        if !(self.status == BattleStatus::InProgress) || round != self.current_round || turn >= 3 {
            return;
        }
        let st = match parse_stance_exact(&stance) {
            Some(st) => st,
            None => {
                return;
            },
        };
        let mut p1 = self.player1.take().unwrap();
        let mut p2 = self.player2.take().unwrap();
        if caller != p1.owner && caller != p2.owner {
            self.player1 = Some(p1);
            self.player2 = Some(p2);
            return;
        }
        if self.slot_consumed[turn as usize] {
            self.player1 = Some(p1);
            self.player2 = Some(p2);
            return;
        }
        let is_p1 = caller == p1.owner;
        let already = if is_p1 {
            p1.turns_submitted[turn as usize].is_some()
        } else {
            p2.turns_submitted[turn as usize].is_some()
        };
        if already {
            self.player1 = Some(p1);
            self.player2 = Some(p2);
            return;
        }
        let sub = TurnSubmission { round, turn, stance: st, use_special };
        if is_p1 {
            set_at(&mut p1.turns_submitted, turn as usize, Some(sub));
        } else {
            set_at(&mut p2.turns_submitted, turn as usize, Some(sub));
        }
        let both = p1.turns_submitted[turn as usize].is_some()
            && p2.turns_submitted[turn as usize].is_some();
        self.player1 = Some(p1);
        self.player2 = Some(p2);
        if both {
            self.execute_single_turn(turn);
        }
    }

    /// Accepts one round-readiness signal, as `spec_execute_round` states.
    pub fn execute_round(&mut self, caller: u64)
        requires
            old(self)@.wf(),
        ensures
            final(self)@ == spec_execute_round(old(self)@, caller),
            final(self)@.wf(),
    {
        if !(self.status == BattleStatus::InProgress) {
            return;
        }
        let (p1_owner, p1_hp) = if let Some(p) = &self.player1 {
            (p.owner, p.current_hp)
        } else {
            (0, 0)
        };
        let (p2_owner, p2_hp) = if let Some(p) = &self.player2 {
            (p.owner, p.current_hp)
        } else {
            (0, 0)
        };
        if caller != p1_owner && caller != p2_owner {
            return;
        }
        let is_p1 = caller == p1_owner;
        if is_p1 && self.ready1 {
            return;
        }
        if !is_p1 && self.ready2 {
            return;
        }
        if is_p1 {
            self.ready1 = true;
        } else {
            self.ready2 = true;
        }
        if !(self.ready1 && self.ready2) {
            return;
        }

        // Both participants are ready: the round closes.
        self.record_round();
        let mut p1 = self.player1.take().unwrap();
        let mut p2 = self.player2.take().unwrap();
        p1.reset_turns();
        p2.reset_turns();
        self.player1 = Some(p1);
        self.player2 = Some(p2);
        self.slot_consumed = fresh_flags();
        self.ready1 = false;
        self.ready2 = false;

        if p1_hp == 0 || p2_hp == 0 {
            let winner = if p1_hp > 0 {
                p1_owner
            } else {
                p2_owner
            };
            let loser = if winner == p1_owner {
                p2_owner
            } else {
                p1_owner
            };
            self.finalize_battle(winner, loser);
        } else if self.current_round >= self.max_rounds {
            let winner = if p1_hp > p2_hp {
                p1_owner
            } else {
                p2_owner
            };
            let loser = if winner == p1_owner {
                p2_owner
            } else {
                p1_owner
            };
            self.finalize_battle(winner, loser);
        } else {
            self.current_round = self.current_round + 1;
        }
    }
}

} // verus!
