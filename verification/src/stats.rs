//! Aggregation of combat statistics over recorded rounds.
//!
//! Every action of every closed round is attributed to the side that dealt
//! it: damage dealt and taken, critical hits with the highest critical
//! blow, and dodges. All sums saturate, so aggregation can never overflow.

use vstd::prelude::*;
use crate::types::{CombatAction, CombatStats, RoundResult, RoundResultView};

verus! {

/// Saturating addition on statistics counters.
pub open spec fn sat_add_u64(a: u64, b: u64) -> u64 {
    if a + b > u64::MAX {
        u64::MAX
    } else {
        (a + b) as u64
    }
}

/// Folds one action into the (winner, loser) statistics pair.
pub open spec fn spec_apply_action(
    stats: (CombatStats, CombatStats),
    a: CombatAction,
    winner: u64,
) -> (CombatStats, CombatStats) {
    let attacker_is_winner = a.attacker == winner;
    let att = if attacker_is_winner {
        stats.0
    } else {
        stats.1
    };
    let def = if attacker_is_winner {
        stats.1
    } else {
        stats.0
    };
    let att1 = if !a.was_dodged {
        CombatStats { damage_dealt: sat_add_u64(att.damage_dealt, a.damage as u64), ..att }
    } else {
        att
    };
    let def1 = if !a.was_dodged {
        CombatStats { damage_taken: sat_add_u64(def.damage_taken, a.damage as u64), ..def }
    } else {
        def
    };
    let att2 = if a.was_crit {
        CombatStats {
            crits: sat_add_u64(att1.crits, 1),
            highest_crit: if a.damage as u64 > att1.highest_crit {
                a.damage as u64
            } else {
                att1.highest_crit
            },
            ..att1
        }
    } else {
        att1
    };
    let def2 = if a.was_dodged {
        CombatStats { dodges: sat_add_u64(def1.dodges, 1), ..def1 }
    } else {
        def1
    };
    if attacker_is_winner {
        (att2, def2)
    } else {
        (def2, att2)
    }
}

/// Folds a sequence of actions into the statistics pair, oldest first.
pub open spec fn spec_fold_actions(
    stats: (CombatStats, CombatStats),
    acts: Seq<CombatAction>,
    winner: u64,
) -> (CombatStats, CombatStats)
    decreases acts.len(),
{
    if acts.len() == 0 {
        stats
    } else {
        spec_fold_actions(spec_apply_action(stats, acts.first(), winner), acts.drop_first(), winner)
    }
}

/// Folds the recorded rounds into the statistics pair: per round, first the
/// actions dealt by player 1, then those dealt by player 2.
pub open spec fn spec_fold_rounds(
    stats: (CombatStats, CombatStats),
    rounds: Seq<RoundResultView>,
    winner: u64,
) -> (CombatStats, CombatStats)
    decreases rounds.len(),
{
    if rounds.len() == 0 {
        stats
    } else {
        let r = rounds.first();
        spec_fold_rounds(
            spec_fold_actions(
                spec_fold_actions(stats, r.player1_actions, winner),
                r.player2_actions,
                winner,
            ),
            rounds.drop_first(),
            winner,
        )
    }
}

/// The all-zero statistics record.
pub open spec fn spec_zero_stats() -> CombatStats {
    CombatStats { damage_dealt: 0, damage_taken: 0, crits: 0, dodges: 0, highest_crit: 0 }
}

/// The models of a list of recorded rounds.
pub open spec fn spec_rounds_view(v: Seq<RoundResult>) -> Seq<RoundResultView> {
    v.map_values(|r: RoundResult| r@)
}

/// The (winner, loser) statistics pair aggregated over all recorded rounds.
pub open spec fn spec_combat_stats(rounds: Seq<RoundResultView>, winner: u64) -> (
    CombatStats,
    CombatStats,
) {
    spec_fold_rounds((spec_zero_stats(), spec_zero_stats()), rounds, winner)
}

proof fn lemma_fold_actions_push(
    stats: (CombatStats, CombatStats),
    acts: Seq<CombatAction>,
    a: CombatAction,
    winner: u64,
)
    ensures
        spec_fold_actions(stats, acts.push(a), winner) == spec_apply_action(
            spec_fold_actions(stats, acts, winner),
            a,
            winner,
        ),
    decreases acts.len(),
{
    assert(spec_fold_actions(stats, acts.push(a), winner) == spec_fold_actions(
        spec_apply_action(stats, acts.push(a).first(), winner),
        acts.push(a).drop_first(),
        winner,
    ));
    if acts.len() == 0 {
        assert(acts.push(a).first() == a);
        assert(acts.push(a).drop_first() =~= Seq::<CombatAction>::empty());
        assert(spec_fold_actions(spec_apply_action(stats, a, winner), Seq::<CombatAction>::empty(), winner)
            == spec_apply_action(stats, a, winner));
        assert(spec_fold_actions(stats, acts, winner) == stats);
    } else {
        assert(acts.push(a).first() == acts.first());
        assert(acts.push(a).drop_first() =~= acts.drop_first().push(a));
        lemma_fold_actions_push(spec_apply_action(stats, acts.first(), winner), acts.drop_first(), a, winner);
        assert(spec_fold_actions(stats, acts, winner) == spec_fold_actions(
            spec_apply_action(stats, acts.first(), winner),
            acts.drop_first(),
            winner,
        ));
    }
}

proof fn lemma_fold_rounds_push(
    stats: (CombatStats, CombatStats),
    rounds: Seq<RoundResultView>,
    r: RoundResultView,
    winner: u64,
)
    ensures
        spec_fold_rounds(stats, rounds.push(r), winner) == spec_fold_actions(
            spec_fold_actions(spec_fold_rounds(stats, rounds, winner), r.player1_actions, winner),
            r.player2_actions,
            winner,
        ),
    decreases rounds.len(),
{
    let unfolded = spec_fold_rounds(
        spec_fold_actions(
            spec_fold_actions(stats, rounds.push(r).first().player1_actions, winner),
            rounds.push(r).first().player2_actions,
            winner,
        ),
        rounds.push(r).drop_first(),
        winner,
    );
    assert(spec_fold_rounds(stats, rounds.push(r), winner) == unfolded);
    if rounds.len() == 0 {
        assert(rounds.push(r).first() == r);
        assert(rounds.push(r).drop_first() =~= Seq::<RoundResultView>::empty());
        assert(spec_fold_rounds(stats, rounds, winner) == stats);
        assert(unfolded == spec_fold_actions(
            spec_fold_actions(stats, r.player1_actions, winner),
            r.player2_actions,
            winner,
        ));
    } else {
        assert(rounds.push(r).first() == rounds.first());
        assert(rounds.push(r).drop_first() =~= rounds.drop_first().push(r));
        let first = rounds.first();
        let after_first = spec_fold_actions(
            spec_fold_actions(stats, first.player1_actions, winner),
            first.player2_actions,
            winner,
        );
        lemma_fold_rounds_push(after_first, rounds.drop_first(), r, winner);
        assert(spec_fold_rounds(stats, rounds, winner) == spec_fold_rounds(
            after_first,
            rounds.drop_first(),
            winner,
        ));
    }
}

/// Folds one action into the two running statistics records.
fn apply_action(ws: &mut CombatStats, ls: &mut CombatStats, action: &CombatAction, winner: u64)
    ensures
        (*final(ws), *final(ls)) == spec_apply_action((*old(ws), *old(ls)), *action, winner),
{
    let attacker_is_winner = action.attacker == winner;
    if !action.was_dodged {
        if attacker_is_winner {
            ws.damage_dealt = ws.damage_dealt.saturating_add(action.damage as u64);
            ls.damage_taken = ls.damage_taken.saturating_add(action.damage as u64);
        } else {
            ls.damage_dealt = ls.damage_dealt.saturating_add(action.damage as u64);
            ws.damage_taken = ws.damage_taken.saturating_add(action.damage as u64);
        }
    }
    if action.was_crit {
        if attacker_is_winner {
            ws.crits = ws.crits.saturating_add(1);
            if action.damage as u64 > ws.highest_crit {
                ws.highest_crit = action.damage as u64;
            }
        } else {
            ls.crits = ls.crits.saturating_add(1);
            if action.damage as u64 > ls.highest_crit {
                ls.highest_crit = action.damage as u64;
            }
        }
    }
    if action.was_dodged {
        if attacker_is_winner {
            ls.dodges = ls.dodges.saturating_add(1);
        } else {
            ws.dodges = ws.dodges.saturating_add(1);
        }
    }
}

/// Folds a recorded action list into the two running statistics records.
fn accumulate_actions(
    ws: &mut CombatStats,
    ls: &mut CombatStats,
    actions: &Vec<CombatAction>,
    winner: u64,
)
    ensures
        (*final(ws), *final(ls)) == spec_fold_actions((*old(ws), *old(ls)), actions@, winner),
{
    let mut i: usize = 0;
    while i < actions.len()
        invariant
            i <= actions@.len(),
            (*ws, *ls) == spec_fold_actions((*old(ws), *old(ls)), actions@.take(i as int), winner),
        decreases actions@.len() - i,
    {
        proof {
            assert(actions@.take(i as int).push(actions@[i as int]) =~= actions@.take(
                i as int + 1,
            ));
            lemma_fold_actions_push(
                (*old(ws), *old(ls)),
                actions@.take(i as int),
                actions@[i as int],
                winner,
            );
        }
        apply_action(ws, ls, &actions[i], winner);
        i = i + 1;
    }
    proof {
        assert(actions@.take(actions@.len() as int) =~= actions@);
    }
}

/// Aggregates the (winner, loser) statistics pair across all recorded
/// rounds, attributing every action to the side that dealt it.
pub fn calculate_combat_stats(round_results: &Vec<RoundResult>, winner: u64) -> (r: (
    CombatStats,
    CombatStats,
))
    ensures
        r == spec_combat_stats(spec_rounds_view(round_results@), winner),
{
    let mut ws = CombatStats::new();
    let mut ls = CombatStats::new();
    let mut i: usize = 0;
    while i < round_results.len()
        invariant
            i <= round_results@.len(),
            (ws, ls) == spec_fold_rounds(
                (spec_zero_stats(), spec_zero_stats()),
                spec_rounds_view(round_results@).take(i as int),
                winner,
            ),
        decreases round_results@.len() - i,
    {
        proof {
            assert(spec_rounds_view(round_results@).take(i as int).push(
                spec_rounds_view(round_results@)[i as int],
            ) =~= spec_rounds_view(round_results@).take(i as int + 1));
            lemma_fold_rounds_push(
                (spec_zero_stats(), spec_zero_stats()),
                spec_rounds_view(round_results@).take(i as int),
                spec_rounds_view(round_results@)[i as int],
                winner,
            );
        }
        let round = &round_results[i];
        accumulate_actions(&mut ws, &mut ls, &round.player1_actions, winner);
        accumulate_actions(&mut ws, &mut ls, &round.player2_actions, winner);
        i = i + 1;
    }
    proof {
        assert(spec_rounds_view(round_results@).take(round_results@.len() as int)
            =~= spec_rounds_view(round_results@));
    }
    (ws, ls)
}

} // verus!
