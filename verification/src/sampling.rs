//! The sampling engine: batches of independent random trials, one batch
//! per worker, merged into one tally.

use crate::combat::Attack;
use crate::combat::Score;
use crate::die::Die;
use vstd::prelude::*;

verus! {

/// `r` is a tally of `trials` trials: three non-negative counts of wins,
/// losses and ties that together account for every trial, none lost and
/// none double-counted.
pub open spec fn tally_of(r: (i64, i64, i64), trials: int) -> bool {
    &&& r.0 >= 0
    &&& r.1 >= 0
    &&& r.2 >= 0
    &&& r.0 + r.1 + r.2 == trials
}

/// Simulate the specified number of attacks.
///
/// Each trial rolls a private die five times and scores the attack.
/// Returns a tuple `(wins, losses, ties)` that accounts for exactly one
/// trial per requested attack; a non-positive count yields no trials.
pub fn simulate_attacks(count: i64) -> (r: (i64, i64, i64))
    ensures
        tally_of(r, if count >= 0 { count as int } else { 0 }),
{
    let mut die = Die::default();

    let mut wins: i64 = 0;
    let mut losses: i64 = 0;
    let mut ties: i64 = 0;

    let mut i: i64 = 0;
    while i < count
        invariant
            0 <= i,
            i <= if count >= 0 { count as int } else { 0 },
            wins >= 0,
            losses >= 0,
            ties >= 0,
            wins + losses + ties == i,
        decreases count - i,
    {
        match Attack::with_die(&mut die).attacker_score() {
            Score::Win => wins += 1,
            Score::Loss => losses += 1,
            Score::Tie => ties += 1,
        }
        i += 1;
    }

    (wins, losses, ties)
}

/// Run `worker_count` independent workers of `attack_count` trials each
/// and merge their tallies.
///
/// Every worker performs the full `attack_count` trials with a private die
/// and a private tally, so the total number of simulated attacks is
/// `attack_count * worker_count`, and the returned sum accounts for every
/// one of them. The merge is a component-wise sum, so the order in which
/// worker tallies arrive cannot affect the result.
pub fn simulate_workers(attack_count: i64, worker_count: i32) -> (r: (i64, i64, i64))
    requires
        attack_count >= 0,
        worker_count >= 1,
        attack_count as int * worker_count as int <= i64::MAX,
    ensures
        tally_of(r, attack_count as int * worker_count as int),
{
    let mut wins: i64 = 0;
    let mut losses: i64 = 0;
    let mut ties: i64 = 0;

    let mut done: i32 = 0;
    while done < worker_count
        invariant
            attack_count >= 0,
            0 <= done <= worker_count,
            attack_count as int * worker_count as int <= i64::MAX,
            wins >= 0,
            losses >= 0,
            ties >= 0,
            wins + losses + ties == done as int * attack_count as int,
        decreases worker_count - done,
    {
        proof {
            assert((done + 1) as int * attack_count as int == done as int * attack_count as int
                + attack_count as int) by (nonlinear_arith);
            assert((done + 1) as int * attack_count as int <= worker_count as int
                * attack_count as int) by (nonlinear_arith)
                requires
                    done as int + 1 <= worker_count as int,
                    attack_count as int >= 0,
            ;
            assert(worker_count as int * attack_count as int == attack_count as int
                * worker_count as int) by (nonlinear_arith);
        }
        let t = simulate_attacks(attack_count);
        wins += t.0;
        losses += t.1;
        ties += t.2;
        done += 1;
    }

    proof {
        assert(done as int * attack_count as int == attack_count as int * worker_count as int)
            by (nonlinear_arith)
            requires
                done == worker_count,
        ;
    }
    (wins, losses, ties)
}

} // verus!
