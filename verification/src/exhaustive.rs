//! The enumeration engine: every one of the 6^5 = 7,776 ordered
//! combinations of five die faces, resolved and tallied exactly.

use crate::combat::Attack;
use crate::combat::Score;
use crate::combat::score_of;
use vstd::prelude::*;

verus! {

/// Number of ordered combinations of five die faces: 6^5.
pub const COMBINATION_COUNT: u32 = 7776;

/// The five die values encoded by index `i`: the base-6 digits of `i`,
/// most significant first, each shifted from `0..=5` to `1..=6`.
pub open spec fn faces_at(i: int) -> (int, int, int, int, int) {
    ((i / 1296) % 6 + 1, (i / 216) % 6 + 1, (i / 36) % 6 + 1, (i / 6) % 6 + 1, i % 6 + 1)
}

/// The score of the attack encoded by index `i`.
pub open spec fn score_at(i: int) -> Score {
    let t = faces_at(i);
    score_of(t.0, t.1, t.2, t.3, t.4)
}

/// How many of the first `n` encoded attacks have score `s`.
pub open spec fn count_scored(n: int, s: Score) -> int
    decreases n,
{
    if n <= 0 {
        0
    } else {
        count_scored(n - 1, s) + if score_at(n - 1) == s {
            1int
        } else {
            0int
        }
    }
}

/// Every combination scores exactly one of the three ways, so over any
/// prefix of the enumeration the three counts sum to its length.
pub proof fn lemma_counts_cover(n: int)
    requires
        n >= 0,
    ensures
        count_scored(n, Score::Win) + count_scored(n, Score::Loss) + count_scored(n, Score::Tie)
            == n,
    decreases n,
{
    if n > 0 {
        lemma_counts_cover(n - 1);
    }
}

/// Resolve every one of the 7,776 ordered five-tuples of face values
/// (three attacker dice, two defender dice, each ranging over 1..=6) and
/// tally the outcomes.
///
/// Returns a tuple `(wins, losses, ties)`. The result is pinned exactly:
/// each count equals the number of combinations the combat resolver maps
/// to that score, so every invocation returns the same totals.
pub fn enumerate_attacks() -> (r: (i64, i64, i64))
    ensures
        r.0 == count_scored(COMBINATION_COUNT as int, Score::Win),
        r.1 == count_scored(COMBINATION_COUNT as int, Score::Loss),
        r.2 == count_scored(COMBINATION_COUNT as int, Score::Tie),
        r.0 + r.1 + r.2 == COMBINATION_COUNT as int,
{
    let mut wins: i64 = 0;
    let mut losses: i64 = 0;
    let mut ties: i64 = 0;

    let mut i: u32 = 0;
    while i < COMBINATION_COUNT
        invariant
            i <= COMBINATION_COUNT,
            wins >= 0,
            losses >= 0,
            ties >= 0,
            wins == count_scored(i as int, Score::Win),
            losses == count_scored(i as int, Score::Loss),
            ties == count_scored(i as int, Score::Tie),
            wins + losses + ties == i as int,
        decreases COMBINATION_COUNT - i,
    {
        let a1 = ((i / 1296) % 6 + 1) as i32;
        let a2 = ((i / 216) % 6 + 1) as i32;
        let a3 = ((i / 36) % 6 + 1) as i32;
        let d1 = ((i / 6) % 6 + 1) as i32;
        let d2 = (i % 6 + 1) as i32;

        let attack = Attack::with_die_rolls(a1, a2, a3, d1, d2);
        proof {
            assert(faces_at(i as int) == (
                a1 as int,
                a2 as int,
                a3 as int,
                d1 as int,
                d2 as int,
            ));
            assert(score_at(i as int) == attack.score());
            assert(count_scored(i as int + 1, Score::Win) == count_scored(i as int, Score::Win)
                + if score_at(i as int) == Score::Win {
                1int
            } else {
                0int
            });
            assert(count_scored(i as int + 1, Score::Loss) == count_scored(i as int, Score::Loss)
                + if score_at(i as int) == Score::Loss {
                1int
            } else {
                0int
            });
            assert(count_scored(i as int + 1, Score::Tie) == count_scored(i as int, Score::Tie)
                + if score_at(i as int) == Score::Tie {
                1int
            } else {
                0int
            });
        }
        match attack.attacker_score() {
            Score::Win => wins += 1,
            Score::Loss => losses += 1,
            Score::Tie => ties += 1,
        }
        i += 1;
    }

    (wins, losses, ties)
}

} // verus!
