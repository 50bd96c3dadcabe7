//! Combat resolution: turning five die values into a `Score`.

use crate::die::Die;
use vstd::prelude::*;

verus! {

/// Possible outcomes of an attack
#[derive(Debug, PartialEq, Eq, Structural)]
pub enum Score {
    /// Attacker destroys two defenders
    Win,
    /// Defender destroys two attackers
    Loss,
    /// Attacker and defender each lose one
    Tie,
}

/// The larger of two values.
pub open spec fn max2(x: int, y: int) -> int {
    if x >= y {
        x
    } else {
        y
    }
}

/// The smaller of two values.
pub open spec fn min2(x: int, y: int) -> int {
    if x <= y {
        x
    } else {
        y
    }
}

/// The largest of three values.
pub open spec fn max3(x: int, y: int, z: int) -> int {
    max2(x, max2(y, z))
}

/// The smallest of three values.
pub open spec fn min3(x: int, y: int, z: int) -> int {
    min2(x, min2(y, z))
}

/// The second-largest of three values: what is left after taking one
/// occurrence of the largest and one of the smallest out of the sum.
pub open spec fn mid3(x: int, y: int, z: int) -> int {
    x + y + z - max3(x, y, z) - min3(x, y, z)
}

/// One die facing another: the attacker takes +1 when strictly greater,
/// else -1. The defender wins ties.
pub open spec fn duel(attacker: int, defender: int) -> int {
    if attacker > defender {
        1
    } else {
        -1
    }
}

/// The score of an attack as a function of the five die values: the
/// attacker's two largest dice face the defender's dice in descending
/// order, each comparison resolved by `duel`, and the two results are
/// summed. Positive means `Win`, negative `Loss`, zero `Tie`.
pub open spec fn score_of(a1: int, a2: int, a3: int, d1: int, d2: int) -> Score {
    let hits = duel(max3(a1, a2, a3), max2(d1, d2)) + duel(mid3(a1, a2, a3), min2(d1, d2));
    if hits > 0 {
        Score::Win
    } else if hits < 0 {
        Score::Loss
    } else {
        Score::Tie
    }
}

/// Set of die rolls for an attack.
///
/// a1, a2, and a3 are the attacker's die rolls.
/// d1 and d2 are the defender's die rolls.
#[derive(Debug)]
pub struct Attack {
    pub a1: i32,
    pub a2: i32,
    pub a3: i32,
    pub d1: i32,
    pub d2: i32,
}

impl Attack {
    /// All five die values show a face of a six-sided die.
    pub open spec fn valid(self) -> bool {
        &&& 1 <= self.a1 <= 6
        &&& 1 <= self.a2 <= 6
        &&& 1 <= self.a3 <= 6
        &&& 1 <= self.d1 <= 6
        &&& 1 <= self.d2 <= 6
    }

    /// The score of this attack.
    pub open spec fn score(self) -> Score {
        score_of(self.a1 as int, self.a2 as int, self.a3 as int, self.d1 as int, self.d2 as int)
    }

    /// Construct an Attack by rolling a die five times.
    pub fn with_die(die: &mut Die) -> (r: Attack)
        ensures
            r.valid(),
    {
        Attack {
            a1: die.roll(),
            a2: die.roll(),
            a3: die.roll(),
            d1: die.roll(),
            d2: die.roll(),
        }
    }

    /// Construct an Attack by providing five values.
    ///
    /// This method is used for tests of the scoring function.
    pub fn with_die_rolls(a1: i32, a2: i32, a3: i32, d1: i32, d2: i32) -> (r: Attack)
        ensures
            r.a1 == a1,
            r.a2 == a2,
            r.a3 == a3,
            r.d1 == d1,
            r.d2 == d2,
    {
        Attack { a1, a2, a3, d1, d2 }
    }

    /// Get the two largest attacker dice.
    ///
    /// The first element of the result is the largest die value, and the
    /// second element is the next largest.
    pub fn attacker_largest(&self) -> (r: (i32, i32))
        ensures
            r.0 == max3(self.a1 as int, self.a2 as int, self.a3 as int),
            r.1 == mid3(self.a1 as int, self.a2 as int, self.a3 as int),
    {
        let a1 = self.a1;
        let a2 = self.a2;
        let a3 = self.a3;
        if a1 > a2 {
            if a3 > a1 {
                (a3, a1)
            } else if a3 > a2 {
                (a1, a3)
            } else {
                (a1, a2)
            }
        } else if a3 > a2 {
            (a3, a2)
        } else if a3 > a1 {
            (a2, a3)
        } else {
            (a2, a1)
        }
    }

    /// Get the defender's die rolls in (largest, smallest) order.
    pub fn defender_largest(&self) -> (r: (i32, i32))
        ensures
            r.0 == max2(self.d1 as int, self.d2 as int),
            r.1 == min2(self.d1 as int, self.d2 as int),
    {
        let d1 = self.d1;
        let d2 = self.d2;
        if d1 > d2 {
            (d1, d2)
        } else {
            (d2, d1)
        }
    }

    /// Determine the score for a roll, from the attacker's point-of-view.
    ///
    /// Returns `Win` if the attacker destroys two defenders, `Loss` if the
    /// defender destroys two attackers, or `Tie` if each side destroys one
    /// of the other side. The defender wins tied comparisons.
    pub fn attacker_score(&self) -> (r: Score)
        ensures
            r == self.score(),
    {
        let mut count: i32 = 0;

        let (a_largest, a_next) = self.attacker_largest();
        let (d_largest, d_next) = self.defender_largest();

        if a_largest > d_largest {
            count += 1;
        } else {
            count -= 1;
        }

        if a_next > d_next {
            count += 1;
        } else {
            count -= 1;
        }

        if count > 0 {
            Score::Win
        } else if count < 0 {
            Score::Loss
        } else {
            Score::Tie
        }
    }
}

/// The score is a pure function of the five die values: two attacks made
/// of the same rolls always score the same, however they were built.
pub proof fn lemma_score_deterministic(x: Attack, y: Attack)
    requires
        x.a1 == y.a1,
        x.a2 == y.a2,
        x.a3 == y.a3,
        x.d1 == y.d1,
        x.d2 == y.d2,
    ensures
        x.score() == y.score(),
{
}

} // verus!
