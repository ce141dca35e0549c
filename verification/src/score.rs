//! Per-player win counters with the decay-on-reload reset policy.
//!
//! Both counters start at a large baseline rather than zero so that the
//! early game is visually damped: a single win moves the running ratio by
//! roughly `1 / (2 * COUNTER_INIT)` instead of swinging the gauge from one
//! end to the other. Whenever either player's underlying logic is reloaded,
//! both counters return to the baseline, since the accumulated score
//! describes an opponent that no longer exists in its prior form.

use vstd::prelude::*;

use crate::moves::Outcome;

verus! {

/// Starting value of both counters. Large enough that one increment is a
/// negligible visual change (one part in twenty thousand of the initial
/// total), and small enough that a counter could not overflow a `u64` over
/// any realistic match length.
pub const COUNTER_INIT: u64 = 10000;

/// Numerator of the running ratio `a / (a + b)` as an exact rational, with
/// the division-by-zero guard: when both counters are zero the ratio is
/// defined as exactly one half.
pub open spec fn ratio_num(a: int, b: int) -> int {
    if a + b == 0 {
        1
    } else {
        a
    }
}

/// Denominator of the running ratio; see [`ratio_num`].
pub open spec fn ratio_den(a: int, b: int) -> int {
    if a + b == 0 {
        2
    } else {
        a + b
    }
}

/// The two per-player counters. Mutated at most once per round, and reset
/// atomically when a reload is observed.
pub struct ScoreTracker {
    /// Rounds won by the first player, on top of the damping baseline.
    pub score_a: u64,
    /// Rounds won by the second player, on top of the damping baseline.
    pub score_b: u64,
}

/// The tracker after one outcome is recorded: exactly one counter grows on
/// a decided round, and a draw changes nothing.
pub open spec fn spec_recorded(t: ScoreTracker, outcome: Outcome) -> ScoreTracker {
    match outcome {
        Outcome::FirstWins => ScoreTracker { score_a: (t.score_a + 1) as u64, score_b: t.score_b },
        Outcome::SecondWins => ScoreTracker { score_a: t.score_a, score_b: (t.score_b + 1) as u64 },
        Outcome::Draw => t,
    }
}

/// The tracker after the reload poll: both counters return to the baseline
/// if either side reloaded, and nothing changes otherwise.
pub open spec fn spec_reset_if_reloaded(t: ScoreTracker, reloaded_a: bool, reloaded_b: bool) -> ScoreTracker {
    if reloaded_a || reloaded_b {
        ScoreTracker { score_a: COUNTER_INIT, score_b: COUNTER_INIT }
    } else {
        t
    }
}

impl ScoreTracker {
    /// The counters' total fits the machine word, so the ratio's
    /// denominator can be computed exactly.
    pub open spec fn wf(self) -> bool {
        self.score_a + self.score_b <= u64::MAX
    }

    /// A fresh tracker, both counters at the damping baseline.
    pub fn init() -> (t: ScoreTracker)
        ensures
            t.score_a == COUNTER_INIT,
            t.score_b == COUNTER_INIT,
            t.wf(),
    {
        ScoreTracker { score_a: COUNTER_INIT, score_b: COUNTER_INIT }
    }

    /// Record one round's outcome. The counters' total must leave room for
    /// one increment; a match would have to run for about 2^64 rounds to
    /// exhaust it.
    pub fn record(&mut self, outcome: Outcome)
        requires
            old(self).score_a + old(self).score_b < u64::MAX,
        ensures
            *final(self) == spec_recorded(*old(self), outcome),
            final(self).wf(),
    {
        match outcome {
            Outcome::FirstWins => {
                self.score_a = self.score_a + 1;
            },
            Outcome::SecondWins => {
                self.score_b = self.score_b + 1;
            },
            Outcome::Draw => {},
        }
    }

    /// Reset both counters to the baseline if either side's logic was
    /// reloaded since the last round; otherwise leave the score untouched.
    pub fn reset_if_reloaded(&mut self, reloaded_a: bool, reloaded_b: bool)
        ensures
            *final(self) == spec_reset_if_reloaded(*old(self), reloaded_a, reloaded_b),
            (reloaded_a || reloaded_b) ==> final(self).score_a == COUNTER_INIT
                && final(self).score_b == COUNTER_INIT,
            !(reloaded_a || reloaded_b) ==> *final(self) == *old(self),
    {
        if reloaded_a || reloaded_b {
            self.score_a = COUNTER_INIT;
            self.score_b = COUNTER_INIT;
        }
    }

    /// The running ratio `score_a / (score_a + score_b)` as an exact
    /// rational, numerator first. Defined as one half when both counters
    /// are zero.
    pub fn ratio_parts(&self) -> (r: (u64, u64))
        requires
            self.wf(),
        ensures
            r.0 == ratio_num(self.score_a as int, self.score_b as int),
            r.1 == ratio_den(self.score_a as int, self.score_b as int),
            r.1 >= 1,
            r.0 <= r.1,
    {
        if self.score_a == 0 && self.score_b == 0 {
            (1, 2)
        } else {
            (self.score_a, self.score_a + self.score_b)
        }
    }
}

/// A tracker with equal counters sits exactly at one half: the ratio's
/// numerator is half its denominator. This covers both the fresh tracker
/// and a tracker just reset by a reload.
pub proof fn lemma_equal_scores_ratio_half(a: int, b: int)
    requires
        a == b,
        0 <= a,
    ensures
        2 * ratio_num(a, b) == ratio_den(a, b),
{
}

/// Damping of an early win: one first-side win from the initial state puts
/// the ratio strictly above one half, but by no more than
/// `1 / (2 * COUNTER_INIT)`. With `n / d` the exact ratio after the win,
/// `n / d > 1/2` reads `2n > d`, and `n / d - 1/2 <= 1 / (2 * COUNTER_INIT)`
/// cross-multiplies to `(2n - d) * (2 * COUNTER_INIT) <= 2 * d`.
pub proof fn lemma_single_win_damped(before: ScoreTracker, after: ScoreTracker)
    requires
        before.score_a == COUNTER_INIT,
        before.score_b == COUNTER_INIT,
        after == spec_recorded(before, Outcome::FirstWins),
    ensures
        2 * ratio_num(after.score_a as int, after.score_b as int)
            > ratio_den(after.score_a as int, after.score_b as int),
        (2 * ratio_num(after.score_a as int, after.score_b as int)
            - ratio_den(after.score_a as int, after.score_b as int)) * (2 * COUNTER_INIT)
            <= 2 * ratio_den(after.score_a as int, after.score_b as int),
{
    assert(after.score_a == COUNTER_INIT + 1);
    assert(after.score_b == COUNTER_INIT);
    assert(ratio_num(after.score_a as int, after.score_b as int) == COUNTER_INIT + 1);
    assert(ratio_den(after.score_a as int, after.score_b as int) == 2 * COUNTER_INIT + 1);
    assert((2 * (COUNTER_INIT + 1) - (2 * COUNTER_INIT + 1)) * (2 * COUNTER_INIT)
        <= 2 * (2 * COUNTER_INIT + 1));
}

/// A winning streak keeps the gauge on the winner's side and pushes it
/// further with every win: with the baseline `c` and `n` first-side wins,
/// the ratio `(c + n) / (2c + n)` exceeds one half, and one more win
/// strictly increases it (the two cross-multiplied products compare the
/// ratio after `n` wins with the ratio after `n + 1`).
pub proof fn lemma_win_streak_monotone(c: int, n: int)
    requires
        1 <= c,
        1 <= n,
    ensures
        2 * (c + n) > 2 * c + n,
        (c + n + 1) * (2 * c + n) > (c + n) * (2 * c + n + 1),
{
    assert((c + n + 1) * (2 * c + n) > (c + n) * (2 * c + n + 1)) by (nonlinear_arith)
        requires
            1 <= c,
            1 <= n,
    ;
}

} // verus!
