//! The per-round transition of the match loop.
//!
//! The host drives an unbounded loop: each round it obtains both providers'
//! move tags and both reload flags, and hands them to [`MatchState::play_round`],
//! which decodes and compares the moves, updates the score, renders the
//! gauge line, and applies the reset-on-reload policy. A tag outside the
//! valid move set is a provider contract violation: the round is not
//! scored, the state transitions to `Aborted`, and the host must stop.

use vstd::prelude::*;

use crate::gauge::{gauge_chars, render_gauge};
use crate::moves::{compare, spec_compare, spec_move_of_tag, Move, Outcome};
use crate::score::{spec_recorded, spec_reset_if_reloaded, ScoreTracker, COUNTER_INIT};

verus! {

/// Width of the rendered gauge, in fill characters.
pub const GAUGE_WIDTH: u64 = 100;

/// Whether the match is still running or was aborted by a provider's
/// contract violation. `Running` is the only state a round can start from.
#[derive(Clone, Copy, PartialEq, Eq, Structural, Debug)]
pub enum MatchStatus {
    Running,
    Aborted,
}

/// Why a round failed.
#[derive(Clone, Copy, PartialEq, Eq, Structural, Debug)]
pub enum MatchError {
    /// A provider returned a tag outside the valid move set.
    InvalidMove,
}

/// Everything the match loop carries from round to round: the score and the
/// last move each player made, handed back to the providers as the
/// opponent's previous move.
pub struct MatchState {
    /// Running, or aborted by a provider fault.
    pub status: MatchStatus,
    /// The two damped win counters.
    pub tracker: ScoreTracker,
    /// The first player's previous move.
    pub last_move_a: Move,
    /// The second player's previous move.
    pub last_move_b: Move,
}

/// What one completed round hands back to the host: the outcome and the
/// gauge line to draw over the previous one.
#[derive(Debug)]
pub struct RoundReport {
    /// The round's tri-state result.
    pub outcome: Outcome,
    /// The rendered gauge line, reflecting the score after this round was
    /// recorded and before any reload reset.
    pub line: String,
}

impl MatchState {
    /// The counters' total leaves room for one more increment, so a round
    /// can be recorded without overflow.
    pub open spec fn can_record(self) -> bool {
        self.tracker.score_a + self.tracker.score_b < u64::MAX
    }

    /// The state before the first round: both counters at the baseline and
    /// both remembered moves at the rock tag, the fixed opening value every
    /// provider sees as its opponent's "previous" move.
    pub fn init() -> (s: MatchState)
        ensures
            s.status == MatchStatus::Running,
            s.tracker.score_a == COUNTER_INIT,
            s.tracker.score_b == COUNTER_INIT,
            s.last_move_a == Move::Rock,
            s.last_move_b == Move::Rock,
            s.can_record(),
    {
        MatchState {
            status: MatchStatus::Running,
            tracker: ScoreTracker::init(),
            last_move_a: Move::Rock,
            last_move_b: Move::Rock,
        }
    }

    /// Play one round from the providers' returned tags and reload flags.
    ///
    /// On valid tags: both remembered moves are replaced, the outcome of
    /// comparing them is recorded, the gauge line is rendered from the
    /// recorded score, and then the reload reset is applied — exactly in
    /// that order, so a reload shows up in the next round's line, not this
    /// one's. On an invalid tag nothing is scored and the match aborts.
    pub fn play_round(
        &mut self,
        tag_a: u64,
        tag_b: u64,
        reloaded_a: bool,
        reloaded_b: bool,
    ) -> (r: Result<RoundReport, MatchError>)
        requires
            old(self).status == MatchStatus::Running,
            old(self).can_record(),
        ensures
            r is Ok <==> (tag_a <= 2 && tag_b <= 2),
            r matches Err(e) ==> e == MatchError::InvalidMove
                && final(self).status == MatchStatus::Aborted
                && final(self).tracker == old(self).tracker
                && final(self).last_move_a == old(self).last_move_a
                && final(self).last_move_b == old(self).last_move_b,
            r matches Ok(report) ==> {
                let recorded = spec_recorded(old(self).tracker, report.outcome);
                final(self).status == MatchStatus::Running
                    && spec_move_of_tag(tag_a) == Some(final(self).last_move_a)
                    && spec_move_of_tag(tag_b) == Some(final(self).last_move_b)
                    && report.outcome == spec_compare(final(self).last_move_a, final(self).last_move_b)
                    && report.line@ == gauge_chars(
                    recorded.score_a as int,
                    recorded.score_b as int,
                    GAUGE_WIDTH as int,
                )
                    && final(self).tracker == spec_reset_if_reloaded(recorded, reloaded_a, reloaded_b)
                    && final(self).tracker.wf()
            },
    {
        let ma_opt = Move::from_tag(tag_a);
        let mb_opt = Move::from_tag(tag_b);
        match (ma_opt, mb_opt) {
            (Some(ma), Some(mb)) => {
                self.last_move_a = ma;
                self.last_move_b = mb;
                let outcome = compare(ma, mb);
                self.tracker.record(outcome);
                let line = render_gauge(self.tracker.score_a, self.tracker.score_b, GAUGE_WIDTH);
                self.tracker.reset_if_reloaded(reloaded_a, reloaded_b);
                Ok(RoundReport { outcome, line })
            },
            _ => {
                self.status = MatchStatus::Aborted;
                Err(MatchError::InvalidMove)
            },
        }
    }
}

} // verus!
