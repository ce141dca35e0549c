use rps_match::gauge::{fill_counts, format_ratio4, render_gauge};
use rps_match::moves::{compare, Move, Outcome, PAPER, ROCK, SCISSORS};
use rps_match::round::{MatchError, MatchState, MatchStatus};
use rps_match::score::{ScoreTracker, COUNTER_INIT};

fn ratio_of(t: &ScoreTracker) -> f64 {
    let (num, den) = t.ratio_parts();
    num as f64 / den as f64
}

const ALL_MOVES: [Move; 3] = [Move::Rock, Move::Paper, Move::Scissors];

#[test]
fn compare_is_inverse_and_reflexive() {
    for &a in ALL_MOVES.iter() {
        assert_eq!(compare(a, a), Outcome::Draw);
        for &b in ALL_MOVES.iter() {
            let forward = compare(a, b);
            let backward = compare(b, a);
            match forward {
                Outcome::FirstWins => assert_eq!(backward, Outcome::SecondWins),
                Outcome::SecondWins => assert_eq!(backward, Outcome::FirstWins),
                Outcome::Draw => assert_eq!(backward, Outcome::Draw),
            }
        }
    }
}

#[test]
fn compare_beats_table() {
    assert_eq!(compare(Move::Rock, Move::Scissors), Outcome::FirstWins);
    assert_eq!(compare(Move::Scissors, Move::Paper), Outcome::FirstWins);
    assert_eq!(compare(Move::Paper, Move::Rock), Outcome::FirstWins);
}

#[test]
fn compare_all_nine_pairs() {
    let expected = [
        (Move::Rock, Move::Rock, Outcome::Draw),
        (Move::Rock, Move::Paper, Outcome::SecondWins),
        (Move::Rock, Move::Scissors, Outcome::FirstWins),
        (Move::Paper, Move::Rock, Outcome::FirstWins),
        (Move::Paper, Move::Paper, Outcome::Draw),
        (Move::Paper, Move::Scissors, Outcome::SecondWins),
        (Move::Scissors, Move::Rock, Outcome::SecondWins),
        (Move::Scissors, Move::Paper, Outcome::FirstWins),
        (Move::Scissors, Move::Scissors, Outcome::Draw),
    ];
    for &(a, b, want) in expected.iter() {
        assert_eq!(compare(a, b), want);
    }
}

#[test]
fn tag_round_trip() {
    assert_eq!(Move::from_tag(ROCK), Some(Move::Rock));
    assert_eq!(Move::from_tag(PAPER), Some(Move::Paper));
    assert_eq!(Move::from_tag(SCISSORS), Some(Move::Scissors));
    assert_eq!(Move::from_tag(3), None);
    assert_eq!(Move::from_tag(u64::MAX), None);
    for &m in ALL_MOVES.iter() {
        assert_eq!(Move::from_tag(m.tag()), Some(m));
    }
}

#[test]
fn init_ratio_is_exactly_half() {
    let t = ScoreTracker::init();
    assert_eq!(t.score_a, COUNTER_INIT);
    assert_eq!(t.score_b, COUNTER_INIT);
    assert_eq!(ratio_of(&t), 0.5);
}

#[test]
fn single_win_is_damped() {
    let mut t = ScoreTracker::init();
    t.record(Outcome::FirstWins);
    let r = ratio_of(&t);
    assert!(r > 0.5);
    assert!(r - 0.5 <= 1.0 / (2.0 * COUNTER_INIT as f64));
}

#[test]
fn record_draw_changes_nothing() {
    let mut t = ScoreTracker::init();
    t.record(Outcome::Draw);
    assert_eq!(t.score_a, COUNTER_INIT);
    assert_eq!(t.score_b, COUNTER_INIT);
}

#[test]
fn reset_restores_half_from_any_score() {
    let mut t = ScoreTracker::init();
    for _ in 0..137 {
        t.record(Outcome::FirstWins);
    }
    for _ in 0..5 {
        t.record(Outcome::SecondWins);
    }
    assert!(ratio_of(&t) != 0.5);
    t.reset_if_reloaded(true, false);
    assert_eq!(ratio_of(&t), 0.5);

    let mut u = ScoreTracker::init();
    for _ in 0..9999 {
        u.record(Outcome::SecondWins);
    }
    u.reset_if_reloaded(false, true);
    assert_eq!(ratio_of(&u), 0.5);
}

#[test]
fn reset_without_reload_keeps_score() {
    let mut t = ScoreTracker::init();
    t.record(Outcome::FirstWins);
    let before = (t.score_a, t.score_b);
    t.reset_if_reloaded(false, false);
    assert_eq!((t.score_a, t.score_b), before);
}

#[test]
fn fill_counts_at_extremes() {
    // ratio 0.0: all fill on the right
    let (l, r) = fill_counts(0, 7, 100);
    assert_eq!(l, 0);
    assert_eq!(r, 100);
    // ratio 1.0: all fill on the left
    let (l, r) = fill_counts(9, 0, 100);
    assert_eq!(l, 100);
    assert_eq!(r, 0);
}

#[test]
fn fill_counts_always_sum_to_width() {
    let cases: [(u64, u64); 8] = [
        (0, 0),
        (1, 1),
        (1, 2),
        (2, 1),
        (10000, 10000),
        (10001, 10000),
        (1, u64::MAX - 1),
        (u64::MAX / 2, u64::MAX / 2),
    ];
    for &(a, b) in cases.iter() {
        for &w in [1u64, 2, 3, 7, 100, 1000].iter() {
            let (l, r) = fill_counts(a, b, w);
            assert_eq!(l + r, w);
            assert!(l <= w);
        }
    }
}

#[test]
fn format_ratio_exact_values() {
    assert_eq!(format_ratio4(1, 2), "0.5000");
    assert_eq!(format_ratio4(0, 1), "0.0000");
    assert_eq!(format_ratio4(1, 1), "1.0000");
    assert_eq!(format_ratio4(1, 3), "0.3333");
    assert_eq!(format_ratio4(2, 3), "0.6667");
    assert_eq!(format_ratio4(10001, 20001), "0.5000");
}

#[test]
fn render_gauge_layout() {
    let line = render_gauge(1, 1, 4);
    assert_eq!(line, "P1>>|0.5000|<<P2");
    let balanced = render_gauge(COUNTER_INIT, COUNTER_INIT, 100);
    let want = format!("P1{}|0.5000|{}P2", ">".repeat(50), "<".repeat(50));
    assert_eq!(balanced, want);
    let all_left = render_gauge(3, 0, 100);
    let want_left = format!("P1{}|1.0000|P2", ">".repeat(100));
    assert_eq!(all_left, want_left);
    let all_right = render_gauge(0, 3, 100);
    let want_right = format!("P1|0.0000|{}P2", "<".repeat(100));
    assert_eq!(all_right, want_right);
}

#[test]
fn constant_rock_beats_constant_scissors_over_time() {
    // Two stub providers: the first always returns ROCK, the second always
    // SCISSORS; the opponent-move argument is ignored by both.
    let mut state = MatchState::init();
    let mut checkpoints = Vec::new();
    let mut rounds: u64 = 0;
    for &n in [100u64, 1000, 10000, 100000].iter() {
        while rounds < n {
            let report = state.play_round(ROCK, SCISSORS, false, false).unwrap();
            assert_eq!(report.outcome, Outcome::FirstWins);
            rounds += 1;
        }
        checkpoints.push(ratio_of(&state.tracker));
    }
    for &r in checkpoints.iter() {
        assert!(r > 0.5);
    }
    // The damping baseline washes out: as COUNTER_INIT / N shrinks, the
    // ratio climbs toward the winner's full share.
    for pair in checkpoints.windows(2) {
        assert!(pair[0] < pair[1]);
    }
    assert!(checkpoints[checkpoints.len() - 1] > 0.8);
}

#[test]
fn alternating_cycle_against_rock_splits_evenly() {
    // One provider alternates ROCK, PAPER, SCISSORS; the other always plays
    // ROCK. Over one full cycle the alternating side draws once, wins once,
    // and loses once.
    let mut state = MatchState::init();
    let cycle = [ROCK, PAPER, SCISSORS];
    let mut wins = 0;
    let mut losses = 0;
    let mut draws = 0;
    for &tag in cycle.iter() {
        let report = state.play_round(tag, ROCK, false, false).unwrap();
        match report.outcome {
            Outcome::FirstWins => wins += 1,
            Outcome::SecondWins => losses += 1,
            Outcome::Draw => draws += 1,
        }
    }
    assert_eq!((wins, losses, draws), (1, 1, 1));
    assert_eq!(state.tracker.score_a, COUNTER_INIT + 1);
    assert_eq!(state.tracker.score_b, COUNTER_INIT + 1);
}

#[test]
fn invalid_tag_aborts_without_scoring() {
    let mut state = MatchState::init();
    let err = state.play_round(3, ROCK, false, false).unwrap_err();
    assert_eq!(err, MatchError::InvalidMove);
    assert_eq!(state.status, MatchStatus::Aborted);
    assert_eq!(state.tracker.score_a, COUNTER_INIT);
    assert_eq!(state.tracker.score_b, COUNTER_INIT);
}

#[test]
fn reload_mid_match_resets_next_round() {
    let mut state = MatchState::init();
    for _ in 0..10 {
        state.play_round(PAPER, ROCK, false, false).unwrap();
    }
    assert_eq!(state.tracker.score_a, COUNTER_INIT + 10);
    // The reload is observed after this round is scored and rendered, so
    // the reset shows up in the state the next round starts from.
    let report = state.play_round(PAPER, ROCK, true, false).unwrap();
    assert_eq!(report.outcome, Outcome::FirstWins);
    assert_eq!(state.tracker.score_a, COUNTER_INIT);
    assert_eq!(state.tracker.score_b, COUNTER_INIT);
    assert_eq!(ratio_of(&state.tracker), 0.5);
}

#[test]
fn round_remembers_last_moves() {
    let mut state = MatchState::init();
    assert_eq!(state.last_move_a, Move::Rock);
    assert_eq!(state.last_move_b, Move::Rock);
    state.play_round(PAPER, SCISSORS, false, false).unwrap();
    assert_eq!(state.last_move_a, Move::Paper);
    assert_eq!(state.last_move_b, Move::Scissors);
}

#[test]
fn random_move_stays_in_domain() {
    for _ in 0..1000 {
        let t = rps_match::host::random_move();
        assert!(t <= 2);
    }
}

#[test]
fn host_constant_capabilities() {
    assert_eq!(rps_match::host::rock(), ROCK);
    assert_eq!(rps_match::host::paper(), PAPER);
    assert_eq!(rps_match::host::scissors(), SCISSORS);
}
