//! The move domain of the game and its cyclic win relation.
//!
//! A strategy provider hands the host a move as a plain integer tag; the
//! valid tags form the closed set `{ROCK, PAPER, SCISSORS}`. Any other tag
//! is a contract violation by the provider, never a valid game state.

use vstd::prelude::*;

verus! {

/// Integer tag of the rock move in the provider-facing encoding.
pub const ROCK: u64 = 0;

/// Integer tag of the paper move in the provider-facing encoding.
pub const PAPER: u64 = 1;

/// Integer tag of the scissors move in the provider-facing encoding.
pub const SCISSORS: u64 = 2;

/// One of the three cyclic choices. Immutable once constructed; a value is
/// decoded fresh each round from a provider's returned tag.
#[derive(Clone, Copy, PartialEq, Eq, Structural, Debug)]
pub enum Move {
    Rock,
    Paper,
    Scissors,
}

/// The tri-state result of comparing the two players' moves for one round.
#[derive(Clone, Copy, PartialEq, Eq, Structural, Debug)]
pub enum Outcome {
    FirstWins,
    SecondWins,
    Draw,
}

/// The move that `m` defeats: rock beats scissors, scissors beats paper,
/// paper beats rock.
pub open spec fn spec_beats(m: Move) -> Move {
    match m {
        Move::Rock => Move::Scissors,
        Move::Paper => Move::Rock,
        Move::Scissors => Move::Paper,
    }
}

/// The comparison rule: a draw on equal moves, otherwise the fixed beats
/// table decides which side wins.
pub open spec fn spec_compare(a: Move, b: Move) -> Outcome {
    if a == b {
        Outcome::Draw
    } else if spec_beats(a) == b {
        Outcome::FirstWins
    } else {
        Outcome::SecondWins
    }
}

/// The move decoded from an integer tag, if the tag is valid.
pub open spec fn spec_move_of_tag(t: u64) -> Option<Move> {
    if t == ROCK {
        Some(Move::Rock)
    } else if t == PAPER {
        Some(Move::Paper)
    } else if t == SCISSORS {
        Some(Move::Scissors)
    } else {
        None
    }
}

impl Move {
    /// The provider-facing integer tag of this move.
    pub open spec fn spec_tag(self) -> u64 {
        match self {
            Move::Rock => ROCK,
            Move::Paper => PAPER,
            Move::Scissors => SCISSORS,
        }
    }

    /// Encode this move as its integer tag.
    pub fn tag(self) -> (t: u64)
        ensures
            t == self.spec_tag(),
            spec_move_of_tag(t) == Some(self),
    {
        match self {
            Move::Rock => ROCK,
            Move::Paper => PAPER,
            Move::Scissors => SCISSORS,
        }
    }

    /// Decode a provider's returned tag. A tag outside the valid closed set
    /// yields `None`: the provider broke its contract, and the caller must
    /// fail fast rather than score the round.
    pub fn from_tag(t: u64) -> (m: Option<Move>)
        ensures
            m == spec_move_of_tag(t),
            m is Some <==> t <= 2,
    {
        if t == ROCK {
            Some(Move::Rock)
        } else if t == PAPER {
            Some(Move::Paper)
        } else if t == SCISSORS {
            Some(Move::Scissors)
        } else {
            None
        }
    }

    /// The move this move defeats.
    pub fn beats(self) -> (r: Move)
        ensures
            r == spec_beats(self),
    {
        match self {
            Move::Rock => Move::Scissors,
            Move::Paper => Move::Rock,
            Move::Scissors => Move::Paper,
        }
    }
}

/// Compare the two players' moves for one round under the cyclic win
/// relation. Total over valid moves, no randomness, no side effects.
pub fn compare(a: Move, b: Move) -> (r: Outcome)
    ensures
        r == spec_compare(a, b),
{
    if a == b {
        Outcome::Draw
    } else if a.beats() == b {
        Outcome::FirstWins
    } else {
        Outcome::SecondWins
    }
}

/// The comparison of a move with itself is always a draw.
pub proof fn lemma_compare_self(a: Move)
    ensures
        spec_compare(a, a) == Outcome::Draw,
{
}

/// Swapping the two moves inverts the comparison: the first side wins
/// exactly when the swapped comparison says the second side wins, and a
/// draw stays a draw.
pub proof fn lemma_compare_inverse(a: Move, b: Move)
    ensures
        spec_compare(a, b) == Outcome::FirstWins <==> spec_compare(b, a) == Outcome::SecondWins,
        spec_compare(a, b) == Outcome::SecondWins <==> spec_compare(b, a) == Outcome::FirstWins,
        spec_compare(a, b) == Outcome::Draw <==> spec_compare(b, a) == Outcome::Draw,
{
}

} // verus!
