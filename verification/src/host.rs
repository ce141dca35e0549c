//! Capabilities the host injects into a loaded strategy provider: the three
//! move-tag constants and a uniformly random move.
//!
//! A provider decides its next move either from these helpers or from its
//! own logic; the host registers them with the loading mechanism before the
//! first round.

use vstd::prelude::*;

use crate::moves::{PAPER, ROCK, SCISSORS};

verus! {

/// Relies on rand::random: a `u64` drawn from the thread's generator.
/// Nothing is promised of the value.
#[verifier::external_body]
fn random_u64() -> u64 {
    rand::random::<u64>()
}

/// Host capability: a uniformly random move tag, always inside the valid
/// closed set whatever the generator returned.
pub fn random_move() -> (t: u64)
    ensures
        t <= 2,
{
    let x = random_u64();
    x % 3
}

/// Host capability: the rock tag.
pub fn rock() -> (t: u64)
    ensures
        t == ROCK,
{
    ROCK
}

/// Host capability: the paper tag.
pub fn paper() -> (t: u64)
    ensures
        t == PAPER,
{
    PAPER
}

/// Host capability: the scissors tag.
pub fn scissors() -> (t: u64)
    ensures
        t == SCISSORS,
{
    SCISSORS
}

} // verus!
