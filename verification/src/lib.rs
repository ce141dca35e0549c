//! An adversarial match between two externally supplied strategies playing
//! the three-choice cyclic game (rock, paper, scissors).
//!
//! The library holds the verified core: the move domain and its cyclic win
//! relation, the damped score tracker with its reset-on-reload policy, the
//! fixed-width gauge renderer, and the per-round transition of the match
//! loop. Loading and hot-swapping the strategy providers, and writing the
//! gauge to a terminal, are hosting concerns that live outside the library.

pub mod gauge;
pub mod host;
pub mod moves;
pub mod round;
pub mod score;
