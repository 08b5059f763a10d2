//! Scoring of a ten-pin bowling game from its rolls.
//!
//! A [`Game`] is a log of rolls. [`BowlingGame::roll`] appends to it and
//! [`BowlingGame::score`] adds up ten frames over it; what the score is,
//! for any log, is defined in [`rules`].

pub mod frame;
pub mod game;
pub mod laws;
pub mod partial_score;
pub mod rules;

pub use crate::frame::{Frame, NormalFrame, SpareFrame, StrikeFrame};
pub use crate::game::{new_game, BowlingGame, Game};
pub use crate::partial_score::{empty_partial_score, PartialScore};
