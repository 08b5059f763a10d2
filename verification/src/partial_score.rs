//! The state of a score being added up frame by frame.

use vstd::prelude::*;

use crate::frame::Frame;
use crate::game::Game;
use crate::rules::{classifiable, fits, frame_fits};

verus! {

/// The frame to be counted next, and the points of the frames before it.
#[derive(Clone, Copy, Debug, PartialEq, Eq)]
pub struct PartialScore {
    /// The frame to be counted next.
    pub frame: Frame,
    /// The points counted so far.
    pub total: i32,
}

/// The state before any frame is counted: the first frame of `game`, and
/// no points.
pub fn empty_partial_score(game: &Game) -> (partial: PartialScore)
    requires
        classifiable(game@, 0),
    ensures
        partial.frame.is_frame_of(game@, 0),
        partial.total == 0,
{
    PartialScore { frame: game.create_frame(0), total: 0 }
}

impl PartialScore {
    /// Counts the current frame: its points go to the total, and the frame
    /// of `game` that follows it becomes the current one.
    pub fn next_score(&self, game: &Game) -> (next: PartialScore)
        requires
            self.frame.end() <= usize::MAX,
            classifiable(game@, self.frame.end()),
            frame_fits(self.frame.kind(), game@, self.frame.start()),
            fits(self.total + self.frame.points(game@)),
        ensures
            next.frame.is_frame_of(game@, self.frame.end()),
            next.total == self.total + self.frame.points(game@),
    {
        PartialScore {
            frame: self.frame.next_frame(game),
            total: self.total + self.frame.scoreWithBonus(game),
        }
    }
}

} // verus!
