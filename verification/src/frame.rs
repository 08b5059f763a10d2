//! Frames: a place in the roll log where a frame starts, tagged with the
//! kind of frame that the rolls there make.

use vstd::prelude::*;

use crate::game::Game;
use crate::rules::{
    base_points, bonus_points, classifiable, fits, frame_fits, frame_points, kind_at, rolls_used,
    FrameKind, ALL_BOWLING_PINS,
};

verus! {

/// A frame won on its first roll.
#[derive(Clone, Copy, Debug, PartialEq, Eq)]
pub struct StrikeFrame {
    /// Where in the log the frame starts.
    pub frame_index: usize,
}

/// A frame won on its second roll.
#[derive(Clone, Copy, Debug, PartialEq, Eq)]
pub struct SpareFrame {
    /// Where in the log the frame starts.
    pub frame_index: usize,
}

/// A frame that left pins standing.
#[derive(Clone, Copy, Debug, PartialEq, Eq)]
pub struct NormalFrame {
    /// Where in the log the frame starts.
    pub frame_index: usize,
}

/// A frame of any kind. The tag says how the frame is counted; `create_frame`
/// of a game picks the tag that the game's rolls call for.
#[derive(Clone, Copy, Debug, PartialEq, Eq)]
pub enum Frame {
    /// Counted as a strike.
    Strike(StrikeFrame),
    /// Counted as a spare.
    Spare(SpareFrame),
    /// Counted as an open frame.
    Normal(NormalFrame),
}

impl StrikeFrame {
    /// All pins.
    pub fn score(&self, game: &Game) -> (points: i32)
        ensures
            points == base_points(FrameKind::Strike, game@, self.frame_index as int),
    {
        ALL_BOWLING_PINS
    }

    /// The two rolls after the strike.
    pub fn bonus(&self, game: &Game) -> (points: i32)
        requires
            fits(bonus_points(FrameKind::Strike, game@, self.frame_index as int)),
        ensures
            points == bonus_points(FrameKind::Strike, game@, self.frame_index as int),
    {
        game.strike_bonus(self.frame_index)
    }

    /// Where the frame after this one starts.
    pub fn next_frame_index(&self) -> (next: usize)
        requires
            self.frame_index + rolls_used(FrameKind::Strike) <= usize::MAX,
        ensures
            next == self.frame_index + rolls_used(FrameKind::Strike),
    {
        self.frame_index + 1
    }
}

impl SpareFrame {
    /// All pins.
    pub fn score(&self, game: &Game) -> (points: i32)
        ensures
            points == base_points(FrameKind::Spare, game@, self.frame_index as int),
    {
        ALL_BOWLING_PINS
    }

    /// The roll after the spare's two.
    pub fn bonus(&self, game: &Game) -> (points: i32)
        ensures
            points == bonus_points(FrameKind::Spare, game@, self.frame_index as int),
    {
        game.spare_bonus(self.frame_index)
    }

    /// Where the frame after this one starts.
    pub fn next_frame_index(&self) -> (next: usize)
        requires
            self.frame_index + rolls_used(FrameKind::Spare) <= usize::MAX,
        ensures
            next == self.frame_index + rolls_used(FrameKind::Spare),
    {
        self.frame_index + 2
    }
}

impl NormalFrame {
    /// The pins of its two rolls.
    pub fn score(&self, game: &Game) -> (points: i32)
        requires
            fits(base_points(FrameKind::Normal, game@, self.frame_index as int)),
        ensures
            points == base_points(FrameKind::Normal, game@, self.frame_index as int),
    {
        game.two_rolls(self.frame_index)
    }

    /// Nothing.
    pub fn bonus(&self, game: &Game) -> (points: i32)
        ensures
            points == bonus_points(FrameKind::Normal, game@, self.frame_index as int),
    {
        0
    }

    /// Where the frame after this one starts.
    pub fn next_frame_index(&self) -> (next: usize)
        requires
            self.frame_index + rolls_used(FrameKind::Normal) <= usize::MAX,
        ensures
            next == self.frame_index + rolls_used(FrameKind::Normal),
    {
        self.frame_index + 2
    }
}

impl Frame {
    /// The kind that the frame is tagged with.
    pub open spec fn kind(&self) -> FrameKind {
        match self {
            Frame::Strike(_) => FrameKind::Strike,
            Frame::Spare(_) => FrameKind::Spare,
            Frame::Normal(_) => FrameKind::Normal,
        }
    }

    /// Where in the log the frame starts.
    pub open spec fn start(&self) -> int {
        match self {
            Frame::Strike(frame) => frame.frame_index as int,
            Frame::Spare(frame) => frame.frame_index as int,
            Frame::Normal(frame) => frame.frame_index as int,
        }
    }

    /// Where in the log the frame ends, which is where the next one starts.
    pub open spec fn end(&self) -> int {
        self.start() + rolls_used(self.kind())
    }

    /// Base and bonus of the frame over `rolls`, by the frame's own kind.
    pub open spec fn points(&self, rolls: Seq<i32>) -> int {
        frame_points(self.kind(), rolls, self.start())
    }

    /// Whether the frame starts at `start` and has the kind that `rolls`
    /// gives the frame there.
    pub open spec fn is_frame_of(&self, rolls: Seq<i32>, start: int) -> bool {
        &&& self.start() == start
        &&& self.kind() == kind_at(rolls, start)
    }

    /// The pins the frame scores by itself.
    pub fn score(&self, game: &Game) -> (points: i32)
        requires
            fits(base_points(self.kind(), game@, self.start())),
        ensures
            points == base_points(self.kind(), game@, self.start()),
    {
        match self {
            Frame::Strike(frame) => frame.score(game),
            Frame::Spare(frame) => frame.score(game),
            Frame::Normal(frame) => frame.score(game),
        }
    }

    /// The pins the frame is awarded from the rolls after it.
    pub fn bonus(&self, game: &Game) -> (points: i32)
        requires
            fits(bonus_points(self.kind(), game@, self.start())),
        ensures
            points == bonus_points(self.kind(), game@, self.start()),
    {
        match self {
            Frame::Strike(frame) => frame.bonus(game),
            Frame::Spare(frame) => frame.bonus(game),
            Frame::Normal(frame) => frame.bonus(game),
        }
    }

    /// Where the frame after this one starts.
    pub fn next_frame_index(&self) -> (next: usize)
        requires
            self.end() <= usize::MAX,
        ensures
            next == self.end(),
    {
        match self {
            Frame::Strike(frame) => frame.next_frame_index(),
            Frame::Spare(frame) => frame.next_frame_index(),
            Frame::Normal(frame) => frame.next_frame_index(),
        }
    }

    /// Base and bonus together.
    #[allow(non_snake_case)]
    pub fn scoreWithBonus(&self, game: &Game) -> (points: i32)
        requires
            frame_fits(self.kind(), game@, self.start()),
        ensures
            points == self.points(game@),
    {
        self.score(game) + self.bonus(game)
    }

    /// The frame of `game` that starts where this one ends.
    pub fn next_frame(&self, game: &Game) -> (next: Frame)
        requires
            self.end() <= usize::MAX,
            classifiable(game@, self.end()),
        ensures
            next.is_frame_of(game@, self.end()),
    {
        game.create_frame(self.next_frame_index())
    }
}

} // verus!
