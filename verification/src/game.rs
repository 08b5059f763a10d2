//! The roll log and the lookups that scoring is built from.

use vstd::prelude::*;

use crate::frame::{Frame, NormalFrame, SpareFrame, StrikeFrame};
use crate::partial_score::empty_partial_score;
use crate::rules::{
    classifiable, fits, game_score, pins_at, pins_of_two, scorable, scorable_from, score_from,
    ALL_BOWLING_PINS, BOWLING_FRAME_COUNT, MISSING_ROLL,
};

verus! {

/// What a bowling game offers: record a roll, and ask for the score.
pub trait BowlingGame {
    /// The rolls recorded so far, oldest first.
    spec fn recorded(&self) -> Seq<i32>;

    /// Records one roll at the end of the log. Nothing recorded before is
    /// touched.
    fn roll(&mut self, pins: i32)
        ensures
            final(self).recorded() == old(self).recorded().push(pins),
    ;

    /// The score of ten frames over the rolls recorded so far. The log is
    /// read, never changed.
    fn score(&self) -> (total: i32)
        requires
            scorable(self.recorded()),
        ensures
            total == game_score(self.recorded()),
    ;
}

/// A game in progress: the log of its rolls.
pub struct Game {
    rolls: Vec<i32>,
}

impl View for Game {
    type V = Seq<i32>;

    closed spec fn view(&self) -> Seq<i32> {
        self.rolls@
    }
}

/// A game with nothing rolled yet.
pub fn new_game() -> (game: Game)
    ensures
        game@ == Seq::<i32>::empty(),
{
    Game { rolls: Vec::new() }
}

impl Game {
    /// The log is held in a vector, so every roll has an index that a
    /// `usize` can hold: a look-ahead that stops at the largest index reads
    /// what one past it would.
    proof fn lemma_log_is_addressable(&self)
        ensures
            self@.len() <= usize::MAX,
    {
        assert(self.rolls@.len() == self.rolls.len());
    }

    /// The sum of the roll at `frame_index` and the one after it.
    pub fn two_rolls(&self, frame_index: usize) -> (pins: i32)
        requires
            fits(pins_of_two(self@, frame_index as int)),
        ensures
            pins == pins_of_two(self@, frame_index as int),
    {
        self.first_roll(frame_index) + self.second_roll(frame_index)
    }

    /// The bonus of a strike at `strike_index`: the two rolls after it.
    pub fn strike_bonus(&self, strike_index: usize) -> (pins: i32)
        requires
            fits(pins_of_two(self@, strike_index + 1)),
        ensures
            pins == pins_of_two(self@, strike_index + 1),
    {
        proof {
            self.lemma_log_is_addressable();
        }
        self.two_rolls(strike_index.saturating_add(1))
    }

    /// The bonus of a spare at `spare_index`: the roll after its two.
    pub fn spare_bonus(&self, spare_index: usize) -> (pins: i32)
        ensures
            pins == pins_at(self@, spare_index + 2),
    {
        proof {
            self.lemma_log_is_addressable();
        }
        self.roll_at(spare_index.saturating_add(2))
    }

    /// The roll at `index`.
    pub fn first_roll(&self, index: usize) -> (pins: i32)
        ensures
            pins == pins_at(self@, index as int),
    {
        self.roll_at(index)
    }

    /// The roll after the one at `index`.
    pub fn second_roll(&self, index: usize) -> (pins: i32)
        ensures
            pins == pins_at(self@, index + 1),
    {
        proof {
            self.lemma_log_is_addressable();
        }
        self.roll_at(index.saturating_add(1))
    }

    /// The roll at `index`, or `MISSING_ROLL` where nothing was rolled yet.
    pub fn roll_at(&self, index: usize) -> (pins: i32)
        ensures
            pins == pins_at(self@, index as int),
    {
        if index < self.rolls.len() {
            self.rolls[index]
        } else {
            MISSING_ROLL
        }
    }

    /// Whether the roll at `frame_index` took all pins.
    pub fn is_strike(&self, frame_index: usize) -> (strike: bool)
        ensures
            strike == (pins_at(self@, frame_index as int) == ALL_BOWLING_PINS),
    {
        self.first_roll(frame_index) == ALL_BOWLING_PINS
    }

    /// Whether the two rolls from `frame_index` on took all pins together.
    pub fn is_spare(&self, frame_index: usize) -> (spare: bool)
        requires
            fits(pins_of_two(self@, frame_index as int)),
        ensures
            spare == (pins_of_two(self@, frame_index as int) == ALL_BOWLING_PINS),
    {
        self.two_rolls(frame_index) == ALL_BOWLING_PINS
    }

    /// The frame that starts at `index`, of the kind that the rolls there
    /// make it.
    pub fn create_frame(&self, index: usize) -> (frame: Frame)
        requires
            classifiable(self@, index as int),
        ensures
            frame.is_frame_of(self@, index as int),
    {
        if self.is_strike(index) {
            Frame::Strike(StrikeFrame { frame_index: index })
        } else if self.is_spare(index) {
            Frame::Spare(SpareFrame { frame_index: index })
        } else {
            Frame::Normal(NormalFrame { frame_index: index })
        }
    }
}

impl BowlingGame for Game {
    open spec fn recorded(&self) -> Seq<i32> {
        self@
    }

    fn roll(&mut self, pins: i32) {
        self.rolls.push(pins)
    }

    fn score(&self) -> (total: i32) {
        let mut partial = empty_partial_score(self);
        for frames_done in 0..BOWLING_FRAME_COUNT
            invariant
                partial.frame.is_frame_of(self@, partial.frame.start()),
                0 <= partial.frame.start() <= 2 * frames_done,
                scorable_from(
                    self@,
                    partial.frame.start(),
                    partial.total as int,
                    (BOWLING_FRAME_COUNT - frames_done) as nat,
                ),
                partial.total + score_from(
                    self@,
                    partial.frame.start(),
                    (BOWLING_FRAME_COUNT - frames_done) as nat,
                ) == game_score(self@),
        {
            partial = partial.next_score(self);
        }
        partial.total
    }
}

} // verus!
