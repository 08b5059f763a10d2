//! The scoring rules of ten-pin bowling, stated over a roll log as a
//! mathematical sequence.
//!
//! Everything here is ghost code: the executable types in the other
//! modules promise results in these terms.

use vstd::prelude::*;

verus! {

/// Pins standing at the start of a frame.
pub const ALL_BOWLING_PINS: i32 = 10;

/// Frames in one game.
pub const BOWLING_FRAME_COUNT: usize = 10;

/// What a lookup past the end of the log reads as.
pub const MISSING_ROLL: i32 = -1;

/// The three kinds of frame.
pub enum FrameKind {
    /// All pins fell on the first roll.
    Strike,
    /// All pins fell on the two rolls together.
    Spare,
    /// Anything else.
    Normal,
}

/// The pins recorded at `index`, or `MISSING_ROLL` where the log has no
/// such roll.
pub open spec fn pins_at(rolls: Seq<i32>, index: int) -> int {
    if 0 <= index < rolls.len() {
        rolls[index] as int
    } else {
        MISSING_ROLL as int
    }
}

/// The roll at `index` and the one after it, added up.
pub open spec fn pins_of_two(rolls: Seq<i32>, index: int) -> int {
    pins_at(rolls, index) + pins_at(rolls, index + 1)
}

/// The kind of the frame that starts at `start`. A first roll of ten is a
/// strike whatever follows it.
pub open spec fn kind_at(rolls: Seq<i32>, start: int) -> FrameKind {
    if pins_at(rolls, start) == ALL_BOWLING_PINS {
        FrameKind::Strike
    } else if pins_of_two(rolls, start) == ALL_BOWLING_PINS {
        FrameKind::Spare
    } else {
        FrameKind::Normal
    }
}

/// How many rolls a frame of this kind takes from the log.
pub open spec fn rolls_used(kind: FrameKind) -> int {
    match kind {
        FrameKind::Strike => 1,
        FrameKind::Spare => 2,
        FrameKind::Normal => 2,
    }
}

/// The pins a frame of kind `kind` starting at `start` scores by itself.
pub open spec fn base_points(kind: FrameKind, rolls: Seq<i32>, start: int) -> int {
    match kind {
        FrameKind::Strike => ALL_BOWLING_PINS as int,
        FrameKind::Spare => ALL_BOWLING_PINS as int,
        FrameKind::Normal => pins_of_two(rolls, start),
    }
}

/// The pins such a frame is awarded from the rolls that follow it.
pub open spec fn bonus_points(kind: FrameKind, rolls: Seq<i32>, start: int) -> int {
    match kind {
        FrameKind::Strike => pins_of_two(rolls, start + 1),
        FrameKind::Spare => pins_at(rolls, start + 2),
        FrameKind::Normal => 0,
    }
}

/// Base and bonus together.
pub open spec fn frame_points(kind: FrameKind, rolls: Seq<i32>, start: int) -> int {
    base_points(kind, rolls, start) + bonus_points(kind, rolls, start)
}

/// The points of `frames` consecutive frames, the first of which starts at
/// `start`; each frame starts where the one before it ended.
pub open spec fn score_from(rolls: Seq<i32>, start: int, frames: nat) -> int
    decreases frames,
{
    if frames == 0 {
        0
    } else {
        let kind = kind_at(rolls, start);
        frame_points(kind, rolls, start) + score_from(
            rolls,
            start + rolls_used(kind),
            (frames - 1) as nat,
        )
    }
}

/// The score of the game: ten frames from the first roll on.
pub open spec fn game_score(rolls: Seq<i32>) -> int {
    score_from(rolls, 0, BOWLING_FRAME_COUNT as nat)
}

/// Whether `value` can be held in the integer type that rolls and scores
/// have.
pub open spec fn fits(value: int) -> bool {
    i32::MIN <= value <= i32::MAX
}

/// Whether the frame at `start` can be told apart with machine integers: a
/// first roll short of ten is added to the second one.
pub open spec fn classifiable(rolls: Seq<i32>, start: int) -> bool {
    pins_at(rolls, start) != ALL_BOWLING_PINS ==> fits(pins_of_two(rolls, start))
}

/// Whether base, bonus and their sum can each be held, for a frame of kind
/// `kind` starting at `start`.
pub open spec fn frame_fits(kind: FrameKind, rolls: Seq<i32>, start: int) -> bool {
    &&& fits(base_points(kind, rolls, start))
    &&& fits(bonus_points(kind, rolls, start))
    &&& fits(frame_points(kind, rolls, start))
}

/// Whether `frames` more frames can be added to a running `total`, the
/// first of them starting at `start`, with every sum on the way held in a
/// machine integer. The frame after the last one counted is told apart
/// too, though it adds nothing.
pub open spec fn scorable_from(rolls: Seq<i32>, start: int, total: int, frames: nat) -> bool
    decreases frames,
{
    if frames == 0 {
        true
    } else {
        let kind = kind_at(rolls, start);
        let next = start + rolls_used(kind);
        let sum = total + frame_points(kind, rolls, start);
        &&& frame_fits(kind, rolls, start)
        &&& fits(sum)
        &&& classifiable(rolls, next)
        &&& scorable_from(rolls, next, sum, (frames - 1) as nat)
    }
}

/// Whether the whole game can be scored without leaving the machine
/// integers.
pub open spec fn scorable(rolls: Seq<i32>) -> bool {
    &&& classifiable(rolls, 0)
    &&& scorable_from(rolls, 0, 0, BOWLING_FRAME_COUNT as nat)
}

} // verus!
