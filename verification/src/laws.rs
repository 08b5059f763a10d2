//! What holds of the game as a whole.

use vstd::prelude::*;

use crate::game::{BowlingGame, Game};
use crate::rules::{
    classifiable, fits, frame_fits, frame_points, game_score, kind_at, pins_at, pins_of_two,
    rolls_used, scorable, scorable_from, score_from, ALL_BOWLING_PINS, BOWLING_FRAME_COUNT,
    MISSING_ROLL,
};

verus! {

/// Asking twice gives the same answer. `first` and `second` stand for what
/// two calls of `score` on one game returned: each is the score that the
/// rules give the recorded rolls, and `score` only reads them.
pub proof fn lemma_score_is_repeatable(game: Game, first: i32, second: i32)
    requires
        call_ensures(<Game as BowlingGame>::score, (&game,), first),
        call_ensures(<Game as BowlingGame>::score, (&game,), second),
    ensures
        first == second,
        first == game_score(game@),
{
}

/// What `roll` promises, spelled out: the game after it has one roll more,
/// the new roll stands at the end, and every other index reads as it did
/// before.
pub proof fn lemma_roll_appends(before: Game, pins: i32, after: Game)
    requires
        after.recorded() == before.recorded().push(pins),
    ensures
        after@.len() == before@.len() + 1,
        pins_at(after@, before@.len() as int) == pins,
        forall|index: int| 0 <= index < before@.len() ==> after@[index] == before@[index],
        forall|index: int|
            index != before@.len() ==> pins_at(after@, index) == pins_at(before@, index),
{
}

/// The log after the rolls of `pins` were recorded one by one, in order,
/// in a game whose log was `log`.
pub open spec fn log_after(log: Seq<i32>, pins: Seq<i32>) -> Seq<i32>
    decreases pins.len(),
{
    if pins.len() == 0 {
        log
    } else {
        log_after(log.push(pins.first()), pins.drop_first())
    }
}

/// Recording rolls one by one keeps the log as it was and puts the new
/// rolls behind it in the order they came.
pub proof fn lemma_log_after(log: Seq<i32>, pins: Seq<i32>)
    ensures
        log_after(log, pins) == log + pins,
    decreases pins.len(),
{
    if pins.len() == 0 {
        assert(log + pins =~= log);
    } else {
        lemma_log_after(log.push(pins.first()), pins.drop_first());
        assert(log.push(pins.first()) + pins.drop_first() =~= log + pins);
    }
}

/// In a game that started empty, the roll recorded by the `n`-th call stands
/// at index `n - 1`, however many rolls follow it.
pub proof fn lemma_nth_roll_stands_at_index(pins: Seq<i32>, n: int)
    requires
        1 <= n <= pins.len(),
    ensures
        log_after(Seq::empty(), pins).len() == pins.len(),
        pins_at(log_after(Seq::empty(), pins), n - 1) == pins[n - 1],
{
    lemma_log_after(Seq::empty(), pins);
    assert(Seq::<i32>::empty() + pins =~= pins);
}

/// Whether every roll of the log lies between `low` and `high`.
pub open spec fn rolls_within(rolls: Seq<i32>, low: int, high: int) -> bool {
    forall|index: int| 0 <= index < rolls.len() ==> low <= #[trigger] rolls[index] <= high
}

/// The least a frame can be worth when no roll reads below `low`: an open
/// frame of two such rolls.
pub open spec fn least_frame(low: int) -> int {
    2 * low
}

/// The most a frame can be worth when no roll reads above `high`: a strike
/// followed by two such rolls.
pub open spec fn most_frame(high: int) -> int {
    ALL_BOWLING_PINS + 2 * high
}

/// With every roll between `low` and `high`, and a missing roll read as a
/// value between them too, the frame at `start` is worth no less than
/// `least_frame(low)` and no more than `most_frame(high)`; where those two
/// fit the machine's integers, so does everything the frame is made of.
proof fn lemma_frame_within(rolls: Seq<i32>, low: int, high: int, start: int)
    requires
        rolls_within(rolls, low, high),
        low <= MISSING_ROLL <= high,
    ensures
        least_frame(low) <= pins_of_two(rolls, start) <= 2 * high,
        least_frame(low) <= frame_points(kind_at(rolls, start), rolls, start) <= most_frame(high),
        fits(least_frame(low)) && fits(most_frame(high)) ==> {
            &&& frame_fits(kind_at(rolls, start), rolls, start)
            &&& classifiable(rolls, start)
        },
{
    assert(low <= pins_at(rolls, start) <= high);
    assert(low <= pins_at(rolls, start + 1) <= high);
    assert(low <= pins_at(rolls, start + 2) <= high);
}

/// The induction behind `lemma_rolls_within_are_scorable`, frame by frame.
proof fn lemma_scorable_from(
    rolls: Seq<i32>,
    low: int,
    high: int,
    start: int,
    total: int,
    frames: nat,
)
    requires
        rolls_within(rolls, low, high),
        low <= MISSING_ROLL <= high,
        fits(least_frame(low)),
        fits(most_frame(high)),
        fits(total + frames * least_frame(low)),
        fits(total + frames * most_frame(high)),
    ensures
        scorable_from(rolls, start, total, frames),
        frames * least_frame(low) <= score_from(rolls, start, frames) <= frames * most_frame(high),
    decreases frames,
{
    let least = least_frame(low);
    let most = most_frame(high);
    if frames == 0 {
        assert(frames * least == 0 && frames * most == 0) by (nonlinear_arith)
            requires
                frames == 0,
        ;
    } else {
        let kind = kind_at(rolls, start);
        let next = start + rolls_used(kind);
        let sum = total + frame_points(kind, rolls, start);
        assert(frames * least == (frames - 1) * least + least) by (nonlinear_arith);
        assert(frames * most == (frames - 1) * most + most) by (nonlinear_arith);
        assert((frames - 1) * least <= 0 <= (frames - 1) * most) by (nonlinear_arith)
            requires
                frames >= 1,
                least <= 0 <= most,
        ;
        lemma_frame_within(rolls, low, high, start);
        lemma_frame_within(rolls, low, high, next);
        lemma_scorable_from(rolls, low, high, next, sum, (frames - 1) as nat);
    }
}

/// A log whose rolls all lie between `low` and `high` can be scored, as
/// long as ten frames of the least and ten of the most that a frame can
/// then be worth fit the machine's integers; and the score lies between
/// those two. The value that a missing roll reads as has to lie between
/// `low` and `high` as well.
pub proof fn lemma_rolls_within_are_scorable(rolls: Seq<i32>, low: int, high: int)
    requires
        rolls_within(rolls, low, high),
        low <= MISSING_ROLL <= high,
        fits(BOWLING_FRAME_COUNT * least_frame(low)),
        fits(BOWLING_FRAME_COUNT * most_frame(high)),
    ensures
        scorable(rolls),
        BOWLING_FRAME_COUNT * least_frame(low) <= game_score(rolls),
        game_score(rolls) <= BOWLING_FRAME_COUNT * most_frame(high),
{
    lemma_frame_within(rolls, low, high, 0);
    lemma_scorable_from(rolls, low, high, 0, 0, BOWLING_FRAME_COUNT as nat);
}

/// A game rolled by the book, every roll between no pins and all of them,
/// can be scored at any moment, and never comes out above the 300 of a
/// perfect game.
pub proof fn lemma_game_by_the_book(rolls: Seq<i32>)
    requires
        rolls_within(rolls, 0, ALL_BOWLING_PINS as int),
    ensures
        scorable(rolls),
        -20 <= game_score(rolls) <= 300,
{
    lemma_rolls_within_are_scorable(rolls, MISSING_ROLL as int, ALL_BOWLING_PINS as int);
}

/// `frames` frames from `start` on read no roll beyond index
/// `start + 2 * frames`.
proof fn lemma_score_from_reads_ahead(first: Seq<i32>, second: Seq<i32>, start: int, frames: nat)
    requires
        forall|index: int|
            start <= index <= start + 2 * frames ==> pins_at(first, index) == pins_at(
                second,
                index,
            ),
    ensures
        score_from(first, start, frames) == score_from(second, start, frames),
    decreases frames,
{
    if frames > 0 {
        assert(pins_at(first, start) == pins_at(second, start));
        assert(pins_at(first, start + 1) == pins_at(second, start + 1));
        assert(pins_at(first, start + 2) == pins_at(second, start + 2));
        lemma_score_from_reads_ahead(
            first,
            second,
            start + rolls_used(kind_at(first, start)),
            (frames - 1) as nat,
        );
    }
}

/// A game has at most twenty-one rolls that count: two logs that read the
/// same at the first twenty-one indexes have the same score, whatever
/// either holds after them.
pub proof fn lemma_later_rolls_do_not_count(first: Seq<i32>, second: Seq<i32>)
    requires
        forall|index: int|
            0 <= index <= 2 * BOWLING_FRAME_COUNT ==> pins_at(first, index) == pins_at(
                second,
                index,
            ),
    ensures
        game_score(first) == game_score(second),
{
    lemma_score_from_reads_ahead(first, second, 0, BOWLING_FRAME_COUNT as nat);
}

} // verus!
