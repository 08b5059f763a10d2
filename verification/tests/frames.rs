use bowling::{
    empty_partial_score, new_game, BowlingGame, Frame, Game, NormalFrame, PartialScore,
    SpareFrame, StrikeFrame,
};

fn sample() -> Game {
    let mut game = new_game();
    for pins in [10, 3, 5, 6, 4, 7] {
        game.roll(pins);
    }
    game
}

#[test]
fn strike_frame_scores_ten_and_the_next_two_rolls() {
    let game = sample();
    let frame = StrikeFrame { frame_index: 0 };
    assert_eq!(frame.score(&game), 10);
    assert_eq!(frame.bonus(&game), 8);
    assert_eq!(frame.next_frame_index(), 1);
}

#[test]
fn spare_frame_scores_ten_and_the_next_roll() {
    let game = sample();
    let frame = SpareFrame { frame_index: 3 };
    assert_eq!(frame.score(&game), 10);
    assert_eq!(frame.bonus(&game), 7);
    assert_eq!(frame.next_frame_index(), 5);
}

#[test]
fn normal_frame_scores_its_two_rolls() {
    let game = sample();
    let frame = NormalFrame { frame_index: 1 };
    assert_eq!(frame.score(&game), 8);
    assert_eq!(frame.bonus(&game), 0);
    assert_eq!(frame.next_frame_index(), 3);
}

#[test]
fn frame_hands_on_to_its_kind() {
    let game = sample();
    let strike = Frame::Strike(StrikeFrame { frame_index: 0 });
    let spare = Frame::Spare(SpareFrame { frame_index: 3 });
    let normal = Frame::Normal(NormalFrame { frame_index: 1 });
    assert_eq!(strike.score(&game), 10);
    assert_eq!(strike.bonus(&game), 8);
    assert_eq!(strike.next_frame_index(), 1);
    assert_eq!(spare.score(&game), 10);
    assert_eq!(spare.bonus(&game), 7);
    assert_eq!(spare.next_frame_index(), 5);
    assert_eq!(normal.score(&game), 8);
    assert_eq!(normal.bonus(&game), 0);
    assert_eq!(normal.next_frame_index(), 3);
}

#[test]
fn score_with_bonus_adds_base_and_bonus() {
    let game = sample();
    assert_eq!(Frame::Strike(StrikeFrame { frame_index: 0 }).scoreWithBonus(&game), 18);
    assert_eq!(Frame::Spare(SpareFrame { frame_index: 3 }).scoreWithBonus(&game), 17);
    assert_eq!(Frame::Normal(NormalFrame { frame_index: 1 }).scoreWithBonus(&game), 8);
}

#[test]
fn a_frame_scores_by_its_own_kind() {
    let game = sample();
    // the rolls at index 1 make an open frame; tagged as a strike it scores as one
    assert_eq!(Frame::Strike(StrikeFrame { frame_index: 1 }).scoreWithBonus(&game), 10 + 5 + 6);
    assert_eq!(Frame::Spare(SpareFrame { frame_index: 1 }).scoreWithBonus(&game), 10 + 6);
    assert_eq!(Frame::Normal(NormalFrame { frame_index: 0 }).scoreWithBonus(&game), 13);
}

#[test]
fn frames_with_missing_rolls() {
    let game = sample();
    assert_eq!(Frame::Strike(StrikeFrame { frame_index: 5 }).scoreWithBonus(&game), 10 - 2);
    assert_eq!(Frame::Spare(SpareFrame { frame_index: 4 }).scoreWithBonus(&game), 10 - 1);
    assert_eq!(Frame::Normal(NormalFrame { frame_index: 5 }).scoreWithBonus(&game), 7 - 1);
    assert_eq!(Frame::Normal(NormalFrame { frame_index: 9 }).scoreWithBonus(&game), -2);
}

#[test]
fn next_frame_starts_where_this_one_ends() {
    let game = sample();
    let first = game.create_frame(0);
    let second = first.next_frame(&game);
    let third = second.next_frame(&game);
    let fourth = third.next_frame(&game);
    let fifth = fourth.next_frame(&game);
    assert_eq!(first, Frame::Strike(StrikeFrame { frame_index: 0 }));
    assert_eq!(second, Frame::Normal(NormalFrame { frame_index: 1 }));
    assert_eq!(third, Frame::Spare(SpareFrame { frame_index: 3 }));
    assert_eq!(fourth, Frame::Normal(NormalFrame { frame_index: 5 }));
    assert_eq!(fifth, Frame::Normal(NormalFrame { frame_index: 7 }));
}

#[test]
fn empty_partial_score_is_the_first_frame_and_no_points() {
    let game = sample();
    assert_eq!(
        empty_partial_score(&game),
        PartialScore { frame: Frame::Strike(StrikeFrame { frame_index: 0 }), total: 0 }
    );
    assert_eq!(
        empty_partial_score(&new_game()),
        PartialScore { frame: Frame::Normal(NormalFrame { frame_index: 0 }), total: 0 }
    );
}

#[test]
fn next_score_counts_one_frame() {
    let game = sample();
    let start = empty_partial_score(&game);
    let one = start.next_score(&game);
    let two = one.next_score(&game);
    let three = two.next_score(&game);
    let four = three.next_score(&game);
    assert_eq!(one, PartialScore { frame: Frame::Normal(NormalFrame { frame_index: 1 }), total: 18 });
    assert_eq!(two, PartialScore { frame: Frame::Spare(SpareFrame { frame_index: 3 }), total: 26 });
    assert_eq!(
        three,
        PartialScore { frame: Frame::Normal(NormalFrame { frame_index: 5 }), total: 43 }
    );
    assert_eq!(four, PartialScore { frame: Frame::Normal(NormalFrame { frame_index: 7 }), total: 49 });
}

#[test]
fn ten_steps_of_next_score_give_the_score() {
    let mut game = new_game();
    for pins in [10, 10, 10, 10, 10, 10, 10, 10, 10, 4, 6, 3] {
        game.roll(pins);
    }
    let mut partial = empty_partial_score(&game);
    let totals = [30, 60, 90, 120, 150, 180, 210, 234, 254, 267];
    for expected in totals {
        partial = partial.next_score(&game);
        assert_eq!(partial.total, expected);
    }
    assert_eq!(partial.total, game.score());
    assert_eq!(partial.frame, Frame::Normal(NormalFrame { frame_index: 11 }));
}

#[test]
fn next_score_starts_from_the_state_it_is_given() {
    let game = sample();
    let state = PartialScore { frame: Frame::Spare(SpareFrame { frame_index: 3 }), total: 100 };
    assert_eq!(
        state.next_score(&game),
        PartialScore { frame: Frame::Normal(NormalFrame { frame_index: 5 }), total: 117 }
    );
}
