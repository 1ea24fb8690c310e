//! The result engine and the rating update.

use pokerbots::outcome::{GameError, GameStatus, GameStatusMessage, WhichBot};
use pokerbots::rating::{get_rating_change, normalize_score, SCORE_SCALE};
use pokerbots::results::{
    adopt_active_bot, decide_game_result, team_score_points, BuildStatus,
};

fn msg(result: Result<GameStatus, GameError>) -> GameStatusMessage {
    GameStatusMessage {
        id: "42".to_string(),
        result,
    }
}

#[test]
fn normalization_is_exact() {
    assert_eq!(normalize_score(-100), 0);
    assert_eq!(normalize_score(0), 500);
    assert_eq!(normalize_score(50), 750);
    assert_eq!(normalize_score(100), 1000);
    assert_eq!(normalize_score(250), 1000);
    assert_eq!(normalize_score(-250), 0);
}

#[test]
fn equal_ratings_clean_win_is_symmetric_and_positive() {
    // equal pre-match ratings, a clean win for seat 0
    let s0 = normalize_score(50);
    let (d0, d1) = get_rating_change(1_000_000, s0, 1_000_000, SCORE_SCALE - s0);
    assert!(d0 > 0);
    assert_eq!(d1, -d0);
    assert_eq!(d0, 8000);
}

#[test]
fn expected_score_favours_the_leader() {
    // a 400-point lead: the leader expects three quarters of the scale
    let (d0, d1) = get_rating_change(1_400_000, 1000, 1_000_000, 0);
    assert_eq!(d0, 8000);
    assert_eq!(d1, -8000);
    // the leader winning gains less than an equal opponent would
    let (e0, _) = get_rating_change(1_000_000, 1000, 1_000_000, 0);
    assert_eq!(e0, 16000);
    assert!(d0 < e0);
}

#[test]
fn score_changed_outcome_moves_ratings() {
    let d = decide_game_result(msg(Ok(GameStatus::ScoreChanged(50))), 1_000_000, 1_000_000);
    assert!(d.apply_rating);
    assert_eq!(d.set_build_status, None);
    assert!(!d.adopt_bot_if_none);
    assert_eq!(d.record.id, "42");
    assert_eq!(d.record.defender_score, 50);
    assert_eq!(d.record.challenger_score, -50);
    assert_eq!(d.record.error_type, None);
    assert_eq!(d.record.error_bot, None);
    assert_eq!(d.record.defender_rating_change, 8000);
    assert_eq!(d.record.challenger_rating_change, -8000);
}

#[test]
fn internal_error_scores_both_seats() {
    let d = decide_game_result(msg(Err(GameError::InternalError)), 1_000_000, 1_000_000);
    assert_eq!(d.record.defender_score, 100);
    assert_eq!(d.record.challenger_score, 100);
    assert_eq!(d.record.error_type, Some("INTERNAL".to_string()));
    assert_eq!(d.record.error_bot, None);
    assert!(d.apply_rating);
}

#[test]
fn invalid_action_is_recorded_against_its_seat() {
    let d = decide_game_result(
        msg(Err(GameError::InvalidActionError(WhichBot::Challenger))),
        1_000_000,
        1_000_000,
    );
    assert_eq!(d.record.defender_score, 100);
    assert_eq!(d.record.challenger_score, -100);
    assert_eq!(d.record.error_type, Some("INVALID_ACTION".to_string()));
    assert_eq!(d.record.error_bot, Some(1));
    let d0 = decide_game_result(
        msg(Err(GameError::InvalidActionError(WhichBot::Defender))),
        1_000_000,
        1_000_000,
    );
    assert_eq!(d0.record.defender_score, -100);
    assert_eq!(d0.record.error_type, Some("INVALID_ACTION".to_string()));
    assert_eq!(d0.record.error_bot, Some(0));
}

#[test]
fn every_error_kind_has_its_label() {
    let cases = vec![
        (GameError::MemoryError(WhichBot::Defender), "MEMORY", Some(0)),
        (GameError::RunTimeError(WhichBot::Challenger), "RUNTIME", Some(1)),
        (GameError::TimeoutError(WhichBot::Defender), "TIMEOUT", Some(0)),
    ];
    for (e, label, seat) in cases {
        let d = decide_game_result(msg(Err(e)), 0, 0);
        assert_eq!(d.record.error_type, Some(label.to_string()));
        assert_eq!(d.record.error_bot, seat);
        assert!(d.apply_rating);
    }
}

#[test]
fn validation_games_do_not_move_ratings() {
    let d = decide_game_result(msg(Ok(GameStatus::TestGameSucceeded)), 1_000_000, 2_000_000);
    assert!(!d.apply_rating);
    assert_eq!(d.record.defender_rating_change, 0);
    assert_eq!(d.record.challenger_rating_change, 0);
    assert_eq!(d.set_build_status, Some(BuildStatus::TestGameSucceeded));
    assert!(d.adopt_bot_if_none);
    let f = decide_game_result(msg(Ok(GameStatus::TestGameFailed)), 1_000_000, 2_000_000);
    assert_eq!(f.set_build_status, Some(BuildStatus::TestGameFailed));
    assert!(!f.adopt_bot_if_none);
    assert_eq!(f.record.defender_score, 0);
    assert_eq!(f.record.challenger_score, 0);
}

#[test]
fn first_validation_success_adopts_the_bot() {
    assert_eq!(adopt_active_bot(None, 7), Some(7));
    assert_eq!(adopt_active_bot(Some(3), 7), Some(3));
}

#[test]
fn team_scores_round_half_away_from_zero() {
    assert_eq!(team_score_points(1_499), 1);
    assert_eq!(team_score_points(1_500), 2);
    assert_eq!(team_score_points(-1_499), -1);
    assert_eq!(team_score_points(-1_500), -2);
    assert_eq!(team_score_points(0), 0);
}
