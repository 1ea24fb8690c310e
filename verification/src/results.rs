//! The result engine: turns a terminal match outcome into raw scores,
//! rating deltas, status updates and the one persisted record.
//!
//! Raw scores live on a fixed `±100`/`0` scale: a ladder outcome gives
//! the defender its chip delta and the challenger the negation; an
//! internal error scores both seats 100; an attributable error scores
//! the faulting seat -100 and the opponent 100; validation games score
//! 0.  Ladder-affecting outcomes (a chip delta or any error) also get
//! rating deltas; validation outcomes instead update the bot's build
//! status, and a first validation success adopts the bot as its team's
//! active entrant if the team has none.  Every outcome yields exactly
//! one record.

use vstd::prelude::*;
use vstd::string::StringExecFns;
use crate::outcome::GameError;
use crate::outcome::GameResult;
use crate::outcome::GameStatus;
use crate::outcome::GameStatusMessage;
use crate::outcome::WhichBot;
use crate::rating::RATING_LIMIT;
use crate::rating::SCORE_SCALE;
use crate::rating::get_rating_change;
use crate::rating::normalize_score;
use crate::rating::spec_normalized_score;
use crate::rating::spec_rating_delta;

verus! {

/// A bot's build status as a validation game leaves it.
#[derive(PartialEq, Eq, Structural, Debug, Clone, Copy)]
pub enum BuildStatus {
    TestGameSucceeded,
    TestGameFailed,
}

/// The one record a match outcome persists.
pub struct NewGameResult {
    /// The match's identifier.
    pub id: String,
    /// The defender's rating delta, in thousandths of a point.
    pub defender_rating_change: i64,
    /// The challenger's rating delta, in thousandths of a point.
    pub challenger_rating_change: i64,
    /// The defender's raw score.
    pub defender_score: i32,
    /// The challenger's raw score.
    pub challenger_score: i32,
    /// The error kind's label, if the match failed.
    pub error_type: Option<String>,
    /// The faulting seat's index, if one seat was at fault.
    pub error_bot: Option<i32>,
}

/// Everything the caller must apply for one match outcome.
pub struct ResultDecision {
    /// Whether the rating deltas (and the team scores) change.
    pub apply_rating: bool,
    /// The build status to store for the bot, for validation games.
    pub set_build_status: Option<BuildStatus>,
    /// Whether the bot becomes its team's active entrant if the team
    /// has none yet.
    pub adopt_bot_if_none: bool,
    /// The record to persist.
    pub record: NewGameResult,
}

/// The raw scores of an outcome: defender's, then challenger's.
pub open spec fn spec_scores(r: GameResult) -> (int, int) {
    match r {
        Ok(GameStatus::ScoreChanged(d)) => (d as int, -(d as int)),
        Ok(GameStatus::TestGameSucceeded) => (0, 0),
        Ok(GameStatus::TestGameFailed) => (0, 0),
        Err(GameError::InternalError) => (100, 100),
        Err(GameError::InvalidActionError(w)) => spec_fault_scores(w),
        Err(GameError::MemoryError(w)) => spec_fault_scores(w),
        Err(GameError::RunTimeError(w)) => spec_fault_scores(w),
        Err(GameError::TimeoutError(w)) => spec_fault_scores(w),
    }
}

/// The raw scores of an error one seat caused: -100 for the faulting
/// seat, 100 for the opponent.
pub open spec fn spec_fault_scores(w: WhichBot) -> (int, int) {
    if w is Defender {
        (-100int, 100int)
    } else {
        (100int, -100int)
    }
}

/// The faulting seat's index, if one seat was at fault.
pub open spec fn spec_error_bot(r: GameResult) -> Option<i32> {
    match r {
        Ok(_) => None,
        Err(GameError::InternalError) => None,
        Err(GameError::InvalidActionError(w)) => Some(w.spec_index() as i32),
        Err(GameError::MemoryError(w)) => Some(w.spec_index() as i32),
        Err(GameError::RunTimeError(w)) => Some(w.spec_index() as i32),
        Err(GameError::TimeoutError(w)) => Some(w.spec_index() as i32),
    }
}

/// Whether the error's persisted label is `label`.
pub open spec fn spec_error_label(r: GameResult, label: Option<Seq<char>>) -> bool {
    match r {
        Ok(_) => label is None,
        Err(GameError::InternalError) => label == Some("INTERNAL"@),
        Err(GameError::InvalidActionError(_)) => label == Some("INVALID_ACTION"@),
        Err(GameError::MemoryError(_)) => label == Some("MEMORY"@),
        Err(GameError::RunTimeError(_)) => label == Some("RUNTIME"@),
        Err(GameError::TimeoutError(_)) => label == Some("TIMEOUT"@),
    }
}

/// Whether an outcome moves ratings: a ladder result or any error, but
/// not a validation game.
pub open spec fn spec_affects_rating(r: GameResult) -> bool {
    match r {
        Ok(GameStatus::ScoreChanged(_)) => true,
        Ok(_) => false,
        Err(_) => true,
    }
}

/// The persisted label of an error kind.
fn error_label(r: &GameResult) -> (label: Option<String>)
    ensures
        ({
            let v = match label {
                Some(s) => Some(s@),
                None => None::<Seq<char>>,
            };
            spec_error_label(*r, v)
        }),
{
    match r {
        Ok(_) => None,
        Err(GameError::InternalError) => Some(String::from_str("INTERNAL")),
        Err(GameError::InvalidActionError(_)) => Some(String::from_str("INVALID_ACTION")),
        Err(GameError::MemoryError(_)) => Some(String::from_str("MEMORY")),
        Err(GameError::RunTimeError(_)) => Some(String::from_str("RUNTIME")),
        Err(GameError::TimeoutError(_)) => Some(String::from_str("TIMEOUT")),
    }
}

/// Decides everything one match outcome implies: the raw scores, the
/// error attribution, whether and how much the ratings move, the build
/// status of a validation game, and the record to persist.  The
/// challenger's normalized score is the defender's complement on the
/// score scale, so the rating update is exactly zero-sum.
pub fn decide_game_result(
    msg: GameStatusMessage,
    defender_rating: i64,
    challenger_rating: i64,
) -> (r: ResultDecision)
    requires
        -RATING_LIMIT <= defender_rating <= RATING_LIMIT,
        -RATING_LIMIT <= challenger_rating <= RATING_LIMIT,
        (msg.result is Ok && msg.result->Ok_0 is ScoreChanged) ==> msg.result->Ok_0->ScoreChanged_0
            > i32::MIN,
    ensures
        r.record.id@ == msg.id@,
        (r.record.defender_score as int, r.record.challenger_score as int) == spec_scores(
            msg.result,
        ),
        ({
            let v = match r.record.error_type {
                Some(s) => Some(s@),
                None => None::<Seq<char>>,
            };
            spec_error_label(msg.result, v)
        }),
        r.record.error_bot == spec_error_bot(msg.result),
        r.apply_rating == spec_affects_rating(msg.result),
        r.apply_rating ==> ({
            let s0 = spec_normalized_score(spec_scores(msg.result).0);
            &&& r.record.defender_rating_change == spec_rating_delta(
                defender_rating as int,
                challenger_rating as int,
                s0,
            )
            &&& r.record.challenger_rating_change == spec_rating_delta(
                challenger_rating as int,
                defender_rating as int,
                SCORE_SCALE - s0,
            )
            &&& r.record.defender_rating_change + r.record.challenger_rating_change == 0
        }),
        !r.apply_rating ==> r.record.defender_rating_change == 0
            && r.record.challenger_rating_change == 0,
        r.set_build_status == (match msg.result {
            Ok(GameStatus::TestGameSucceeded) => Some(BuildStatus::TestGameSucceeded),
            Ok(GameStatus::TestGameFailed) => Some(BuildStatus::TestGameFailed),
            _ => None::<BuildStatus>,
        }),
        r.adopt_bot_if_none == (msg.result == Ok::<GameStatus, GameError>(
            GameStatus::TestGameSucceeded,
        )),
{
    let result = msg.result;
    let (defender_score, challenger_score): (i32, i32) = match result {
        Ok(GameStatus::ScoreChanged(d)) => (d, -d),
        Ok(GameStatus::TestGameSucceeded) => (0, 0),
        Ok(GameStatus::TestGameFailed) => (0, 0),
        Err(GameError::InternalError) => (100, 100),
        Err(GameError::InvalidActionError(w)) => fault_scores(w),
        Err(GameError::MemoryError(w)) => fault_scores(w),
        Err(GameError::RunTimeError(w)) => fault_scores(w),
        Err(GameError::TimeoutError(w)) => fault_scores(w),
    };
    let error_type = error_label(&result);
    let error_bot: Option<i32> = match result {
        Ok(_) => None,
        Err(GameError::InternalError) => None,
        Err(GameError::InvalidActionError(w)) => Some(w.index() as i32),
        Err(GameError::MemoryError(w)) => Some(w.index() as i32),
        Err(GameError::RunTimeError(w)) => Some(w.index() as i32),
        Err(GameError::TimeoutError(w)) => Some(w.index() as i32),
    };
    let apply_rating = match result {
        Ok(GameStatus::ScoreChanged(_)) => true,
        Ok(_) => false,
        Err(_) => true,
    };
    let (defender_rating_change, challenger_rating_change): (i64, i64) = if apply_rating {
        let s0 = normalize_score(defender_score);
        get_rating_change(defender_rating, s0, challenger_rating, SCORE_SCALE - s0)
    } else {
        (0, 0)
    };
    let set_build_status = match result {
        Ok(GameStatus::TestGameSucceeded) => Some(BuildStatus::TestGameSucceeded),
        Ok(GameStatus::TestGameFailed) => Some(BuildStatus::TestGameFailed),
        _ => None,
    };
    let adopt_bot_if_none = match result {
        Ok(GameStatus::TestGameSucceeded) => true,
        _ => false,
    };
    ResultDecision {
        apply_rating,
        set_build_status,
        adopt_bot_if_none,
        record: NewGameResult {
            id: msg.id,
            defender_rating_change,
            challenger_rating_change,
            defender_score,
            challenger_score,
            error_type,
            error_bot,
        },
    }
}

/// The raw scores of an error one seat caused.
fn fault_scores(w: WhichBot) -> (r: (i32, i32))
    ensures
        (r.0 as int, r.1 as int) == spec_fault_scores(w),
{
    match w {
        WhichBot::Defender => (-100, 100),
        WhichBot::Challenger => (100, -100),
    }
}

/// A team's new active entrant after a validation success: the fresh
/// bot only where the team has none yet.
pub fn adopt_active_bot(current: Option<i32>, bot: i32) -> (r: Option<i32>)
    ensures
        current is Some ==> r == current,
        current is None ==> r == Some(bot),
{
    match current {
        Some(b) => Some(b),
        None => Some(bot),
    }
}

/// A team score in whole points: the bot's updated rating, in
/// thousandths, rounded half away from zero.
pub open spec fn spec_round_points(x: int) -> int {
    if x >= 0 {
        (x + 500) / 1000
    } else {
        -((-x + 500) / 1000)
    }
}

/// Rounds an updated rating in thousandths to the whole points a team
/// score stores, half away from zero.
pub fn team_score_points(rating_milli: i64) -> (r: i64)
    requires
        -2 * RATING_LIMIT <= rating_milli <= 2 * RATING_LIMIT,
    ensures
        r == spec_round_points(rating_milli as int),
{
    if rating_milli >= 0 {
        (rating_milli + 500) / 1000
    } else {
        -((-rating_milli + 500) / 1000)
    }
}

} // verus!
