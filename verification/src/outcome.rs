//! Match outcomes and their attribution.
//!
//! A match ends in a status — a chip delta for the defender, or the
//! verdict of a validation-only game — or in an error.  Every error that
//! one seat caused carries that seat, so the rating engine can penalize
//! it; an internal error is attributable to neither seat.

use vstd::prelude::*;
use vstd::string::StringExecFns;

verus! {

/// One of the two fixed seats of a match: the defender is seat 0, the
/// challenger seat 1.
#[derive(PartialEq, Eq, Structural, Debug, Clone, Copy)]
pub enum WhichBot {
    Defender,
    Challenger,
}

impl WhichBot {
    /// The seat's index: 0 for the defender, 1 for the challenger.
    pub open spec fn spec_index(self) -> int {
        match self {
            WhichBot::Defender => 0,
            WhichBot::Challenger => 1,
        }
    }

    /// The seat's index: 0 for the defender, 1 for the challenger.
    pub fn index(self) -> (r: usize)
        ensures
            r == self.spec_index(),
    {
        match self {
            WhichBot::Defender => 0,
            WhichBot::Challenger => 1,
        }
    }

    /// The other seat.
    pub fn other(self) -> (r: WhichBot)
        ensures
            r.spec_index() == 1 - self.spec_index(),
    {
        match self {
            WhichBot::Defender => WhichBot::Challenger,
            WhichBot::Challenger => WhichBot::Defender,
        }
    }

    /// The seat with index `i`.
    pub fn from_index(i: usize) -> (r: WhichBot)
        requires
            i <= 1,
        ensures
            r.spec_index() == i,
    {
        if i == 0 {
            WhichBot::Defender
        } else {
            WhichBot::Challenger
        }
    }

    /// The seat's name, as the match log writes it.
    pub fn name(self) -> (r: String)
        ensures
            self is Defender ==> r@ =~= "Defender"@,
            self is Challenger ==> r@ =~= "Challenger"@,
    {
        match self {
            WhichBot::Defender => String::from_str("Defender"),
            WhichBot::Challenger => String::from_str("Challenger"),
        }
    }
}

/// Why a match failed.  Every kind but `InternalError` names the seat
/// at fault.
#[derive(PartialEq, Eq, Structural, Debug, Clone, Copy)]
pub enum GameError {
    /// An environment or configuration fault attributable to neither
    /// seat.
    InternalError,
    /// A malformed or rule-violating move by the named seat.
    InvalidActionError(WhichBot),
    /// A sandbox memory-quota violation by the named seat.
    MemoryError(WhichBot),
    /// A process or pipe failure of the named seat.
    RunTimeError(WhichBot),
    /// No reply from the named seat within the configured bound.
    TimeoutError(WhichBot),
}

/// How a match that ran to completion came out.
#[derive(PartialEq, Eq, Structural, Debug, Clone, Copy)]
pub enum GameStatus {
    /// A ladder match: the defender's chip delta against its starting
    /// stack.
    ScoreChanged(i32),
    /// A validation-only game that passed.
    TestGameSucceeded,
    /// A validation-only game that failed.
    TestGameFailed,
}

/// The terminal outcome of a match.
pub type GameResult = Result<GameStatus, GameError>;

/// A match outcome as delivered to the result engine: the match id and
/// the outcome itself.
#[derive(Debug)]
pub struct GameStatusMessage {
    /// The match's identifier.
    pub id: String,
    /// The outcome.
    pub result: GameResult,
}

} // verus!
