//! Verified core of a two-seat poker ladder: the betting engine for a single
//! round, the line protocol between the match runner and the two bot
//! processes, the match orchestration state machine, and the result/rating
//! engine that turns a match outcome into scores, rating deltas and a
//! persisted record.

pub mod accounts;
pub mod acquisition;
pub mod actions;
pub mod cards;
pub mod game;
pub mod hands;
pub mod languages;
pub mod outcome;
pub mod protocol;
pub mod rating;
pub mod results;
pub mod runner;
pub mod teams;
