//! The orchestrator: protocol traffic, button alternation, early
//! stops, timeouts and invalid actions.

use pokerbots::cards::Card;
use pokerbots::outcome::{GameError, GameStatus, WhichBot};
use pokerbots::runner::{MatchRunner, Step};

fn c(value: u8, suit: u8) -> Card {
    Card { value, suit }
}

fn deck(hole0: [Card; 2], hole1: [Card; 2], board: [Card; 5]) -> Vec<Card> {
    let mut d = vec![
        hole0[0], hole0[1], hole1[0], hole1[1], board[0], board[1], board[2], board[3], board[4],
    ];
    while d.len() < 52 {
        d.push(c(2, 0));
    }
    d
}

fn aces_deck() -> Vec<Card> {
    deck(
        [c(14, 2), c(14, 1)],
        [c(2, 2), c(3, 0)],
        [c(5, 0), c(9, 1), c(11, 2), c(12, 3), c(7, 1)],
    )
}

/// Pops every queued message, returning `(to, line)` pairs.
fn drain(r: &mut MatchRunner) -> Vec<(WhichBot, String)> {
    let mut out = Vec::new();
    while matches!(r.next_step(), Step::Send) {
        let m = r.take_message();
        out.push((m.to, m.line));
    }
    out
}

#[test]
fn round_opening_messages_are_exact() {
    let mut r = MatchRunner::new(1);
    assert_eq!(r.next_step(), Step::NeedDeck);
    r.begin_round(&aces_deck());
    let msgs = drain(&mut r);
    assert_eq!(
        msgs,
        vec![
            (WhichBot::Defender, "P 0".to_string()),
            (WhichBot::Challenger, "P 1".to_string()),
            (WhichBot::Defender, "C Ah Ad".to_string()),
            (WhichBot::Challenger, "C 2h 3c".to_string()),
            (WhichBot::Defender, "S 2 1 2 49 48".to_string()),
        ]
    );
    assert_eq!(r.next_step(), Step::Await(WhichBot::Defender));
}

#[test]
fn flop_broadcast_follows_the_preflop() {
    let mut r = MatchRunner::new(1);
    r.begin_round(&aces_deck());
    drain(&mut r);
    r.on_line("C\n");
    assert_eq!(
        drain(&mut r),
        vec![(WhichBot::Challenger, "S 2 2 2 48 48".to_string())]
    );
    assert_eq!(r.next_step(), Step::Await(WhichBot::Challenger));
    r.on_line("X\n");
    assert_eq!(
        drain(&mut r),
        vec![
            (WhichBot::Defender, "C Ah Ad 5c 9d Jh".to_string()),
            (WhichBot::Challenger, "C 2h 3c 5c 9d Jh".to_string()),
            (WhichBot::Challenger, "S 2 2 2 48 48".to_string()),
        ]
    );
    assert_eq!(r.next_step(), Step::Await(WhichBot::Challenger));
}

#[test]
fn button_alternates_between_rounds() {
    let mut r = MatchRunner::new(3);
    assert_eq!(r.button, 0);
    r.begin_round(&aces_deck());
    drain(&mut r);
    r.on_line("F");
    assert_eq!(r.round_index, 1);
    assert_eq!(r.button, 1);
    let msgs = drain(&mut r);
    assert_eq!(
        msgs,
        vec![
            (WhichBot::Defender, "E".to_string()),
            (WhichBot::Challenger, "E".to_string()),
        ]
    );
    assert_eq!(r.next_step(), Step::NeedDeck);
    r.begin_round(&aces_deck());
    // with the button at seat 1, the challenger is engine seat 0
    let msgs = drain(&mut r);
    assert_eq!(msgs[0], (WhichBot::Defender, "P 1".to_string()));
    assert_eq!(msgs[1], (WhichBot::Challenger, "P 0".to_string()));
    assert_eq!(r.next_step(), Step::Await(WhichBot::Challenger));
    r.on_line("F");
    assert_eq!(r.round_index, 2);
    assert_eq!(r.button, 0);
}

#[test]
fn match_plays_all_rounds_and_reports_the_delta() {
    let mut r = MatchRunner::new(2);
    // round 1: the defender folds its small blind
    r.begin_round(&aces_deck());
    drain(&mut r);
    r.on_line("F");
    drain(&mut r);
    assert_eq!(r.next_step(), Step::NeedDeck);
    // round 2: the challenger (now on the button) folds its small blind
    r.begin_round(&aces_deck());
    drain(&mut r);
    r.on_line("F");
    drain(&mut r);
    assert_eq!(r.next_step(), Step::Done);
    assert_eq!(r.result(), Some(Ok(GameStatus::ScoreChanged(0))));
    assert_eq!(r.round_index, 2);
}

#[test]
fn checked_down_match_reports_the_showdown_win() {
    let mut r = MatchRunner::new(1);
    r.begin_round(&aces_deck());
    drain(&mut r);
    r.on_line("C\n");
    drain(&mut r);
    // the big blind closes the preflop; after each street the seat off
    // the button acts first
    let replies = ["X", "X", "X", "X", "X", "X", "X"];
    for line in replies {
        match r.next_step() {
            Step::Await(_) => {}
            other => panic!("expected to await a reply, got {:?}", other),
        }
        r.on_line(line);
        drain(&mut r);
    }
    assert_eq!(r.next_step(), Step::Done);
    // seat 0's aces take the 4-chip pot
    assert_eq!(r.result(), Some(Ok(GameStatus::ScoreChanged(2))));
    assert_eq!(r.stack_a, 52);
    assert_eq!(r.stack_b, 48);
}

#[test]
fn match_stops_early_when_a_stack_empties() {
    let mut r = MatchRunner::new(5);
    r.begin_round(&aces_deck());
    drain(&mut r);
    r.on_line("R50");
    drain(&mut r);
    r.on_line("C");
    drain(&mut r);
    assert_eq!(r.next_step(), Step::Done);
    assert_eq!(r.result(), Some(Ok(GameStatus::ScoreChanged(50))));
    assert_eq!(r.round_index, 1);
    assert_eq!(r.stack_b, 0);
}

#[test]
fn zero_round_match_is_immediately_done() {
    let r = MatchRunner::new(0);
    assert_eq!(r.next_step(), Step::Done);
    assert_eq!(r.result(), Some(Ok(GameStatus::ScoreChanged(0))));
}

#[test]
fn timeout_ends_the_match_with_no_further_messages() {
    let mut r = MatchRunner::new(3);
    r.begin_round(&aces_deck());
    drain(&mut r);
    assert_eq!(r.next_step(), Step::Await(WhichBot::Defender));
    r.on_timeout();
    assert_eq!(
        r.result(),
        Some(Err(GameError::TimeoutError(WhichBot::Defender)))
    );
    assert_eq!(r.next_step(), Step::Done);
    assert!(drain(&mut r).is_empty());
}

#[test]
fn unparseable_line_is_an_invalid_action() {
    let mut r = MatchRunner::new(3);
    r.begin_round(&aces_deck());
    drain(&mut r);
    r.on_line("B\n");
    assert_eq!(
        r.result(),
        Some(Err(GameError::InvalidActionError(WhichBot::Defender)))
    );
    assert_eq!(r.next_step(), Step::Done);
}

#[test]
fn illegal_action_is_an_invalid_action() {
    let mut r = MatchRunner::new(3);
    r.begin_round(&aces_deck());
    drain(&mut r);
    // a check is owed chips preflop
    r.on_line("X\n");
    assert_eq!(
        r.result(),
        Some(Err(GameError::InvalidActionError(WhichBot::Defender)))
    );
}

#[test]
fn read_and_send_failures_are_runtime_errors() {
    let mut r = MatchRunner::new(3);
    r.begin_round(&aces_deck());
    drain(&mut r);
    r.on_read_failure();
    assert_eq!(
        r.result(),
        Some(Err(GameError::RunTimeError(WhichBot::Defender)))
    );
    let mut r2 = MatchRunner::new(3);
    r2.begin_round(&aces_deck());
    r2.on_send_failure(WhichBot::Challenger);
    assert_eq!(
        r2.result(),
        Some(Err(GameError::RunTimeError(WhichBot::Challenger)))
    );
    assert_eq!(r2.next_step(), Step::Done);
}
