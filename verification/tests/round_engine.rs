//! The round engine: blinds, legality, settlement and chip
//! conservation.

use pokerbots::actions::Action;
use pokerbots::cards::Card;
use pokerbots::game::{EngineError, GameState};

fn c(value: u8, suit: u8) -> Card {
    Card { value, suit }
}

/// A 52-card deck whose first nine cards are the given holes and board;
/// the rest is never dealt.
fn deck(hole0: [Card; 2], hole1: [Card; 2], board: [Card; 5]) -> Vec<Card> {
    let mut d = vec![
        hole0[0], hole0[1], hole1[0], hole1[1], board[0], board[1], board[2], board[3], board[4],
    ];
    while d.len() < 52 {
        d.push(c(2, 0));
    }
    d
}

/// Aces for seat 0, rags for seat 1, a dry board.
fn aces_deck() -> Vec<Card> {
    deck(
        [c(14, 2), c(14, 1)],
        [c(2, 2), c(3, 0)],
        [c(5, 0), c(9, 1), c(11, 2), c(12, 3), c(7, 1)],
    )
}

#[test]
fn blinds_are_posted() {
    let g = GameState::new(50, 50, &aces_deck());
    assert_eq!(g.get_stack(false), 49);
    assert_eq!(g.get_stack(true), 48);
    assert_eq!(g.pushed0, 1);
    assert_eq!(g.pushed1, 2);
    assert_eq!(g.target_push, 2);
    assert_eq!(g.whose_turn(), Some(0));
    assert!(!g.round_over());
    assert_eq!(g.community_cards().len(), 0);
}

#[test]
fn fold_awards_pot_and_conserves_chips() {
    let g = GameState::new(50, 50, &aces_deck());
    let g = g.post_action(Action::Fold).unwrap();
    assert!(g.round_over());
    assert_eq!(g.whose_turn(), None);
    assert_eq!(g.get_stack(false), 49);
    assert_eq!(g.get_stack(true), 51);
    assert_eq!(g.get_stack(false) + g.get_stack(true), 100);
}

#[test]
fn checked_down_round_conserves_chips() {
    let mut g = GameState::new(50, 50, &aces_deck());
    g = g.post_action(Action::Call).unwrap();
    g = g.post_action(Action::Check).unwrap();
    assert_eq!(g.round, 1);
    assert_eq!(g.community_cards().len(), 3);
    for _ in 0..3 {
        g = g.post_action(Action::Check).unwrap();
        g = g.post_action(Action::Check).unwrap();
    }
    assert!(g.round_over());
    // seat 0's aces win the 4-chip pot
    assert_eq!(g.get_stack(false), 52);
    assert_eq!(g.get_stack(true), 48);
    assert_eq!(g.get_stack(false) + g.get_stack(true), 100);
}

#[test]
fn tied_showdown_splits_the_pot() {
    // both seats play the board's kings with equal kickers
    let d = deck(
        [c(2, 0), c(3, 1)],
        [c(2, 1), c(3, 0)],
        [c(13, 0), c(13, 1), c(9, 2), c(10, 3), c(6, 1)],
    );
    let mut g = GameState::new(50, 50, &d);
    g = g.post_action(Action::Call).unwrap();
    g = g.post_action(Action::Check).unwrap();
    for _ in 0..3 {
        g = g.post_action(Action::Check).unwrap();
        g = g.post_action(Action::Check).unwrap();
    }
    assert!(g.round_over());
    assert_eq!(g.get_stack(false), 50);
    assert_eq!(g.get_stack(true), 50);
}

#[test]
fn all_in_raise_and_call_reach_showdown() {
    let mut g = GameState::new(50, 50, &aces_deck());
    g = g.post_action(Action::Raise { amt: 50 }).unwrap();
    assert_eq!(g.get_stack(false), 0);
    g = g.post_action(Action::Call).unwrap();
    assert!(g.round_over());
    assert_eq!(g.get_stack(false), 100);
    assert_eq!(g.get_stack(true), 0);
}

#[test]
fn capped_call_refunds_the_surplus() {
    let mut g = GameState::new(50, 3, &aces_deck());
    assert_eq!(g.pushed1, 2);
    assert_eq!(g.get_stack(true), 1);
    g = g.post_action(Action::Raise { amt: 30 }).unwrap();
    g = g.post_action(Action::Call).unwrap();
    assert!(g.round_over());
    // the all-in matched 3 chips; seat 0's unmatched 27 came back
    assert_eq!(g.get_stack(false) + g.get_stack(true), 53);
    assert_eq!(g.get_stack(false), 53);
    assert_eq!(g.get_stack(true), 0);
}

#[test]
fn check_while_owing_is_rejected() {
    let g = GameState::new(50, 50, &aces_deck());
    assert!(matches!(
        g.post_action(Action::Check),
        Err(EngineError::CheckWhileOwing)
    ));
}

#[test]
fn raise_not_above_target_is_rejected() {
    let g = GameState::new(50, 50, &aces_deck());
    assert!(matches!(
        g.post_action(Action::Raise { amt: 2 }),
        Err(EngineError::RaiseTooSmall)
    ));
}

#[test]
fn raise_beyond_stack_is_rejected() {
    let g = GameState::new(50, 50, &aces_deck());
    assert!(matches!(
        g.post_action(Action::Raise { amt: 51 }),
        Err(EngineError::RaiseOverStack)
    ));
}
