//! The wire lines, the trim, and the card and deck helpers.

use pokerbots::cards::{fresh_deck, get_shuffled_deck, Card};
use pokerbots::protocol::{
    cards_line, log_line, position_line, round_end_line, status_line, str_eq, trim_line,
};

fn c(value: u8, suit: u8) -> Card {
    Card { value, suit }
}

#[test]
fn position_and_round_end_lines() {
    assert_eq!(position_line(0), "P 0");
    assert_eq!(position_line(1), "P 1");
    assert_eq!(round_end_line(), "E");
}

#[test]
fn status_line_is_exact() {
    assert_eq!(status_line(2, 1, 2, 49, 48), "S 2 1 2 49 48");
    assert_eq!(status_line(0, 0, 0, 0, 0), "S 0 0 0 0 0");
    assert_eq!(
        status_line(4294967295, 10, 200, 3000, 40000),
        "S 4294967295 10 200 3000 40000"
    );
}

#[test]
fn cards_line_formats_values_and_suits() {
    let cards = vec![c(14, 2), c(10, 0), c(2, 1), c(11, 3), c(13, 2)];
    assert_eq!(cards_line(&cards), "C Ah Tc 2d Js Kh");
}

#[test]
fn log_line_prefixes_the_milliseconds() {
    assert_eq!(log_line(0, "round 1/3"), "0ms round 1/3");
    assert_eq!(log_line(1234, "Defender < S 2 1 2 49 48"), "1234ms Defender < S 2 1 2 49 48");
}

#[test]
fn trim_strips_surrounding_whitespace() {
    assert_eq!(trim_line("R12\n"), "R12");
    assert_eq!(trim_line("  X \r\n"), "X");
    assert_eq!(trim_line("\t\n"), "");
    assert_eq!(trim_line("C"), "C");
    assert_eq!(trim_line("a b"), "a b");
}

#[test]
fn str_eq_compares_contents() {
    assert!(str_eq("python", "python"));
    assert!(!str_eq("python", "rust"));
    assert!(!str_eq("py", "python"));
}

#[test]
fn fresh_deck_holds_every_card_once() {
    let deck = fresh_deck();
    assert_eq!(deck.len(), 52);
    for v in 2..=14u8 {
        for s in 0..=3u8 {
            assert_eq!(
                deck.iter().filter(|k| k.value == v && k.suit == s).count(),
                1
            );
        }
    }
}

#[test]
fn shuffled_deck_is_a_permutation() {
    let deck = get_shuffled_deck();
    assert_eq!(deck.len(), 52);
    for v in 2..=14u8 {
        for s in 0..=3u8 {
            assert_eq!(
                deck.iter().filter(|k| k.value == v && k.suit == s).count(),
                1
            );
        }
    }
}
