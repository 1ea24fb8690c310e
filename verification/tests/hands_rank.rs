//! The showdown ranking: category order and exact ranks.

use pokerbots::cards::Card;
use pokerbots::hands::{hand_rank, CATEGORY_WEIGHT};

fn c(value: u8, suit: u8) -> Card {
    Card { value, suit }
}

fn rank(cards: [Card; 7]) -> u64 {
    hand_rank(&cards.to_vec())
}

#[test]
fn wheel_straight_rank_is_exact() {
    // ace through five, mixed suits, no pair and no flush
    let r = rank([
        c(14, 0),
        c(2, 1),
        c(3, 2),
        c(4, 3),
        c(5, 0),
        c(9, 1),
        c(11, 2),
    ]);
    assert_eq!(r, 4 * CATEGORY_WEIGHT + 5);
}

#[test]
fn categories_are_ordered() {
    let high_card = rank([
        c(2, 0),
        c(4, 1),
        c(6, 2),
        c(8, 3),
        c(10, 0),
        c(12, 1),
        c(14, 2),
    ]);
    let pair = rank([
        c(2, 0),
        c(2, 1),
        c(6, 2),
        c(8, 3),
        c(10, 0),
        c(12, 1),
        c(14, 2),
    ]);
    let two_pair = rank([
        c(2, 0),
        c(2, 1),
        c(6, 2),
        c(6, 3),
        c(10, 0),
        c(12, 1),
        c(14, 2),
    ]);
    let trips = rank([
        c(2, 0),
        c(2, 1),
        c(2, 2),
        c(6, 3),
        c(10, 0),
        c(12, 1),
        c(14, 2),
    ]);
    let straight = rank([
        c(3, 0),
        c(4, 1),
        c(5, 2),
        c(6, 3),
        c(7, 0),
        c(12, 1),
        c(14, 2),
    ]);
    let flush = rank([
        c(2, 0),
        c(4, 0),
        c(6, 0),
        c(8, 0),
        c(10, 0),
        c(12, 1),
        c(14, 2),
    ]);
    let full_house = rank([
        c(2, 0),
        c(2, 1),
        c(2, 2),
        c(6, 3),
        c(6, 0),
        c(12, 1),
        c(14, 2),
    ]);
    let quads = rank([
        c(2, 0),
        c(2, 1),
        c(2, 2),
        c(2, 3),
        c(10, 0),
        c(12, 1),
        c(14, 2),
    ]);
    let straight_flush = rank([
        c(3, 0),
        c(4, 0),
        c(5, 0),
        c(6, 0),
        c(7, 0),
        c(12, 1),
        c(14, 2),
    ]);
    assert!(high_card < pair);
    assert!(pair < two_pair);
    assert!(two_pair < trips);
    assert!(trips < straight);
    assert!(straight < flush);
    assert!(flush < full_house);
    assert!(full_house < quads);
    assert!(quads < straight_flush);
}

#[test]
fn kickers_break_ties_and_equal_hands_tie() {
    let ace_kicker = rank([
        c(9, 0),
        c(9, 1),
        c(14, 2),
        c(8, 3),
        c(4, 0),
        c(3, 1),
        c(2, 2),
    ]);
    let king_kicker = rank([
        c(9, 2),
        c(9, 3),
        c(13, 0),
        c(8, 1),
        c(4, 2),
        c(3, 3),
        c(2, 0),
    ]);
    assert!(ace_kicker > king_kicker);
    assert_eq!(
        rank([
            c(9, 0),
            c(9, 1),
            c(14, 2),
            c(8, 3),
            c(4, 0),
            c(3, 1),
            c(2, 2),
        ]),
        rank([
            c(9, 2),
            c(9, 3),
            c(14, 3),
            c(8, 0),
            c(4, 1),
            c(3, 2),
            c(2, 3),
        ])
    );
}

#[test]
fn higher_straight_beats_lower() {
    let nine_high = rank([
        c(5, 0),
        c(6, 1),
        c(7, 2),
        c(8, 3),
        c(9, 0),
        c(2, 1),
        c(12, 2),
    ]);
    let wheel = rank([
        c(14, 0),
        c(2, 1),
        c(3, 2),
        c(4, 3),
        c(5, 0),
        c(9, 1),
        c(11, 2),
    ]);
    assert!(nine_high > wheel);
}
