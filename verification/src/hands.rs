//! Ranking of a seven-card poker hand (two hole cards and five community
//! cards) for the showdown.
//!
//! A hand's rank is a single integer: a category (straight flush down to
//! high card) weighted by `15^5`, plus up to five tie-break values below
//! that weight.  A larger rank wins the pot; equal ranks split it.

use vstd::prelude::*;
use crate::cards::Card;

verus! {

/// Weight of one category step: tie-breaks always stay below it.
pub const CATEGORY_WEIGHT: u64 = 759375;

/// One below `v`, not going under zero: the bound for the next search
/// after a tie-break value was found.
pub open spec fn below_val(v: int) -> int {
    if v >= 1 {
        v - 1
    } else {
        0
    }
}

/// How many cards of `s` have value `v`.
pub open spec fn count_value(s: Seq<Card>, v: int) -> int
    decreases s.len(),
{
    if s.len() == 0 {
        0
    } else {
        (if s[0].value == v {
            1int
        } else {
            0int
        }) + count_value(s.skip(1), v)
    }
}

/// How many cards of `s` have suit `u`.
pub open spec fn count_suit(s: Seq<Card>, u: int) -> int
    decreases s.len(),
{
    if s.len() == 0 {
        0
    } else {
        (if s[0].suit == u {
            1int
        } else {
            0int
        }) + count_suit(s.skip(1), u)
    }
}

/// How many cards of `s` have value `v` and suit `u`.
pub open spec fn count_value_in_suit(s: Seq<Card>, v: int, u: int) -> int
    decreases s.len(),
{
    if s.len() == 0 {
        0
    } else {
        (if s[0].value == v && s[0].suit == u {
            1int
        } else {
            0int
        }) + count_value_in_suit(s.skip(1), v, u)
    }
}

/// Whether value `v` is present; for straights the ace (14) also counts
/// as a 1.
pub open spec fn present(s: Seq<Card>, v: int) -> bool {
    if v == 1 {
        count_value(s, 14) > 0
    } else {
        count_value(s, v) > 0
    }
}

/// Whether value `v` is present in suit `u`; the ace also counts as a 1.
pub open spec fn present_in_suit(s: Seq<Card>, v: int, u: int) -> bool {
    if v == 1 {
        count_value_in_suit(s, 14, u) > 0
    } else {
        count_value_in_suit(s, v, u) > 0
    }
}

/// Whether `hi` is the top of a five-card run of present values.
pub open spec fn straight_at(s: Seq<Card>, hi: int) -> bool {
    present(s, hi) && present(s, hi - 1) && present(s, hi - 2) && present(s, hi - 3) && present(
        s,
        hi - 4,
    )
}

/// The highest straight top at most `hi`, or 0 if there is none.
pub open spec fn straight_high_from(s: Seq<Card>, hi: int) -> int
    decreases hi,
{
    if hi < 5 {
        0
    } else if straight_at(s, hi) {
        hi
    } else {
        straight_high_from(s, hi - 1)
    }
}

/// Whether `hi` tops a five-card run of values all in suit `u`.
pub open spec fn straight_flush_at(s: Seq<Card>, hi: int, u: int) -> bool {
    present_in_suit(s, hi, u) && present_in_suit(s, hi - 1, u) && present_in_suit(s, hi - 2, u)
        && present_in_suit(s, hi - 3, u) && present_in_suit(s, hi - 4, u)
}

/// The highest straight-flush top in suit `u` at most `hi`, or 0.
pub open spec fn straight_flush_high_from(s: Seq<Card>, hi: int, u: int) -> int
    decreases hi,
{
    if hi < 5 {
        0
    } else if straight_flush_at(s, hi, u) {
        hi
    } else {
        straight_flush_high_from(s, hi - 1, u)
    }
}

/// The suit holding five or more cards of `s`, or -1 if there is none.
/// Seven cards can fill at most one suit that far.
pub open spec fn flush_suit(s: Seq<Card>) -> int {
    if count_suit(s, 0) >= 5 {
        0
    } else if count_suit(s, 1) >= 5 {
        1
    } else if count_suit(s, 2) >= 5 {
        2
    } else if count_suit(s, 3) >= 5 {
        3
    } else {
        -1
    }
}

/// The largest value at most `v` held at least `m` times, or 0.
pub open spec fn best_value_from(s: Seq<Card>, v: int, m: int) -> int
    decreases v,
{
    if v < 2 {
        0
    } else if count_value(s, v) >= m {
        v
    } else {
        best_value_from(s, v - 1, m)
    }
}

/// The largest value at most `v` held at least `m` times and different
/// from `e1` and `e2`, or 0.
pub open spec fn best_value_excl_from(s: Seq<Card>, v: int, m: int, e1: int, e2: int) -> int
    decreases v,
{
    if v < 2 {
        0
    } else if v != e1 && v != e2 && count_value(s, v) >= m {
        v
    } else {
        best_value_excl_from(s, v - 1, m, e1, e2)
    }
}

/// The largest value at most `v` present in suit `u`, or 0.
pub open spec fn best_in_suit_from(s: Seq<Card>, v: int, u: int) -> int
    decreases v,
{
    if v < 2 {
        0
    } else if count_value_in_suit(s, v, u) > 0 {
        v
    } else {
        best_in_suit_from(s, v - 1, u)
    }
}

/// The rank of a hand: category times [`CATEGORY_WEIGHT`] plus its
/// tie-break values, each a base-15 digit.  Categories, from 8 down to 0:
/// straight flush, four of a kind, full house, flush, straight, three of
/// a kind, two pair, pair, high card.
pub open spec fn spec_hand_rank(s: Seq<Card>) -> int {
    let w = CATEGORY_WEIGHT as int;
    let fs = flush_suit(s);
    let sfh = if fs >= 0 {
        straight_flush_high_from(s, 14, fs)
    } else {
        0
    };
    let quad = best_value_from(s, 14, 4);
    let trips = best_value_from(s, 14, 3);
    let fh_pair = if trips > 0 {
        best_value_excl_from(s, 14, 2, trips, trips)
    } else {
        0
    };
    let sth = straight_high_from(s, 14);
    let pair = best_value_from(s, 14, 2);
    let pair2 = if pair > 0 {
        best_value_excl_from(s, 14, 2, pair, pair)
    } else {
        0
    };
    if sfh > 0 {
        8 * w + sfh
    } else if quad > 0 {
        7 * w + quad * 15 + best_value_excl_from(s, 14, 1, quad, quad)
    } else if trips > 0 && fh_pair > 0 {
        6 * w + trips * 15 + fh_pair
    } else if fs >= 0 {
        let f1 = best_in_suit_from(s, 14, fs);
        let f2 = best_in_suit_from(s, below_val(f1), fs);
        let f3 = best_in_suit_from(s, below_val(f2), fs);
        let f4 = best_in_suit_from(s, below_val(f3), fs);
        let f5 = best_in_suit_from(s, below_val(f4), fs);
        5 * w + f1 * 50625 + f2 * 3375 + f3 * 225 + f4 * 15 + f5
    } else if sth > 0 {
        4 * w + sth
    } else if trips > 0 {
        let k1 = best_value_excl_from(s, 14, 1, trips, trips);
        let k2 = best_value_excl_from(s, below_val(k1), 1, trips, trips);
        3 * w + trips * 225 + k1 * 15 + k2
    } else if pair > 0 && pair2 > 0 {
        2 * w + pair * 225 + pair2 * 15 + best_value_excl_from(s, 14, 1, pair, pair2)
    } else if pair > 0 {
        let k1 = best_value_excl_from(s, 14, 1, pair, pair);
        let k2 = best_value_excl_from(s, below_val(k1), 1, pair, pair);
        let k3 = best_value_excl_from(s, below_val(k2), 1, pair, pair);
        1 * w + pair * 3375 + k1 * 225 + k2 * 15 + k3
    } else {
        let t1 = best_value_from(s, 14, 1);
        let t2 = best_value_from(s, below_val(t1), 1);
        let t3 = best_value_from(s, below_val(t2), 1);
        let t4 = best_value_from(s, below_val(t3), 1);
        let t5 = best_value_from(s, below_val(t4), 1);
        t1 * 50625 + t2 * 3375 + t3 * 225 + t4 * 15 + t5
    }
}

/// A value count never exceeds the number of cards.
proof fn lemma_count_value_le_len(s: Seq<Card>, v: int)
    ensures
        0 <= count_value(s, v) <= s.len(),
    decreases s.len(),
{
    if s.len() > 0 {
        lemma_count_value_le_len(s.skip(1), v);
    }
}

/// A suit count never exceeds the number of cards.
proof fn lemma_count_suit_le_len(s: Seq<Card>, u: int)
    ensures
        0 <= count_suit(s, u) <= s.len(),
    decreases s.len(),
{
    if s.len() > 0 {
        lemma_count_suit_le_len(s.skip(1), u);
    }
}

/// A value-and-suit count never exceeds the number of cards.
proof fn lemma_count_value_in_suit_le_len(s: Seq<Card>, v: int, u: int)
    ensures
        0 <= count_value_in_suit(s, v, u) <= s.len(),
    decreases s.len(),
{
    if s.len() > 0 {
        lemma_count_value_in_suit_le_len(s.skip(1), v, u);
    }
}

/// The best value found never exceeds the bound searched from.
proof fn lemma_best_value_bound(s: Seq<Card>, v: int, m: int)
    ensures
        0 <= best_value_from(s, v, m),
        best_value_from(s, v, m) <= if v >= 0 {
            v
        } else {
            0
        },
    decreases v,
{
    if v >= 2 {
        lemma_best_value_bound(s, v - 1, m);
    }
}

/// The best value found with exclusions never exceeds the bound.
proof fn lemma_best_value_excl_bound(s: Seq<Card>, v: int, m: int, e1: int, e2: int)
    ensures
        0 <= best_value_excl_from(s, v, m, e1, e2),
        best_value_excl_from(s, v, m, e1, e2) <= if v >= 0 {
            v
        } else {
            0
        },
    decreases v,
{
    if v >= 2 {
        lemma_best_value_excl_bound(s, v - 1, m, e1, e2);
    }
}

/// The best in-suit value found never exceeds the bound.
proof fn lemma_best_in_suit_bound(s: Seq<Card>, v: int, u: int)
    ensures
        0 <= best_in_suit_from(s, v, u),
        best_in_suit_from(s, v, u) <= if v >= 0 {
            v
        } else {
            0
        },
    decreases v,
{
    if v >= 2 {
        lemma_best_in_suit_bound(s, v - 1, u);
    }
}

/// A straight top found is at most the bound searched from.
proof fn lemma_straight_high_bound(s: Seq<Card>, hi: int)
    ensures
        0 <= straight_high_from(s, hi),
        straight_high_from(s, hi) <= if hi >= 0 {
            hi
        } else {
            0
        },
    decreases hi,
{
    if hi >= 5 {
        lemma_straight_high_bound(s, hi - 1);
    }
}

/// A straight-flush top found is at most the bound searched from.
proof fn lemma_straight_flush_high_bound(s: Seq<Card>, hi: int, u: int)
    ensures
        0 <= straight_flush_high_from(s, hi, u),
        straight_flush_high_from(s, hi, u) <= if hi >= 0 {
            hi
        } else {
            0
        },
    decreases hi,
{
    if hi >= 5 {
        lemma_straight_flush_high_bound(s, hi - 1, u);
    }
}

/// Every hand rank is below nine category steps.
pub proof fn lemma_hand_rank_bound(s: Seq<Card>)
    ensures
        0 <= spec_hand_rank(s) < 9 * (CATEGORY_WEIGHT as int),
{
    lemma_best_value_bound(s, 14, 4);
    lemma_best_value_bound(s, 14, 3);
    lemma_best_value_bound(s, 14, 2);
    lemma_best_value_bound(s, 14, 1);
    let trips = best_value_from(s, 14, 3);
    let pair = best_value_from(s, 14, 2);
    lemma_best_value_excl_bound(s, 14, 2, trips, trips);
    lemma_best_value_excl_bound(s, 14, 1, trips, trips);
    lemma_best_value_excl_bound(s, 14, 2, pair, pair);
    lemma_best_value_excl_bound(s, 14, 1, pair, pair);
    let quad = best_value_from(s, 14, 4);
    lemma_best_value_excl_bound(s, 14, 1, quad, quad);
    let pair2 = best_value_excl_from(s, 14, 2, pair, pair);
    lemma_best_value_excl_bound(s, 14, 1, pair, pair2);
    let k1t = best_value_excl_from(s, 14, 1, trips, trips);
    lemma_best_value_excl_bound(s, below_val(k1t), 1, trips, trips);
    let k1p = best_value_excl_from(s, 14, 1, pair, pair);
    lemma_best_value_excl_bound(s, below_val(k1p), 1, pair, pair);
    let k2p = best_value_excl_from(s, below_val(k1p), 1, pair, pair);
    lemma_best_value_excl_bound(s, below_val(k2p), 1, pair, pair);
    let fs = flush_suit(s);
    lemma_straight_flush_high_bound(s, 14, fs);
    lemma_straight_high_bound(s, 14);
    lemma_best_in_suit_bound(s, 14, fs);
    let f1 = best_in_suit_from(s, 14, fs);
    lemma_best_in_suit_bound(s, below_val(f1), fs);
    let f2 = best_in_suit_from(s, below_val(f1), fs);
    lemma_best_in_suit_bound(s, below_val(f2), fs);
    let f3 = best_in_suit_from(s, below_val(f2), fs);
    lemma_best_in_suit_bound(s, below_val(f3), fs);
    let f4 = best_in_suit_from(s, below_val(f3), fs);
    lemma_best_in_suit_bound(s, below_val(f4), fs);
    let t1 = best_value_from(s, 14, 1);
    lemma_best_value_bound(s, below_val(t1), 1);
    let t2 = best_value_from(s, below_val(t1), 1);
    lemma_best_value_bound(s, below_val(t2), 1);
    let t3 = best_value_from(s, below_val(t2), 1);
    lemma_best_value_bound(s, below_val(t3), 1);
    let t4 = best_value_from(s, below_val(t3), 1);
    lemma_best_value_bound(s, below_val(t4), 1);
}

/// Counts the cards from position `i` on whose value is `v`.
fn count_value_at(cards: &Vec<Card>, i: usize, v: u8) -> (r: usize)
    requires
        i <= cards@.len(),
    ensures
        r == count_value(cards@.skip(i as int), v as int),
        r <= cards@.len() - i,
    decreases cards@.len() - i,
{
    if i == cards.len() {
        assert(cards@.skip(i as int) =~= Seq::<Card>::empty());
        0
    } else {
        let rest = count_value_at(cards, i + 1, v);
        proof {
            assert(cards@.skip(i as int).skip(1) =~= cards@.skip(i + 1));
            assert(cards@.skip(i as int)[0] == cards@[i as int]);
        }
        if cards[i].value == v {
            1 + rest
        } else {
            rest
        }
    }
}

/// Counts the cards from position `i` on whose suit is `u`.
fn count_suit_at(cards: &Vec<Card>, i: usize, u: u8) -> (r: usize)
    requires
        i <= cards@.len(),
    ensures
        r == count_suit(cards@.skip(i as int), u as int),
        r <= cards@.len() - i,
    decreases cards@.len() - i,
{
    if i == cards.len() {
        assert(cards@.skip(i as int) =~= Seq::<Card>::empty());
        0
    } else {
        let rest = count_suit_at(cards, i + 1, u);
        proof {
            assert(cards@.skip(i as int).skip(1) =~= cards@.skip(i + 1));
            assert(cards@.skip(i as int)[0] == cards@[i as int]);
        }
        if cards[i].suit == u {
            1 + rest
        } else {
            rest
        }
    }
}

/// Counts the cards from position `i` on with value `v` and suit `u`.
fn count_value_in_suit_at(cards: &Vec<Card>, i: usize, v: u8, u: u8) -> (r: usize)
    requires
        i <= cards@.len(),
    ensures
        r == count_value_in_suit(cards@.skip(i as int), v as int, u as int),
        r <= cards@.len() - i,
    decreases cards@.len() - i,
{
    if i == cards.len() {
        assert(cards@.skip(i as int) =~= Seq::<Card>::empty());
        0
    } else {
        let rest = count_value_in_suit_at(cards, i + 1, v, u);
        proof {
            assert(cards@.skip(i as int).skip(1) =~= cards@.skip(i + 1));
            assert(cards@.skip(i as int)[0] == cards@[i as int]);
        }
        if cards[i].value == v && cards[i].suit == u {
            1 + rest
        } else {
            rest
        }
    }
}

/// Whether value `v` is present, the ace also counting as a 1.
fn is_present(cards: &Vec<Card>, v: u8) -> (r: bool)
    ensures
        r == present(cards@, v as int),
{
    proof {
        assert(cards@.skip(0) =~= cards@);
    }
    if v == 1 {
        count_value_at(cards, 0, 14) > 0
    } else {
        count_value_at(cards, 0, v) > 0
    }
}

/// Whether value `v` is present in suit `u`, the ace also counting as 1.
fn is_present_in_suit(cards: &Vec<Card>, v: u8, u: u8) -> (r: bool)
    ensures
        r == present_in_suit(cards@, v as int, u as int),
{
    proof {
        assert(cards@.skip(0) =~= cards@);
    }
    if v == 1 {
        count_value_in_suit_at(cards, 0, 14, u) > 0
    } else {
        count_value_in_suit_at(cards, 0, v, u) > 0
    }
}

/// Finds the highest straight top at most `hi`, or 0.
fn find_straight_high(cards: &Vec<Card>, hi: u8) -> (r: u8)
    requires
        hi <= 14,
    ensures
        r as int == straight_high_from(cards@, hi as int),
    decreases hi,
{
    if hi < 5 {
        0
    } else if is_present(cards, hi) && is_present(cards, hi - 1) && is_present(cards, hi - 2)
        && is_present(cards, hi - 3) && is_present(cards, hi - 4) {
        hi
    } else {
        find_straight_high(cards, hi - 1)
    }
}

/// Finds the highest straight-flush top in suit `u` at most `hi`, or 0.
fn find_straight_flush_high(cards: &Vec<Card>, hi: u8, u: u8) -> (r: u8)
    requires
        hi <= 14,
    ensures
        r as int == straight_flush_high_from(cards@, hi as int, u as int),
    decreases hi,
{
    if hi < 5 {
        0
    } else if is_present_in_suit(cards, hi, u) && is_present_in_suit(cards, hi - 1, u)
        && is_present_in_suit(cards, hi - 2, u) && is_present_in_suit(cards, hi - 3, u)
        && is_present_in_suit(cards, hi - 4, u) {
        hi
    } else {
        find_straight_flush_high(cards, hi - 1, u)
    }
}

/// Finds the suit with five or more cards, as `Some`, or `None`.
fn find_flush_suit(cards: &Vec<Card>) -> (r: Option<u8>)
    ensures
        flush_suit(cards@) >= 0 ==> r == Some(flush_suit(cards@) as u8),
        flush_suit(cards@) < 0 ==> r is None,
{
    proof {
        assert(cards@.skip(0) =~= cards@);
    }
    if count_suit_at(cards, 0, 0) >= 5 {
        Some(0)
    } else if count_suit_at(cards, 0, 1) >= 5 {
        Some(1)
    } else if count_suit_at(cards, 0, 2) >= 5 {
        Some(2)
    } else if count_suit_at(cards, 0, 3) >= 5 {
        Some(3)
    } else {
        None
    }
}

/// Finds the largest value at most `v` held at least `m` times, or 0.
fn find_best_value(cards: &Vec<Card>, v: u8, m: usize) -> (r: u8)
    requires
        v <= 14,
    ensures
        r as int == best_value_from(cards@, v as int, m as int),
        r <= v,
    decreases v,
{
    proof {
        assert(cards@.skip(0) =~= cards@);
    }
    if v < 2 {
        0
    } else if count_value_at(cards, 0, v) >= m {
        v
    } else {
        find_best_value(cards, v - 1, m)
    }
}

/// Finds the largest value at most `v` held at least `m` times and
/// different from `e1` and `e2`, or 0.
fn find_best_value_excl(cards: &Vec<Card>, v: u8, m: usize, e1: u8, e2: u8) -> (r: u8)
    requires
        v <= 14,
    ensures
        r as int == best_value_excl_from(cards@, v as int, m as int, e1 as int, e2 as int),
        r <= v,
    decreases v,
{
    proof {
        assert(cards@.skip(0) =~= cards@);
    }
    if v < 2 {
        0
    } else if v != e1 && v != e2 && count_value_at(cards, 0, v) >= m {
        v
    } else {
        find_best_value_excl(cards, v - 1, m, e1, e2)
    }
}

/// Finds the largest value at most `v` present in suit `u`, or 0.
fn find_best_in_suit(cards: &Vec<Card>, v: u8, u: u8) -> (r: u8)
    requires
        v <= 14,
    ensures
        r as int == best_in_suit_from(cards@, v as int, u as int),
        r <= v,
    decreases v,
{
    proof {
        assert(cards@.skip(0) =~= cards@);
    }
    if v < 2 {
        0
    } else if count_value_in_suit_at(cards, 0, v, u) > 0 {
        v
    } else {
        find_best_in_suit(cards, v - 1, u)
    }
}

/// The helper for a search bound one below a found value: never
/// underflows and stays within 14.
fn below(v: u8) -> (r: u8)
    requires
        v <= 14,
    ensures
        r as int == below_val(v as int),
        r <= 14,
{
    if v == 0 {
        0
    } else {
        v - 1
    }
}

/// Ranks a hand.  The result is exactly [`spec_hand_rank`] of the cards:
/// category weight plus tie-breaks, larger is better.
pub fn hand_rank(cards: &Vec<Card>) -> (r: u64)
    ensures
        r as int == spec_hand_rank(cards@),
        r < 9 * CATEGORY_WEIGHT,
{
    let w: u64 = CATEGORY_WEIGHT;
    proof {
        lemma_hand_rank_bound(cards@);
        lemma_best_value_bound(cards@, 14, 4);
        lemma_best_value_bound(cards@, 14, 3);
        lemma_best_value_bound(cards@, 14, 2);
    }
    let flush = find_flush_suit(cards);
    let sfh: u8 = match flush {
        Some(u) => find_straight_flush_high(cards, 14, u),
        None => 0,
    };
    let quad = find_best_value(cards, 14, 4);
    let trips = find_best_value(cards, 14, 3);
    let fh_pair: u8 = if trips > 0 {
        find_best_value_excl(cards, 14, 2, trips, trips)
    } else {
        0
    };
    let pair = find_best_value(cards, 14, 2);
    let pair2: u8 = if pair > 0 {
        find_best_value_excl(cards, 14, 2, pair, pair)
    } else {
        0
    };
    if sfh > 0 {
        proof {
            let fs = flush_suit(cards@);
            lemma_straight_flush_high_bound(cards@, 14, fs);
        }
        8 * w + sfh as u64
    } else if quad > 0 {
        let k = find_best_value_excl(cards, 14, 1, quad, quad);
        7 * w + quad as u64 * 15 + k as u64
    } else if trips > 0 && fh_pair > 0 {
        6 * w + trips as u64 * 15 + fh_pair as u64
    } else if let Some(u) = flush {
        let f1 = find_best_in_suit(cards, 14, u);
        let f2 = find_best_in_suit(cards, below(f1), u);
        let f3 = find_best_in_suit(cards, below(f2), u);
        let f4 = find_best_in_suit(cards, below(f3), u);
        let f5 = find_best_in_suit(cards, below(f4), u);
        5 * w + f1 as u64 * 50625 + f2 as u64 * 3375 + f3 as u64 * 225 + f4 as u64 * 15 + f5 as u64
    } else {
        let sth = find_straight_high(cards, 14);
        if sth > 0 {
            4 * w + sth as u64
        } else if trips > 0 {
            let k1 = find_best_value_excl(cards, 14, 1, trips, trips);
            let k2 = find_best_value_excl(cards, below(k1), 1, trips, trips);
            3 * w + trips as u64 * 225 + k1 as u64 * 15 + k2 as u64
        } else if pair > 0 && pair2 > 0 {
            let k = find_best_value_excl(cards, 14, 1, pair, pair2);
            2 * w + pair as u64 * 225 + pair2 as u64 * 15 + k as u64
        } else if pair > 0 {
            let k1 = find_best_value_excl(cards, 14, 1, pair, pair);
            let k2 = find_best_value_excl(cards, below(k1), 1, pair, pair);
            let k3 = find_best_value_excl(cards, below(k2), 1, pair, pair);
            w + pair as u64 * 3375 + k1 as u64 * 225 + k2 as u64 * 15 + k3 as u64
        } else {
            let t1 = find_best_value(cards, 14, 1);
            let t2 = find_best_value(cards, below(t1), 1);
            let t3 = find_best_value(cards, below(t2), 1);
            let t4 = find_best_value(cards, below(t3), 1);
            let t5 = find_best_value(cards, below(t4), 1);
            t1 as u64 * 50625 + t2 as u64 * 3375 + t3 as u64 * 225 + t4 as u64 * 15 + t5 as u64
        }
    }
}

} // verus!
