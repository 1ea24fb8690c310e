//! The rating update: a fixed expected-score formula in integer
//! arithmetic.
//!
//! Ratings and deltas are carried in thousandths of a rating point.
//! A match's raw scores are first normalized onto `0..=SCORE_SCALE`
//! (the two normalized scores of a match sum to `SCORE_SCALE`).  A
//! seat's expected score comes from the rating difference through a
//! sigmoid that is exactly symmetric — the two seats' expected scores
//! also sum to `SCORE_SCALE` — and the delta is the K-factor times the
//! observed-minus-expected score.  The update is therefore exactly
//! zero-sum, and a seat that outscores an equally rated opponent always
//! gains.

use vstd::prelude::*;
use vstd::arithmetic::div_mod::lemma_div_is_ordered;
use vstd::arithmetic::div_mod::lemma_div_by_multiple;
use vstd::arithmetic::div_mod::lemma_div_pos_is_pos;

verus! {

/// The top of the normalized score range: a clean win normalizes to
/// this, a clean loss to 0, and the two seats' scores sum to it.
pub const SCORE_SCALE: i64 = 1000;

/// The K-factor in thousandths of a rating point: 32 points.
pub const K_FACTOR_MILLI: i64 = 32000;

/// The sigmoid's width constant in thousandths of a rating point: a
/// 400-point rating gap.
pub const CURVE_MILLI: i64 = 400000;

/// The largest rating magnitude the engine accepts, in thousandths.
pub const RATING_LIMIT: i64 = 1000000000000;

/// Truncating division for a positive divisor, as the machine divides.
pub open spec fn spec_div_trunc(a: int, b: int) -> int {
    if a >= 0 {
        a / b
    } else {
        -((-a) / b)
    }
}

/// The expected score of a seat whose rating leads by `d` thousandths:
/// half the scale at `d == 0`, rising towards the full scale as `d`
/// grows, and exactly mirrored for the trailing seat.
pub open spec fn spec_expected(d: int) -> int {
    if d >= 0 {
        (SCORE_SCALE as int) * (d + CURVE_MILLI / 2) / (d + CURVE_MILLI)
    } else {
        SCORE_SCALE - (SCORE_SCALE as int) * (-d + CURVE_MILLI / 2) / (-d + CURVE_MILLI)
    }
}

/// The rating delta of a seat with rating `own` against `opp` that
/// scored `score`: the K-factor times observed minus expected score.
pub open spec fn spec_rating_delta(own: int, opp: int, score: int) -> int {
    spec_div_trunc(K_FACTOR_MILLI * (score - spec_expected(own - opp)), SCORE_SCALE as int)
}

/// The expected score stays within the score scale.
pub proof fn lemma_expected_bounds(d: int)
    requires
        -2 * RATING_LIMIT <= d <= 2 * RATING_LIMIT,
    ensures
        0 <= spec_expected(d) <= SCORE_SCALE,
{
    let dd = if d >= 0 {
        d
    } else {
        -d
    };
    {
        let d = dd;
        lemma_div_pos_is_pos((SCORE_SCALE as int) * (d + CURVE_MILLI / 2), d + CURVE_MILLI);
        assert((SCORE_SCALE as int) * (d + CURVE_MILLI / 2) <= (SCORE_SCALE as int) * (d
            + CURVE_MILLI)) by (nonlinear_arith)
            requires
                d >= 0,
        ;
        lemma_div_is_ordered(
            (SCORE_SCALE as int) * (d + CURVE_MILLI / 2),
            (SCORE_SCALE as int) * (d + CURVE_MILLI),
            d + CURVE_MILLI,
        );
        lemma_div_by_multiple(SCORE_SCALE as int, d + CURVE_MILLI);
    }
}

/// The two seats' expected scores sum to the whole scale.
pub proof fn lemma_expected_symmetric(d: int)
    ensures
        spec_expected(d) + spec_expected(-d) == SCORE_SCALE,
{
    if d == 0 {
        assert((SCORE_SCALE as int) * (0 + CURVE_MILLI / 2) == 200000000);
        assert(200000000int / (0 + CURVE_MILLI) == SCORE_SCALE / 2);
    }
}

/// The rating update is exactly zero-sum whenever the two scores share
/// the scale.
pub proof fn lemma_delta_zero_sum(r0: int, r1: int, s0: int)
    ensures
        spec_rating_delta(r0, r1, s0) + spec_rating_delta(r1, r0, SCORE_SCALE - s0) == 0,
{
    lemma_expected_symmetric(r0 - r1);
    assert((SCORE_SCALE - s0) - spec_expected(r1 - r0) == -(s0 - spec_expected(r0 - r1)));
}

/// Against an equally rated opponent, a seat that scores above half
/// the scale gains rating, and the opponent loses exactly as much: the
/// symmetric zero-sum expected-score update.
pub proof fn lemma_equal_ratings_win(r: int, s0: int)
    requires
        s0 > SCORE_SCALE / 2,
        s0 <= SCORE_SCALE,
    ensures
        spec_rating_delta(r, r, s0) > 0,
        spec_rating_delta(r, r, SCORE_SCALE - s0) == -spec_rating_delta(r, r, s0),
{
    assert((SCORE_SCALE as int) * (0 + CURVE_MILLI / 2) == 200000000);
    assert(200000000int / (0 + CURVE_MILLI) == SCORE_SCALE / 2);
    assert(spec_expected(0) == SCORE_SCALE / 2);
    let diff = s0 - SCORE_SCALE / 2;
    assert(K_FACTOR_MILLI * diff >= K_FACTOR_MILLI) by (nonlinear_arith)
        requires
            diff >= 1,
    ;
    lemma_div_is_ordered(K_FACTOR_MILLI as int, K_FACTOR_MILLI * diff, SCORE_SCALE as int);
    assert(K_FACTOR_MILLI as int / (SCORE_SCALE as int) == 32);
    lemma_delta_zero_sum(r, r, s0);
}

/// Normalizes a raw match score from the `-100..=100` scale onto
/// `0..=SCORE_SCALE`, clamping anything outside the raw scale.
pub open spec fn spec_normalized_score(raw: int) -> int {
    let clamped = if raw < -100 {
        -100int
    } else if raw > 100 {
        100int
    } else {
        raw
    };
    (clamped + 100) * SCORE_SCALE / 200
}

/// Normalizes a raw match score onto the score scale: a raw -100 maps
/// to 0, a raw 0 to half the scale, a raw 100 to the whole scale.
pub fn normalize_score(raw: i32) -> (r: i64)
    ensures
        r == spec_normalized_score(raw as int),
        0 <= r <= SCORE_SCALE,
{
    let clamped: i64 = if raw < -100 {
        -100
    } else if raw > 100 {
        100
    } else {
        raw as i64
    };
    (clamped + 100) * SCORE_SCALE / 200
}

/// The rating deltas of a match, in thousandths of a rating point:
/// first the defender's, then the challenger's.  The two normalized
/// scores must share the scale; the deltas are then exactly opposite,
/// and a seat that outscored an equally rated opponent gains.
pub fn get_rating_change(
    defender_rating: i64,
    defender_score: i64,
    challenger_rating: i64,
    challenger_score: i64,
) -> (r: (i64, i64))
    requires
        0 <= defender_score <= SCORE_SCALE,
        challenger_score == SCORE_SCALE - defender_score,
        -RATING_LIMIT <= defender_rating <= RATING_LIMIT,
        -RATING_LIMIT <= challenger_rating <= RATING_LIMIT,
    ensures
        r.0 == spec_rating_delta(defender_rating as int, challenger_rating as int, defender_score as int),
        r.1 == spec_rating_delta(challenger_rating as int, defender_rating as int, challenger_score as int),
        r.0 + r.1 == 0,
        defender_rating == challenger_rating && defender_score > SCORE_SCALE / 2 ==> r.0 > 0,
    {
    let e0 = expected_score(defender_rating, challenger_rating);
    let e1 = expected_score(challenger_rating, defender_rating);
    let d0 = scaled_delta(defender_score - e0);
    let d1 = scaled_delta(challenger_score - e1);
    proof {
        lemma_delta_zero_sum(defender_rating as int, challenger_rating as int, defender_score as int);
        lemma_expected_symmetric(defender_rating - challenger_rating);
        if defender_rating == challenger_rating && defender_score > SCORE_SCALE / 2 {
            lemma_equal_ratings_win(defender_rating as int, defender_score as int);
        }
    }
    (d0, d1)
}

/// The expected score of `own` against `opp`, on the score scale.
fn expected_score(own: i64, opp: i64) -> (r: i64)
    requires
        -RATING_LIMIT <= own <= RATING_LIMIT,
        -RATING_LIMIT <= opp <= RATING_LIMIT,
    ensures
        r == spec_expected(own - opp),
        0 <= r <= SCORE_SCALE,
{
    proof {
        lemma_expected_bounds(own - opp);
    }
    let d = own - opp;
    if d >= 0 {
        proof {
            lemma_div_pos_is_pos(SCORE_SCALE * (d + CURVE_MILLI / 2), d + CURVE_MILLI);
        }
        SCORE_SCALE * (d + CURVE_MILLI / 2) / (d + CURVE_MILLI)
    } else {
        let dd = -d;
        proof {
            lemma_div_pos_is_pos(SCORE_SCALE * (dd + CURVE_MILLI / 2), dd + CURVE_MILLI);
            lemma_div_is_ordered(
                SCORE_SCALE * (dd + CURVE_MILLI / 2),
                SCORE_SCALE * (dd + CURVE_MILLI),
                dd + CURVE_MILLI,
            );
            lemma_div_by_multiple(SCORE_SCALE as int, dd + CURVE_MILLI);
        }
        SCORE_SCALE - SCORE_SCALE * (dd + CURVE_MILLI / 2) / (dd + CURVE_MILLI)
    }
}

/// Applies the K-factor to an observed-minus-expected score, dividing
/// truncation-wise as the specification does.
fn scaled_delta(diff: i64) -> (r: i64)
    requires
        -SCORE_SCALE <= diff <= SCORE_SCALE,
    ensures
        r == spec_div_trunc(K_FACTOR_MILLI * diff, SCORE_SCALE as int),
{
    if diff >= 0 {
        proof {
            lemma_div_pos_is_pos(K_FACTOR_MILLI * diff, SCORE_SCALE as int);
            lemma_div_is_ordered(
                K_FACTOR_MILLI * diff,
                K_FACTOR_MILLI * SCORE_SCALE,
                SCORE_SCALE as int,
            );
        }
        K_FACTOR_MILLI * diff / SCORE_SCALE
    } else {
        proof {
            lemma_div_pos_is_pos(K_FACTOR_MILLI * (-diff as int), SCORE_SCALE as int);
            lemma_div_is_ordered(
                K_FACTOR_MILLI * (-diff as int),
                K_FACTOR_MILLI * SCORE_SCALE,
                SCORE_SCALE as int,
            );
        }
        -(K_FACTOR_MILLI * (-diff) / SCORE_SCALE)
    }
}

} // verus!
