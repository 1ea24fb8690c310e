//! Betting actions and the wire grammar for a bot's reply line.
//!
//! A reply line is exactly one of `"X"` (check), `"F"` (fold), `"C"` (call)
//! or `"R"` followed by one or more decimal digits whose value fits in a
//! `u32` (raise).  Anything else fails to parse.

use vstd::prelude::*;
use vstd::string::StrSliceExecFns;

verus! {

/// One betting action of a seat.
#[derive(PartialEq, Eq, Structural, Debug, Clone, Copy)]
pub enum Action {
    Check,
    Fold,
    Call,
    Raise { amt: u32 },
}

/// Failure to read a reply line as an [`Action`].
#[derive(PartialEq, Eq, Structural, Debug, Clone, Copy)]
pub enum GameActionError {
    CouldNotParse,
}

/// Whether `c` is a decimal digit.
pub open spec fn spec_is_digit(c: char) -> bool {
    48 <= c as u32 <= 57
}

/// The numeric value of a digit character.
pub open spec fn spec_digit_val(c: char) -> nat {
    (c as u32 - 48) as nat
}

/// Whether `s` is a non-empty run of decimal digits.
pub open spec fn spec_all_digits(s: Seq<char>) -> bool {
    s.len() > 0 && forall|i: int| 0 <= i < s.len() ==> spec_is_digit(#[trigger] s[i])
}

/// The value of a run of decimal digits, most significant first.
pub open spec fn spec_digits_val(s: Seq<char>) -> nat
    decreases s.len(),
{
    if s.len() == 0 {
        0
    } else {
        spec_digits_val(s.drop_last()) * 10 + spec_digit_val(s.last())
    }
}

/// The action denoted by a reply line, or `None` if the line is not in the
/// grammar: `"X"`, `"F"`, `"C"`, or `"R"` followed only by decimal digits
/// whose value fits in a `u32`.
pub open spec fn spec_parse_action(s: Seq<char>) -> Option<Action> {
    if s.len() == 1 && s[0] == 'X' {
        Some(Action::Check)
    } else if s.len() == 1 && s[0] == 'F' {
        Some(Action::Fold)
    } else if s.len() == 1 && s[0] == 'C' {
        Some(Action::Call)
    } else if s.len() >= 2 && s[0] == 'R' && spec_all_digits(s.skip(1)) && spec_digits_val(
        s.skip(1),
    ) <= u32::MAX {
        Some(Action::Raise { amt: spec_digits_val(s.skip(1)) as u32 })
    } else {
        None
    }
}

/// Appending a digit multiplies the value so far by ten and adds the digit.
proof fn lemma_digits_val_step(s: Seq<char>, i: int)
    requires
        0 <= i < s.len(),
    ensures
        spec_digits_val(s.take(i + 1)) == spec_digits_val(s.take(i)) * 10 + spec_digit_val(s[i]),
{
    assert(s.take(i + 1).drop_last() =~= s.take(i));
    assert(s.take(i + 1).last() == s[i]);
}

/// The value of a digit run never shrinks as more digits are appended.
proof fn lemma_digits_val_monotone(s: Seq<char>, i: int)
    requires
        0 <= i <= s.len(),
    ensures
        spec_digits_val(s) >= spec_digits_val(s.take(i)),
    decreases s.len() - i,
{
    if i == s.len() {
        assert(s.take(i) =~= s);
    } else {
        lemma_digits_val_step(s, i);
        lemma_digits_val_monotone(s, i + 1);
        assert(spec_digits_val(s.take(i + 1)) >= spec_digits_val(s.take(i))) by (nonlinear_arith)
            requires
                spec_digits_val(s.take(i + 1)) == spec_digits_val(s.take(i)) * 10 + spec_digit_val(
                    s[i],
                ),
        ;
    }
}

/// Reads a bot's reply line as an [`Action`].
///
/// Exactly the lines of the wire grammar parse: `"X"`, `"F"`, `"C"`, and
/// `"R"` followed by one or more decimal digits whose value fits in a
/// `u32`; every other line is rejected.
pub fn parse_action(line: &str) -> (r: Result<Action, GameActionError>)
    ensures
        r matches Ok(a) ==> spec_parse_action(line@) == Some(a),
        r is Err ==> spec_parse_action(line@) is None && r == Err::<Action, GameActionError>(
            GameActionError::CouldNotParse,
        ),
{
    let n = line.unicode_len();
    if n == 1 {
        let c = line.get_char(0);
        if c == 'X' {
            Ok(Action::Check)
        } else if c == 'F' {
            Ok(Action::Fold)
        } else if c == 'C' {
            Ok(Action::Call)
        } else {
            Err(GameActionError::CouldNotParse)
        }
    } else if n >= 2 && line.get_char(0) == 'R' {
        let ghost digits = line@.skip(1);
        let mut acc: u32 = 0;
        let mut i: usize = 1;
        while i < n
            invariant
                1 <= i <= n,
                n == line@.len(),
                digits == line@.skip(1),
                forall|j: int| 0 <= j < i - 1 ==> spec_is_digit(#[trigger] digits[j]),
                acc == spec_digits_val(digits.take(i - 1)),
            decreases n - i,
        {
            let c = line.get_char(i);
            let cu = c as u32;
            if cu < 48 || cu > 57 {
                assert(!spec_is_digit(line@[i as int]));
                assert(!spec_all_digits(line@.skip(1))) by {
                    assert(line@.skip(1)[i - 1] == line@[i as int]);
                }
                return Err(GameActionError::CouldNotParse);
            }
            let d = cu - 48;
            if acc > (u32::MAX - d) / 10 {
                proof {
                    lemma_digits_val_step(digits, i - 1);
                    lemma_digits_val_monotone(digits, i as int);
                    assert(acc * 10 + d > u32::MAX) by (nonlinear_arith)
                        requires
                            acc > (u32::MAX - d) / 10,
                            d <= 9,
                    ;
                    assert(digits[i - 1] == line@[i as int]);
                    assert(spec_digits_val(digits) > u32::MAX);
                }
                return Err(GameActionError::CouldNotParse);
            }
            proof {
                lemma_digits_val_step(digits, i - 1);
                assert(acc * 10 + d <= u32::MAX) by (nonlinear_arith)
                    requires
                        acc <= (u32::MAX - d) / 10,
                        d <= 9,
                ;
                assert(digits[i - 1] == line@[i as int]);
                assert(line@.subrange(1, i + 1 as int) =~= line@.subrange(1, i as int).push(
                    line@[i as int],
                ));
                assert(digits.take(i as int) =~= digits.take(i - 1).push(digits[i - 1]));
            }
            acc = acc * 10 + d;
            i = i + 1;
        }
        proof {
            assert(digits.take(n - 1) =~= digits);
            assert(spec_all_digits(digits));
        }
        Ok(Action::Raise { amt: acc })
    } else {
        Err(GameActionError::CouldNotParse)
    }
}

} // verus!
