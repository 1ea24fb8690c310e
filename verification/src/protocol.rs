//! The line protocol towards the bots: every message is one ASCII line.
//!
//! `P <seat>` tells a bot its position for the round, `C <cards…>` its
//! hole cards followed by the revealed community cards, `S <target>
//! <pushed0> <pushed1> <stack0> <stack1>` the betting state when it is
//! that bot's turn, and `E` that the round has ended.  Log entries are
//! prefixed with the milliseconds since the match started.

use vstd::prelude::*;
use vstd::string::StringExecFns;
use crate::cards::Card;
use crate::cards::card_bytes;
use crate::cards::spec_card_chars;

verus! {

/// The decimal digits of `n`, most significant first, as ASCII bytes.
pub open spec fn spec_dec_bytes(n: int) -> Seq<u8>
    decreases n,
{
    if n < 10 {
        seq![(48 + if n >= 0 {
            n
        } else {
            0
        }) as u8]
    } else {
        spec_dec_bytes(n / 10).push((48 + n % 10) as u8)
    }
}

/// The decimal digits of `n` as characters.
pub open spec fn spec_dec_chars(n: int) -> Seq<char> {
    spec_dec_bytes(n).map_values(|b: u8| b as char)
}

/// Decimal digits are ASCII.
proof fn lemma_dec_bytes_ascii(n: int)
    ensures
        forall|i: int|
            0 <= i < spec_dec_bytes(n).len() ==> 48 <= #[trigger] spec_dec_bytes(n)[i] <= 57,
    decreases n,
{
    if n >= 10 {
        lemma_dec_bytes_ascii(n / 10);
        assert forall|i: int|
            0 <= i < spec_dec_bytes(n).len() implies 48 <= #[trigger] spec_dec_bytes(n)[i]
            <= 57 by {
            if i < spec_dec_bytes(n / 10).len() {
                assert(spec_dec_bytes(n)[i] == spec_dec_bytes(n / 10)[i]);
            } else {
                assert(spec_dec_bytes(n)[i] == (48 + n % 10) as u8);
            }
        }
    }
}

/// The ASCII bytes of a card, value character then suit character.
pub open spec fn spec_card_ascii(c: Card) -> Seq<u8> {
    spec_card_chars(c).map_values(|ch: char| ch as u8)
}

/// The card list's wire form: one leading space before every card.
pub open spec fn spec_cards_tail(s: Seq<Card>) -> Seq<u8>
    decreases s.len(),
{
    if s.len() == 0 {
        Seq::<u8>::empty()
    } else {
        spec_cards_tail(s.drop_last()) + seq![32u8] + spec_card_ascii(s.last())
    }
}

/// The bytes of the `P` line: the bot's seat position for the round.
pub open spec fn spec_position_bytes(p: int) -> Seq<u8> {
    seq![80u8, 32u8] + spec_dec_bytes(p)
}

/// The characters of the `P` line.
pub open spec fn spec_position_chars(p: int) -> Seq<char> {
    spec_position_bytes(p).map_values(|b: u8| b as char)
}

/// The bytes of the `C` line: the bot's hole cards, then the revealed
/// community cards.
pub open spec fn spec_cards_bytes(s: Seq<Card>) -> Seq<u8> {
    seq![67u8] + spec_cards_tail(s)
}

/// The characters of the `C` line.
pub open spec fn spec_cards_chars(s: Seq<Card>) -> Seq<char> {
    spec_cards_bytes(s).map_values(|b: u8| b as char)
}

/// The bytes of the `S` line: target push, both pushed amounts, both
/// stacks, space-separated.
pub open spec fn spec_status_bytes(t: int, p0: int, p1: int, s0: int, s1: int) -> Seq<u8> {
    seq![83u8, 32u8] + spec_dec_bytes(t) + seq![32u8] + spec_dec_bytes(p0) + seq![32u8]
        + spec_dec_bytes(p1) + seq![32u8] + spec_dec_bytes(s0) + seq![32u8] + spec_dec_bytes(s1)
}

/// The characters of the `S` line.
pub open spec fn spec_status_chars(t: int, p0: int, p1: int, s0: int, s1: int) -> Seq<char> {
    spec_status_bytes(t, p0, p1, s0, s1).map_values(|b: u8| b as char)
}

/// All bytes of `s` are ASCII.
pub open spec fn spec_all_ascii(s: Seq<u8>) -> bool {
    forall|i: int| 0 <= i < s.len() ==> #[trigger] s[i] < 128
}

/// Relies on `String::from_utf8`: bytes below 128 are valid UTF-8 and
/// decode to exactly those characters.
#[verifier::external_body]
fn ascii_to_string(bytes: Vec<u8>) -> (r: String)
    requires
        spec_all_ascii(bytes@),
    ensures
        r@ == bytes@.map_values(|b: u8| b as char),
{
    String::from_utf8(bytes).unwrap_or_default()
}

/// Appends the decimal digits of `n`.
fn push_dec(v: &mut Vec<u8>, n: u64)
    ensures
        final(v)@ == old(v)@ + spec_dec_bytes(n as int),
        spec_all_ascii(old(v)@) ==> spec_all_ascii(final(v)@),
    decreases n,
{
    proof {
        lemma_dec_bytes_ascii(n as int);
    }
    if n < 10 {
        v.push(48 + n as u8);
        proof {
            assert(final(v)@ =~= old(v)@ + spec_dec_bytes(n as int));
        }
    } else {
        push_dec(v, n / 10);
        v.push(48 + (n % 10) as u8);
        proof {
            assert(final(v)@ =~= old(v)@ + spec_dec_bytes(n as int));
        }
    }
}

/// The `P` line sent to a bot: its seat position for the round.
pub fn position_line(p: u32) -> (r: String)
    ensures
        r@ == spec_position_chars(p as int),
{
    let mut bytes: Vec<u8> = Vec::new();
    bytes.push(80);
    bytes.push(32);
    push_dec(&mut bytes, p as u64);
    proof {
        assert(bytes@ =~= spec_position_bytes(p as int));
    }
    ascii_to_string(bytes)
}

/// The `E` line sent to both bots when a round has ended.
pub fn round_end_line() -> (r: String)
    ensures
        r@ =~= seq!['E'],
{
    let mut bytes: Vec<u8> = Vec::new();
    bytes.push(69);
    let s = ascii_to_string(bytes);
    proof {
        assert(s@ =~= seq![(69u8) as char]);
    }
    s
}

/// The `C` line sent to a bot: its hole cards, then the community cards
/// revealed so far, space-separated.
pub fn cards_line(cards: &Vec<Card>) -> (r: String)
    requires
        forall|i: int| 0 <= i < cards@.len() ==> (#[trigger] cards@[i]).wf(),
    ensures
        r@ == spec_cards_chars(cards@),
{
    let mut bytes: Vec<u8> = Vec::new();
    bytes.push(67);
    let mut i: usize = 0;
    while i < cards.len()
        invariant
            i <= cards@.len(),
            forall|k: int| 0 <= k < cards@.len() ==> (#[trigger] cards@[k]).wf(),
            bytes@ == seq![67u8] + spec_cards_tail(cards@.take(i as int)),
            spec_all_ascii(bytes@),
        decreases cards@.len() - i,
    {
        let cb = card_bytes(cards[i]);
        bytes.push(32);
        bytes.push(cb[0]);
        bytes.push(cb[1]);
        proof {
            assert(cards@.take(i + 1).drop_last() =~= cards@.take(i as int));
            assert(cards@.take(i + 1).last() == cards@[i as int]);
            assert(cb@ == spec_card_ascii(cards@[i as int]));
            assert(bytes@ =~= seq![67u8] + spec_cards_tail(cards@.take(i + 1)));
        }
        i = i + 1;
    }
    proof {
        assert(cards@.take(cards@.len() as int) =~= cards@);
    }
    ascii_to_string(bytes)
}

/// The `S` line sent to the acting bot: the betting state.
pub fn status_line(target: u32, pushed0: u32, pushed1: u32, stack0: u32, stack1: u32) -> (r: String)
    ensures
        r@ == spec_status_chars(
            target as int,
            pushed0 as int,
            pushed1 as int,
            stack0 as int,
            stack1 as int,
        ),
{
    let mut bytes: Vec<u8> = Vec::new();
    bytes.push(83);
    bytes.push(32);
    push_dec(&mut bytes, target as u64);
    bytes.push(32);
    push_dec(&mut bytes, pushed0 as u64);
    bytes.push(32);
    push_dec(&mut bytes, pushed1 as u64);
    bytes.push(32);
    push_dec(&mut bytes, stack0 as u64);
    bytes.push(32);
    push_dec(&mut bytes, stack1 as u64);
    proof {
        assert(bytes@ =~= spec_status_bytes(
            target as int,
            pushed0 as int,
            pushed1 as int,
            stack0 as int,
            stack1 as int,
        ));
    }
    ascii_to_string(bytes)
}

/// Whether two strings hold the same characters.
pub fn str_eq(a: &str, b: &str) -> (r: bool)
    ensures
        r == (a@ == b@),
{
    let n = a.unicode_len();
    if n != b.unicode_len() {
        return false;
    }
    let mut i: usize = 0;
    while i < n
        invariant
            i <= n,
            n == a@.len(),
            n == b@.len(),
            forall|j: int| 0 <= j < i ==> a@[j] == b@[j],
        decreases n - i,
    {
        if a.get_char(i) != b.get_char(i) {
            return false;
        }
        i = i + 1;
    }
    proof {
        assert(a@ =~= b@);
    }
    true
}

/// Whether `c` is ASCII whitespace: space, tab, carriage return or
/// newline.
pub open spec fn spec_is_ws(c: char) -> bool {
    c == ' ' || c == '\t' || c == '\r' || c == '\n'
}

/// `s` without leading whitespace.
pub open spec fn spec_trim_front(s: Seq<char>) -> Seq<char>
    decreases s.len(),
{
    if s.len() > 0 && spec_is_ws(s[0]) {
        spec_trim_front(s.skip(1))
    } else {
        s
    }
}

/// `s` without trailing whitespace.
pub open spec fn spec_trim_back(s: Seq<char>) -> Seq<char>
    decreases s.len(),
{
    if s.len() > 0 && spec_is_ws(s.last()) {
        spec_trim_back(s.drop_last())
    } else {
        s
    }
}

/// `s` without leading and trailing whitespace, as a bot's reply line is
/// read.
pub open spec fn spec_trim(s: Seq<char>) -> Seq<char> {
    spec_trim_back(spec_trim_front(s))
}

/// Whether `c` is ASCII whitespace.
fn is_ws(c: char) -> (r: bool)
    ensures
        r == spec_is_ws(c),
{
    c == ' ' || c == '\t' || c == '\r' || c == '\n'
}

/// The index after the leading whitespace of `line` from `i` on.
fn trim_front_idx(line: &str, i: usize) -> (r: usize)
    requires
        i <= line@.len(),
    ensures
        i <= r <= line@.len(),
        line@.skip(r as int) == spec_trim_front(line@.skip(i as int)),
    decreases line@.len() - i,
{
    let n = line.unicode_len();
    if i < n && is_ws(line.get_char(i)) {
        proof {
            assert(line@.skip(i as int).skip(1) =~= line@.skip(i + 1));
        }
        trim_front_idx(line, i + 1)
    } else {
        proof {
            if i < n {
                assert(line@.skip(i as int)[0] == line@[i as int]);
            } else {
                assert(line@.skip(i as int) =~= Seq::<char>::empty());
            }
        }
        i
    }
}

/// The index before the trailing whitespace of `line` down to `lo`.
fn trim_back_idx(line: &str, lo: usize, e: usize) -> (r: usize)
    requires
        lo <= e <= line@.len(),
    ensures
        lo <= r <= e,
        line@.subrange(lo as int, r as int) == spec_trim_back(line@.subrange(lo as int, e as int)),
    decreases e - lo,
{
    if e > lo && is_ws(line.get_char(e - 1)) {
        proof {
            assert(line@.subrange(lo as int, e as int).last() == line@[e - 1]);
            assert(line@.subrange(lo as int, e as int).drop_last() =~= line@.subrange(
                lo as int,
                e - 1,
            ));
        }
        trim_back_idx(line, lo, e - 1)
    } else {
        proof {
            if e > lo {
                assert(line@.subrange(lo as int, e as int).last() == line@[e - 1]);
            }
        }
        e
    }
}

/// `line` without leading and trailing ASCII whitespace, as a bot's
/// reply is read before parsing.
pub fn trim_line<'a>(line: &'a str) -> (r: &'a str)
    ensures
        r@ == spec_trim(line@),
{
    let lo = trim_front_idx(line, 0);
    let hi = trim_back_idx(line, lo, line.unicode_len());
    proof {
        assert(line@.skip(0) =~= line@);
        assert(line@.subrange(lo as int, line@.len() as int) =~= line@.skip(lo as int));
    }
    line.substring_char(lo, hi)
}

/// One entry of the match log: the milliseconds since the match started,
/// `ms`, and the logged text.
pub fn log_line(ms: u64, msg: &str) -> (r: String)
    ensures
        r@ == spec_dec_chars(ms as int) + seq!['m', 's', ' '] + msg@,
{
    let mut bytes: Vec<u8> = Vec::new();
    push_dec(&mut bytes, ms);
    bytes.push(109);
    bytes.push(115);
    bytes.push(32);
    let mut s = ascii_to_string(bytes);
    s.append(msg);
    proof {
        assert((spec_dec_bytes(ms as int) + seq![109u8, 115u8, 32u8]).map_values(|b: u8| b as char)
            =~= spec_dec_chars(ms as int) + seq!['m', 's', ' ']);
        assert(s@ =~= spec_dec_chars(ms as int) + seq!['m', 's', ' '] + msg@);
    }
    s
}

} // verus!
