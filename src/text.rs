//! Text helpers shared by the normalisers: joining lines and reading a
//! decimal count.

use vstd::prelude::*;
use crate::value::Value;

verus! {

/// Lines joined with a newline between each two.
pub open spec fn join_lines(ls: Seq<Seq<char>>) -> Seq<char>
    decreases ls.len(),
{
    if ls.len() == 0 {
        Seq::empty()
    } else if ls.len() == 1 {
        ls[0]
    } else {
        join_lines(ls.drop_last()) + "\n"@ + ls.last()
    }
}

/// The strings among `vs`, in order; other values are skipped.
pub open spec fn strings_of(vs: Seq<Value>) -> Seq<Seq<char>>
    decreases vs.len(),
{
    if vs.len() == 0 {
        Seq::empty()
    } else {
        let init = strings_of(vs.drop_last());
        match vs.last() {
            Value::Str(s) => init.push(s@),
            _ => init,
        }
    }
}

/// The views of a sequence of strings.
pub open spec fn views(ss: Seq<String>) -> Seq<Seq<char>> {
    ss.map_values(|s: String| s@)
}

/// Joins the strings of `ss` with newlines.
pub fn join_strings(ss: &Vec<String>) -> (r: String)
    ensures
        r@ == join_lines(views(ss@)),
{
    let mut out = String::new();
    let mut i: usize = 0;
    while i < ss.len()
        invariant
            i <= ss@.len(),
            out@ == join_lines(views(ss@.subrange(0, i as int))),
        decreases ss.len() - i,
    {
        let ghost prev = views(ss@.subrange(0, i as int));
        assert(views(ss@.subrange(0, i + 1)) == prev.push(ss@[i as int]@));
        assert(prev.push(ss@[i as int]@).drop_last() == prev);
        if i > 0 {
            out.append("\n");
        }
        out.append(ss[i].as_str());
        i = i + 1;
    }
    assert(ss@.subrange(0, ss@.len() as int) == ss@);
    out
}

/// The number written by a non-empty run of decimal digits.
pub open spec fn digits_value(s: Seq<char>) -> nat
    decreases s.len(),
{
    if s.len() == 0 {
        0
    } else {
        digits_value(s.drop_last()) * 10 + (s.last() as nat - '0' as nat) as nat
    }
}

pub open spec fn is_digit(c: char) -> bool {
    '0' <= c <= '9'
}

pub open spec fn all_digits(s: Seq<char>) -> bool {
    s.len() > 0 && forall|i: int| 0 <= i < s.len() ==> is_digit(#[trigger] s[i])
}

/// The unsigned 64-bit number that `s` writes in decimal, with an optional
/// leading `+`; `None` for anything else, or for a number that does not fit.
pub open spec fn decimal_u64(s: Seq<char>) -> Option<u64> {
    let t = if s.len() > 0 && s[0] == '+' { s.drop_first() } else { s };
    if all_digits(t) && digits_value(t) <= u64::MAX {
        Some(digits_value(t) as u64)
    } else {
        None
    }
}

proof fn lemma_digits_grow(s: Seq<char>, i: int)
    requires
        0 <= i <= s.len(),
        forall|k: int| 0 <= k < s.len() ==> is_digit(#[trigger] s[k]),
    ensures
        digits_value(s.subrange(0, i)) <= digits_value(s),
    decreases s.len() - i,
{
    if i < s.len() {
        let t = s.subrange(0, i + 1);
        assert(t.drop_last() == s.subrange(0, i));
        lemma_digits_grow(s, i + 1);
    } else {
        assert(s.subrange(0, i) == s);
    }
}

/// Reads an unsigned decimal number, as `decimal_u64` states.
pub fn parse_u64(s: &str) -> (r: Option<u64>)
    ensures
        r == decimal_u64(s@),
{
    let n = s.unicode_len();
    let mut start: usize = 0;
    if n > 0 && s.get_char(0) == '+' {
        start = 1;
    }
    let ghost t = if s@.len() > 0 && s@[0] == '+' { s@.drop_first() } else { s@ };
    assert(t == s@.subrange(start as int, n as int));
    if start >= n {
        return None;
    }
    let mut value: u64 = 0;
    let mut i: usize = start;
    while i < n
        invariant
            n == s@.len(),
            start <= i <= n,
            t == s@.subrange(start as int, n as int),
            t == (if s@.len() > 0 && s@[0] == '+' { s@.drop_first() } else { s@ }),
            forall|k: int| start <= k < i ==> is_digit(#[trigger] s@[k]),
            value as nat == digits_value(s@.subrange(start as int, i as int)),
        decreases n - i,
    {
        let c = s.get_char(i);
        let ghost pre = s@.subrange(start as int, i as int);
        let ghost next = s@.subrange(start as int, i + 1);
        assert(next.drop_last() == pre);
        assert(next.last() == c);
        if !('0' <= c && c <= '9') {
            assert(t[i - start] == s@[i as int]);
            assert(!is_digit(t[i - start]));
            assert(!all_digits(t));
            return None;
        }
        let d: u64 = (c as u32 - '0' as u32) as u64;
        assert(digits_value(next) == value as nat * 10 + d as nat);
        if value > (u64::MAX - d) / 10 {
            assert(value as nat * 10 + d as nat > u64::MAX) by (nonlinear_arith)
                requires value > (u64::MAX - d) / 10, d <= 9;
            proof {
                if all_digits(t) {
                    lemma_digits_grow(t, next.len() as int);
                    assert(t.subrange(0, next.len() as int) == next);
                }
            }
            return None;
        }
        assert(value * 10 + d <= u64::MAX) by (nonlinear_arith)
            requires value <= (u64::MAX - d) / 10, d <= 9;
        value = value * 10 + d;
        i = i + 1;
    }
    assert(s@.subrange(start as int, n as int) == t);
    Some(value)
}

} // verus!
