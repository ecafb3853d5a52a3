//! Character-level utilities shared by the sanitizer, the classifier and the
//! script readers: conversion between `str` and `Vec<char>`, substring
//! search, and decimal parsing.

use vstd::prelude::*;
use vstd::string::StrSliceExecFns;
use vstd::string::StringExecFns;

verus! {

/// Relies on String::push: appends the given character to the end of the
/// string.
#[verifier::external_body]
pub(crate) fn push_char(s: &mut String, c: char)
    ensures
        final(s)@ == old(s)@.push(c),
{
    s.push(c);
}

/// The characters of `s`, in order, as a vector.
pub fn str_chars(s: &str) -> (r: Vec<char>)
    ensures
        r@ == s@,
{
    let n = s.unicode_len();
    let mut r: Vec<char> = Vec::new();
    let mut i: usize = 0;
    while i < n
        invariant
            i <= n,
            n == s@.len(),
            r@ == s@.take(i as int),
        decreases n - i,
    {
        let c = s.get_char(i);
        r.push(c);
        assert(s@.take(i + 1 as int) =~= s@.take(i as int).push(s@[i as int]));
        i = i + 1;
    }
    assert(s@.take(n as int) =~= s@);
    r
}

/// `pat` occurs in `s` starting at position `i`.
pub open spec fn contains_at(s: Seq<char>, i: int, pat: Seq<char>) -> bool {
    0 <= i && i + pat.len() <= s.len() && s.subrange(i, i + pat.len()) == pat
}

/// `pat` occurs somewhere in `s`.
pub open spec fn contains_seq(s: Seq<char>, pat: Seq<char>) -> bool {
    exists|i: int| contains_at(s, i, pat)
}

/// Whether `pat` occurs in `hay` starting at position `i`.
pub fn matches_at(hay: &Vec<char>, i: usize, pat: &Vec<char>) -> (r: bool)
    requires
        i + pat@.len() <= hay@.len(),
    ensures
        r == contains_at(hay@, i as int, pat@),
{
    let plen = pat.len();
    let hlen = hay.len();
    let mut j: usize = 0;
    while j < plen
        invariant
            j <= plen,
            plen == pat@.len(),
            hlen == hay@.len(),
            i + plen <= hlen,
            forall|k: int| 0 <= k < j ==> hay@[i + k] == pat@[k],
        decreases plen - j,
    {
        if hay[i + j] != pat[j] {
            assert(hay@.subrange(i as int, i + pat@.len()) != pat@) by {
                assert(hay@.subrange(i as int, i + pat@.len())[j as int] != pat@[j as int]);
            }
            return false;
        }
        j = j + 1;
    }
    assert(hay@.subrange(i as int, i + pat@.len()) =~= pat@);
    true
}

/// The position of the first occurrence of `pat` in `hay`, if any.
pub fn find_sub(hay: &Vec<char>, pat: &Vec<char>) -> (r: Option<usize>)
    ensures
        match r {
            Some(i) => contains_at(hay@, i as int, pat@) && forall|j: int|
                0 <= j < i ==> !contains_at(hay@, j, pat@),
            None => !contains_seq(hay@, pat@),
        },
{
    if pat.len() > hay.len() {
        assert(!contains_seq(hay@, pat@));
        return None;
    }
    let last = hay.len() - pat.len();
    let mut i: usize = 0;
    loop
        invariant
            last == hay@.len() - pat@.len(),
            pat@.len() <= hay@.len(),
            i <= last,
            forall|j: int| 0 <= j < i ==> !contains_at(hay@, j, pat@),
        decreases last - i,
    {
        if matches_at(hay, i, pat) {
            return Some(i);
        }
        if i == last {
            assert(forall|j: int| contains_at(hay@, j, pat@) ==> 0 <= j <= last);
            return None;
        }
        i = i + 1;
    }
}

/// `pat` occurs somewhere in `hay`.
pub fn contains_chars(hay: &Vec<char>, pat: &Vec<char>) -> (r: bool)
    ensures
        r == contains_seq(hay@, pat@),
{
    match find_sub(hay, pat) {
        Some(_) => true,
        None => false,
    }
}

/// ASCII whitespace, as the script grammar and the token splitter see it.
pub open spec fn is_space_char(c: char) -> bool {
    c == ' ' || c == '\t' || c == '\n' || c == '\r' || c == '\u{b}' || c == '\u{c}'
}

/// Whether `c` is ASCII whitespace.
pub fn is_space(c: char) -> (r: bool)
    ensures
        r == is_space_char(c),
{
    c == ' ' || c == '\t' || c == '\n' || c == '\r' || c == '\u{b}' || c == '\u{c}'
}

/// A decimal digit.
pub open spec fn is_digit_char(c: char) -> bool {
    '0' <= c && c <= '9'
}

/// Whether `c` is a decimal digit.
pub fn is_digit(c: char) -> (r: bool)
    ensures
        r == is_digit_char(c),
{
    '0' <= c && c <= '9'
}

/// The numeric value of a decimal digit.
pub open spec fn digit_val(c: char) -> nat {
    ((c as int) - ('0' as int)) as nat
}

/// Every character of `s` is a decimal digit.
pub open spec fn all_digits(s: Seq<char>) -> bool {
    forall|i: int| 0 <= i < s.len() ==> is_digit_char(#[trigger] s[i])
}

/// The value of a digit string read in base ten.
pub open spec fn dec_value(s: Seq<char>) -> nat
    decreases s.len(),
{
    if s.len() == 0 {
        0
    } else {
        dec_value(s.drop_last()) * 10 + digit_val(s.last())
    }
}

/// Extending a digit string on the right never lowers its value.
proof fn lemma_dec_value_take_le(s: Seq<char>, i: int)
    requires
        0 <= i <= s.len(),
    ensures
        dec_value(s.take(i)) <= dec_value(s),
    decreases s.len() - i,
{
    if i < s.len() {
        assert(s.take(i + 1).drop_last() =~= s.take(i));
        assert(dec_value(s.take(i + 1)) == dec_value(s.take(i)) * 10 + digit_val(s.take(i + 1).last()));
        assert(dec_value(s.take(i)) * 10 >= dec_value(s.take(i)));
        lemma_dec_value_take_le(s, i + 1);
        assert(s.take(s.len() as int) =~= s);
    } else {
        assert(s.take(i) =~= s);
    }
}

/// The value of a token made of decimal digits, when the token is non-empty,
/// all digits and fits in a `u64`; `None` otherwise.
pub fn parse_decimal(s: &Vec<char>) -> (r: Option<u64>)
    ensures
        match r {
            Some(n) => s@.len() > 0 && all_digits(s@) && n == dec_value(s@)
                && dec_value(s@) <= u64::MAX,
            None => s@.len() == 0 || !all_digits(s@) || dec_value(s@) > u64::MAX,
        },
{
    if s.len() == 0 {
        return None;
    }
    let mut acc: u64 = 0;
    let mut i: usize = 0;
    while i < s.len()
        invariant
            i <= s@.len(),
            acc == dec_value(s@.take(i as int)),
            all_digits(s@.take(i as int)),
        decreases s@.len() - i,
    {
        let c = s[i];
        if !is_digit(c) {
            assert(!all_digits(s@)) by {
                assert(!is_digit_char(s@[i as int]));
            }
            return None;
        }
        let d: u64 = (c as u32 as u64) - 48;
        assert(d == digit_val(c));
        assert(s@.take(i + 1 as int).drop_last() =~= s@.take(i as int));
        assert(s@.take(i + 1 as int).last() == s@[i as int]);
        if acc > (u64::MAX - d) / 10 {
            assert(acc * 10 + d > u64::MAX) by (nonlinear_arith)
                requires
                    acc > (u64::MAX - d) / 10,
                    d <= 9,
            ;
            proof {
                lemma_dec_value_take_le(s@, i + 1);
            }
            return None;
        }
        assert(acc * 10 + d <= u64::MAX) by (nonlinear_arith)
            requires
                acc <= (u64::MAX - d) / 10,
                d <= 9,
        ;
        acc = acc * 10 + d;
        assert(all_digits(s@.take(i + 1 as int))) by {
            assert(forall|k: int| 0 <= k < i + 1 ==> s@.take(i + 1 as int)[k] == s@[k]);
        }
        i = i + 1;
    }
    assert(s@.take(s@.len() as int) =~= s@);
    Some(acc)
}

/// The characters of `v`, in order, as a string.
pub fn chars_to_string(v: &Vec<char>) -> (r: String)
    ensures
        r@ == v@,
{
    let mut r = String::new();
    let mut i: usize = 0;
    while i < v.len()
        invariant
            i <= v@.len(),
            r@ == v@.take(i as int),
        decreases v@.len() - i,
    {
        push_char(&mut r, v[i]);
        assert(v@.take(i + 1 as int) =~= v@.take(i as int).push(v@[i as int]));
        i = i + 1;
    }
    assert(v@.take(v@.len() as int) =~= v@);
    r
}

} // verus!
