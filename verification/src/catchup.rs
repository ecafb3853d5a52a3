//! Classification of the external status command's output into a sync state.
//!
//! The classification is a pure function of the output text: an error marker
//! anywhere in the output means the state is unknown; otherwise the first
//! line that mentions `slot(s) behind` is searched for its first numeric
//! token, which is the slot deficit — zero means the validator has caught
//! up. Output with neither marker, or whose number cannot be read, leaves
//! the state unknown.

use vstd::prelude::*;

use crate::lines::{split_lines, split_lines_chars, split_ws, split_ws_chars};
use crate::text::{all_digits, contains_chars, contains_seq, dec_value, is_digit, parse_decimal,
    str_chars};

verus! {

/// How far the validator's ledger is behind the network tip.
#[derive(Clone, Copy, Debug, PartialEq, Eq, Structural)]
pub enum CatchupStatus {
    /// Not running, the status command failed, or its output was unreadable.
    Unknown,
    /// The given number of slots behind the tip.
    Behind(u64),
    /// No slots behind: fully synchronized.
    CaughtUp,
}

/// The output carries an error marker.
pub open spec fn error_marked(s: Seq<char>) -> bool {
    contains_seq(s, "error"@) || contains_seq(s, "Error"@)
}

/// The first of `ls` that contains `pat`.
pub open spec fn first_line_with(ls: Seq<Seq<char>>, pat: Seq<char>) -> Option<Seq<char>>
    decreases ls.len(),
{
    if ls.len() == 0 {
        None
    } else if contains_seq(ls[0], pat) {
        Some(ls[0])
    } else {
        first_line_with(ls.skip(1), pat)
    }
}

/// The first of `toks` that is a non-empty run of decimal digits.
pub open spec fn first_numeric_token(toks: Seq<Seq<char>>) -> Option<Seq<char>>
    decreases toks.len(),
{
    if toks.len() == 0 {
        None
    } else if toks[0].len() > 0 && all_digits(toks[0]) {
        Some(toks[0])
    } else {
        first_numeric_token(toks.skip(1))
    }
}

/// The sync state that the status command's output describes.
pub open spec fn classify_spec(s: Seq<char>) -> CatchupStatus {
    if error_marked(s) {
        CatchupStatus::Unknown
    } else {
        match first_line_with(split_lines(s), "slot(s) behind"@) {
            Option::None => CatchupStatus::Unknown,
            Option::Some(line) => match first_numeric_token(split_ws(line)) {
                Option::None => CatchupStatus::Unknown,
                Option::Some(tok) => if dec_value(tok) > u64::MAX {
                    CatchupStatus::Unknown
                } else if dec_value(tok) > 0 {
                    CatchupStatus::Behind(dec_value(tok) as u64)
                } else {
                    CatchupStatus::CaughtUp
                },
            },
        }
    }
}

/// Whether the output carries an error marker.
pub fn has_error_marker(content: &str) -> (r: bool)
    ensures
        r == error_marked(content@),
{
    let chars = str_chars(content);
    let err_lower = str_chars("error");
    let err_upper = str_chars("Error");
    contains_chars(&chars, &err_lower) || contains_chars(&chars, &err_upper)
}

/// Whether `t` is a non-empty run of decimal digits.
fn is_numeric_token(t: &Vec<char>) -> (r: bool)
    ensures
        r == (t@.len() > 0 && all_digits(t@)),
{
    if t.len() == 0 {
        return false;
    }
    let mut j: usize = 0;
    while j < t.len()
        invariant
            j <= t@.len(),
            forall|k: int| 0 <= k < j ==> crate::text::is_digit_char(#[trigger] t@[k]),
        decreases t@.len() - j,
    {
        if !is_digit(t[j]) {
            assert(!all_digits(t@)) by {
                assert(!crate::text::is_digit_char(t@[j as int]));
            }
            return false;
        }
        j = j + 1;
    }
    true
}

/// Classifies the status command's output; the result depends on the text
/// alone.
pub fn classify_catchup_output(content: &str) -> (r: CatchupStatus)
    ensures
        r == classify_spec(content@),
{
    let chars = str_chars(content);
    let err_lower = str_chars("error");
    let err_upper = str_chars("Error");
    if contains_chars(&chars, &err_lower) || contains_chars(&chars, &err_upper) {
        return CatchupStatus::Unknown;
    }
    let marker = str_chars("slot(s) behind");
    let lines = split_lines_chars(&chars);
    let ghost lv = lines.deep_view();
    let n = lines.len();
    let mut i: usize = 0;
    assert(lv.skip(0) =~~= lv);
    while i < n
        invariant
            i <= n,
            n == lines@.len(),
            lv == lines.deep_view(),
            lv == split_lines(content@),
            !error_marked(content@),
            marker@ == "slot(s) behind"@,
            first_line_with(lv.skip(i as int), marker@) == first_line_with(lv, marker@),
        decreases n - i,
    {
        let ghost rest = lv.skip(i as int);
        assert(rest[0] == lv[i as int]);
        assert(lv[i as int] =~= lines@[i as int]@);
        assert(rest.skip(1) =~~= lv.skip(i + 1 as int));
        if contains_chars(&lines[i], &marker) {
            assert(first_line_with(lv, marker@) == Some(lv[i as int]));
            return classify_line(&lines[i]);
        }
        i = i + 1;
    }
    assert(lv.skip(n as int) =~~= Seq::<Seq<char>>::empty());
    CatchupStatus::Unknown
}

/// Classifies one line that mentions the behind marker: its first numeric
/// token is the slot deficit.
fn classify_line(line: &Vec<char>) -> (r: CatchupStatus)
    ensures
        r == match first_numeric_token(split_ws(line@)) {
            Option::None => CatchupStatus::Unknown,
            Option::Some(tok) => if dec_value(tok) > u64::MAX {
                CatchupStatus::Unknown
            } else if dec_value(tok) > 0 {
                CatchupStatus::Behind(dec_value(tok) as u64)
            } else {
                CatchupStatus::CaughtUp
            },
        },
{
    let toks = split_ws_chars(line);
    let ghost tv = toks.deep_view();
    let n = toks.len();
    let mut i: usize = 0;
    assert(tv.skip(0) =~~= tv);
    while i < n
        invariant
            i <= n,
            n == toks@.len(),
            tv == toks.deep_view(),
            tv == split_ws(line@),
            first_numeric_token(tv.skip(i as int)) == first_numeric_token(tv),
        decreases n - i,
    {
        let ghost rest = tv.skip(i as int);
        assert(rest[0] == tv[i as int]);
        assert(tv[i as int] =~= toks@[i as int]@);
        assert(rest.skip(1) =~~= tv.skip(i + 1 as int));
        if is_numeric_token(&toks[i]) {
            assert(first_numeric_token(tv) == Some(tv[i as int]));
            match parse_decimal(&toks[i]) {
                Option::Some(slots) => {
                    if slots > 0 {
                        return CatchupStatus::Behind(slots);
                    } else {
                        return CatchupStatus::CaughtUp;
                    }
                },
                Option::None => {
                    return CatchupStatus::Unknown;
                },
            }
        }
        i = i + 1;
    }
    assert(tv.skip(n as int) =~~= Seq::<Seq<char>>::empty());
    CatchupStatus::Unknown
}

} // verus!
