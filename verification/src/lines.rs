//! Line and token splitting for log text and status-command output.
//!
//! Lines end at `\n`, and a carriage return directly before the line feed is
//! dropped with it; a final line ending is optional. Tokens are maximal runs
//! of non-whitespace characters.

use vstd::prelude::*;

use crate::text::{chars_to_string, is_space, is_space_char, push_char, str_chars};
use vstd::string::StringExecFns;

verus! {

/// `l` without a trailing carriage return.
pub open spec fn chomp_cr(l: Seq<char>) -> Seq<char> {
    if l.len() > 0 && l.last() == '\r' {
        l.drop_last()
    } else {
        l
    }
}

/// The lines of `cur + s`, where `cur` is the part of the current line that
/// is already read.
pub open spec fn split_lines_acc(s: Seq<char>, cur: Seq<char>) -> Seq<Seq<char>>
    decreases s.len(),
{
    if s.len() == 0 {
        if cur.len() == 0 {
            Seq::<Seq<char>>::empty()
        } else {
            seq![cur]
        }
    } else if s[0] == '\n' {
        seq![chomp_cr(cur)] + split_lines_acc(s.skip(1), Seq::<char>::empty())
    } else {
        split_lines_acc(s.skip(1), cur.push(s[0]))
    }
}

/// The lines of `s`.
pub open spec fn split_lines(s: Seq<char>) -> Seq<Seq<char>> {
    split_lines_acc(s, Seq::<char>::empty())
}

/// The lines of `v`, as character vectors.
pub fn split_lines_chars(v: &Vec<char>) -> (r: Vec<Vec<char>>)
    ensures
        r.deep_view() == split_lines(v@),
{
    let n = v.len();
    let mut out: Vec<Vec<char>> = Vec::new();
    let mut cur: Vec<char> = Vec::new();
    let mut i: usize = 0;
    assert(v@.skip(0) =~= v@);
    while i < n
        invariant
            i <= n,
            n == v@.len(),
            out.deep_view() + split_lines_acc(v@.skip(i as int), cur@) == split_lines(v@),
        decreases n - i,
    {
        let c = v[i];
        let ghost rest = v@.skip(i as int);
        assert(rest[0] == c);
        assert(rest.skip(1) =~= v@.skip(i + 1 as int));
        if c == '\n' {
            assert(split_lines_acc(rest, cur@) == seq![chomp_cr(cur@)] + split_lines_acc(
                rest.skip(1),
                Seq::<char>::empty(),
            ));
            let ghost old_out = out.deep_view();
            let ghost cur0 = cur@;
            let mut line = cur;
            cur = Vec::new();
            if line.len() > 0 && line[line.len() - 1] == '\r' {
                line.pop();
            }
            assert(line@ == chomp_cr(cur0));
            out.push(line);
            assert(out.deep_view() =~~= old_out + seq![chomp_cr(cur0)]);
            assert((old_out + seq![chomp_cr(cur0)]) + split_lines_acc(
                rest.skip(1),
                Seq::<char>::empty(),
            ) =~= old_out + (seq![chomp_cr(cur0)] + split_lines_acc(
                rest.skip(1),
                Seq::<char>::empty(),
            )));
        } else {
            assert(split_lines_acc(rest, cur@) == split_lines_acc(rest.skip(1), cur@.push(c)));
            cur.push(c);
        }
        i = i + 1;
    }
    assert(v@.skip(n as int) =~= Seq::<char>::empty());
    if cur.len() > 0 {
        let ghost old_out = out.deep_view();
        let ghost cur0 = cur@;
        out.push(cur);
        assert(out.deep_view() =~~= old_out + seq![cur0]);
    } else {
        assert(out.deep_view() + Seq::<Seq<char>>::empty() =~= out.deep_view());
    }
    out
}

/// The lines of `v`, as strings.
pub fn split_lines_strings(v: &Vec<char>) -> (r: Vec<String>)
    ensures
        r.deep_view() == split_lines(v@),
{
    let parts = split_lines_chars(v);
    let mut out: Vec<String> = Vec::new();
    let mut i: usize = 0;
    while i < parts.len()
        invariant
            i <= parts@.len(),
            out.deep_view() == parts.deep_view().take(i as int),
        decreases parts@.len() - i,
    {
        let ghost old_out = out.deep_view();
        let line = chars_to_string(&parts[i]);
        out.push(line);
        assert(out.deep_view() =~~= old_out + seq![parts.deep_view()[i as int]]);
        assert(parts.deep_view().take(i + 1 as int) =~~= parts.deep_view().take(i as int)
            + seq![parts.deep_view()[i as int]]);
        i = i + 1;
    }
    assert(parts.deep_view().take(parts@.len() as int) =~~= parts.deep_view());
    out
}

/// The tail of a joined line list: each remaining line preceded by `\n`.
pub open spec fn join_pre(ls: Seq<Seq<char>>) -> Seq<char>
    decreases ls.len(),
{
    if ls.len() == 0 {
        Seq::<char>::empty()
    } else {
        seq!['\n'] + ls[0] + join_pre(ls.skip(1))
    }
}

/// The lines of `ls` joined with `\n`, with no trailing separator.
pub open spec fn join_lines(ls: Seq<Seq<char>>) -> Seq<char> {
    if ls.len() == 0 {
        Seq::<char>::empty()
    } else {
        ls[0] + join_pre(ls.skip(1))
    }
}

/// The strings of `v` joined with `\n`, with no trailing separator.
pub fn join_lines_exec(v: &Vec<String>) -> (r: String)
    ensures
        r@ == join_lines(v.deep_view()),
{
    let ghost dv = v.deep_view();
    if v.len() == 0 {
        let r = String::new();
        return r;
    }
    let mut r = String::new();
    r.append(v[0].as_str());
    assert(r@ == dv[0]);
    let mut i: usize = 1;
    while i < v.len()
        invariant
            1 <= i <= v@.len(),
            v@.len() >= 1,
            dv == v.deep_view(),
            r@ + join_pre(dv.skip(i as int)) == join_lines(dv),
        decreases v@.len() - i,
    {
        let ghost tail = dv.skip(i as int);
        assert(tail[0] == dv[i as int]);
        assert(tail.skip(1) =~~= dv.skip(i + 1 as int));
        assert(join_pre(tail) == seq!['\n'] + tail[0] + join_pre(tail.skip(1)));
        let ghost r0 = r@;
        push_char(&mut r, '\n');
        r.append(v[i].as_str());
        assert(r@ =~= r0 + (seq!['\n'] + dv[i as int]));
        assert((r0 + (seq!['\n'] + dv[i as int])) + join_pre(dv.skip(i + 1 as int)) =~= r0 + (
        seq!['\n'] + dv[i as int] + join_pre(dv.skip(i + 1 as int))));
        i = i + 1;
    }
    assert(dv.skip(v@.len() as int) =~= Seq::<Seq<char>>::empty());
    assert(r@ + Seq::<char>::empty() =~= r@);
    r
}

/// `s` without trailing whitespace.
pub open spec fn trim_end_spec(s: Seq<char>) -> Seq<char>
    decreases s.len(),
{
    if s.len() > 0 && is_space_char(s.last()) {
        trim_end_spec(s.drop_last())
    } else {
        s
    }
}

/// `s` without trailing whitespace.
pub fn trim_end_text(s: &str) -> (r: String)
    ensures
        r@ == trim_end_spec(s@),
{
    let mut v = str_chars(s);
    let mut done: bool = false;
    while !done
        invariant
            trim_end_spec(v@) == trim_end_spec(s@),
            done ==> !(v@.len() > 0 && is_space_char(v@.last())),
        decreases v@.len() + (if done {
            0int
        } else {
            1int
        }),
    {
        if v.len() > 0 && is_space(v[v.len() - 1]) {
            let ghost v0 = v@;
            v.pop();
            assert(v@ =~= v0.drop_last());
        } else {
            done = true;
        }
    }
    assert(trim_end_spec(v@) == v@);
    chars_to_string(&v)
}

/// The whitespace-separated tokens of `cur + s`, where `cur` is the part of
/// the current token that is already read.
pub open spec fn split_ws_acc(s: Seq<char>, cur: Seq<char>) -> Seq<Seq<char>>
    decreases s.len(),
{
    if s.len() == 0 {
        if cur.len() == 0 {
            Seq::<Seq<char>>::empty()
        } else {
            seq![cur]
        }
    } else if is_space_char(s[0]) {
        if cur.len() == 0 {
            split_ws_acc(s.skip(1), Seq::<char>::empty())
        } else {
            seq![cur] + split_ws_acc(s.skip(1), Seq::<char>::empty())
        }
    } else {
        split_ws_acc(s.skip(1), cur.push(s[0]))
    }
}

/// The whitespace-separated tokens of `s`.
pub open spec fn split_ws(s: Seq<char>) -> Seq<Seq<char>> {
    split_ws_acc(s, Seq::<char>::empty())
}

/// The whitespace-separated tokens of `v`.
pub fn split_ws_chars(v: &Vec<char>) -> (r: Vec<Vec<char>>)
    ensures
        r.deep_view() == split_ws(v@),
{
    let n = v.len();
    let mut out: Vec<Vec<char>> = Vec::new();
    let mut cur: Vec<char> = Vec::new();
    let mut i: usize = 0;
    assert(v@.skip(0) =~= v@);
    while i < n
        invariant
            i <= n,
            n == v@.len(),
            out.deep_view() + split_ws_acc(v@.skip(i as int), cur@) == split_ws(v@),
        decreases n - i,
    {
        let c = v[i];
        let ghost rest = v@.skip(i as int);
        assert(rest[0] == c);
        assert(rest.skip(1) =~= v@.skip(i + 1 as int));
        if is_space(c) {
            if cur.len() > 0 {
                assert(split_ws_acc(rest, cur@) == seq![cur@] + split_ws_acc(
                    rest.skip(1),
                    Seq::<char>::empty(),
                ));
                let ghost old_out = out.deep_view();
                let ghost cur0 = cur@;
                let token = cur;
                cur = Vec::new();
                out.push(token);
                assert(out.deep_view() =~~= old_out + seq![cur0]);
                assert((old_out + seq![cur0]) + split_ws_acc(
                    rest.skip(1),
                    Seq::<char>::empty(),
                ) =~= old_out + (seq![cur0] + split_ws_acc(rest.skip(1), Seq::<char>::empty())));
            } else {
                assert(cur@ =~= Seq::<char>::empty());
                assert(split_ws_acc(rest, cur@) == split_ws_acc(
                    rest.skip(1),
                    Seq::<char>::empty(),
                ));
            }
        } else {
            assert(split_ws_acc(rest, cur@) == split_ws_acc(rest.skip(1), cur@.push(c)));
            cur.push(c);
        }
        i = i + 1;
    }
    assert(v@.skip(n as int) =~= Seq::<char>::empty());
    if cur.len() > 0 {
        let ghost old_out = out.deep_view();
        let ghost cur0 = cur@;
        out.push(cur);
        assert(out.deep_view() =~~= old_out + seq![cur0]);
    } else {
        assert(out.deep_view() + Seq::<Seq<char>>::empty() =~= out.deep_view());
    }
    out
}

} // verus!
