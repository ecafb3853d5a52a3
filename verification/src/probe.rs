//! Point-in-time probing helpers: reading the process table's output for the
//! validator's name, and extracting configuration values from launch-script
//! text.
//!
//! An extracted value is the first word that follows a marker (`exec`,
//! `--ledger`, `--log`): at the first position where the marker is followed
//! by at least one whitespace character and then at least one word
//! character, the maximal run of word characters is captured. A word
//! character is anything but whitespace and backslash, the script's
//! line-continuation character.

use vstd::prelude::*;

use crate::lines::{split_lines, split_lines_chars};
use crate::text::{chars_to_string, contains_chars, contains_seq, is_space, is_space_char,
    matches_at, str_chars};
use vstd::string::StringExecFns;

verus! {

/// The process name whose presence in a process listing means the validator
/// is alive.
pub open spec fn process_marker() -> Seq<char> {
    "solana-validator"@
}

/// Whether a process listing shows the validator process.
pub fn output_indicates_running(ps_output: &str) -> (r: bool)
    ensures
        r == contains_seq(ps_output@, process_marker()),
{
    let chars = str_chars(ps_output);
    let needle = str_chars("solana-validator");
    contains_chars(&chars, &needle)
}

/// A word character of the script grammar: not whitespace, not the
/// line-continuation backslash.
pub open spec fn is_word_char(c: char) -> bool {
    !is_space_char(c) && c != '\\'
}

/// The length of the leading whitespace run of `s`.
pub open spec fn ws_run_len(s: Seq<char>) -> nat
    decreases s.len(),
{
    if s.len() > 0 && is_space_char(s[0]) {
        (1 + ws_run_len(s.skip(1))) as nat
    } else {
        0
    }
}

/// The length of the leading word-character run of `s`.
pub open spec fn word_run_len(s: Seq<char>) -> nat
    decreases s.len(),
{
    if s.len() > 0 && is_word_char(s[0]) {
        (1 + word_run_len(s.skip(1))) as nat
    } else {
        0
    }
}

/// The marker matches at the front of `s`, followed by whitespace and a
/// word.
pub open spec fn match_at0(s: Seq<char>, marker: Seq<char>) -> bool {
    &&& marker.len() <= s.len()
    &&& s.take(marker.len() as int) == marker
    &&& {
        let rest = s.skip(marker.len() as int);
        &&& ws_run_len(rest) >= 1
        &&& word_run_len(rest.skip(ws_run_len(rest) as int)) >= 1
    }
}

/// The word captured by a front match of the marker.
pub open spec fn capture_at0(s: Seq<char>, marker: Seq<char>) -> Seq<char> {
    let rest = s.skip(marker.len() as int);
    let after_ws = rest.skip(ws_run_len(rest) as int);
    after_ws.take(word_run_len(after_ws) as int)
}

/// The first word that follows `marker` in `s`, if any.
pub open spec fn capture_spec(s: Seq<char>, marker: Seq<char>) -> Option<Seq<char>>
    decreases s.len(),
{
    if s.len() == 0 {
        None
    } else if match_at0(s, marker) {
        Some(capture_at0(s, marker))
    } else {
        capture_spec(s.skip(1), marker)
    }
}

/// The length of the whitespace run of `v` starting at `from`.
fn ws_run_from(v: &Vec<char>, from: usize) -> (r: usize)
    requires
        from <= v@.len(),
    ensures
        from + r <= v@.len(),
        r == ws_run_len(v@.skip(from as int)),
{
    let n = v.len();
    let mut k = from;
    loop
        invariant
            from <= k <= n,
            n == v@.len(),
            ws_run_len(v@.skip(from as int)) == (k - from) + ws_run_len(v@.skip(k as int)),
        decreases n - k,
    {
        let ghost rest = v@.skip(k as int);
        if k < n && is_space(v[k]) {
            assert(rest[0] == v@[k as int]);
            assert(rest.skip(1) =~= v@.skip(k + 1 as int));
            k = k + 1;
        } else {
            proof {
                if k == n {
                    assert(rest =~= Seq::<char>::empty());
                }
                assert(ws_run_len(rest) == 0);
            }
            return k - from;
        }
    }
}

/// The length of the word-character run of `v` starting at `from`.
fn word_run_from(v: &Vec<char>, from: usize) -> (r: usize)
    requires
        from <= v@.len(),
    ensures
        from + r <= v@.len(),
        r == word_run_len(v@.skip(from as int)),
{
    let n = v.len();
    let mut k = from;
    loop
        invariant
            from <= k <= n,
            n == v@.len(),
            word_run_len(v@.skip(from as int)) == (k - from) + word_run_len(v@.skip(k as int)),
        decreases n - k,
    {
        let ghost rest = v@.skip(k as int);
        if k < n && !is_space(v[k]) && v[k] != '\\' {
            assert(rest[0] == v@[k as int]);
            assert(rest.skip(1) =~= v@.skip(k + 1 as int));
            k = k + 1;
        } else {
            proof {
                if k == n {
                    assert(rest =~= Seq::<char>::empty());
                }
                assert(word_run_len(rest) == 0);
            }
            return k - from;
        }
    }
}

/// The first word that follows `marker` in `content`, if any.
pub fn capture_after(content: &Vec<char>, marker: &Vec<char>) -> (r: Option<Vec<char>>)
    requires
        marker@.len() >= 1,
    ensures
        r.deep_view() == capture_spec(content@, marker@),
{
    let n = content.len();
    let mlen = marker.len();
    let mut i: usize = 0;
    assert(content@.skip(0) =~= content@);
    loop
        invariant
            i <= n,
            n == content@.len(),
            mlen == marker@.len(),
            mlen >= 1,
            capture_spec(content@.skip(i as int), marker@) == capture_spec(content@, marker@),
        decreases n - i,
    {
        if i == n {
            assert(content@.skip(n as int) =~= Seq::<char>::empty());
            return None;
        }
        let ghost rest0 = content@.skip(i as int);
        assert(rest0.skip(1) =~= content@.skip(i + 1 as int));
        if mlen <= n - i && matches_at(content, i, marker) {
            assert(rest0.take(mlen as int) =~= content@.subrange(i as int, i + mlen));
            let j = i + mlen;
            let ghost rest = content@.skip(j as int);
            assert(rest0.skip(mlen as int) =~= rest);
            let w = ws_run_from(content, j);
            let d = if w > 0 {
                word_run_from(content, j + w)
            } else {
                0
            };
            if w > 0 && d > 0 {
                let k = j + w;
                assert(rest.skip(w as int) =~= content@.skip(k as int));
                assert(match_at0(rest0, marker@));
                let mut out: Vec<char> = Vec::new();
                let mut t = k;
                while t < k + d
                    invariant
                        k <= t <= k + d,
                        k + d <= n,
                        n == content@.len(),
                        out@ == content@.subrange(k as int, t as int),
                    decreases k + d - t,
                {
                    out.push(content[t]);
                    assert(out@ =~= content@.subrange(k as int, t + 1 as int));
                    t = t + 1;
                }
                assert(out@ =~= capture_at0(rest0, marker@));
                assert(capture_spec(rest0, marker@) == Some(capture_at0(rest0, marker@)));
                return Some(out);
            }
            proof {
                if w > 0 {
                    assert(rest.skip(w as int) =~= content@.skip(j + w as int));
                }
                assert(!match_at0(rest0, marker@));
            }
        } else {
            proof {
                if i + mlen <= n {
                    assert(rest0.take(mlen as int) =~= content@.subrange(i as int, i + mlen));
                    assert(!match_at0(rest0, marker@));
                } else {
                    assert(!match_at0(rest0, marker@));
                }
            }
        }
        assert(capture_spec(rest0, marker@) == capture_spec(rest0.skip(1), marker@));
        i = i + 1;
    }
}

/// The validator binary's path: the first word after `exec` in the script.
pub fn extract_validator_path(script_content: &str) -> (r: Option<String>)
    ensures
        r.deep_view() == capture_spec(script_content@, "exec"@),
{
    let chars = str_chars(script_content);
    let marker = str_chars("exec");
    proof {
        reveal_strlit("exec");
    }
    match capture_after(&chars, &marker) {
        Option::Some(w) => Some(chars_to_string(&w)),
        Option::None => None,
    }
}

/// The ledger directory: the first word after `--ledger` in the script.
pub fn extract_ledger_path(script_content: &str) -> (r: Option<String>)
    ensures
        r.deep_view() == capture_spec(script_content@, "--ledger"@),
{
    let chars = str_chars(script_content);
    let marker = str_chars("--ledger");
    proof {
        reveal_strlit("--ledger");
    }
    match capture_after(&chars, &marker) {
        Option::Some(w) => Some(chars_to_string(&w)),
        Option::None => None,
    }
}

/// The log file location: the first word after `--log` in the script.
pub fn extract_log_path(script_content: &str) -> (r: Option<String>)
    ensures
        r.deep_view() == capture_spec(script_content@, "--log"@),
{
    let chars = str_chars(script_content);
    let marker = str_chars("--log");
    proof {
        reveal_strlit("--log");
    }
    match capture_after(&chars, &marker) {
        Option::Some(w) => Some(chars_to_string(&w)),
        Option::None => None,
    }
}

/// The directory prefix of a path: everything up to and including the last
/// `/`, empty when the path has none.
pub open spec fn dir_of(p: Seq<char>) -> Seq<char>
    decreases p.len(),
{
    if p.len() == 0 {
        p
    } else if p.last() == '/' {
        p
    } else {
        dir_of(p.drop_last())
    }
}

/// The first script line that holds the launch command.
pub open spec fn first_launch_line(ls: Seq<Seq<char>>) -> Option<Seq<char>>
    decreases ls.len(),
{
    if ls.len() == 0 {
        None
    } else if contains_seq(ls[0], "exec"@) && contains_seq(ls[0], process_marker()) {
        Some(ls[0])
    } else {
        first_launch_line(ls.skip(1))
    }
}

/// The path of the `solana` tool that sits beside the validator binary.
pub open spec fn solana_path_spec(s: Seq<char>) -> Option<Seq<char>> {
    match first_launch_line(split_lines(s)) {
        Option::None => None,
        Option::Some(line) => match capture_spec(line, "exec"@) {
            Option::None => None,
            Option::Some(word) => Some(dir_of(word) + "solana"@),
        },
    }
}

/// The `solana` tool's path, derived from the launch line of the script: the
/// validator binary's directory joined with `solana`.
pub fn extract_solana_path(script_content: &str) -> (r: Option<String>)
    ensures
        r.deep_view() == solana_path_spec(script_content@),
{
    let chars = str_chars(script_content);
    let exec_marker = str_chars("exec");
    let name_marker = str_chars("solana-validator");
    let lines = split_lines_chars(&chars);
    let ghost lv = lines.deep_view();
    let n = lines.len();
    let mut i: usize = 0;
    assert(lv.skip(0) =~~= lv);
    while i < n
        invariant
            i <= n,
            n == lines@.len(),
            lv == lines.deep_view(),
            lv == split_lines(script_content@),
            exec_marker@ == "exec"@,
            name_marker@ == process_marker(),
            first_launch_line(lv.skip(i as int)) == first_launch_line(lv),
        decreases n - i,
    {
        let ghost rest = lv.skip(i as int);
        assert(rest[0] == lv[i as int]);
        assert(lv[i as int] =~= lines@[i as int]@);
        assert(rest.skip(1) =~~= lv.skip(i + 1 as int));
        if contains_chars(&lines[i], &exec_marker) && contains_chars(&lines[i], &name_marker) {
            assert(first_launch_line(lv) == Some(lv[i as int]));
            proof {
                reveal_strlit("exec");
            }
            match capture_after(&lines[i], &exec_marker) {
                Option::Some(word) => {
                    assert(word.deep_view() =~= word@);
                    let mut dir = word;
                    let mut done: bool = false;
                    while !done
                        invariant
                            dir_of(dir@) == dir_of(word@),
                            done ==> dir_of(dir@) == dir@,
                        decreases dir@.len() + (if done {
                            0int
                        } else {
                            1int
                        }),
                    {
                        if dir.len() > 0 && dir[dir.len() - 1] != '/' {
                            let ghost d0 = dir@;
                            dir.pop();
                            assert(dir@ =~= d0.drop_last());
                        } else {
                            done = true;
                        }
                    }
                    assert(dir_of(word@) == dir@);
                    let prefix = chars_to_string(&dir);
                    let joined = prefix.concat("solana");
                    assert(joined@ == dir_of(word@) + "solana"@);
                    return Some(joined);
                },
                Option::None => {
                    return None;
                },
            }
        }
        i = i + 1;
    }
    assert(lv.skip(n as int) =~~= Seq::<Seq<char>>::empty());
    None
}

} // verus!
