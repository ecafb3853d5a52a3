//! Escape-sequence sanitization for log lines.
//!
//! Every line shown or buffered by the console first passes through
//! [`clean_log_message`], which removes ANSI control sequences: a CSI
//! sequence is the introducer `ESC [`, a run of parameter characters
//! (digits and `;`), and a final ASCII letter (`m` for colors). A sequence
//! whose terminator is missing or malformed is dropped up to the offending
//! character, and a stray introducer is dropped as well, so that the result
//! never contains the escape character and sanitizing twice equals
//! sanitizing once.

use vstd::prelude::*;

use crate::text::{chars_to_string, is_digit_char, str_chars};

verus! {

/// The escape character that introduces ANSI control sequences.
pub open spec fn esc_char() -> char {
    '\u{1b}'
}

/// A CSI parameter character: a digit or `;`.
pub open spec fn is_csi_param(c: char) -> bool {
    is_digit_char(c) || c == ';'
}

/// A CSI final character: an ASCII letter.
pub open spec fn is_csi_final(c: char) -> bool {
    ('a' <= c && c <= 'z') || ('A' <= c && c <= 'Z')
}

/// `s` with every ANSI control sequence removed, scanning plain text.
pub open spec fn strip_ansi(s: Seq<char>) -> Seq<char>
    decreases s.len(), 1int,
{
    if s.len() == 0 {
        Seq::<char>::empty()
    } else if s[0] == esc_char() {
        if s.len() >= 2 && s[1] == '[' {
            strip_csi(s.skip(2))
        } else {
            strip_ansi(s.skip(1))
        }
    } else {
        seq![s[0]] + strip_ansi(s.skip(1))
    }
}

/// `s` with every ANSI control sequence removed, scanning the inside of a
/// CSI sequence (the introducer has already been consumed).
pub open spec fn strip_csi(s: Seq<char>) -> Seq<char>
    decreases s.len(), 0int,
{
    if s.len() == 0 {
        Seq::<char>::empty()
    } else if is_csi_param(s[0]) {
        strip_csi(s.skip(1))
    } else if is_csi_final(s[0]) {
        strip_ansi(s.skip(1))
    } else if s[0] == esc_char() {
        if s.len() >= 2 && s[1] == '[' {
            strip_csi(s.skip(2))
        } else {
            strip_ansi(s.skip(1))
        }
    } else {
        seq![s[0]] + strip_ansi(s.skip(1))
    }
}

/// Law: sanitized text holds no escape introducer at all.
pub proof fn lemma_strip_ansi_no_escape(s: Seq<char>)
    ensures
        forall|i: int| 0 <= i < strip_ansi(s).len() ==> strip_ansi(s)[i] != esc_char(),
    decreases s.len(), 1int,
{
    if s.len() == 0 {
    } else if s[0] == esc_char() {
        if s.len() >= 2 && s[1] == '[' {
            assert(strip_ansi(s) == strip_csi(s.skip(2)));
            lemma_strip_csi_no_escape(s.skip(2));
        } else {
            assert(strip_ansi(s) == strip_ansi(s.skip(1)));
            lemma_strip_ansi_no_escape(s.skip(1));
        }
    } else {
        lemma_strip_ansi_no_escape(s.skip(1));
        assert forall|i: int| 0 <= i < strip_ansi(s).len() implies strip_ansi(s)[i]
            != esc_char() by {
            assert(strip_ansi(s) == seq![s[0]] + strip_ansi(s.skip(1)));
            if i > 0 {
                assert(strip_ansi(s)[i] == strip_ansi(s.skip(1))[i - 1]);
            }
        }
    }
}

/// Law: text scanned from inside a CSI sequence holds no escape introducer
/// either.
pub proof fn lemma_strip_csi_no_escape(s: Seq<char>)
    ensures
        forall|i: int| 0 <= i < strip_csi(s).len() ==> strip_csi(s)[i] != esc_char(),
    decreases s.len(), 0int,
{
    if s.len() == 0 {
    } else if is_csi_param(s[0]) {
        assert(strip_csi(s) == strip_csi(s.skip(1)));
        lemma_strip_csi_no_escape(s.skip(1));
    } else if is_csi_final(s[0]) {
        assert(strip_csi(s) == strip_ansi(s.skip(1)));
        lemma_strip_ansi_no_escape(s.skip(1));
    } else if s[0] == esc_char() {
        if s.len() >= 2 && s[1] == '[' {
            assert(strip_csi(s) == strip_csi(s.skip(2)));
            lemma_strip_csi_no_escape(s.skip(2));
        } else {
            assert(strip_csi(s) == strip_ansi(s.skip(1)));
            lemma_strip_ansi_no_escape(s.skip(1));
        }
    } else {
        lemma_strip_ansi_no_escape(s.skip(1));
        assert forall|i: int| 0 <= i < strip_csi(s).len() implies strip_csi(s)[i]
            != esc_char() by {
            assert(strip_csi(s) == seq![s[0]] + strip_ansi(s.skip(1)));
            if i > 0 {
                assert(strip_csi(s)[i] == strip_ansi(s.skip(1))[i - 1]);
            }
        }
    }
}

/// Sanitizing text that holds no escape introducer leaves it unchanged.
pub proof fn lemma_strip_ansi_clean_identity(s: Seq<char>)
    requires
        forall|i: int| 0 <= i < s.len() ==> s[i] != esc_char(),
    ensures
        strip_ansi(s) == s,
    decreases s.len(),
{
    if s.len() == 0 {
        assert(strip_ansi(s) =~= s);
    } else {
        assert(s[0] != esc_char());
        lemma_strip_ansi_clean_identity(s.skip(1));
        assert(seq![s[0]] + s.skip(1) =~= s);
    }
}

/// Law: sanitization is idempotent; cleaning already-clean text is a no-op.
pub proof fn lemma_strip_ansi_idempotent(s: Seq<char>)
    ensures
        strip_ansi(strip_ansi(s)) == strip_ansi(s),
{
    lemma_strip_ansi_no_escape(s);
    lemma_strip_ansi_clean_identity(strip_ansi(s));
}

/// `message` with every ANSI control sequence removed.
pub fn clean_log_message(message: &str) -> (r: String)
    ensures
        r@ == strip_ansi(message@),
{
    let chars = str_chars(message);
    let cleaned = strip_ansi_chars(&chars);
    chars_to_string(&cleaned)
}

/// Whether `c` is a CSI parameter character.
fn is_csi_param_exec(c: char) -> (r: bool)
    ensures
        r == is_csi_param(c),
{
    ('0' <= c && c <= '9') || c == ';'
}

/// Whether `c` is a CSI final character.
fn is_csi_final_exec(c: char) -> (r: bool)
    ensures
        r == is_csi_final(c),
{
    ('a' <= c && c <= 'z') || ('A' <= c && c <= 'Z')
}

/// `v` with every ANSI control sequence removed.
pub fn strip_ansi_chars(v: &Vec<char>) -> (r: Vec<char>)
    ensures
        r@ == strip_ansi(v@),
{
    let n = v.len();
    let mut out: Vec<char> = Vec::new();
    let mut i: usize = 0;
    let mut in_csi: bool = false;
    assert(v@.skip(0) =~= v@);
    loop
        invariant
            i <= n,
            n == v@.len(),
            in_csi ==> out@ + strip_csi(v@.skip(i as int)) == strip_ansi(v@),
            !in_csi ==> out@ + strip_ansi(v@.skip(i as int)) == strip_ansi(v@),
        decreases n - i,
    {
        if i == n {
            assert(v@.skip(i as int) =~= Seq::<char>::empty());
            assert(out@ + Seq::<char>::empty() =~= out@);
            return out;
        }
        let c = v[i];
        let ghost rest = v@.skip(i as int);
        assert(rest[0] == c);
        assert(rest.skip(1) =~= v@.skip(i + 1 as int));
        if in_csi {
            if is_csi_param_exec(c) {
                i = i + 1;
            } else if is_csi_final_exec(c) {
                in_csi = false;
                i = i + 1;
            } else if c == '\u{1b}' {
                if i + 1 < n && v[i + 1] == '[' {
                    assert(rest.len() >= 2 && rest[1] == '[');
                    assert(rest.skip(2) =~= v@.skip(i + 2 as int));
                    i = i + 2;
                } else {
                    assert(!(rest.len() >= 2 && rest[1] == '['));
                    in_csi = false;
                    i = i + 1;
                }
            } else {
                assert(strip_csi(rest) == seq![c] + strip_ansi(rest.skip(1)));
                out.push(c);
                assert(out@ =~= out@.drop_last() + seq![c]);
                assert(out@.drop_last() + (seq![c] + strip_ansi(rest.skip(1))) =~= out@
                    + strip_ansi(rest.skip(1)));
                in_csi = false;
                i = i + 1;
            }
        } else {
            if c == '\u{1b}' {
                if i + 1 < n && v[i + 1] == '[' {
                    assert(rest.len() >= 2 && rest[1] == '[');
                    assert(rest.skip(2) =~= v@.skip(i + 2 as int));
                    in_csi = true;
                    i = i + 2;
                } else {
                    assert(!(rest.len() >= 2 && rest[1] == '['));
                    i = i + 1;
                }
            } else {
                assert(strip_ansi(rest) == seq![c] + strip_ansi(rest.skip(1)));
                out.push(c);
                assert(out@ =~= out@.drop_last() + seq![c]);
                assert(out@.drop_last() + (seq![c] + strip_ansi(rest.skip(1))) =~= out@
                    + strip_ansi(rest.skip(1)));
                i = i + 1;
            }
        }
    }
}

} // verus!
