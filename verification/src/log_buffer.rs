//! The bounded log buffer: an ordered sequence of sanitized lines that never
//! grows past its capacity; once full, appending evicts the oldest line.

use vstd::prelude::*;

use crate::lines::{join_lines, join_lines_exec, split_lines, split_lines_strings};
use crate::sanitize::{strip_ansi, strip_ansi_chars};
use crate::text::str_chars;

verus! {

/// How many log lines the console keeps.
pub const MAX_LOG_LINES: usize = 100;

/// `buf` after one line is appended under capacity `cap`: the line goes to
/// the back, and the oldest entries are evicted until the buffer fits again.
pub open spec fn ring_append(buf: Seq<Seq<char>>, cap: nat, line: Seq<char>) -> Seq<Seq<char>> {
    let b = buf.push(line);
    if b.len() <= cap {
        b
    } else {
        b.skip(b.len() - cap)
    }
}

/// `buf` after every entry of `entries` is appended in order.
pub open spec fn ring_append_all(buf: Seq<Seq<char>>, cap: nat, entries: Seq<Seq<char>>) -> Seq<
    Seq<char>,
>
    decreases entries.len(),
{
    if entries.len() == 0 {
        buf
    } else {
        ring_append_all(ring_append(buf, cap, entries[0]), cap, entries.skip(1))
    }
}

/// The last `k` entries of `s`.
pub open spec fn suffix_of(s: Seq<Seq<char>>, k: nat) -> Seq<Seq<char>>
    recommends
        k <= s.len(),
{
    s.skip(s.len() - k)
}

/// How many entries remain of `total` appended under capacity `cap`.
pub open spec fn kept_len(total: nat, cap: nat) -> nat {
    if total <= cap {
        total
    } else {
        cap
    }
}

/// Law: a buffer within capacity stays within capacity after any number of
/// appends, and what remains is exactly the last entries, in their original
/// order.
pub proof fn lemma_ring_append_all_model(buf: Seq<Seq<char>>, cap: nat, entries: Seq<Seq<char>>)
    requires
        cap >= 1,
        buf.len() <= cap,
    ensures
        ring_append_all(buf, cap, entries) == suffix_of(
            buf + entries,
            kept_len(buf.len() + entries.len(), cap),
        ),
        ring_append_all(buf, cap, entries).len() == kept_len(buf.len() + entries.len(), cap),
        ring_append_all(buf, cap, entries).len() <= cap,
    decreases entries.len(),
{
    let l0 = buf.len();
    let e = entries.len();
    let whole = buf + entries;
    let kfin = kept_len(l0 + e, cap);
    if e == 0 {
        assert(suffix_of(whole, kfin) =~~= buf);
    } else {
        let b2 = ring_append(buf, cap, entries[0]);
        let m1 = kept_len(l0 + 1, cap);
        assert(b2.len() == m1);
        lemma_ring_append_all_model(b2, cap, entries.skip(1));
        let a1 = b2 + entries.skip(1);
        assert(kept_len(b2.len() + entries.skip(1).len(), cap) == kfin);
        assert forall|t: int| 0 <= t < a1.len() implies a1[t] == whole[(l0 + 1 - m1) + t] by {
            if t < m1 {
                assert(a1[t] == b2[t]);
                assert(b2[t] == buf.push(entries[0])[(l0 + 1 - m1) + t]);
            } else {
                assert(a1[t] == entries.skip(1)[t - m1]);
                assert(entries.skip(1)[t - m1] == entries[1 + (t - m1)]);
            }
        }
        assert(suffix_of(a1, kfin) =~~= suffix_of(whole, kfin)) by {
            assert(a1.len() == m1 + e - 1);
            assert forall|j: int| 0 <= j < kfin implies suffix_of(a1, kfin)[j] == suffix_of(
                whole,
                kfin,
            )[j] by {
                assert(suffix_of(a1, kfin)[j] == a1[(m1 + e - 1 - kfin) + j]);
                assert(a1[(m1 + e - 1 - kfin) + j] == whole[(l0 + e - kfin) + j]);
            }
        }
    }
}

/// Law: appending more entries than the capacity to an empty buffer keeps
/// exactly the last `cap` entries, in their original order.
pub proof fn lemma_ring_overflow_keeps_suffix(cap: nat, entries: Seq<Seq<char>>)
    requires
        cap >= 1,
        entries.len() > cap,
    ensures
        ring_append_all(Seq::<Seq<char>>::empty(), cap, entries) == entries.skip(
            entries.len() - cap,
        ),
        ring_append_all(Seq::<Seq<char>>::empty(), cap, entries).len() == cap,
{
    lemma_ring_append_all_model(Seq::<Seq<char>>::empty(), cap, entries);
    assert(Seq::<Seq<char>>::empty() + entries =~~= entries);
}

/// `buf` after one message is logged under capacity `cap`: the message is
/// sanitized, split into lines, and appended in order.
pub open spec fn logged(buf: Seq<Seq<char>>, cap: nat, msg: Seq<char>) -> Seq<Seq<char>> {
    ring_append_all(buf, cap, split_lines(strip_ansi(msg)))
}

/// The bounded, ordered buffer of sanitized log lines.
pub struct LogBuffer {
    lines: Vec<String>,
    capacity: usize,
}

impl View for LogBuffer {
    type V = Seq<Seq<char>>;

    closed spec fn view(&self) -> Seq<Seq<char>> {
        self.lines.deep_view()
    }
}

impl LogBuffer {
    /// The buffer's capacity.
    pub closed spec fn cap(&self) -> nat {
        self.capacity as nat
    }

    /// The buffer never holds more lines than its capacity.
    pub open spec fn wf(&self) -> bool {
        self.cap() >= 1 && self@.len() <= self.cap()
    }

    /// An empty buffer with the console's default capacity.
    pub fn new() -> (r: LogBuffer)
        ensures
            r.wf(),
            r@ == Seq::<Seq<char>>::empty(),
            r.cap() == MAX_LOG_LINES,
    {
        Self::with_capacity(MAX_LOG_LINES)
    }

    /// An empty buffer with the given capacity.
    pub fn with_capacity(capacity: usize) -> (r: LogBuffer)
        requires
            capacity >= 1,
        ensures
            r.wf(),
            r@ == Seq::<Seq<char>>::empty(),
            r.cap() == capacity,
    {
        let r = LogBuffer { lines: Vec::new(), capacity };
        assert(r@ =~~= Seq::<Seq<char>>::empty());
        r
    }

    /// How many lines the buffer holds.
    pub fn len(&self) -> (r: usize)
        ensures
            r == self@.len(),
    {
        self.lines.len()
    }

    /// The line at position `i`, oldest first.
    pub fn line_at(&self, i: usize) -> (r: &String)
        requires
            i < self@.len(),
        ensures
            r@ == self@[i as int],
    {
        &self.lines[i]
    }

    /// Appends one line, evicting the oldest if the buffer is full.
    pub fn push_line(&mut self, line: String)
        requires
            old(self).wf(),
        ensures
            final(self).wf(),
            final(self).cap() == old(self).cap(),
            final(self)@ == ring_append(old(self)@, old(self).cap(), line@),
    {
        let ghost buf0 = self@;
        let ghost lv = line@;
        if self.lines.len() == self.capacity {
            self.lines.remove(0);
            assert(self.lines.deep_view() =~~= buf0.skip(1));
        }
        let ghost mid = self.lines.deep_view();
        self.lines.push(line);
        assert(self.lines.deep_view() =~~= mid + seq![lv]);
        proof {
            if buf0.len() < self.capacity as nat {
                assert(self@ =~~= buf0.push(lv));
            } else {
                assert(self@ =~~= buf0.push(lv).skip(1));
            }
        }
    }

    /// Appends the given lines in order, evicting oldest entries as needed.
    pub fn append_lines(&mut self, lines: Vec<String>)
        requires
            old(self).wf(),
        ensures
            final(self).wf(),
            final(self).cap() == old(self).cap(),
            final(self)@ == ring_append_all(old(self)@, old(self).cap(), lines.deep_view()),
    {
        let ghost buf0 = self@;
        let ghost entries = lines.deep_view();
        let n = lines.len();
        let mut lines = lines;
        let mut i: usize = 0;
        assert(entries.skip(0) =~~= entries);
        while i < n
            invariant
                i <= n,
                n == lines@.len(),
                entries == lines.deep_view(),
                self.wf(),
                self.cap() == old(self).cap(),
                ring_append_all(self@, self.cap(), entries.skip(i as int)) == ring_append_all(
                    buf0,
                    self.cap(),
                    entries,
                ),
            decreases n - i,
        {
            let ghost rest = entries.skip(i as int);
            let line = lines[i].clone();
            assert(line@ == rest[0]);
            self.push_line(line);
            assert(rest.skip(1) =~~= entries.skip(i + 1 as int));
            i = i + 1;
        }
        assert(entries.skip(n as int) =~~= Seq::<Seq<char>>::empty());
    }

    /// Sanitizes `messages`, splits it into lines, and appends them in order.
    pub fn append_batch(&mut self, messages: &str)
        requires
            old(self).wf(),
        ensures
            final(self).wf(),
            final(self).cap() == old(self).cap(),
            final(self)@ == ring_append_all(
                old(self)@,
                old(self).cap(),
                split_lines(strip_ansi(messages@)),
            ),
    {
        let chars = str_chars(messages);
        let cleaned = strip_ansi_chars(&chars);
        let lines = split_lines_strings(&cleaned);
        self.append_lines(lines);
    }

    /// The whole buffer as one text, lines joined with `\n`.
    pub fn rendered(&self) -> (r: String)
        ensures
            r@ == join_lines(self@),
    {
        join_lines_exec(&self.lines)
    }
}

} // verus!
