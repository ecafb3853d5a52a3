//! Micro-batching of tailed log lines: to keep dispatch overhead low,
//! incoming lines are coalesced and flushed as one message either when
//! enough lines have gathered or when enough time has passed since the last
//! flush, whichever comes first.

use vstd::prelude::*;

use crate::lines::{join_lines, join_lines_exec};

verus! {

/// How many gathered lines force a flush.
pub const BATCH_FLUSH_LINES: usize = 10;

/// How many milliseconds since the last flush force one.
pub const BATCH_FLUSH_MILLIS: u64 = 100;

/// A batch is flushed after a push when it reached the size threshold or
/// the time threshold elapsed.
pub open spec fn flush_due(pending_lines: nat, elapsed_ms: u64) -> bool {
    pending_lines >= BATCH_FLUSH_LINES || elapsed_ms >= BATCH_FLUSH_MILLIS
}

/// Gathers tailed lines until a flush is due.
pub struct LogBatcher {
    pending: Vec<String>,
}

impl LogBatcher {
    /// The gathered lines, oldest first.
    pub closed spec fn pending_view(&self) -> Seq<Seq<char>> {
        self.pending.deep_view()
    }

    /// An empty batcher.
    pub fn new() -> (r: LogBatcher)
        ensures
            r.pending_view() == Seq::<Seq<char>>::empty(),
    {
        let r = LogBatcher { pending: Vec::new() };
        assert(r.pending_view() =~~= Seq::<Seq<char>>::empty());
        r
    }

    /// How many lines are gathered.
    pub fn pending_len(&self) -> (r: usize)
        ensures
            r == self.pending_view().len(),
    {
        self.pending.len()
    }

    /// Takes one line, given the milliseconds since the last flush; when a
    /// flush is due, hands back every gathered line joined with `\n` and
    /// starts over.
    pub fn push(&mut self, line: String, elapsed_ms: u64) -> (r: Option<String>)
        ensures
            ({
                let gathered = old(self).pending_view().push(line@);
                if flush_due(gathered.len(), elapsed_ms) {
                    &&& (r matches Some(text) && text@ == join_lines(gathered))
                    &&& final(self).pending_view() == Seq::<Seq<char>>::empty()
                } else {
                    &&& r is None
                    &&& final(self).pending_view() == gathered
                }
            }),
    {
        let ghost before = self.pending.deep_view();
        let ghost lv = line@;
        self.pending.push(line);
        assert(self.pending.deep_view() =~~= before.push(lv));
        if self.pending.len() >= BATCH_FLUSH_LINES || elapsed_ms >= BATCH_FLUSH_MILLIS {
            let text = join_lines_exec(&self.pending);
            self.pending = Vec::new();
            assert(self.pending.deep_view() =~~= Seq::<Seq<char>>::empty());
            Some(text)
        } else {
            None
        }
    }

    /// Hands back whatever is gathered, joined with `\n`, or nothing when
    /// the batch is empty; used when the stream ends.
    pub fn flush(&mut self) -> (r: Option<String>)
        ensures
            final(self).pending_view() == Seq::<Seq<char>>::empty(),
            old(self).pending_view().len() == 0 ==> r is None,
            old(self).pending_view().len() > 0 ==> (r matches Some(text) && text@ == join_lines(
                old(self).pending_view(),
            )),
    {
        if self.pending.len() == 0 {
            assert(self.pending.deep_view() =~~= Seq::<Seq<char>>::empty());
            return None;
        }
        let text = join_lines_exec(&self.pending);
        self.pending = Vec::new();
        assert(self.pending.deep_view() =~~= Seq::<Seq<char>>::empty());
        Some(text)
    }
}

} // verus!
