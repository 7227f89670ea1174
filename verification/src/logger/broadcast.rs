//! The history of emitted log lines, bounded to the most recent ones.
use vstd::prelude::*;

use std::collections::VecDeque;

verus! {

/// One emitted log message.
#[derive(Debug, Clone)]
pub struct LogLine {
    pub timestamp: String,
    pub level: String,
    pub tag: String,
    pub pid: u32,
    pub tid: u64,
    pub message: String,
}

impl LogLine {
    /// A field-by-field copy.
    pub fn copy(&self) -> (res: LogLine)
        ensures
            res == *self,
    {
        LogLine {
            timestamp: self.timestamp.clone(),
            level: self.level.clone(),
            tag: self.tag.clone(),
            pid: self.pid,
            tid: self.tid,
            message: self.message.clone(),
        }
    }
}

/// How many lines the history keeps.
pub const HISTORY_CAPACITY: usize = 1000;

/// The history after `line` is added: the oldest line goes when the history
/// is full.
pub open spec fn after_broadcast(history: Seq<LogLine>, line: LogLine) -> Seq<LogLine> {
    if history.len() >= HISTORY_CAPACITY {
        history.drop_first().push(line)
    } else {
        history.push(line)
    }
}

/// The history after each of `lines` is added in turn.
pub open spec fn after_all(history: Seq<LogLine>, lines: Seq<LogLine>) -> Seq<LogLine>
    decreases lines.len(),
{
    if lines.len() == 0 {
        history
    } else {
        after_broadcast(after_all(history, lines.drop_last()), lines.last())
    }
}

/// The most recent log lines, oldest first, at most `HISTORY_CAPACITY`.
pub struct LogHistory {
    history: VecDeque<LogLine>,
}

impl LogHistory {
    #[verifier::type_invariant]
    spec fn bounded(&self) -> bool {
        self.history@.len() <= HISTORY_CAPACITY
    }

    pub closed spec fn lines(&self) -> Seq<LogLine> {
        self.history@
    }

    /// An empty history.
    pub fn new() -> (res: Self)
        ensures
            res.lines() == Seq::<LogLine>::empty(),
    {
        LogHistory { history: VecDeque::new() }
    }

    /// Adds `line`, dropping the oldest line when the history is full.
    pub fn broadcast(&mut self, line: &LogLine)
        ensures
            final(self).lines() == after_broadcast(old(self).lines(), *line),
            final(self).lines().len() <= HISTORY_CAPACITY,
    {
        proof {
            use_type_invariant(&*self);
        }
        let mut history: VecDeque<LogLine> = VecDeque::new();
        std::mem::swap(&mut history, &mut self.history);
        if history.len() >= HISTORY_CAPACITY {
            history.pop_front();
        }
        history.push_back(line.copy());
        self.history = history;
    }

    /// A copy of the history, oldest line first.
    pub fn get_history(&self) -> (res: Vec<LogLine>)
        ensures
            res@ == self.lines(),
    {
        let mut out: Vec<LogLine> = Vec::new();
        let mut i: usize = 0;
        while i < self.history.len()
            invariant
                i <= self.history@.len(),
                out@ == self.history@.take(i as int),
            decreases self.history@.len() - i,
        {
            out.push(self.history[i].copy());
            assert(self.history@.take(i + 1) == self.history@.take(i as int).push(
                self.history@[i as int],
            ));
            i = i + 1;
        }
        assert(self.history@.take(self.history@.len() as int) == self.history@);
        out
    }

    /// The history that a new subscriber starts from.
    pub fn subscribe_with_history(&self) -> (res: Vec<LogLine>)
        ensures
            res@ == self.lines(),
    {
        self.get_history()
    }

    pub fn len(&self) -> (res: usize)
        ensures
            res == self.lines().len(),
    {
        self.history.len()
    }
}

/// Broadcasting a line to a history within its capacity drops the oldest
/// line when the history is full, appends the new line last, and keeps the
/// history within its capacity.
pub proof fn law_broadcast_appends(history: Seq<LogLine>, line: LogLine)
    requires
        history.len() <= HISTORY_CAPACITY,
    ensures
        after_broadcast(history, line) == (if history.len() >= HISTORY_CAPACITY {
            history.skip(1)
        } else {
            history
        }).push(line),
        after_broadcast(history, line).len() <= HISTORY_CAPACITY,
        after_broadcast(history, line).last() == line,
{
    if history.len() >= HISTORY_CAPACITY {
        assert(history.drop_first() =~= history.skip(1));
    }
}

/// Starting from an empty history, after any lines are broadcast the
/// history holds the most recent `HISTORY_CAPACITY` of them (all of them
/// when there are fewer), in the order they were broadcast.
pub proof fn law_history_keeps_latest(lines: Seq<LogLine>)
    ensures
        after_all(Seq::<LogLine>::empty(), lines) == if lines.len() > HISTORY_CAPACITY {
            lines.skip(lines.len() - HISTORY_CAPACITY)
        } else {
            lines
        },
    decreases lines.len(),
{
    if lines.len() > 0 {
        let prev = lines.drop_last();
        law_history_keeps_latest(prev);
        if prev.len() >= HISTORY_CAPACITY {
            assert(prev.skip(prev.len() - HISTORY_CAPACITY).drop_first().push(lines.last())
                =~= lines.skip(lines.len() - HISTORY_CAPACITY));
        } else {
            assert(prev.push(lines.last()) =~= lines);
        }
    }
}

} // verus!
