//! In-memory ring buffer of log lines (at most [`LOG_CAP`], newest first).
//! Not persisted; backs the Logs tab and its Copy All text.
use std::collections::VecDeque;
use vstd::prelude::*;
use crate::state::models::{LogEntry, LogLevel, formatted_entry};
use crate::text::{join, join_strings};

verus! {

/// Maximum number of retained log lines; the oldest is dropped first.
pub const LOG_CAP: usize = 500;

/// Whether `s` has the `HH:MM:SS` shape: two digits, a colon, two digits, a
/// colon, two digits.
pub open spec fn clock_shape(s: Seq<char>) -> bool {
    &&& s.len() == 8
    &&& s[2] == ':' && s[5] == ':'
    &&& forall|i: int|
        0 <= i < 8 && i != 2 && i != 5 ==> '0' <= #[trigger] s[i] && s[i] <= '9'
}

/// `chrono::Local::now().format("%H:%M:%S").to_string()`: the local wall-clock
/// time. chrono documents `%H`, `%M` and `%S` as zero-padded two-digit
/// numbers, so the text always has the `HH:MM:SS` shape; which time it shows
/// depends on the clock and the machine's time zone and is not stated.
#[verifier::external_body]
fn local_clock_time() -> (r: String)
    ensures
        clock_shape(r@),
{
    chrono::Local::now().format("%H:%M:%S").to_string()
}

/// The buffer after pushing `e` onto `s`: `e` goes to the front and the
/// oldest line falls off once there are more than [`LOG_CAP`].
pub open spec fn after_push(s: Seq<LogEntry>, e: LogEntry) -> Seq<LogEntry> {
    if s.len() < LOG_CAP {
        seq![e] + s
    } else {
        (seq![e] + s).take(LOG_CAP as int)
    }
}

/// The buffer after pushing each of `es` in order onto `s`.
pub open spec fn after_pushes(s: Seq<LogEntry>, es: Seq<LogEntry>) -> Seq<LogEntry>
    decreases es.len(),
{
    if es.len() == 0 {
        s
    } else {
        after_push(after_pushes(s, es.drop_last()), es.last())
    }
}

/// The newest [`LOG_CAP`] of `es` (pushed in order), newest first.
pub open spec fn newest_first(es: Seq<LogEntry>) -> Seq<LogEntry> {
    let n = if es.len() < LOG_CAP { es.len() as int } else { LOG_CAP as int };
    Seq::new(n as nat, |i: int| es[es.len() - 1 - i])
}

/// The Copy All text of `s`: one formatted line per entry, joined by `\n`.
pub open spec fn formatted_lines(s: Seq<LogEntry>) -> Seq<char> {
    join(s.map_values(|e: LogEntry| formatted_entry(e)), "\n"@)
}

/// The capped, newest-first log buffer.
pub struct LogBuffer {
    entries: VecDeque<LogEntry>,
}

impl View for LogBuffer {
    type V = Seq<LogEntry>;

    closed spec fn view(&self) -> Seq<LogEntry> {
        self.entries@
    }
}

impl LogBuffer {
    #[verifier::type_invariant]
    spec fn within_cap(self) -> bool {
        self.entries@.len() <= LOG_CAP
    }

    /// An empty buffer.
    pub fn new() -> (r: LogBuffer)
        ensures
            r@ == Seq::<LogEntry>::empty(),
    {
        LogBuffer { entries: VecDeque::new() }
    }

    /// Append an entry at the front; drops the oldest once over the cap.
    pub fn push(&mut self, entry: LogEntry)
        ensures
            final(self)@ == after_push(old(self)@, entry),
            final(self)@.len() <= LOG_CAP,
    {
        proof {
            use_type_invariant(&*self);
        }
        let mut list: VecDeque<LogEntry> = VecDeque::new();
        std::mem::swap(&mut list, &mut self.entries);
        let ghost before = list@;
        list.push_front(entry);
        // The buffer held at most LOG_CAP entries, so one drop restores the cap.
        if list.len() > LOG_CAP {
            let _ = list.pop_back();
            proof {
                assert(list@ =~= (seq![entry] + before).take(LOG_CAP as int));
            }
        }
        std::mem::swap(&mut list, &mut self.entries);
    }

    /// Build an entry stamped with the local time (`HH:MM:SS`) and push it.
    pub fn log(&mut self, level: LogLevel, tunnel_name: Option<String>, message: String)
        ensures
            final(self)@ == after_push(old(self)@, final(self)@[0]),
            final(self)@[0].level == level,
            final(self)@[0].tunnel_name == tunnel_name,
            final(self)@[0].message == message,
            clock_shape(final(self)@[0].timestamp@),
    {
        let timestamp = local_clock_time();
        let entry = LogEntry { level, tunnel_name, message, timestamp };
        self.push(entry);
    }

    /// All retained entries, newest first.
    pub fn snapshot(&self) -> (r: Vec<LogEntry>)
        ensures
            r@ == self@,
            r@.len() <= LOG_CAP,
    {
        proof {
            use_type_invariant(self);
        }
        let mut out: Vec<LogEntry> = Vec::new();
        let mut i: usize = 0;
        while i < self.entries.len()
            invariant
                i <= self.entries.len(),
                out@ == self.entries@.take(i as int),
            decreases self.entries.len() - i,
        {
            out.push(self.entries[i].clone_entry());
            proof {
                assert(self.entries@.take(i + 1) =~= self.entries@.take(i as int).push(
                    self.entries@[i as int],
                ));
            }
            i = i + 1;
        }
        proof {
            assert(self.entries@.take(i as int) =~= self.entries@);
        }
        out
    }

    /// The Copy All text: newest first, one formatted line per entry.
    pub fn formatted_text(&self) -> (r: String)
        ensures
            r@ == formatted_lines(self@),
    {
        let mut lines: Vec<String> = Vec::new();
        let mut i: usize = 0;
        while i < self.entries.len()
            invariant
                i <= self.entries.len(),
                lines@.len() == i,
                forall|j: int| 0 <= j < i ==> (#[trigger] lines@[j])@ == formatted_entry(
                    self.entries@[j],
                ),
            decreases self.entries.len() - i,
        {
            lines.push(self.entries[i].formatted());
            i = i + 1;
        }
        let r = join_strings(&lines, "\n");
        proof {
            assert(lines@.map_values(|s: String| s@) =~= self.entries@.map_values(
                |e: LogEntry| formatted_entry(e),
            ));
        }
        r
    }

    /// Empty the buffer.
    pub fn clear(&mut self)
        ensures
            final(self)@ == Seq::<LogEntry>::empty(),
    {
        let mut list: VecDeque<LogEntry> = VecDeque::new();
        std::mem::swap(&mut list, &mut self.entries);
    }
}

/// Pushing any lines one by one into an empty buffer keeps exactly the
/// newest [`LOG_CAP`] of them, newest first: the buffer never exceeds the cap
/// and the oldest lines are the ones dropped.
pub proof fn law_buffer_keeps_newest(es: Seq<LogEntry>)
    ensures
        after_pushes(Seq::empty(), es) == newest_first(es),
        after_pushes(Seq::empty(), es).len() <= LOG_CAP,
    decreases es.len(),
{
    if es.len() > 0 {
        let init = es.drop_last();
        law_buffer_keeps_newest(init);
        let prev = newest_first(init);
        let next = after_push(prev, es.last());
        assert(next =~= newest_first(es)) by {
            assert forall|i: int| 0 <= i < next.len() implies next[i] == newest_first(es)[i] by {
                if i > 0 {
                    assert(next[i] == prev[i - 1]);
                    assert(init[init.len() - 1 - (i - 1)] == es[es.len() - 1 - i]);
                }
            }
        }
    } else {
        assert(newest_first(es) =~= Seq::<LogEntry>::empty());
    }
}

} // verus!
