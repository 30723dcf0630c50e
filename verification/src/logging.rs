//! Which tracing events become log lines, and how: only this crate's events
//! at info level or above that carry a message, with the tunnel named by a
//! `tunnel` / `tunnel_name` field. Subscribing to tracing happens outside.
use vstd::prelude::*;
use crate::state::log_buffer::{after_push, clock_shape, LogBuffer};
use crate::state::models::{LogEntry, LogLevel};
use crate::text::{has_prefix, starts_with, str_eq};


verus! {

/// Events from targets under this prefix are this crate's.
pub const CRATE_TARGET_PREFIX: &'static str = "tunnel_pilot_lib";

/// The severity of a tracing event.
#[derive(Debug, Clone, Copy, PartialEq, Eq, Structural)]
pub enum TraceLevel {
    Error,
    Warn,
    Info,
    Debug,
    Trace,
}

/// The log level an event level shows as; debug and trace are not shown.
pub open spec fn shown_level(level: TraceLevel) -> Option<LogLevel> {
    match level {
        TraceLevel::Error => Some(LogLevel::Error),
        TraceLevel::Warn => Some(LogLevel::Warning),
        TraceLevel::Info => Some(LogLevel::Info),
        _ => None,
    }
}

/// The log level an event level shows as (none for debug and trace).
pub fn level_for(level: TraceLevel) -> (r: Option<LogLevel>)
    ensures
        r == shown_level(level),
{
    match level {
        TraceLevel::Error => Some(LogLevel::Error),
        TraceLevel::Warn => Some(LogLevel::Warning),
        TraceLevel::Info => Some(LogLevel::Info),
        _ => None,
    }
}

/// `s` without every leading and trailing `"`.
pub open spec fn unquoted(s: Seq<char>) -> Seq<char>
    decreases s.len(),
{
    if s.len() > 0 && s[0] == '"' {
        unquoted(s.drop_first())
    } else if s.len() > 0 && s.last() == '"' {
        unquoted(s.drop_last())
    } else {
        s
    }
}

/// `s` with every leading and trailing `"` removed (a debug-rendered
/// string field loses its quotes).
pub fn trim_quotes(s: &str) -> (r: String)
    ensures
        r@ == unquoted(s@),
{
    let n = s.unicode_len();
    let mut start: usize = 0;
    let mut end: usize = n;
    proof {
        assert(s@.subrange(0, n as int) =~= s@);
    }
    while start < end && (s.get_char(start) == '"' || s.get_char(end - 1) == '"')
        invariant
            start <= end <= n,
            n == s@.len(),
            unquoted(s@) == unquoted(s@.subrange(start as int, end as int)),
        decreases end - start,
    {
        let ghost t = s@.subrange(start as int, end as int);
        if s.get_char(start) == '"' {
            proof {
                assert(t[0] == '"');
                assert(t.drop_first() =~= s@.subrange(start + 1, end as int));
            }
            start = start + 1;
        } else {
            proof {
                assert(t[0] != '"');
                assert(t.last() == '"');
                assert(t.drop_last() =~= s@.subrange(start as int, end - 1));
            }
            end = end - 1;
        }
    }
    proof {
        let t = s@.subrange(start as int, end as int);
        if t.len() > 0 {
            assert(t[0] == s@[start as int]);
            assert(t.last() == s@[end - 1]);
        }
    }
    s.substring_char(start, end).to_string()
}

/// The fields of an event that matter: its message and its tunnel.
#[derive(Debug, Clone, PartialEq, Eq)]
pub struct FieldExtractor {
    pub message: Option<String>,
    pub tunnel: Option<String>,
}

impl FieldExtractor {
    /// Nothing recorded yet.
    pub fn new() -> (r: FieldExtractor)
        ensures
            r.message is None,
            r.tunnel is None,
    {
        FieldExtractor { message: None, tunnel: None }
    }

    /// Record a string field: `message` sets the message, `tunnel` or
    /// `tunnel_name` the tunnel; other fields are ignored.
    pub fn record_str(&mut self, field: &str, value: &str)
        ensures
            field@ == "message"@ ==> (final(self).message matches Some(m) && m@ == value@),
            field@ == "message"@ ==> final(self).tunnel == old(self).tunnel,
            (field@ == "tunnel"@ || field@ == "tunnel_name"@) ==> final(self).tunnel is Some
                && final(self).tunnel->0@ == value@,
            (field@ == "tunnel"@ || field@ == "tunnel_name"@) ==> final(self).message == old(self).message,
            field@ != "message"@ && field@ != "tunnel"@ && field@ != "tunnel_name"@ ==> *final(self) == *old(self),
    {
        proof {
            reveal_strlit("message");
            reveal_strlit("tunnel");
            reveal_strlit("tunnel_name");
            assert("tunnel"@[0] != "message"@[0]);
            assert("tunnel_name"@[0] != "message"@[0]);
        }
        if str_eq(field, "message") {
            self.message = Some(value.to_string());
        } else if str_eq(field, "tunnel") || str_eq(field, "tunnel_name") {
            self.tunnel = Some(value.to_string());
        }
    }

    /// Record a debug-rendered field: `message` keeps the rendering as is;
    /// a tunnel field loses its surrounding quotes.
    pub fn record_debug(&mut self, field: &str, rendered: &str)
        ensures
            field@ == "message"@ ==> (final(self).message matches Some(m) && m@ == rendered@)
                && final(self).tunnel == old(self).tunnel,
            (field@ == "tunnel"@ || field@ == "tunnel_name"@) ==> final(self).tunnel is Some
                && final(self).tunnel->0@ == unquoted(rendered@),
            (field@ == "tunnel"@ || field@ == "tunnel_name"@) ==> final(self).message == old(self).message,
            field@ != "message"@ && field@ != "tunnel"@ && field@ != "tunnel_name"@ ==> *final(self) == *old(self),
    {
        proof {
            reveal_strlit("message");
            reveal_strlit("tunnel");
            reveal_strlit("tunnel_name");
            assert("tunnel"@[0] != "message"@[0]);
            assert("tunnel_name"@[0] != "message"@[0]);
        }
        if str_eq(field, "message") {
            self.message = Some(rendered.to_string());
        } else if str_eq(field, "tunnel") || str_eq(field, "tunnel_name") {
            self.tunnel = Some(trim_quotes(rendered));
        }
    }
}

/// Whether an event from `target` at `level` with `message` becomes a line.
pub open spec fn event_shown(target: Seq<char>, level: TraceLevel, message: Option<String>) -> bool {
    has_prefix(target, CRATE_TARGET_PREFIX@) && shown_level(level) is Some && message is Some
}

/// Feeds tracing events into the log buffer.
#[derive(Debug, Clone, Copy, PartialEq, Eq, Structural)]
pub struct LogBufferLayer;

impl LogBufferLayer {
    /// The layer.
    pub fn new() -> (r: LogBufferLayer)
        ensures
            r == LogBufferLayer,
    {
        LogBufferLayer
    }

    /// Handle one event: when it is shown, push its line (stamped with the
    /// local time) and return true; otherwise leave the buffer alone.
    pub fn on_event(
        &self,
        buffer: &mut LogBuffer,
        target: &str,
        level: TraceLevel,
        fields: FieldExtractor,
    ) -> (r: bool)
        ensures
            r == event_shown(target@, level, fields.message),
            !r ==> final(buffer)@ == old(buffer)@,
            r ==> final(buffer)@ == after_push(old(buffer)@, final(buffer)@[0])
                && Some(final(buffer)@[0].level) == shown_level(level) && Some(
                final(buffer)@[0].message,
            ) == fields.message && final(buffer)@[0].tunnel_name == fields.tunnel && clock_shape(
                final(buffer)@[0].timestamp@,
            ),
    {
        if !starts_with(target, CRATE_TARGET_PREFIX) {
            return false;
        }
        let shown = match level_for(level) {
            Some(l) => l,
            None => {
                return false;
            },
        };
        match fields.message {
            Some(message) => {
                buffer.log(shown, fields.tunnel, message);
                true
            },
            None => false,
        }
    }
}

} // verus!
