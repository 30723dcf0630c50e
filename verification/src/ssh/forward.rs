//! Forward-channel bookkeeping: the consecutive-failure counter that makes
//! an attempt reconnect, and the originator address of a direct-tcpip
//! channel. Opening channels and copying bytes happen outside.
use vstd::prelude::*;
use crate::ssh::engine::MAX_FORWARD_FAILURES;

verus! {

/// Seconds allowed for opening one direct-tcpip channel.
pub const CHANNEL_OPEN_TIMEOUT_SECS: u64 = 10;

/// Consecutive channel-open failures of the current attempt.
#[derive(Debug)]
pub struct ForwardFailSignal {
    count: usize,
}

impl ForwardFailSignal {
    /// No failures yet.
    pub fn new() -> (r: ForwardFailSignal)
        ensures
            r.count() == 0,
    {
        ForwardFailSignal { count: 0 }
    }

    /// The current count.
    pub closed spec fn count(&self) -> nat {
        self.count as nat
    }

    /// The current count.
    pub fn failures(&self) -> (r: usize)
        ensures
            r == self.count(),
    {
        self.count
    }

    /// Record a failed channel open; true iff the count has reached
    /// [`MAX_FORWARD_FAILURES`] (the supervisor is then woken to reconnect).
    /// The count wraps like the atomic it models.
    pub fn record_failure(&mut self) -> (r: bool)
        ensures
            final(self).count() == if old(self).count() + 1 > usize::MAX { 0 } else { old(self).count() + 1 },
            r == (final(self).count() >= MAX_FORWARD_FAILURES),
    {
        self.count = self.count.wrapping_add(1);
        self.count >= MAX_FORWARD_FAILURES
    }

    /// A channel opened: the run of failures is over.
    pub fn reset(&mut self)
        ensures
            final(self).count() == 0,
    {
        self.count = 0;
    }
}

/// The originator of a direct-tcpip channel: the local socket's address and
/// port when known, else `127.0.0.1` port 0.
pub fn originator(local: Option<(String, u16)>) -> (r: (String, u32))
    ensures
        local matches Some(a) ==> r.0 == a.0 && r.1 == a.1 as u32,
        local is None ==> r.0@ == "127.0.0.1"@ && r.1 == 0,
{
    match local {
        Some((addr, port)) => (addr, port as u32),
        None => ("127.0.0.1".to_string(), 0),
    }
}

} // verus!
