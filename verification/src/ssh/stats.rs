//! Per-tunnel stats accounting: the durable counters and the wire snapshot.
use crate::state::models::TunnelStats;
use vstd::prelude::*;

verus! {

/// `chrono::Utc::now().to_rfc3339()`: the current wall-clock time as an
/// RFC 3339 string. It depends on the clock, so nothing is stated of it.
#[verifier::external_body]
fn now_rfc3339() -> String {
    chrono::Utc::now().to_rfc3339()
}

/// Durable per-tunnel runtime counters.
#[derive(Debug)]
pub struct StatsInner {
    /// Live local sockets currently forwarded.
    pub active_connections: usize,
    /// Cumulative bytes local -> remote.
    pub bytes_up: u64,
    /// Cumulative bytes remote -> local.
    pub bytes_down: u64,
    /// Last measured round trip in ms; `0` means none yet.
    pub last_latency_ms: u64,
    /// Wall-clock RFC 3339 start of the current session (None while down).
    pub connected_since_wall: Option<String>,
}

/// The counters of a [`StatsInner`] as values: live connections, bytes up
/// and down, the last latency in ms (0: none), and whether a connect time is
/// recorded.
pub struct StatsView {
    pub active: usize,
    pub up: u64,
    pub down: u64,
    pub latency: u64,
    pub connected: bool,
}

/// One update of the counters.
pub enum StatsOp {
    Opened,
    Closed,
    Up(u64),
    Down(u64),
    Latency(u64),
    MarkConnected,
    MarkDisconnected,
}

/// Fresh counters.
pub open spec fn fresh_stats() -> StatsView {
    StatsView { active: 0, up: 0, down: 0, latency: 0, connected: false }
}

/// The counters after one update (counters wrap like the atomics they
/// model; closing never goes below zero).
pub open spec fn apply_stats_op(v: StatsView, op: StatsOp) -> StatsView {
    match op {
        StatsOp::Opened => StatsView {
            active: if v.active + 1 > usize::MAX {
                0
            } else {
                (v.active + 1) as usize
            },
            ..v
        },
        StatsOp::Closed => StatsView {
            active: if v.active > 0 {
                (v.active - 1) as usize
            } else {
                0
            },
            ..v
        },
        StatsOp::Up(n) => StatsView { up: ((v.up + n) % (u64::MAX as int + 1)) as u64, ..v },
        StatsOp::Down(n) => StatsView { down: ((v.down + n) % (u64::MAX as int + 1)) as u64, ..v },
        StatsOp::Latency(ms) => StatsView { latency: ms, ..v },
        StatsOp::MarkConnected => StatsView { connected: true, ..v },
        StatsOp::MarkDisconnected => StatsView { connected: false, ..v },
    }
}

/// The counters after the updates `ops`, in order, starting from `v`.
pub open spec fn replay_stats(v: StatsView, ops: Seq<StatsOp>) -> StatsView
    decreases ops.len(),
{
    if ops.len() == 0 {
        v
    } else {
        apply_stats_op(replay_stats(v, ops.drop_last()), ops.last())
    }
}

/// Whether the last connect marker among `ops` is `mark_connected` (false
/// when there is none).
pub open spec fn last_marker_connected(ops: Seq<StatsOp>) -> bool
    decreases ops.len(),
{
    if ops.len() == 0 {
        false
    } else {
        match ops.last() {
            StatsOp::MarkConnected => true,
            StatsOp::MarkDisconnected => false,
            _ => last_marker_connected(ops.drop_last()),
        }
    }
}

/// The last latency sample among `ops` (0 when there is none).
pub open spec fn latest_latency(ops: Seq<StatsOp>) -> u64
    decreases ops.len(),
{
    if ops.len() == 0 {
        0
    } else {
        match ops.last() {
            StatsOp::Latency(ms) => ms,
            _ => latest_latency(ops.drop_last()),
        }
    }
}

/// After any updates of fresh counters, the recorded latency is the last
/// sample (0, shown as none, when no sample was set), and a connect time is
/// recorded exactly when the last connect marker was `mark_connected`; so a
/// [`StatsInner::snapshot`] taken then shows exactly that.
pub proof fn law_snapshot_follows_history(ops: Seq<StatsOp>)
    ensures
        replay_stats(fresh_stats(), ops).latency == latest_latency(ops),
        replay_stats(fresh_stats(), ops).connected == last_marker_connected(ops),
    decreases ops.len(),
{
    if ops.len() > 0 {
        law_snapshot_follows_history(ops.drop_last());
    }
}

impl StatsInner {
    /// The counters as values.
    pub open spec fn stats_view(&self) -> StatsView {
        StatsView {
            active: self.active_connections,
            up: self.bytes_up,
            down: self.bytes_down,
            latency: self.last_latency_ms,
            connected: self.connected_since_wall is Some,
        }
    }
}

impl StatsInner {
    /// Fresh counters: all zero, not connected.
    pub fn new() -> (r: StatsInner)
        ensures
            r.stats_view() == fresh_stats(),
            r.active_connections == 0,
            r.bytes_up == 0,
            r.bytes_down == 0,
            r.last_latency_ms == 0,
            r.connected_since_wall is None,
    {
        StatsInner {
            active_connections: 0,
            bytes_up: 0,
            bytes_down: 0,
            last_latency_ms: 0,
            connected_since_wall: None,
        }
    }

    /// Mark the tunnel connected: record the wall-clock start.
    pub fn mark_connected(&mut self)
        ensures
            final(self).stats_view() == apply_stats_op(old(self).stats_view(), StatsOp::MarkConnected),
            final(self).connected_since_wall is Some,
            final(self).active_connections == old(self).active_connections,
            final(self).bytes_up == old(self).bytes_up,
            final(self).bytes_down == old(self).bytes_down,
            final(self).last_latency_ms == old(self).last_latency_ms,
    {
        self.connected_since_wall = Some(now_rfc3339());
    }

    /// Clear the connect marker on disconnect or teardown.
    pub fn mark_disconnected(&mut self)
        ensures
            final(self).stats_view() == apply_stats_op(old(self).stats_view(), StatsOp::MarkDisconnected),
            final(self).connected_since_wall is None,
            final(self).active_connections == old(self).active_connections,
            final(self).bytes_up == old(self).bytes_up,
            final(self).bytes_down == old(self).bytes_down,
            final(self).last_latency_ms == old(self).last_latency_ms,
    {
        self.connected_since_wall = None;
    }

    /// Record a fresh latency sample in milliseconds.
    pub fn set_latency(&mut self, latency_ms: u64)
        ensures
            final(self).stats_view() == apply_stats_op(old(self).stats_view(), StatsOp::Latency(latency_ms)),
            final(self).last_latency_ms == latency_ms,
            final(self).active_connections == old(self).active_connections,
            final(self).bytes_up == old(self).bytes_up,
            final(self).bytes_down == old(self).bytes_down,
            crate::state::models::opt_view(final(self).connected_since_wall)
                == crate::state::models::opt_view(old(self).connected_since_wall),
    {
        self.last_latency_ms = latency_ms;
    }

    /// The wire snapshot: the counters as they stand, a zero latency shown as
    /// none.
    pub fn snapshot(&self) -> (r: TunnelStats)
        ensures
            r.active_connections == self.active_connections,
            r.total_bytes_up == self.bytes_up,
            r.total_bytes_down == self.bytes_down,
            r.last_ping_latency_ms == (if self.last_latency_ms == 0 {
                None
            } else {
                Some(self.last_latency_ms)
            }),
            crate::state::models::opt_view(r.connected_since) == crate::state::models::opt_view(
                self.connected_since_wall,
            ),
    {
        TunnelStats {
            active_connections: self.active_connections,
            total_bytes_up: self.bytes_up,
            total_bytes_down: self.bytes_down,
            last_ping_latency_ms: if self.last_latency_ms == 0 {
                None
            } else {
                Some(self.last_latency_ms)
            },
            connected_since: crate::state::models::clone_opt_string(&self.connected_since_wall),
        }
    }

    /// A forwarded local connection opened.
    pub fn connection_opened(&mut self)
        ensures
            final(self).stats_view() == apply_stats_op(old(self).stats_view(), StatsOp::Opened),
            final(self).active_connections as int == if old(self).active_connections + 1 > usize::MAX {
                0
            } else {
                old(self).active_connections + 1
            },
            final(self).bytes_up == old(self).bytes_up,
            final(self).bytes_down == old(self).bytes_down,
            final(self).last_latency_ms == old(self).last_latency_ms,
            crate::state::models::opt_view(final(self).connected_since_wall)
                == crate::state::models::opt_view(old(self).connected_since_wall),
    {
        self.active_connections = self.active_connections.wrapping_add(1);
    }

    /// A forwarded local connection closed; the count never goes below zero.
    pub fn connection_closed(&mut self)
        ensures
            final(self).stats_view() == apply_stats_op(old(self).stats_view(), StatsOp::Closed),
            final(self).active_connections == if old(self).active_connections > 0 {
                (old(self).active_connections - 1) as usize
            } else {
                0
            },
            final(self).bytes_up == old(self).bytes_up,
            final(self).bytes_down == old(self).bytes_down,
            final(self).last_latency_ms == old(self).last_latency_ms,
            crate::state::models::opt_view(final(self).connected_since_wall)
                == crate::state::models::opt_view(old(self).connected_since_wall),
    {
        if self.active_connections > 0 {
            self.active_connections = self.active_connections - 1;
        }
    }

    /// Count `n` bytes copied local -> remote (the counter wraps like the
    /// atomic it models).
    pub fn add_bytes_up(&mut self, n: u64)
        ensures
            final(self).stats_view() == apply_stats_op(old(self).stats_view(), StatsOp::Up(n)),
            final(self).bytes_up == (old(self).bytes_up + n) % (u64::MAX as int + 1),
            final(self).active_connections == old(self).active_connections,
            final(self).bytes_down == old(self).bytes_down,
            final(self).last_latency_ms == old(self).last_latency_ms,
            crate::state::models::opt_view(final(self).connected_since_wall)
                == crate::state::models::opt_view(old(self).connected_since_wall),
    {
        self.bytes_up = self.bytes_up.wrapping_add(n);
    }

    /// Count `n` bytes copied remote -> local (wrapping).
    pub fn add_bytes_down(&mut self, n: u64)
        ensures
            final(self).stats_view() == apply_stats_op(old(self).stats_view(), StatsOp::Down(n)),
            final(self).bytes_down == (old(self).bytes_down + n) % (u64::MAX as int + 1),
            final(self).active_connections == old(self).active_connections,
            final(self).bytes_up == old(self).bytes_up,
            final(self).last_latency_ms == old(self).last_latency_ms,
            crate::state::models::opt_view(final(self).connected_since_wall)
                == crate::state::models::opt_view(old(self).connected_since_wall),
    {
        self.bytes_down = self.bytes_down.wrapping_add(n);
    }
}

} // verus!
