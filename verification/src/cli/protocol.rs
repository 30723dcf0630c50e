//! The control socket's request and response model.
//!
//! One request line, one response line; the response carries either a payload
//! or the app's own error. No field here ever carries a secret: a forward
//! exposes `has_stored_password` as a flag only.
use crate::error::AppError;
use crate::state::models::{
    clone_opt_string, clone_strings, ForwardConfig, ForwardRuntime, ForwardStatus, TunnelStats,
};
use crate::text::push_decimal;
use vstd::prelude::*;

verus! {

/// Wire protocol version; the server rejects any other value.
pub const PROTOCOL_VERSION: u32 = 1;

/// Default wait budget for `connect`/`connect-all` when the client sends none.
pub const DEFAULT_TIMEOUT_MS: u64 = 30_000;

/// Lower clamp on the wait budget.
pub const MIN_TIMEOUT_MS: u64 = 1_000;

/// Upper clamp on the wait budget (5 minutes).
pub const MAX_TIMEOUT_MS: u64 = 300_000;

/// The command surface of the socket: reads and connection control only.
#[derive(Debug, Clone, Copy, PartialEq, Eq, Structural)]
pub enum CliCommand {
    List,
    Status,
    Connect,
    Disconnect,
    ConnectAll,
    DisconnectAll,
    Version,
}

/// One request line.
#[derive(Debug, Clone, PartialEq, Eq)]
pub struct CliRequest {
    /// Protocol version; must equal [`PROTOCOL_VERSION`].
    pub v: u32,
    pub cmd: CliCommand,
    /// Target id or name, for `status`, `connect`, `disconnect`.
    pub target: Option<String>,
    /// Wait budget for `connect`/`connect-all`, clamped server-side.
    pub timeout_ms: Option<u64>,
    /// Await a terminal status before responding.
    pub wait: bool,
    /// Reconnect even when the forward is already connected.
    pub force: bool,
}

impl CliRequest {
    /// A request at the current protocol version, with no target, no
    /// budget, no wait and no force.
    pub fn new(cmd: CliCommand) -> (r: CliRequest)
        ensures
            r.v == PROTOCOL_VERSION,
            r.cmd == cmd,
            r.target is None,
            r.timeout_ms is None,
            !r.wait,
            !r.force,
    {
        CliRequest { v: PROTOCOL_VERSION, cmd, target: None, timeout_ms: None, wait: false, force: false }
    }

    /// The effective wait budget in ms: the caller's value clamped into
    /// `[MIN_TIMEOUT_MS, MAX_TIMEOUT_MS]`, or the default when absent.
    pub fn effective_timeout_ms(&self) -> (r: u64)
        ensures
            r == (match self.timeout_ms {
                None => DEFAULT_TIMEOUT_MS,
                Some(t) => if t < MIN_TIMEOUT_MS {
                    MIN_TIMEOUT_MS
                } else if t > MAX_TIMEOUT_MS {
                    MAX_TIMEOUT_MS
                } else {
                    t
                },
            }),
            MIN_TIMEOUT_MS <= r <= MAX_TIMEOUT_MS,
    {
        match self.timeout_ms {
            None => DEFAULT_TIMEOUT_MS,
            Some(t) => {
                if t < MIN_TIMEOUT_MS {
                    MIN_TIMEOUT_MS
                } else if t > MAX_TIMEOUT_MS {
                    MAX_TIMEOUT_MS
                } else {
                    t
                }
            },
        }
    }
}

/// A forward as the client sees it: configuration and live runtime,
/// flattened. Carries no secret.
#[derive(Debug, Clone, PartialEq, Eq)]
pub struct ForwardView {
    pub id: String,
    pub name: String,
    pub local_bind_address: String,
    pub local_port: u16,
    pub remote_host: String,
    pub remote_port: u16,
    pub ssh_username: String,
    pub ssh_host: String,
    pub ssh_port: u16,
    pub status: ForwardStatus,
    pub last_error: Option<String>,
    pub group_id: Option<String>,
    pub tags: Vec<String>,
    pub has_stored_password: bool,
}

/// `address:port`.
pub open spec fn endpoint(address: Seq<char>, port: u16) -> Seq<char> {
    address + ":"@ + crate::text::decimal(port as nat)
}

impl ForwardView {
    /// The view of a configuration with its live runtime.
    pub fn from_parts(cfg: &ForwardConfig, runtime: &ForwardRuntime) -> (r: ForwardView)
        ensures
            r.id@ == cfg.id@,
            r.name@ == cfg.name@,
            r.local_bind_address@ == cfg.local_bind_address@,
            r.local_port == cfg.local_port,
            r.remote_host@ == cfg.remote_host@,
            r.remote_port == cfg.remote_port,
            r.ssh_username@ == cfg.ssh_username@,
            r.ssh_host@ == cfg.ssh_host@,
            r.ssh_port == cfg.ssh_port,
            r.status == runtime.status,
            crate::state::models::opt_view(r.last_error) == crate::state::models::opt_view(
                runtime.last_error,
            ),
            crate::state::models::opt_view(r.group_id) == crate::state::models::opt_view(
                cfg.group_id,
            ),
            r.tags@ == cfg.tags@,
            r.has_stored_password == cfg.has_stored_password,
    {
        ForwardView {
            id: cfg.id.clone(),
            name: cfg.name.clone(),
            local_bind_address: cfg.local_bind_address.clone(),
            local_port: cfg.local_port,
            remote_host: cfg.remote_host.clone(),
            remote_port: cfg.remote_port,
            ssh_username: cfg.ssh_username.clone(),
            ssh_host: cfg.ssh_host.clone(),
            ssh_port: cfg.ssh_port,
            status: runtime.status,
            last_error: clone_opt_string(&runtime.last_error),
            group_id: clone_opt_string(&cfg.group_id),
            tags: clone_strings(&cfg.tags),
            has_stored_password: cfg.has_stored_password,
        }
    }

    /// `local_bind_address:local_port`: the address a user dials.
    pub fn local_endpoint(&self) -> (r: String)
        ensures
            r@ == endpoint(self.local_bind_address@, self.local_port),
    {
        push_decimal(self.local_bind_address.clone().concat(":"), self.local_port as u64)
    }

    /// `remote_host:remote_port` as seen from the SSH host.
    pub fn remote_endpoint(&self) -> (r: String)
        ensures
            r@ == endpoint(self.remote_host@, self.remote_port),
    {
        push_decimal(self.remote_host.clone().concat(":"), self.remote_port as u64)
    }
}

/// Per-tunnel outcome inside a bulk result.
#[derive(Debug, Clone, PartialEq, Eq)]
pub struct BulkResult {
    pub id: String,
    pub name: String,
    pub status: ForwardStatus,
    pub last_error: Option<String>,
    /// The wait budget elapsed before a terminal status.
    pub timed_out: bool,
}

/// Response payloads.
#[derive(Debug, Clone, PartialEq)]
pub enum CliData {
    Status { forward: ForwardView, stats: TunnelStats },
    Action {
        forward: ForwardView,
        /// The server awaited a terminal status.
        waited: bool,
        /// The wait budget elapsed first.
        timed_out: bool,
    },
    Bulk { results: Vec<BulkResult>, succeeded: usize, failed: usize },
    List { forwards: Vec<ForwardView> },
    Version { app_version: String, protocol: u32 },
}

/// One response line: exactly one of `data` / `error` is present.
#[derive(Debug, Clone, PartialEq)]
pub struct CliResponse {
    pub v: u32,
    pub ok: bool,
    pub data: Option<CliData>,
    /// The app's own error.
    pub error: Option<AppError>,
}

impl CliResponse {
    /// A successful response carrying `data`.
    pub fn ok(data: CliData) -> (r: CliResponse)
        ensures
            r.v == PROTOCOL_VERSION,
            r.ok,
            r.data == Some(data),
            r.error is None,
    {
        CliResponse { v: PROTOCOL_VERSION, ok: true, data: Some(data), error: None }
    }

    /// A failed response carrying `error`.
    pub fn err(error: AppError) -> (r: CliResponse)
        ensures
            r.v == PROTOCOL_VERSION,
            !r.ok,
            r.data is None,
            r.error == Some(error),
    {
        CliResponse { v: PROTOCOL_VERSION, ok: false, data: None, error: Some(error) }
    }
}

/// The wire label of a status.
pub open spec fn status_text(status: ForwardStatus) -> Seq<char> {
    match status {
        ForwardStatus::Disconnected => "disconnected"@,
        ForwardStatus::Connecting => "connecting"@,
        ForwardStatus::Connected => "connected"@,
        ForwardStatus::Disconnecting => "disconnecting"@,
        ForwardStatus::Error => "error"@,
    }
}

/// The wire label of a status (`connected`, `disconnected`, ...).
pub fn status_label(status: ForwardStatus) -> (r: &'static str)
    ensures
        r@ == status_text(status),
{
    match status {
        ForwardStatus::Disconnected => "disconnected",
        ForwardStatus::Connecting => "connecting",
        ForwardStatus::Connected => "connected",
        ForwardStatus::Disconnecting => "disconnecting",
        ForwardStatus::Error => "error",
    }
}

} // verus!
