//! Domain models shared by the engine, the CLI and the tray.
//!
//! The plaintext password is never part of these models: a forward only
//! carries the `has_stored_password` flag.
use vstd::prelude::*;

verus! {

/// SSH local-forward configuration.
#[derive(Debug, Clone, PartialEq, Eq)]
pub struct ForwardConfig {
    pub id: String,
    pub name: String,
    pub ssh_host: String,
    pub ssh_port: u16,
    pub ssh_username: String,
    pub identity_file_path: Option<String>,
    pub has_stored_password: bool,
    pub local_bind_address: String,
    pub local_port: u16,
    pub remote_host: String,
    pub remote_port: u16,
    pub keep_alive_interval_sec: u32,
    pub keep_alive_max_count: u32,
    pub group_id: Option<String>,
    pub tags: Vec<String>,
}

/// The mathematical content of a [`ForwardConfig`]: every string by its
/// characters.
pub struct ForwardConfigView {
    pub id: Seq<char>,
    pub name: Seq<char>,
    pub ssh_host: Seq<char>,
    pub ssh_port: u16,
    pub ssh_username: Seq<char>,
    pub identity_file_path: Option<Seq<char>>,
    pub has_stored_password: bool,
    pub local_bind_address: Seq<char>,
    pub local_port: u16,
    pub remote_host: Seq<char>,
    pub remote_port: u16,
    pub keep_alive_interval_sec: u32,
    pub keep_alive_max_count: u32,
    pub group_id: Option<Seq<char>>,
    pub tags: Seq<Seq<char>>,
}

/// The characters of an optional string.
pub open spec fn opt_view(s: Option<String>) -> Option<Seq<char>> {
    match s {
        Some(v) => Some(v@),
        None => None,
    }
}

/// The characters of each string in a list.
pub open spec fn strings_view(v: Seq<String>) -> Seq<Seq<char>> {
    v.map_values(|s: String| s@)
}

impl View for ForwardConfig {
    type V = ForwardConfigView;

    open spec fn view(&self) -> ForwardConfigView {
        ForwardConfigView {
            id: self.id@,
            name: self.name@,
            ssh_host: self.ssh_host@,
            ssh_port: self.ssh_port,
            ssh_username: self.ssh_username@,
            identity_file_path: opt_view(self.identity_file_path),
            has_stored_password: self.has_stored_password,
            local_bind_address: self.local_bind_address@,
            local_port: self.local_port,
            remote_host: self.remote_host@,
            remote_port: self.remote_port,
            keep_alive_interval_sec: self.keep_alive_interval_sec,
            keep_alive_max_count: self.keep_alive_max_count,
            group_id: opt_view(self.group_id),
            tags: strings_view(self.tags@),
        }
    }
}

/// The views of a list of configurations.
pub open spec fn configs_view(v: Seq<ForwardConfig>) -> Seq<ForwardConfigView> {
    v.map_values(|c: ForwardConfig| c@)
}

/// The first configuration carrying `id`, if any.
pub open spec fn find_config(cs: Seq<ForwardConfigView>, id: Seq<char>) -> Option<int>
    decreases cs.len(),
{
    if cs.len() == 0 {
        None
    } else if cs[0].id == id {
        Some(0)
    } else {
        match find_config(cs.drop_first(), id) {
            Some(k) => Some(k + 1),
            None => None,
        }
    }
}

/// `find_config` answers with a position that holds `id`, and no earlier
/// position does; `None` means no position does.
pub proof fn lemma_find_config(cs: Seq<ForwardConfigView>, id: Seq<char>)
    ensures
        find_config(cs, id) matches Some(k) ==> 0 <= k < cs.len() && cs[k].id == id && forall|
            j: int,
        | 0 <= j < k ==> (#[trigger] cs[j]).id != id,
        find_config(cs, id) is None ==> forall|j: int| 0 <= j < cs.len() ==> (#[trigger] cs[j]).id
            != id,
    decreases cs.len(),
{
    if cs.len() > 0 {
        lemma_find_config(cs.drop_first(), id);
        assert forall|j: int| 1 <= j < cs.len() implies cs[j] == #[trigger] cs.drop_first()[j - 1] by {}
        if cs[0].id != id {
            if let Some(k) = find_config(cs.drop_first(), id) {
                assert forall|j: int| 0 <= j < k + 1 implies (#[trigger] cs[j]).id != id by {
                    if j > 0 {
                        assert(cs[j] == cs.drop_first()[j - 1]);
                    }
                }
            } else {
                assert forall|j: int| 0 <= j < cs.len() implies (#[trigger] cs[j]).id != id by {
                    if j > 0 {
                        assert(cs[j] == cs.drop_first()[j - 1]);
                    }
                }
            }
        }
    }
}

/// Position of the first configuration carrying `id`.
pub fn config_position(configs: &[ForwardConfig], id: &str) -> (r: Option<usize>)
    ensures
        r matches Some(k) ==> find_config(configs_view(configs@), id@) == Some(k as int),
        r is None ==> find_config(configs_view(configs@), id@) is None,
{
    let ghost cs = configs_view(configs@);
    proof {
        lemma_find_config(cs, id@);
    }
    let mut i: usize = 0;
    while i < configs.len()
        invariant
            i <= configs.len(),
            cs == configs_view(configs@),
            forall|j: int| 0 <= j < i ==> (#[trigger] cs[j]).id != id@,
            find_config(cs, id@) matches Some(k) ==> 0 <= k < cs.len() && cs[k].id == id@
                && forall|j: int| 0 <= j < k ==> (#[trigger] cs[j]).id != id@,
            find_config(cs, id@) is None ==> forall|j: int|
                0 <= j < cs.len() ==> (#[trigger] cs[j]).id != id@,
        decreases configs.len() - i,
    {
        if crate::text::str_eq(configs[i].id.as_str(), id) {
            proof {
                assert(cs[i as int].id == id@);
                if let Some(k) = find_config(cs, id@) {
                    if k > i {
                        assert(cs[i as int].id != id@);
                    }
                }
            }
            return Some(i);
        }
        i = i + 1;
    }
    proof {
        if let Some(k) = find_config(cs, id@) {
            assert(cs[k].id != id@);
        }
    }
    None
}

/// Default SSH port for a config entry that does not name one.
pub fn default_ssh_port() -> (r: u16)
    ensures
        r == 22,
{
    22
}

/// Default local bind address (`127.0.0.1`).
pub fn default_bind_address() -> (r: String)
    ensures
        r@ == "127.0.0.1"@,
{
    "127.0.0.1".to_string()
}

/// Default keep-alive interval in seconds.
pub fn default_keepalive_interval() -> (r: u32)
    ensures
        r == 30,
{
    30
}

/// Default keep-alive max count.
pub fn default_keepalive_max() -> (r: u32)
    ensures
        r == 5,
{
    5
}

/// An owned copy of an optional string.
pub fn clone_opt_string(s: &Option<String>) -> (r: Option<String>)
    ensures
        r == *s,
{
    match s {
        Some(v) => Some(v.clone()),
        None => None,
    }
}

/// An owned copy of a list of strings.
pub fn clone_strings(v: &Vec<String>) -> (r: Vec<String>)
    ensures
        r@ == v@,
{
    let mut out: Vec<String> = Vec::new();
    let mut i: usize = 0;
    while i < v.len()
        invariant
            i <= v.len(),
            out@ == v@.subrange(0, i as int),
        decreases v.len() - i,
    {
        out.push(v[i].clone());
        i = i + 1;
        proof {
            assert(out@ =~= v@.subrange(0, i as int));
        }
    }
    proof {
        assert(v@.subrange(0, v.len() as int) =~= v@);
    }
    out
}

impl ForwardConfig {
    /// An owned copy of this configuration, equal field for field.
    pub fn clone_config(&self) -> (r: ForwardConfig)
        ensures
            r@ == self@,
    {
        ForwardConfig {
            id: self.id.clone(),
            name: self.name.clone(),
            ssh_host: self.ssh_host.clone(),
            ssh_port: self.ssh_port,
            ssh_username: self.ssh_username.clone(),
            identity_file_path: clone_opt_string(&self.identity_file_path),
            has_stored_password: self.has_stored_password,
            local_bind_address: self.local_bind_address.clone(),
            local_port: self.local_port,
            remote_host: self.remote_host.clone(),
            remote_port: self.remote_port,
            keep_alive_interval_sec: self.keep_alive_interval_sec,
            keep_alive_max_count: self.keep_alive_max_count,
            group_id: clone_opt_string(&self.group_id),
            tags: clone_strings(&self.tags),
        }
    }

    /// Effective keep-alive interval in seconds: `0` means 10, otherwise the
    /// configured value.
    pub fn effective_keepalive_interval_sec(&self) -> (r: u64)
        ensures
            r == (if self.keep_alive_interval_sec == 0 {
                10
            } else {
                self.keep_alive_interval_sec as u64
            }),
    {
        if self.keep_alive_interval_sec == 0 {
            10
        } else {
            self.keep_alive_interval_sec as u64
        }
    }

    /// Effective keep-alive max count: `0` means 3, otherwise the configured
    /// value.
    pub fn effective_keepalive_max(&self) -> (r: usize)
        ensures
            r as int == (if self.keep_alive_max_count == 0 {
                3
            } else {
                self.keep_alive_max_count as int
            }),
    {
        if self.keep_alive_max_count == 0 {
            3
        } else {
            self.keep_alive_max_count as usize
        }
    }

    /// Auth needs a password: no identity file and no stored secret.
    pub fn needs_password(&self) -> (r: bool)
        ensures
            r == (self.identity_file_path is None && !self.has_stored_password),
    {
        self.identity_file_path.is_none() && !self.has_stored_password
    }
}

/// A folder that forwards can belong to.
#[derive(Debug, Clone, PartialEq, Eq)]
pub struct TunnelGroup {
    pub id: String,
    pub name: String,
    pub color: Option<String>,
    pub order: u32,
    pub collapsed: bool,
}

impl TunnelGroup {
    /// An owned copy of this group, equal field for field.
    pub fn clone_group(&self) -> (r: TunnelGroup)
        ensures
            r == *self,
    {
        TunnelGroup {
            id: self.id.clone(),
            name: self.name.clone(),
            color: clone_opt_string(&self.color),
            order: self.order,
            collapsed: self.collapsed,
        }
    }
}

/// Owned copies of a list of configurations.
pub fn clone_configs(v: &[ForwardConfig]) -> (r: Vec<ForwardConfig>)
    ensures
        configs_view(r@) == configs_view(v@),
{
    let mut out: Vec<ForwardConfig> = Vec::new();
    let mut i: usize = 0;
    while i < v.len()
        invariant
            i <= v.len(),
            out@.len() == i,
            forall|k: int| 0 <= k < i ==> (#[trigger] out@[k])@ == v@[k]@,
        decreases v.len() - i,
    {
        out.push(v[i].clone_config());
        i = i + 1;
    }
    proof {
        assert(configs_view(out@) =~= configs_view(v@));
    }
    out
}

/// Owned copies of a list of groups.
pub fn clone_groups(v: &[TunnelGroup]) -> (r: Vec<TunnelGroup>)
    ensures
        r@ == v@,
{
    let mut out: Vec<TunnelGroup> = Vec::new();
    let mut i: usize = 0;
    while i < v.len()
        invariant
            i <= v.len(),
            out@ == v@.subrange(0, i as int),
        decreases v.len() - i,
    {
        out.push(v[i].clone_group());
        i = i + 1;
        proof {
            assert(out@ =~= v@.subrange(0, i as int));
        }
    }
    proof {
        assert(v@.subrange(0, i as int) =~= v@);
    }
    out
}

/// Create/update payload for a group (no id, no order).
#[derive(Debug, Clone)]
pub struct GroupInput {
    pub name: String,
    pub color: Option<String>,
    pub collapsed: bool,
}

/// Create/update payload for a forward: no id, no live state, no secret.
#[derive(Debug, Clone)]
pub struct ForwardInput {
    pub name: String,
    pub ssh_host: String,
    pub ssh_port: u16,
    pub ssh_username: String,
    pub identity_file_path: Option<String>,
    pub local_bind_address: String,
    pub local_port: u16,
    pub remote_host: String,
    pub remote_port: u16,
    pub keep_alive_interval_sec: u32,
    pub keep_alive_max_count: u32,
    pub group_id: Option<String>,
    pub tags: Vec<String>,
}

/// The five tunnel states. `Disconnecting` is a real transient; `Error`
/// allows a retry.
#[derive(Debug, Clone, Copy, PartialEq, Eq, Structural)]
pub enum ForwardStatus {
    Disconnected,
    Connecting,
    Connected,
    Disconnecting,
    Error,
}

/// Per-tunnel stats snapshot.
#[derive(Debug, Clone, PartialEq, Eq)]
pub struct TunnelStats {
    pub active_connections: usize,
    pub total_bytes_up: u64,
    pub total_bytes_down: u64,
    pub last_ping_latency_ms: Option<u64>,
    pub connected_since: Option<String>,
}

impl TunnelStats {
    /// All-zero stats: no connections, no traffic, no latency, not connected.
    pub fn empty() -> (r: TunnelStats)
        ensures
            r.active_connections == 0,
            r.total_bytes_up == 0,
            r.total_bytes_down == 0,
            r.last_ping_latency_ms is None,
            r.connected_since is None,
    {
        TunnelStats {
            active_connections: 0,
            total_bytes_up: 0,
            total_bytes_down: 0,
            last_ping_latency_ms: None,
            connected_since: None,
        }
    }

    /// An owned copy of these stats.
    pub fn clone_stats(&self) -> (r: TunnelStats)
        ensures
            r == *self,
    {
        TunnelStats {
            active_connections: self.active_connections,
            total_bytes_up: self.total_bytes_up,
            total_bytes_down: self.total_bytes_down,
            last_ping_latency_ms: self.last_ping_latency_ms,
            connected_since: clone_opt_string(&self.connected_since),
        }
    }
}

impl Default for TunnelStats {
    fn default() -> (r: TunnelStats)
        ensures
            r.active_connections == 0,
            r.total_bytes_up == 0,
            r.total_bytes_down == 0,
            r.last_ping_latency_ms is None,
            r.connected_since is None,
    {
        TunnelStats::empty()
    }
}

/// Combined runtime view: status, stats and the last error.
#[derive(Debug, Clone)]
pub struct ForwardRuntime {
    pub status: ForwardStatus,
    pub stats: TunnelStats,
    pub last_error: Option<String>,
}

/// Theme preference.
#[derive(Debug, Clone, Copy, PartialEq, Eq, Structural)]
pub enum ThemeMode {
    System,
    Light,
    Dark,
}

/// Application settings. Every field has a documented default (see
/// [`AppSettings::default`]).
#[derive(Debug, Clone, PartialEq, Eq)]
pub struct AppSettings {
    pub launch_at_login: bool,
    pub show_notifications: bool,
    pub theme_mode: ThemeMode,
    pub auto_reconnect: bool,
    pub auto_reconnect_delay_sec: u32,
    pub auto_reconnect_max_retries: u32,
    pub show_in_dock: bool,
    pub auto_check_updates: bool,
    pub last_skipped_version: Option<String>,
}

/// Default for the boolean settings that start enabled.
pub fn default_true() -> (r: bool)
    ensures
        r,
{
    true
}

/// Default theme: follow the system.
pub fn default_theme_mode() -> (r: ThemeMode)
    ensures
        r == ThemeMode::System,
{
    ThemeMode::System
}

/// Default base delay for auto-reconnect, in seconds.
pub fn default_reconnect_delay_sec() -> (r: u32)
    ensures
        r == 5,
{
    5
}

/// Default number of auto-reconnect attempts.
pub fn default_reconnect_max_retries() -> (r: u32)
    ensures
        r == 3,
{
    3
}

/// The documented default settings.
pub open spec fn default_settings(s: AppSettings) -> bool {
    &&& s.launch_at_login
    &&& s.show_notifications
    &&& s.theme_mode == ThemeMode::System
    &&& s.auto_reconnect
    &&& s.auto_reconnect_delay_sec == 5
    &&& s.auto_reconnect_max_retries == 3
    &&& !s.show_in_dock
    &&& s.auto_check_updates
    &&& s.last_skipped_version is None
}

impl AppSettings {
    /// An owned copy of these settings.
    pub fn clone_settings(&self) -> (r: AppSettings)
        ensures
            r == *self,
    {
        AppSettings {
            launch_at_login: self.launch_at_login,
            show_notifications: self.show_notifications,
            theme_mode: self.theme_mode,
            auto_reconnect: self.auto_reconnect,
            auto_reconnect_delay_sec: self.auto_reconnect_delay_sec,
            auto_reconnect_max_retries: self.auto_reconnect_max_retries,
            show_in_dock: self.show_in_dock,
            auto_check_updates: self.auto_check_updates,
            last_skipped_version: clone_opt_string(&self.last_skipped_version),
        }
    }
}

impl Default for AppSettings {
    fn default() -> (r: AppSettings)
        ensures
            default_settings(r),
    {
        AppSettings {
            launch_at_login: default_true(),
            show_notifications: default_true(),
            theme_mode: default_theme_mode(),
            auto_reconnect: default_true(),
            auto_reconnect_delay_sec: default_reconnect_delay_sec(),
            auto_reconnect_max_retries: default_reconnect_max_retries(),
            show_in_dock: false,
            auto_check_updates: default_true(),
            last_skipped_version: None,
        }
    }
}

/// Severity of a log line.
#[derive(Debug, Clone, Copy, PartialEq, Eq, Structural)]
pub enum LogLevel {
    Info,
    Warning,
    Error,
}

/// A single in-memory log line.
#[derive(Debug, Clone, PartialEq, Eq)]
pub struct LogEntry {
    pub level: LogLevel,
    /// `None` for app-level (non-tunnel) logs.
    pub tunnel_name: Option<String>,
    pub message: String,
    /// Formatted local time `HH:mm:ss`.
    pub timestamp: String,
}

/// The upper-case label of a log level.
pub open spec fn level_label(level: LogLevel) -> Seq<char> {
    match level {
        LogLevel::Info => "INFO"@,
        LogLevel::Warning => "WARNING"@,
        LogLevel::Error => "ERROR"@,
    }
}

/// The Copy-All line: `[time] [LEVEL] [tunnel] message`, the tunnel segment
/// omitted for app-level lines.
pub open spec fn formatted_entry(e: LogEntry) -> Seq<char> {
    match e.tunnel_name {
        Some(t) => "["@ + e.timestamp@ + "] ["@ + level_label(e.level) + "] ["@ + t@ + "] "@
            + e.message@,
        None => "["@ + e.timestamp@ + "] ["@ + level_label(e.level) + "] "@ + e.message@,
    }
}

impl LogEntry {
    /// The Copy-All line format: `[HH:mm:ss] [LEVEL] [tunnel] message`.
    pub fn formatted(&self) -> (r: String)
        ensures
            r@ == formatted_entry(*self),
    {
        let level = match self.level {
            LogLevel::Info => "INFO",
            LogLevel::Warning => "WARNING",
            LogLevel::Error => "ERROR",
        };
        let head = "[".to_string().concat(self.timestamp.as_str()).concat("] [").concat(level);
        match &self.tunnel_name {
            Some(t) => head.concat("] [").concat(t.as_str()).concat("] ").concat(
                self.message.as_str(),
            ),
            None => head.concat("] ").concat(self.message.as_str()),
        }
    }

    /// An owned copy of this entry.
    pub fn clone_entry(&self) -> (r: LogEntry)
        ensures
            r == *self,
    {
        LogEntry {
            level: self.level,
            tunnel_name: clone_opt_string(&self.tunnel_name),
            message: self.message.clone(),
            timestamp: self.timestamp.clone(),
        }
    }
}

/// Self-update availability snapshot.
#[derive(Debug, Clone, PartialEq, Eq)]
pub struct UpdateStatus {
    pub available: bool,
    pub version: Option<String>,
    pub notes: Option<String>,
    /// `version == settings.last_skipped_version`.
    pub skipped: bool,
    /// A user-facing reason when a requested check failed.
    pub error: Option<String>,
}

impl UpdateStatus {
    /// An owned copy of this status.
    pub fn clone_status(&self) -> (r: UpdateStatus)
        ensures
            r == *self,
    {
        UpdateStatus {
            available: self.available,
            version: clone_opt_string(&self.version),
            notes: clone_opt_string(&self.notes),
            skipped: self.skipped,
            error: clone_opt_string(&self.error),
        }
    }
}

impl Default for UpdateStatus {
    fn default() -> (r: UpdateStatus)
        ensures
            !r.available,
            r.version is None,
            r.notes is None,
            !r.skipped,
            r.error is None,
    {
        UpdateStatus { available: false, version: None, notes: None, skipped: false, error: None }
    }
}

/// One-shot boot/rehydrate snapshot.
#[derive(Debug, Clone)]
pub struct AppSnapshot {
    pub forwards: Vec<ForwardConfig>,
    pub groups: Vec<TunnelGroup>,
    pub settings: AppSettings,
    pub logs: Vec<LogEntry>,
    /// `(forwardId, runtime)` pairs for every currently-live tunnel.
    pub runtimes: Vec<(String, ForwardRuntime)>,
    pub update: UpdateStatus,
    pub keychain_available: bool,
}

} // verus!
