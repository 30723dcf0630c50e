//! The tray menu model: a pure function of the tunnel states and update
//! availability, the entries it turns into, and the routing of clicks.
//!
//! Each per-tunnel row performs its status's *primary* action on click:
//! connect when disconnected, disconnect when connected or connecting, retry
//! when errored. The transient `disconnecting` row is disabled.
use crate::state::models::{opt_view, ForwardConfig, ForwardStatus, UpdateStatus};
use crate::state::tunnel_registry::{allowed, registry_wf, status_of, TunnelRegistry};
use crate::state::AppState;
use crate::text::{decimal, push_decimal, str_eq};
use vstd::prelude::*;

verus! {

pub const ID_OPEN: &'static str = "open";

pub const ID_QUIT: &'static str = "quit";

pub const ID_START_ALL: &'static str = "start_all";

pub const ID_STOP_ALL: &'static str = "stop_all";

pub const ID_UPDATE: &'static str = "update_install";

pub const ID_CHECK_UPDATE: &'static str = "check_update";

/// Settings accelerator.
pub const ACCEL_SETTINGS: &'static str = "CmdOrCtrl+,";

/// Check-for-updates accelerator.
pub const ACCEL_CHECK_UPDATE: &'static str = "CmdOrCtrl+U";

/// Quit accelerator.
pub const ACCEL_QUIT: &'static str = "CmdOrCtrl+Q";

/// A tunnel's identity and live status, the input of the menu model.
#[derive(Debug, Clone, PartialEq, Eq)]
pub struct TunnelState {
    pub id: String,
    pub name: String,
    /// Local bind port, shown right of the name.
    pub port: u16,
    pub status: ForwardStatus,
}

/// What a per-tunnel row can do.
#[derive(Debug, Clone, Copy, PartialEq, Eq, Structural)]
pub enum TunnelAction {
    Connect,
    Disconnect,
    Retry,
}

/// One per-tunnel row of the menu.
#[derive(Debug, Clone, PartialEq, Eq)]
pub struct TunnelMenuRow {
    pub id: String,
    pub name: String,
    pub port: u16,
    pub status: ForwardStatus,
    /// Actions available in this status (none while disconnecting).
    pub actions: Vec<TunnelAction>,
    /// The action a click performs (none while disconnecting).
    pub primary: Option<TunnelAction>,
}

/// The update-notice slot's content.
#[derive(Debug, Clone, PartialEq, Eq)]
pub struct UpdateNotice {
    /// The available version, if the updater reported one.
    pub version: Option<String>,
}

/// The whole tray-menu model.
#[derive(Debug, Clone, PartialEq, Eq)]
pub struct MenuModel {
    /// Present only when an update is pending install.
    pub update_notice: Option<UpdateNotice>,
    pub tunnels: Vec<TunnelMenuRow>,
    /// "Start All": at least one tunnel is startable.
    pub show_start_all: bool,
    /// "Stop All": at least one tunnel is stoppable.
    pub show_stop_all: bool,
}

/// The mathematical content of a [`TunnelState`].
pub struct TunnelStateView {
    pub id: Seq<char>,
    pub name: Seq<char>,
    pub port: u16,
    pub status: ForwardStatus,
}

impl View for TunnelState {
    type V = TunnelStateView;

    open spec fn view(&self) -> TunnelStateView {
        TunnelStateView { id: self.id@, name: self.name@, port: self.port, status: self.status }
    }
}

/// The mathematical content of a [`TunnelMenuRow`].
pub struct TunnelMenuRowView {
    pub id: Seq<char>,
    pub name: Seq<char>,
    pub port: u16,
    pub status: ForwardStatus,
    pub actions: Seq<TunnelAction>,
    pub primary: Option<TunnelAction>,
}

impl View for TunnelMenuRow {
    type V = TunnelMenuRowView;

    open spec fn view(&self) -> TunnelMenuRowView {
        TunnelMenuRowView {
            id: self.id@,
            name: self.name@,
            port: self.port,
            status: self.status,
            actions: self.actions@,
            primary: self.primary,
        }
    }
}

/// The notice version an update status offers: `Some(version)` when an
/// update is available and not skipped.
pub open spec fn notice_of(status: UpdateStatus) -> Option<Option<Seq<char>>> {
    if status.available && !status.skipped {
        Some(opt_view(status.version))
    } else {
        None
    }
}

/// The tray's update notice: offered only when an update is available AND
/// not skipped (a dismissed version is never re-offered).
pub fn update_notice_from_status(status: &UpdateStatus) -> (r: Option<UpdateNotice>)
    ensures
        match r {
            Some(n) => notice_of(*status) == Some(opt_view(n.version)),
            None => notice_of(*status) is None,
        },
{
    if status.available && !status.skipped {
        Some(UpdateNotice { version: crate::state::models::clone_opt_string(&status.version) })
    } else {
        None
    }
}

/// The actions offered in a status: nothing while disconnecting; retry and
/// disconnect on error.
pub open spec fn actions_of(status: ForwardStatus) -> Seq<TunnelAction> {
    match status {
        ForwardStatus::Disconnected => seq![TunnelAction::Connect],
        ForwardStatus::Connecting => seq![TunnelAction::Disconnect],
        ForwardStatus::Connected => seq![TunnelAction::Disconnect],
        ForwardStatus::Disconnecting => seq![],
        ForwardStatus::Error => seq![TunnelAction::Retry, TunnelAction::Disconnect],
    }
}

/// The actions offered for a status.
pub fn actions_for(status: ForwardStatus) -> (r: Vec<TunnelAction>)
    ensures
        r@ == actions_of(status),
{
    match status {
        ForwardStatus::Disconnected => vec![TunnelAction::Connect],
        ForwardStatus::Connecting => vec![TunnelAction::Disconnect],
        ForwardStatus::Connected => vec![TunnelAction::Disconnect],
        ForwardStatus::Disconnecting => vec![],
        ForwardStatus::Error => vec![TunnelAction::Retry, TunnelAction::Disconnect],
    }
}

/// The click action of a status.
pub open spec fn primary_of(status: ForwardStatus) -> Option<TunnelAction> {
    match status {
        ForwardStatus::Disconnected => Some(TunnelAction::Connect),
        ForwardStatus::Connecting => Some(TunnelAction::Disconnect),
        ForwardStatus::Connected => Some(TunnelAction::Disconnect),
        ForwardStatus::Error => Some(TunnelAction::Retry),
        ForwardStatus::Disconnecting => None,
    }
}

/// The action a click on a row performs: connect when idle, disconnect when
/// live, retry when errored, nothing while disconnecting.
pub fn primary_action(status: ForwardStatus) -> (r: Option<TunnelAction>)
    ensures
        r == primary_of(status),
{
    match status {
        ForwardStatus::Disconnected => Some(TunnelAction::Connect),
        ForwardStatus::Connecting | ForwardStatus::Connected => Some(TunnelAction::Disconnect),
        ForwardStatus::Error => Some(TunnelAction::Retry),
        ForwardStatus::Disconnecting => None,
    }
}

/// Whether a tunnel in `s` can be started (disconnected or errored).
pub open spec fn startable(s: ForwardStatus) -> bool {
    s == ForwardStatus::Disconnected || s == ForwardStatus::Error
}

/// Whether a tunnel in `s` can be stopped (connected or connecting).
pub open spec fn stoppable(s: ForwardStatus) -> bool {
    s == ForwardStatus::Connected || s == ForwardStatus::Connecting
}

/// The row a tunnel state becomes.
pub open spec fn row_of(t: TunnelStateView) -> TunnelMenuRowView {
    TunnelMenuRowView {
        id: t.id,
        name: t.name,
        port: t.port,
        status: t.status,
        actions: actions_of(t.status),
        primary: primary_of(t.status),
    }
}

/// Build the menu model: one row per tunnel in order; Start All when any
/// tunnel is startable, Stop All when any is stoppable; the given notice.
pub fn build_menu_model(tunnels: &[TunnelState], update_notice: Option<UpdateNotice>) -> (r:
    MenuModel)
    ensures
        r.tunnels@.len() == tunnels@.len(),
        forall|k: int| 0 <= k < tunnels@.len() ==> (#[trigger] r.tunnels@[k])@ == row_of(tunnels@[k]@),
        r.show_start_all == exists|k: int| 0 <= k < tunnels@.len() && startable(#[trigger] tunnels@[k].status),
        r.show_stop_all == exists|k: int| 0 <= k < tunnels@.len() && stoppable(#[trigger] tunnels@[k].status),
        r.update_notice == update_notice,
{
    let mut rows: Vec<TunnelMenuRow> = Vec::new();
    let mut start = false;
    let mut stop = false;
    let mut i: usize = 0;
    while i < tunnels.len()
        invariant
            i <= tunnels.len(),
            rows@.len() == i,
            forall|k: int| 0 <= k < i ==> (#[trigger] rows@[k])@ == row_of(tunnels@[k]@),
            start == exists|k: int| 0 <= k < i && startable(#[trigger] tunnels@[k].status),
            stop == exists|k: int| 0 <= k < i && stoppable(#[trigger] tunnels@[k].status),
        decreases tunnels.len() - i,
    {
        let t = &tunnels[i];
        rows.push(
            TunnelMenuRow {
                id: t.id.clone(),
                name: t.name.clone(),
                port: t.port,
                status: t.status,
                actions: actions_for(t.status),
                primary: primary_action(t.status),
            },
        );
        if t.status == ForwardStatus::Disconnected || t.status == ForwardStatus::Error {
            start = true;
        }
        if t.status == ForwardStatus::Connected || t.status == ForwardStatus::Connecting {
            stop = true;
        }
        i = i + 1;
        proof {
            if startable(t.status) {
                assert(startable(tunnels@[i - 1].status));
            }
            if stoppable(t.status) {
                assert(stoppable(tunnels@[i - 1].status));
            }
        }
    }
    MenuModel { update_notice, tunnels: rows, show_start_all: start, show_stop_all: stop }
}

/// How many tunnels are connected.
pub open spec fn connected_in(ts: Seq<TunnelState>) -> nat
    decreases ts.len(),
{
    if ts.len() == 0 {
        0
    } else {
        connected_in(ts.drop_last()) + if ts.last().status == ForwardStatus::Connected {
            1nat
        } else {
            0nat
        }
    }
}

/// Number of tunnels in `connected`: the tray badge count.
pub fn connected_count(tunnels: &[TunnelState]) -> (r: usize)
    ensures
        r == connected_in(tunnels@),
{
    let mut n: usize = 0;
    let mut i: usize = 0;
    while i < tunnels.len()
        invariant
            i <= tunnels.len(),
            n == connected_in(tunnels@.subrange(0, i as int)),
            n <= i,
        decreases tunnels.len() - i,
    {
        proof {
            assert(tunnels@.subrange(0, i + 1).drop_last() =~= tunnels@.subrange(0, i as int));
        }
        if tunnels[i].status == ForwardStatus::Connected {
            n = n + 1;
        }
        i = i + 1;
    }
    proof {
        assert(tunnels@.subrange(0, i as int) =~= tunnels@);
    }
    n
}

/// The tray's wording of a status.
pub open spec fn tray_status_text(status: ForwardStatus) -> Seq<char> {
    match status {
        ForwardStatus::Connected => "Connected"@,
        ForwardStatus::Connecting => "Connecting…"@,
        ForwardStatus::Disconnected => "Disconnected"@,
        ForwardStatus::Disconnecting => "Disconnecting…"@,
        ForwardStatus::Error => "Error"@,
    }
}

/// The tray's wording of a status.
pub fn status_label(status: ForwardStatus) -> (r: &'static str)
    ensures
        r@ == tray_status_text(status),
{
    match status {
        ForwardStatus::Connected => "Connected",
        ForwardStatus::Connecting => "Connecting…",
        ForwardStatus::Disconnected => "Disconnected",
        ForwardStatus::Disconnecting => "Disconnecting…",
        ForwardStatus::Error => "Error",
    }
}

/// A row's label: the name, three spaces, `:` and the local port; a row
/// with no click action (disconnecting) also shows its state.
pub open spec fn row_label(r: TunnelMenuRowView) -> Seq<char> {
    let base = r.name + "   :"@ + decimal(r.port as nat);
    if r.primary is None {
        base + "  ("@ + tray_status_text(r.status) + ")"@
    } else {
        base
    }
}

/// The label for a per-tunnel row (`Qismo Prod   :5431`).
pub fn tunnel_row_label(row: &TunnelMenuRow) -> (r: String)
    ensures
        r@ == row_label(row@),
{
    let base = push_decimal(row.name.clone().concat("   :"), row.port as u64);
    if row.primary.is_none() {
        base.concat("  (").concat(status_label(row.status)).concat(")")
    } else {
        base
    }
}

/// The menu id of a per-tunnel action: `t:<action>:<id>`.
pub open spec fn item_id_of(action: Seq<char>, id: Seq<char>) -> Seq<char> {
    "t:"@ + action + ":"@ + id
}

/// The menu id of a per-tunnel action.
pub fn tunnel_item_id(action: &str, id: &str) -> (r: String)
    ensures
        r@ == item_id_of(action@, id@),
{
    "t:".to_string().concat(action).concat(":").concat(id)
}

/// The first `:` at or after `from`, or the length when there is none.
pub open spec fn next_colon(s: Seq<char>, from: int) -> int
    decreases s.len() - from,
{
    if from < 0 || from >= s.len() {
        s.len() as int
    } else if s[from] == ':' {
        from
    } else {
        next_colon(s, from + 1)
    }
}

/// A per-tunnel menu id split three ways on `:`: the first part must be `t`;
/// the second is the action, the rest (colons included) the forward id.
pub open spec fn parse_item_id(s: Seq<char>) -> Option<(Seq<char>, Seq<char>)> {
    let p1 = next_colon(s, 0);
    if p1 >= s.len() {
        None
    } else {
        let p2 = next_colon(s, p1 + 1);
        if p2 >= s.len() {
            None
        } else if s.subrange(0, p1) == "t"@ {
            Some((s.subrange(p1 + 1, p2), s.subrange(p2 + 1, s.len() as int)))
        } else {
            None
        }
    }
}

proof fn lemma_next_colon_bounds(s: Seq<char>, from: int)
    requires
        0 <= from <= s.len(),
    ensures
        from <= next_colon(s, from) <= s.len(),
        next_colon(s, from) < s.len() ==> s[next_colon(s, from)] == ':',
        forall|j: int| from <= j < next_colon(s, from) ==> s[j] != ':',
    decreases s.len() - from,
{
    if from < s.len() && s[from] != ':' {
        lemma_next_colon_bounds(s, from + 1);
    }
}

/// The first `:` at or after `from` in `s`.
fn find_colon(s: &str, from: usize) -> (r: usize)
    requires
        from <= s@.len(),
    ensures
        r == next_colon(s@, from as int),
{
    let n = s.unicode_len();
    let mut i = from;
    while i < n
        invariant
            from <= i <= n,
            n == s@.len(),
            next_colon(s@, from as int) == next_colon(s@, i as int),
        decreases n - i,
    {
        if s.get_char(i) == ':' {
            return i;
        }
        i = i + 1;
    }
    i
}

/// Parse a per-tunnel menu id back into `(action, forward_id)`; `None` for
/// every other id (open, quit, bulk, disabled rows).
pub fn parse_tunnel_item_id(item_id: &str) -> (r: Option<(String, String)>)
    ensures
        match parse_item_id(item_id@) {
            Some((a, id)) => r matches Some((ra, rid)) && ra@ == a && rid@ == id,
            None => r is None,
        },
{
    let n = item_id.unicode_len();
    let p1 = find_colon(item_id, 0);
    proof {
        lemma_next_colon_bounds(item_id@, 0);
    }
    if p1 >= n {
        return None;
    }
    let p2 = find_colon(item_id, p1 + 1);
    proof {
        lemma_next_colon_bounds(item_id@, p1 + 1);
    }
    if p2 >= n {
        return None;
    }
    let head = item_id.substring_char(0, p1);
    if !str_eq(head, "t") {
        return None;
    }
    Some((item_id.substring_char(p1 + 1, p2).to_string(), item_id.substring_char(p2 + 1, n).to_string()))
}

/// A per-tunnel id built from an action without `:` parses back into that
/// action and the forward id.
pub proof fn law_item_id_roundtrip(action: Seq<char>, id: Seq<char>)
    requires
        !action.contains(':'),
    ensures
        parse_item_id(item_id_of(action, id)) == Some((action, id)),
{
    let s = item_id_of(action, id);
    reveal_strlit("t:");
    reveal_strlit(":");
    reveal_strlit("t");
    assert(s[0] == 't');
    assert(s[1] == ':');
    assert(next_colon(s, 1) == 1);
    assert(next_colon(s, 0) == 1);
    let p2: int = 2 + action.len() as int;
    assert(s[p2] == ':');
    lemma_colon_run(s, action, id, 2);
    assert(s.subrange(0, 1) =~= "t"@);
    assert(s.subrange(2, p2) =~= action);
    assert(s.subrange(p2 + 1, s.len() as int) =~= id);
}

proof fn lemma_colon_run(s: Seq<char>, action: Seq<char>, id: Seq<char>, from: int)
    requires
        s == item_id_of(action, id),
        !action.contains(':'),
        2 <= from <= 2 + action.len(),
        s.len() == 3 + action.len() + id.len(),
        s[2 + action.len() as int] == ':',
        forall|j: int| 0 <= j < action.len() ==> s[2 + j] == action[j],
    ensures
        next_colon(s, from) == 2 + action.len(),
    decreases 2 + action.len() - from,
{
    if from < 2 + action.len() {
        assert(s[from] == action[from - 2]);
        if s[from] == ':' {
            assert(action.contains(':'));
        }
        lemma_colon_run(s, action, id, from + 1);
    }
}

/// What a menu click asks for.
#[derive(Debug, Clone, PartialEq, Eq)]
pub enum MenuCommand {
    ShowWindow,
    Quit,
    StartAll,
    StopAll,
    InstallUpdate,
    CheckUpdate,
    Connect(String),
    Disconnect(String),
    Retry(String),
    /// Disabled labels and unknown ids do nothing.
    Ignore,
}

/// The mathematical content of a [`MenuCommand`].
pub enum MenuCommandView {
    ShowWindow,
    Quit,
    StartAll,
    StopAll,
    InstallUpdate,
    CheckUpdate,
    Connect(Seq<char>),
    Disconnect(Seq<char>),
    Retry(Seq<char>),
    Ignore,
}

impl View for MenuCommand {
    type V = MenuCommandView;

    open spec fn view(&self) -> MenuCommandView {
        match self {
            MenuCommand::ShowWindow => MenuCommandView::ShowWindow,
            MenuCommand::Quit => MenuCommandView::Quit,
            MenuCommand::StartAll => MenuCommandView::StartAll,
            MenuCommand::StopAll => MenuCommandView::StopAll,
            MenuCommand::InstallUpdate => MenuCommandView::InstallUpdate,
            MenuCommand::CheckUpdate => MenuCommandView::CheckUpdate,
            MenuCommand::Connect(id) => MenuCommandView::Connect(id@),
            MenuCommand::Disconnect(id) => MenuCommandView::Disconnect(id@),
            MenuCommand::Retry(id) => MenuCommandView::Retry(id@),
            MenuCommand::Ignore => MenuCommandView::Ignore,
        }
    }
}

/// The command a clicked menu id names.
pub open spec fn command_of(item_id: Seq<char>) -> MenuCommandView {
    if item_id == ID_OPEN@ {
        MenuCommandView::ShowWindow
    } else if item_id == ID_QUIT@ {
        MenuCommandView::Quit
    } else if item_id == ID_START_ALL@ {
        MenuCommandView::StartAll
    } else if item_id == ID_STOP_ALL@ {
        MenuCommandView::StopAll
    } else if item_id == ID_UPDATE@ {
        MenuCommandView::InstallUpdate
    } else if item_id == ID_CHECK_UPDATE@ {
        MenuCommandView::CheckUpdate
    } else {
        match parse_item_id(item_id) {
            Some((a, id)) => if a == "connect"@ {
                MenuCommandView::Connect(id)
            } else if a == "disconnect"@ {
                MenuCommandView::Disconnect(id)
            } else if a == "retry"@ {
                MenuCommandView::Retry(id)
            } else {
                MenuCommandView::Ignore
            },
            None => MenuCommandView::Ignore,
        }
    }
}

/// Route a tray menu click to what it asks for.
pub fn handle_menu_event(item_id: &str) -> (r: MenuCommand)
    ensures
        r@ == command_of(item_id@),
{
    if str_eq(item_id, ID_OPEN) {
        MenuCommand::ShowWindow
    } else if str_eq(item_id, ID_QUIT) {
        MenuCommand::Quit
    } else if str_eq(item_id, ID_START_ALL) {
        MenuCommand::StartAll
    } else if str_eq(item_id, ID_STOP_ALL) {
        MenuCommand::StopAll
    } else if str_eq(item_id, ID_UPDATE) {
        MenuCommand::InstallUpdate
    } else if str_eq(item_id, ID_CHECK_UPDATE) {
        MenuCommand::CheckUpdate
    } else {
        match parse_tunnel_item_id(item_id) {
            Some((action, id)) => {
                if str_eq(action.as_str(), "connect") {
                    MenuCommand::Connect(id)
                } else if str_eq(action.as_str(), "disconnect") {
                    MenuCommand::Disconnect(id)
                } else if str_eq(action.as_str(), "retry") {
                    MenuCommand::Retry(id)
                } else {
                    MenuCommand::Ignore
                }
            },
            None => MenuCommand::Ignore,
        }
    }
}

/// One entry of the native menu.
#[derive(Debug, Clone, PartialEq, Eq)]
pub enum MenuEntry {
    Separator,
    Item {
        id: String,
        label: String,
        enabled: bool,
        accelerator: Option<String>,
        /// The status whose colored dot leads the row (per-tunnel rows only).
        dot: Option<ForwardStatus>,
    },
}

/// The mathematical content of a [`MenuEntry`].
pub enum MenuEntryView {
    Separator,
    Item {
        id: Seq<char>,
        label: Seq<char>,
        enabled: bool,
        accelerator: Option<Seq<char>>,
        dot: Option<ForwardStatus>,
    },
}

impl View for MenuEntry {
    type V = MenuEntryView;

    open spec fn view(&self) -> MenuEntryView {
        match self {
            MenuEntry::Separator => MenuEntryView::Separator,
            MenuEntry::Item { id, label, enabled, accelerator, dot } => MenuEntryView::Item {
                id: id@,
                label: label@,
                enabled: *enabled,
                accelerator: opt_view(*accelerator),
                dot: *dot,
            },
        }
    }
}

/// The views of a list of entries.
pub open spec fn entries_view(es: Seq<MenuEntry>) -> Seq<MenuEntryView> {
    es.map_values(|e: MenuEntry| e@)
}

/// A plain item.
pub open spec fn plain_item(
    id: Seq<char>,
    label: Seq<char>,
    enabled: bool,
    accelerator: Option<Seq<char>>,
) -> MenuEntryView {
    MenuEntryView::Item { id, label, enabled, accelerator, dot: None }
}

/// The update notice's label.
pub open spec fn notice_label(version: Option<Seq<char>>) -> Seq<char> {
    match version {
        Some(v) => "Update available (v"@ + v + ") — Install"@,
        None => "Update available — Install"@,
    }
}

/// The notice slot: the install item and a separator, or nothing.
pub open spec fn notice_entries(n: Option<Option<Seq<char>>>) -> Seq<MenuEntryView> {
    match n {
        Some(v) => seq![plain_item(ID_UPDATE@, notice_label(v), true, None), MenuEntryView::Separator],
        None => seq![],
    }
}

/// The menu id a row carries: its primary action's id, or `noop:<id>`.
pub open spec fn row_item_id(r: TunnelMenuRowView) -> Seq<char> {
    match r.primary {
        Some(TunnelAction::Connect) => item_id_of("connect"@, r.id),
        Some(TunnelAction::Disconnect) => item_id_of("disconnect"@, r.id),
        Some(TunnelAction::Retry) => item_id_of("retry"@, r.id),
        None => "noop:"@ + r.id,
    }
}

/// The entry a row becomes: enabled iff it has a click action.
pub open spec fn row_entry(r: TunnelMenuRowView) -> MenuEntryView {
    MenuEntryView::Item {
        id: row_item_id(r),
        label: row_label(r),
        enabled: r.primary is Some,
        accelerator: None,
        dot: Some(r.status),
    }
}

/// The bulk items: Start All, Stop All, then a separator when either shows.
pub open spec fn bulk_entries(start: bool, stop: bool) -> Seq<MenuEntryView> {
    (if start {
        seq![plain_item(ID_START_ALL@, "Start All"@, true, None)]
    } else {
        seq![]
    }) + (if stop {
        seq![plain_item(ID_STOP_ALL@, "Stop All"@, true, None)]
    } else {
        seq![]
    }) + (if start || stop {
        seq![MenuEntryView::Separator]
    } else {
        seq![]
    })
}

/// The footer: Settings, Check for Updates, Quit, with accelerators.
pub open spec fn footer_entries() -> Seq<MenuEntryView> {
    seq![
        plain_item(ID_OPEN@, "Settings"@, true, Some(ACCEL_SETTINGS@)),
        plain_item(ID_CHECK_UPDATE@, "Check for Updates…"@, true, Some(ACCEL_CHECK_UPDATE@)),
        plain_item(ID_QUIT@, "Quit"@, true, Some(ACCEL_QUIT@)),
    ]
}

/// The rows part: one entry per row, or a disabled placeholder when empty.
pub open spec fn rows_entries(rows: Seq<TunnelMenuRow>) -> Seq<MenuEntryView> {
    if rows.len() == 0 {
        seq![plain_item("noop:empty"@, "No forwards configured"@, false, None)]
    } else {
        rows.map_values(|r: TunnelMenuRow| row_entry(r@))
    }
}

/// The whole native menu of a model, top to bottom.
pub open spec fn menu_entries_of(m: MenuModel) -> Seq<MenuEntryView> {
    notice_entries(
        match m.update_notice {
            Some(n) => Some(opt_view(n.version)),
            None => None,
        },
    ) + rows_entries(m.tunnels@) + seq![MenuEntryView::Separator] + bulk_entries(
        m.show_start_all,
        m.show_stop_all,
    ) + footer_entries()
}

fn plain(id: &str, label: &str, enabled: bool, accelerator: Option<&str>) -> (r: MenuEntry)
    ensures
        r@ == plain_item(
            id@,
            label@,
            enabled,
            match accelerator {
                Some(a) => Some(a@),
                None => None,
            },
        ),
{
    let accelerator = match accelerator {
        Some(a) => Some(a.to_string()),
        None => None,
    };
    MenuEntry::Item { id: id.to_string(), label: label.to_string(), enabled, accelerator, dot: None }
}

/// The entry of one per-tunnel row.
pub fn tunnel_row_entry(row: &TunnelMenuRow) -> (r: MenuEntry)
    ensures
        r@ == row_entry(row@),
{
    let label = tunnel_row_label(row);
    let (id, enabled) = match row.primary {
        Some(TunnelAction::Connect) => (tunnel_item_id("connect", row.id.as_str()), true),
        Some(TunnelAction::Disconnect) => (tunnel_item_id("disconnect", row.id.as_str()), true),
        Some(TunnelAction::Retry) => (tunnel_item_id("retry", row.id.as_str()), true),
        None => ("noop:".to_string().concat(row.id.as_str()), false),
    };
    MenuEntry::Item { id, label, enabled, accelerator: None, dot: Some(row.status) }
}

/// The native menu of a model, top to bottom: the update notice, the rows
/// (or a disabled placeholder), a separator, the bulk items, the footer.
pub fn build_tauri_menu(model: &MenuModel) -> (r: Vec<MenuEntry>)
    ensures
        entries_view(r@) == menu_entries_of(*model),
{
    let mut out: Vec<MenuEntry> = Vec::new();
    match &model.update_notice {
        Some(notice) => {
            let label = match &notice.version {
                Some(v) => "Update available (v".to_string().concat(v.as_str()).concat(
                    ") — Install",
                ),
                None => "Update available — Install".to_string(),
            };
            out.push(
                MenuEntry::Item {
                    id: ID_UPDATE.to_string(),
                    label,
                    enabled: true,
                    accelerator: None,
                    dot: None,
                },
            );
            out.push(MenuEntry::Separator);
        },
        None => {},
    }
    let ghost notice_part = entries_view(out@);
    proof {
        assert(notice_part =~= notice_entries(
            match model.update_notice {
                Some(n) => Some(opt_view(n.version)),
                None => None,
            },
        ));
    }
    if model.tunnels.len() == 0 {
        out.push(plain("noop:empty", "No forwards configured", false, None));
        proof {
            assert(entries_view(out@) =~= notice_part + rows_entries(model.tunnels@));
        }
    } else {
        let mut i: usize = 0;
        while i < model.tunnels.len()
            invariant
                i <= model.tunnels.len(),
                model.tunnels.len() > 0,
                entries_view(out@) == notice_part + model.tunnels@.subrange(0, i as int).map_values(
                    |r: TunnelMenuRow| row_entry(r@),
                ),
            decreases model.tunnels.len() - i,
        {
            let ghost before = entries_view(out@);
            out.push(tunnel_row_entry(&model.tunnels[i]));
            proof {
                assert(model.tunnels@.subrange(0, i + 1).map_values(
                    |r: TunnelMenuRow| row_entry(r@),
                ) =~= model.tunnels@.subrange(0, i as int).map_values(
                    |r: TunnelMenuRow| row_entry(r@),
                ).push(row_entry(model.tunnels@[i as int]@)));
                assert(entries_view(out@) =~= before.push(row_entry(model.tunnels@[i as int]@)));
            }
            i = i + 1;
        }
        proof {
            assert(model.tunnels@.subrange(0, i as int) =~= model.tunnels@);
        }
    }
    let ghost rows_part = entries_view(out@);
    out.push(MenuEntry::Separator);
    if model.show_start_all {
        out.push(plain(ID_START_ALL, "Start All", true, None));
    }
    if model.show_stop_all {
        out.push(plain(ID_STOP_ALL, "Stop All", true, None));
    }
    if model.show_start_all || model.show_stop_all {
        out.push(MenuEntry::Separator);
    }
    proof {
        assert(entries_view(out@) =~= rows_part + seq![MenuEntryView::Separator] + bulk_entries(
            model.show_start_all,
            model.show_stop_all,
        ));
    }
    let ghost bulk_part = entries_view(out@);
    out.push(plain(ID_OPEN, "Settings", true, Some(ACCEL_SETTINGS)));
    out.push(plain(ID_CHECK_UPDATE, "Check for Updates…", true, Some(ACCEL_CHECK_UPDATE)));
    out.push(plain(ID_QUIT, "Quit", true, Some(ACCEL_QUIT)));
    proof {
        assert(entries_view(out@) =~= bulk_part + footer_entries());
    }
    out
}

/// The tunnel state a configuration shows in the menu: a configuration with
/// no live supervisor reads as disconnected.
pub open spec fn state_of_config(
    c: crate::state::models::ForwardConfigView,
    live: Option<ForwardStatus>,
) -> TunnelStateView {
    TunnelStateView {
        id: c.id,
        name: c.name,
        port: c.local_port,
        status: match live {
            Some(s) => s,
            None => ForwardStatus::Disconnected,
        },
    }
}

/// Snapshot the configured forwards with their live status, in
/// configuration order.
pub fn tunnel_states(configs: &[ForwardConfig], registry: &TunnelRegistry) -> (r: Vec<TunnelState>)
    requires
        registry_wf(registry@),
    ensures
        r@.len() == configs@.len(),
        forall|k: int|
            0 <= k < configs@.len() ==> (#[trigger] r@[k])@ == state_of_config(
                configs@[k]@,
                status_of(registry@.entries, configs@[k]@.id),
            ),
{
    let mut out: Vec<TunnelState> = Vec::new();
    let mut i: usize = 0;
    while i < configs.len()
        invariant
            i <= configs.len(),
            registry_wf(registry@),
            out@.len() == i,
            forall|k: int|
                0 <= k < i ==> (#[trigger] out@[k])@ == state_of_config(
                    configs@[k]@,
                    status_of(registry@.entries, configs@[k]@.id),
                ),
        decreases configs.len() - i,
    {
        let c = &configs[i];
        let status = match registry.current_status(c.id.as_str()) {
            Some(s) => s,
            None => ForwardStatus::Disconnected,
        };
        out.push(TunnelState { id: c.id.clone(), name: c.name.clone(), port: c.local_port, status });
        i = i + 1;
    }
    out
}

/// With at least one tunnel and every tunnel connected, the menu hides
/// Start All and shows Stop All (the conditions `build_menu_model` uses).
pub proof fn law_all_connected_shows_only_stop_all(ts: Seq<TunnelState>)
    requires
        ts.len() > 0,
        forall|k: int| 0 <= k < ts.len() ==> (#[trigger] ts[k]).status == ForwardStatus::Connected,
    ensures
        !(exists|k: int| 0 <= k < ts.len() && startable(#[trigger] ts[k].status)),
        exists|k: int| 0 <= k < ts.len() && stoppable(#[trigger] ts[k].status),
{
    assert(stoppable(ts[0].status));
}

/// No status is both startable and stoppable, and a transient
/// `disconnecting` tunnel is neither: its row offers nothing.
pub proof fn law_row_actions_partition(s: ForwardStatus)
    ensures
        !(startable(s) && stoppable(s)),
        s == ForwardStatus::Disconnecting ==> !startable(s) && !stoppable(s) && actions_of(s).len()
            == 0 && primary_of(s) is None,
        primary_of(s) is Some ==> actions_of(s).contains(primary_of(s)->Some_0),
{
    if primary_of(s) is Some {
        assert(actions_of(s)[0] == primary_of(s)->Some_0);
    }
}

/// A tray row offers exactly what the tunnel's status allows: Disconnect
/// whenever the status may move to `disconnecting` (connecting, connected,
/// or parked in error), a way to start (Connect, or Retry for a tunnel in
/// error) whenever it may move to `connecting`, and Retry only in error.
/// So every tunnel that can be stopped can be stopped from the tray, and no
/// row offers an action the status machine would refuse.
pub proof fn law_row_actions_follow_transitions(s: ForwardStatus)
    ensures
        actions_of(s).contains(TunnelAction::Disconnect) == allowed(s, ForwardStatus::Disconnecting),
        (actions_of(s).contains(TunnelAction::Connect) || actions_of(s).contains(
            TunnelAction::Retry,
        )) == allowed(s, ForwardStatus::Connecting),
        actions_of(s).contains(TunnelAction::Retry) == (s == ForwardStatus::Error),
        !(actions_of(s).contains(TunnelAction::Connect) && actions_of(s).contains(
            TunnelAction::Retry,
        )),
{
    let a = actions_of(s);
    assert forall|x: TunnelAction| #[trigger] a.contains(x) <==> (exists|k: int| 0 <= k < a.len() && a[k] == x) by {}
    match s {
        ForwardStatus::Disconnected => {
            assert(a.len() == 1 && a[0] == TunnelAction::Connect);
        },
        ForwardStatus::Connecting => {
            assert(a.len() == 1 && a[0] == TunnelAction::Disconnect);
        },
        ForwardStatus::Connected => {
            assert(a.len() == 1 && a[0] == TunnelAction::Disconnect);
        },
        ForwardStatus::Disconnecting => {
            assert(a.len() == 0);
        },
        ForwardStatus::Error => {
            assert(a.len() == 2 && a[0] == TunnelAction::Retry && a[1] == TunnelAction::Disconnect);
        },
    }
}

/// The tray rows of the state's forwards, in display order, each with its
/// live status (disconnected when not live).
pub fn gather_tunnel_states(state: &AppState) -> (r: Vec<TunnelState>)
    requires
        registry_wf(state.registry@),
    ensures
        r@.len() == state.configs().len(),
        forall|k: int|
            0 <= k < state.configs().len() ==> (#[trigger] r@[k])@ == state_of_config(
                state.configs()[k],
                status_of(state.registry@.entries, state.configs()[k].id),
            ),
{
    let r = tunnel_states(&state.configs, &state.registry);
    proof {
        assert forall|k: int| 0 <= k < state.configs@.len() implies #[trigger] state.configs()[k]
            == state.configs@[k]@ by {}
    }
    r
}

/// The tray menu for the current state and cached update status: the model
/// and the entries the native menu is built from.
pub fn build_current_menu(state: &AppState, update: &UpdateStatus) -> (r: (MenuModel, Vec<MenuEntry>))
    requires
        registry_wf(state.registry@),
    ensures
        r.0.tunnels@.len() == state.configs().len(),
        entries_view(r.1@) == menu_entries_of(r.0),
        match r.0.update_notice {
            Some(n) => notice_of(*update) == Some(opt_view(n.version)),
            None => notice_of(*update) is None,
        },
{
    let tunnels = gather_tunnel_states(state);
    let notice = update_notice_from_status(update);
    let model = build_menu_model(&tunnels, notice);
    let entries = build_tauri_menu(&model);
    (model, entries)
}

} // verus!
