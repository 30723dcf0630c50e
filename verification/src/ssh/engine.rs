//! The tunnel supervisor's decisions.
//!
//! One long-lived supervisor per tunnel loops across reconnect attempts. The
//! waiting (connecting, sleeping, accepting, parking) happens around these
//! functions; every decision about status, retry budget and what to do next
//! is made here, against the [`TunnelRegistry`].
use crate::error::AppError;
use crate::ssh::reconnect::{backoff_secs, backoff_spec};
use crate::state::models::{
    config_position, configs_view, find_config, strings_view, AppSettings, ForwardConfig,
    ForwardConfigView, ForwardStatus,
};
use crate::state::tunnel_registry::{
    after_status_write, after_terminal_error, has_id, ids_of, registry_wf, retry_flag, status_of,
    with_retry_flag, write_applies, TunnelRegistry,
};
use crate::state::AppState;
use crate::text::str_eq;
use vstd::prelude::*;

verus! {

/// Consecutive dead forward channels that make an attempt reconnect.
pub const MAX_FORWARD_FAILURES: usize = 3;

/// What the supervisor does after a session teardown.
#[derive(Debug, Clone, Copy, PartialEq, Eq, Structural)]
pub enum Flow {
    /// A user disconnect or delete cancelled the tunnel: leave the supervisor.
    Exit,
    /// Loop to the next attempt.
    Reconnect,
}

/// What ended the accept loop.
#[derive(Debug, Clone, Copy, PartialEq, Eq, Structural)]
pub enum Disposition {
    /// The tunnel was cancelled by the user.
    UserExit,
    /// Session drop or dead channels: reconnect through the normal backoff.
    Reconnect,
    /// A wake probe found the session dead: reconnect without waiting.
    ReconnectImmediate,
}

/// One thing the accept loop observed.
#[derive(Debug, Clone, Copy, PartialEq, Eq, Structural)]
pub enum AcceptEvent {
    /// The per-attempt token was cancelled.
    AttemptCancelled,
    /// The liveness poll ran; `session_closed` is what it found.
    LivenessTick { session_closed: bool },
    /// A forward child reported a dead channel; `failures` is the attempt's
    /// consecutive-failure count.
    ForwardFailureWake { failures: usize },
    /// A wake probe found the session dead.
    WakeProbeDead,
    /// Anything that keeps the loop serving: a new local connection, a wake
    /// nudge, a stats tick.
    Serve,
}

/// How the accept loop reacts to `event`: `None` keeps serving.
pub open spec fn accept_outcome(event: AcceptEvent, parent_cancelled: bool) -> Option<Disposition> {
    match event {
        AcceptEvent::AttemptCancelled => if parent_cancelled {
            Some(Disposition::UserExit)
        } else {
            Some(Disposition::Reconnect)
        },
        AcceptEvent::LivenessTick { session_closed } => if session_closed {
            Some(Disposition::Reconnect)
        } else {
            None
        },
        AcceptEvent::ForwardFailureWake { failures } => if failures >= MAX_FORWARD_FAILURES {
            Some(Disposition::Reconnect)
        } else {
            None
        },
        AcceptEvent::WakeProbeDead => Some(Disposition::ReconnectImmediate),
        AcceptEvent::Serve => None,
    }
}

/// The accept loop's reaction to one event: a cancelled attempt ends the loop
/// (as a user exit when the parent was cancelled too), a closed session or
/// three dead channels reconnect, a dead wake probe reconnects at once; all
/// else keeps serving.
pub fn accept_step(event: AcceptEvent, parent_cancelled: bool) -> (r: Option<Disposition>)
    ensures
        r == accept_outcome(event, parent_cancelled),
{
    match event {
        AcceptEvent::AttemptCancelled => {
            if parent_cancelled {
                Some(Disposition::UserExit)
            } else {
                Some(Disposition::Reconnect)
            }
        },
        AcceptEvent::LivenessTick { session_closed } => {
            if session_closed {
                Some(Disposition::Reconnect)
            } else {
                None
            }
        },
        AcceptEvent::ForwardFailureWake { failures } => {
            if failures >= MAX_FORWARD_FAILURES {
                Some(Disposition::Reconnect)
            } else {
                None
            }
        },
        AcceptEvent::WakeProbeDead => Some(Disposition::ReconnectImmediate),
        AcceptEvent::Serve => None,
    }
}

/// A connect attempt was cut short by cancellation: leave when the parent was
/// cancelled (user disconnect), otherwise start a fresh attempt.
pub fn interrupted_attempt(parent_cancelled: bool) -> (r: Flow)
    ensures
        r == (if parent_cancelled {
            Flow::Exit
        } else {
            Flow::Reconnect
        }),
{
    if parent_cancelled {
        Flow::Exit
    } else {
        Flow::Reconnect
    }
}

/// The teardown that follows an accept-loop ending: `None` for a user exit,
/// otherwise the error message to surface and whether to skip the backoff.
pub fn teardown_for(d: Disposition) -> (r: Option<(String, bool)>)
    ensures
        d == Disposition::UserExit ==> r is None,
        d == Disposition::Reconnect ==> (r matches Some((m, imm)) && m@ == "connection lost"@
            && !imm),
        d == Disposition::ReconnectImmediate ==> (r matches Some((m, imm)) && m@
            == "connection lost (wake probe)"@ && imm),
{
    match d {
        Disposition::UserExit => None,
        Disposition::Reconnect => Some(("connection lost".to_string(), false)),
        Disposition::ReconnectImmediate => Some(
            ("connection lost (wake probe)".to_string(), true),
        ),
    }
}

/// Whether a teardown may reconnect on its own: auto-reconnect is on and the
/// budget is not spent.
pub open spec fn reconnect_eligible(settings: AppSettings, attempt: u32) -> bool {
    settings.auto_reconnect && attempt < settings.auto_reconnect_max_retries
}

/// What the supervisor does after a teardown decision.
#[derive(Debug, Clone, Copy, PartialEq, Eq, Structural)]
pub enum TeardownAction {
    /// The parent was cancelled: leave.
    Exit,
    /// Start the next attempt right away.
    ReconnectNow,
    /// Wait `secs` seconds (leaving early if cancelled), then reconnect.
    Backoff { secs: u64 },
    /// Park in `error` until a retry request or a cancellation.
    Park,
}

/// A teardown decision and the notices it calls for.
#[derive(Debug, Clone, Copy, PartialEq, Eq, Structural)]
pub struct TeardownOutcome {
    pub action: TeardownAction,
    /// The `error` status was applied and must be announced.
    pub emit_error: bool,
    /// The error is terminal (no retry scheduled): notify the user.
    pub notify_terminal: bool,
}

/// The backoff action for a reconnect attempt.
pub open spec fn backoff_action(settings: AppSettings, attempt: u32) -> TeardownAction {
    TeardownAction::Backoff {
        secs: backoff_spec(settings.auto_reconnect_delay_sec as nat, attempt as nat) as u64,
    }
}

/// Set `error` and decide reconnect versus park.
///
/// A cancelled parent just exits (the disconnect owns the status). Eligible
/// (`auto_reconnect && attempt < max`): enter `error` as a transient state,
/// then reconnect at once when `immediate` (wake recovery, no budget used) or
/// after the backoff for this attempt (budget used). Otherwise park: enter
/// terminal `error` and check-and-clear the retry flag in one step; a retry
/// that already arrived reconnects with a fresh budget.
pub fn handle_teardown(
    reg: &mut TunnelRegistry,
    id: &str,
    parent_cancelled: bool,
    settings: &AppSettings,
    reconnect_attempt: &mut u32,
    msg: String,
    immediate: bool,
) -> (r: TeardownOutcome)
    requires
        registry_wf(old(reg)@),
    ensures
        registry_wf(final(reg)@),
        parent_cancelled ==> r.action == TeardownAction::Exit && !r.emit_error
            && !r.notify_terminal && final(reg)@ == old(reg)@ && *final(reconnect_attempt) == *old(reconnect_attempt),
        !parent_cancelled && reconnect_eligible(*settings, *old(reconnect_attempt)) ==> final(reg)@ == after_status_write(old(reg)@, id@, ForwardStatus::Error, Some(msg@)) && r.emit_error
            == write_applies(old(reg)@, id@, ForwardStatus::Error) && !r.notify_terminal,
        !parent_cancelled && reconnect_eligible(*settings, *old(reconnect_attempt)) && immediate
            ==> r.action == TeardownAction::ReconnectNow && *final(reconnect_attempt) == *old(reconnect_attempt),
        !parent_cancelled && reconnect_eligible(*settings, *old(reconnect_attempt)) && !immediate
            ==> r.action == backoff_action(*settings, *old(reconnect_attempt)) && *final(reconnect_attempt) == *old(reconnect_attempt) + 1,
        !parent_cancelled && !reconnect_eligible(*settings, *old(reconnect_attempt)) ==> final(reg)@ == after_terminal_error(old(reg)@, id@, Some(msg@)) && r.emit_error == write_applies(
            old(reg)@,
            id@,
            ForwardStatus::Error,
        ) && r.notify_terminal == r.emit_error,
        !parent_cancelled && !reconnect_eligible(*settings, *old(reconnect_attempt)) && retry_flag(
            old(reg)@,
            id@,
        ) ==> r.action == TeardownAction::ReconnectNow && *final(reconnect_attempt) == 0,
        !parent_cancelled && !reconnect_eligible(*settings, *old(reconnect_attempt)) && !retry_flag(
            old(reg)@,
            id@,
        ) ==> r.action == TeardownAction::Park && *final(reconnect_attempt) == *old(reconnect_attempt),
{
    if parent_cancelled {
        return TeardownOutcome {
            action: TeardownAction::Exit,
            emit_error: false,
            notify_terminal: false,
        };
    }
    let eligible = settings.auto_reconnect && *reconnect_attempt
        < settings.auto_reconnect_max_retries;
    if eligible {
        let out = reg.set_status(id, ForwardStatus::Error, Some(msg));
        if immediate {
            return TeardownOutcome {
                action: TeardownAction::ReconnectNow,
                emit_error: out.applied,
                notify_terminal: false,
            };
        }
        let secs = backoff_secs(settings.auto_reconnect_delay_sec, *reconnect_attempt);
        *reconnect_attempt = *reconnect_attempt + 1;
        TeardownOutcome {
            action: TeardownAction::Backoff { secs },
            emit_error: out.applied,
            notify_terminal: false,
        }
    } else {
        let term = reg.begin_terminal_error(id, Some(msg));
        if term.retry_already_requested {
            *reconnect_attempt = 0;
            return TeardownOutcome {
                action: TeardownAction::ReconnectNow,
                emit_error: term.applied,
                notify_terminal: term.applied,
            };
        }
        TeardownOutcome {
            action: TeardownAction::Park,
            emit_error: term.applied,
            notify_terminal: term.applied,
        }
    }
}

/// A parked supervisor was woken: check-and-clear the retry flag. A real
/// request reconnects with a fresh budget; a spurious wake keeps parking.
pub fn on_park_wake(reg: &mut TunnelRegistry, id: &str, reconnect_attempt: &mut u32) -> (r: bool)
    requires
        registry_wf(old(reg)@),
    ensures
        registry_wf(final(reg)@),
        r == retry_flag(old(reg)@, id@),
        final(reg)@ == with_retry_flag(old(reg)@, id@, false),
        r ==> *final(reconnect_attempt) == 0,
        !r ==> *final(reconnect_attempt) == *old(reconnect_attempt),
{
    let taken = reg.take_retry_requested(id);
    if taken {
        *reconnect_attempt = 0;
    }
    taken
}

/// Top of every attempt: clear any stale retry flag, then enter
/// `connecting`. False means a user disconnect got there first: stop.
pub fn begin_attempt(reg: &mut TunnelRegistry, id: &str) -> (r: bool)
    requires
        registry_wf(old(reg)@),
    ensures
        registry_wf(final(reg)@),
        r == write_applies(with_retry_flag(old(reg)@, id@, false), id@, ForwardStatus::Connecting),
        final(reg)@ == after_status_write(
            with_retry_flag(old(reg)@, id@, false),
            id@,
            ForwardStatus::Connecting,
            None,
        ),
{
    reg.set_retry_requested(id, false);
    let out = reg.set_status(id, ForwardStatus::Connecting, None);
    out.applied
}

/// The session is up: reset the backoff budget and enter `connected`. False
/// means a user disconnect won the race: tear the session down and leave.
pub fn on_connected(reg: &mut TunnelRegistry, id: &str, reconnect_attempt: &mut u32) -> (r: bool)
    requires
        registry_wf(old(reg)@),
    ensures
        registry_wf(final(reg)@),
        *final(reconnect_attempt) == 0,
        r == write_applies(old(reg)@, id@, ForwardStatus::Connected),
        final(reg)@ == after_status_write(old(reg)@, id@, ForwardStatus::Connected, None),
{
    *reconnect_attempt = 0;
    let out = reg.set_status(id, ForwardStatus::Connected, None);
    out.applied
}

/// How a disconnect request starts.
#[derive(Debug, Clone, Copy, PartialEq, Eq, Structural)]
pub enum DisconnectStart {
    /// The tunnel is not live: nothing to do.
    NotLive,
    /// Already disconnecting: the click is ignored.
    Ignored,
    /// Cancel, await and remove the tunnel; announce `disconnecting` first
    /// when `emit_disconnecting`.
    Proceed { emit_disconnecting: bool },
}

/// The disconnect start that goes with a proceeding disconnect of `id`.
pub open spec fn proceed_start(r: crate::state::tunnel_registry::RegistryView, id: Seq<char>) -> DisconnectStart {
    DisconnectStart::Proceed {
        emit_disconnecting: write_applies(r, id, ForwardStatus::Disconnecting),
    }
}

/// Start a user (or conflict) disconnect: not-live and already-disconnecting
/// tunnels are left alone; any other moves to `disconnecting`.
pub fn begin_disconnect(reg: &mut TunnelRegistry, id: &str) -> (r: DisconnectStart)
    requires
        registry_wf(old(reg)@),
    ensures
        registry_wf(final(reg)@),
        status_of(old(reg)@.entries, id@) is None ==> r == DisconnectStart::NotLive
            && final(reg)@ == old(reg)@,
        status_of(old(reg)@.entries, id@) == Some(ForwardStatus::Disconnecting) ==> r
            == DisconnectStart::Ignored && final(reg)@ == old(reg)@,
        status_of(old(reg)@.entries, id@) is Some && status_of(old(reg)@.entries, id@) != Some(
            ForwardStatus::Disconnecting,
        ) ==> r == proceed_start(old(reg)@, id@) && final(reg)@ == after_status_write(
            old(reg)@,
            id@,
            ForwardStatus::Disconnecting,
            None,
        ),
{
    match reg.current_status(id) {
        None => DisconnectStart::NotLive,
        Some(current) => {
            if current == ForwardStatus::Disconnecting {
                DisconnectStart::Ignored
            } else {
                let out = reg.set_status(id, ForwardStatus::Disconnecting, None);
                DisconnectStart::Proceed { emit_disconnecting: out.applied }
            }
        },
    }
}

/// Whether the configuration of `other` binds the same local address and
/// port as `target`.
pub open spec fn conflicting_config(
    cs: Seq<ForwardConfigView>,
    target: ForwardConfigView,
    other: Seq<char>,
) -> bool {
    match find_config(cs, other) {
        Some(k) => cs[k].local_bind_address == target.local_bind_address && cs[k].local_port
            == target.local_port,
        None => false,
    }
}

/// Whether live tunnel `other` conflicts with starting `id` (config
/// `target`): another tunnel whose configuration binds the same local
/// address and port.
pub open spec fn conflicts_with(
    cs: Seq<ForwardConfigView>,
    target: ForwardConfigView,
    id: Seq<char>,
) -> spec_fn(Seq<char>) -> bool {
    |other: Seq<char>| other != id && conflicting_config(cs, target, other)
}

/// What must be torn down before a tunnel starts.
#[derive(Debug)]
pub struct ConnectPlan {
    /// The tunnel itself is already live: disconnect it first.
    pub disconnect_self: bool,
    /// Other live tunnels on the same local address and port, in live order.
    pub disconnect_others: Vec<String>,
}

/// The configuration `id` starts with (meaningful when it exists).
pub open spec fn target_config(configs: Seq<ForwardConfig>, id: Seq<char>) -> ForwardConfigView {
    configs_view(configs)[find_config(configs_view(configs), id)->Some_0]
}

/// Plan the start of tunnel `id`: its configuration must exist; if it is
/// already live it is disconnected first, and so is every other live tunnel
/// bound to the same local `(address, port)`.
pub fn plan_connect(configs: &[ForwardConfig], live_ids: &[String], id: &str) -> (r: Result<
    ConnectPlan,
    AppError,
>)
    ensures
        find_config(configs_view(configs@), id@) is None <==> r is Err,
        r is Err ==> r->Err_0 is NotFound && r->Err_0->NotFound_0@ == "forward "@ + id@,
        r is Ok ==> r->Ok_0.disconnect_self == strings_view(live_ids@).contains(id@),
        r is Ok ==> strings_view(r->Ok_0.disconnect_others@) == strings_view(live_ids@).filter(
            conflicts_with(configs_view(configs@), target_config(configs@, id@), id@),
        ),
{
    let ghost cs = configs_view(configs@);
    let pos = match config_position(configs, id) {
        Some(k) => k,
        None => {
            return Err(AppError::NotFound("forward ".to_string().concat(id)));
        },
    };
    proof {
        crate::state::models::lemma_find_config(cs, id@);
    }
    let target = &configs[pos];
    let ghost pred = conflicts_with(cs, target@, id@);
    let ghost live = strings_view(live_ids@);
    let mut disconnect_self = false;
    let mut others: Vec<String> = Vec::new();
    let mut i: usize = 0;
    while i < live_ids.len()
        invariant
            i <= live_ids.len(),
            live == strings_view(live_ids@),
            pred == conflicts_with(cs, target@, id@),
            cs == configs_view(configs@),
            disconnect_self == live.subrange(0, i as int).contains(id@),
            strings_view(others@) == live.subrange(0, i as int).filter(pred),
        decreases live_ids.len() - i,
    {
        let other = &live_ids[i];
        let ghost before = strings_view(others@);
        let ghost s = live.subrange(0, i as int);
        proof {
            assert(live.subrange(0, i + 1) =~= s.push(other@));
            s.lemma_filter_push(other@, pred);
        }
        if str_eq(other.as_str(), id) {
            disconnect_self = true;
            proof {
                assert(live.subrange(0, i + 1)[i as int] == id@);
            }
        } else {
            proof {
                if s.push(other@).contains(id@) {
                    let k = choose|k: int| 0 <= k < s.push(other@).len() && s.push(other@)[k] == id@;
                    if k < i {
                        assert(s[k] == id@);
                    }
                }
            }
            proof {
                crate::state::models::lemma_find_config(cs, other@);
            }
            match config_position(configs, other.as_str()) {
                Some(k) => {
                    let c = &configs[k];
                    if str_eq(c.local_bind_address.as_str(), target.local_bind_address.as_str())
                        && c.local_port == target.local_port {
                        others.push(other.clone());
                        proof {
                            assert(strings_view(others@) =~= before.push(other@));
                        }
                    }
                },
                None => {},
            }
        }
        proof {
            if s.contains(id@) {
                let k = choose|k: int| 0 <= k < s.len() && s[k] == id@;
                assert(live.subrange(0, i + 1)[k] == id@);
            }
        }
        i = i + 1;
    }
    proof {
        assert(live.subrange(0, i as int) =~= live);
    }
    Ok(ConnectPlan { disconnect_self, disconnect_others: others })
}

/// Start (or restart) tunnel `id`, planned over the state: its
/// configuration must exist; the tunnel itself (when live) and every other
/// live tunnel bound to the same local address and port are disconnected
/// first, then the supervisor is launched (when the start reservation is
/// won).
pub fn connect_forward(state: &AppState, id: &str) -> (r: Result<ConnectPlan, AppError>)
    ensures
        find_config(state.configs(), id@) is None <==> r is Err,
        r is Err ==> r->Err_0 is NotFound && r->Err_0->NotFound_0@ == "forward "@ + id@,
        r is Ok ==> r->Ok_0.disconnect_self == ids_of(state.registry@.entries).contains(id@),
        r is Ok ==> strings_view(r->Ok_0.disconnect_others@) == ids_of(
            state.registry@.entries,
        ).filter(conflicts_with(state.configs(), target_config(state.configs@, id@), id@)),
{
    let live = state.registry.all_ids();
    plan_connect(&state.configs, &live, id)
}

/// Start a user (or conflict) disconnect of `id` over the state's registry:
/// not-live and already-disconnecting tunnels are left alone; any other
/// moves to `disconnecting` (the caller then cancels, awaits and removes it).
pub fn disconnect_forward(state: &mut AppState, id: &str) -> (r: DisconnectStart)
    requires
        registry_wf(old(state).registry@),
    ensures
        registry_wf(final(state).registry@),
        status_of(old(state).registry@.entries, id@) is None ==> r == DisconnectStart::NotLive
            && final(state).registry@ == old(state).registry@,
        status_of(old(state).registry@.entries, id@) == Some(ForwardStatus::Disconnecting) ==> r
            == DisconnectStart::Ignored && final(state).registry@ == old(state).registry@,
        status_of(old(state).registry@.entries, id@) is Some && status_of(
            old(state).registry@.entries,
            id@,
        ) != Some(ForwardStatus::Disconnecting) ==> r == proceed_start(old(state).registry@, id@)
            && final(state).registry@ == after_status_write(
            old(state).registry@,
            id@,
            ForwardStatus::Disconnecting,
            None,
        ),
        final(state).configs() == old(state).configs(),
        final(state).groups() == old(state).groups(),
        final(state).settings() == old(state).settings(),
        final(state).pending() == old(state).pending(),
{
    begin_disconnect(&mut state.registry, id)
}

/// Retry tunnel `id`: accepted (flag set, supervisor to be woken) only when
/// it is parked in `error`; otherwise a silent no-op.
pub fn retry_forward(state: &mut AppState, id: &str) -> (r: bool)
    requires
        registry_wf(old(state).registry@),
    ensures
        registry_wf(final(state).registry@),
        r == (status_of(old(state).registry@.entries, id@) == Some(ForwardStatus::Error)),
        r ==> final(state).registry@ == with_retry_flag(old(state).registry@, id@, true),
        !r ==> final(state).registry@ == old(state).registry@,
        final(state).configs() == old(state).configs(),
        final(state).groups() == old(state).groups(),
        final(state).settings() == old(state).settings(),
        final(state).pending() == old(state).pending(),
{
    state.registry.request_retry(id)
}

/// Whether a wake probe reaches tunnel `id`: only a live one has a
/// supervisor to nudge.
pub fn request_wake_probe(state: &AppState, id: &str) -> (r: bool)
    requires
        registry_wf(state.registry@),
    ensures
        r == has_id(state.registry@.entries, id@),
{
    state.registry.contains(id)
}

/// Binding the local port: how many tries while the address is in use.
pub const BIND_RETRIES: u32 = 5;

/// Milliseconds between two bind tries.
pub const BIND_RETRY_DELAY_MS: u64 = 500;

/// Seconds between two session-liveness polls of the accept loop.
pub const LIVENESS_POLL_SECS: u64 = 1;

/// Seconds between two stats publications (and latency probes).
pub const STATS_PROBE_SECS: u64 = 3;

/// Seconds a latency probe may take.
pub const PROBE_TIMEOUT_SECS: u64 = 3;

/// Seconds allowed for a graceful SSH disconnect.
pub const DISCONNECT_TIMEOUT_SECS: u64 = 1;

/// What one bind try gave.
#[derive(Debug, Clone, PartialEq, Eq)]
pub enum BindResult {
    Bound,
    /// The address is in use (another process still holds the port).
    AddrInUse(String),
    /// Any other failure.
    Failed(String),
}

/// What to do after bind try number `attempt` (from 0).
#[derive(Debug, Clone, PartialEq, Eq)]
pub enum BindStep {
    /// The listener is bound.
    Bound,
    /// Wait [`BIND_RETRY_DELAY_MS`] and try again.
    Retry,
    /// Give up with this error.
    Fail(AppError),
}

/// The bind policy: bound is done; an address in use is retried up to
/// [`BIND_RETRIES`] tries in all, then reported with the last reason; any
/// other failure is reported at once.
pub fn bind_step(addr: &str, attempt: u32, result: BindResult) -> (r: BindStep)
    requires
        attempt < BIND_RETRIES,
    ensures
        result == BindResult::Bound ==> r == BindStep::Bound,
        result matches BindResult::Failed(e) ==> r matches BindStep::Fail(AppError::Connection(m))
            && m@ == "bind "@ + addr@ + " failed: "@ + e@,
        (result is AddrInUse && attempt + 1 < BIND_RETRIES) ==> r == BindStep::Retry,
        (result is AddrInUse && attempt + 1 == BIND_RETRIES) ==> (r matches BindStep::Fail(
            AppError::Connection(m),
        ) && m@ == "local port "@ + addr@ + " in use after 5 attempts: "@ + result->AddrInUse_0@),
{
    match result {
        BindResult::Bound => BindStep::Bound,
        BindResult::Failed(e) => BindStep::Fail(
            AppError::Connection(
                "bind ".to_string().concat(addr).concat(" failed: ").concat(e.as_str()),
            ),
        ),
        BindResult::AddrInUse(e) => {
            if attempt + 1 < BIND_RETRIES {
                BindStep::Retry
            } else {
                BindStep::Fail(
                    AppError::Connection(
                        "local port ".to_string().concat(addr).concat(" in use after 5 attempts: ").concat(
                            e.as_str(),
                        ),
                    ),
                )
            }
        },
    }
}

/// The local address a forward binds: `bind_address:port`.
pub fn bind_addr(cfg: &ForwardConfig) -> (r: String)
    ensures
        r@ == cfg.local_bind_address@ + ":"@ + crate::text::decimal(cfg.local_port as nat),
{
    crate::text::push_decimal(cfg.local_bind_address.clone().concat(":"), cfg.local_port as u64)
}

/// The supervisor found no configuration for its tunnel: it enters `error`
/// with "config not found" (when allowed) and stops; true iff the status
/// changed (the caller announces it).
pub fn config_missing(reg: &mut TunnelRegistry, id: &str) -> (r: bool)
    requires
        registry_wf(old(reg)@),
    ensures
        registry_wf(final(reg)@),
        r == write_applies(old(reg)@, id@, ForwardStatus::Error),
        final(reg)@ == after_status_write(
            old(reg)@,
            id@,
            ForwardStatus::Error,
            Some("config not found"@),
        ),
{
    let out = reg.set_status(id, ForwardStatus::Error, Some("config not found".to_string()));
    out.applied
}

/// The one-at-a-time guard of the periodic latency probe: a new probe starts
/// only when none is in flight.
#[derive(Debug)]
pub struct ProbeGate {
    in_flight: bool,
}

impl ProbeGate {
    /// No probe running.
    pub fn new() -> (r: ProbeGate)
        ensures
            !r.busy(),
    {
        ProbeGate { in_flight: false }
    }

    /// Whether a probe is in flight.
    pub closed spec fn busy(&self) -> bool {
        self.in_flight
    }

    /// Start a probe if none is in flight: true exactly when none was.
    pub fn try_start(&mut self) -> (r: bool)
        ensures
            r == !old(self).busy(),
            final(self).busy(),
    {
        let free = !self.in_flight;
        self.in_flight = true;
        free
    }

    /// The probe ended (whatever its outcome).
    pub fn finish(&mut self)
        ensures
            !final(self).busy(),
    {
        self.in_flight = false;
    }
}

} // verus!
