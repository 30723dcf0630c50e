//! Request handling for the control socket: what a request asks for, which
//! forward a target names, how a wait for a terminal status proceeds, and
//! how a bulk sweep is counted. Nothing here reads or writes a credential.
use crate::cli::protocol::{
    BulkResult, CliCommand, CliData, CliRequest, ForwardView, DEFAULT_TIMEOUT_MS, MAX_TIMEOUT_MS,
    MIN_TIMEOUT_MS, PROTOCOL_VERSION,
};
use crate::error::AppError;
use crate::state::models::{
    configs_view, find_config, opt_view, ForwardConfig, ForwardConfigView, ForwardRuntime,
    ForwardStatus,
};
use crate::text::{decimal, lowercase, push_decimal, str_eq, to_lowercase};
use vstd::prelude::*;

verus! {

/// How a wait for a terminal status ended.
#[derive(Debug, Clone, Copy, PartialEq, Eq, Structural)]
pub enum WaitOutcome {
    /// Reached `connected` or `error`.
    Terminal(ForwardStatus),
    /// The wait budget elapsed first.
    TimedOut,
    /// The tunnel disappeared mid-wait (disconnected or deleted).
    Vanished,
}

/// What a request asks the app to do.
#[derive(Debug, Clone, PartialEq, Eq)]
pub enum RequestPlan {
    List,
    Version,
    Status { target: String },
    Connect { target: String, wait: bool, timeout_ms: u64 },
    Disconnect { target: String },
    ConnectAll { wait: bool, timeout_ms: u64 },
    DisconnectAll,
}

/// The error of a request without the target its command needs.
pub open spec fn missing_target(e: AppError) -> bool {
    e is InvalidInput && e->InvalidInput_0@ == "this command requires a target"@
}

/// A command's target, which must be present.
pub fn require_target(target: Option<String>) -> (r: Result<String, AppError>)
    ensures
        match target {
            Some(t) => r == Ok::<String, AppError>(t),
            None => r matches Err(e) && missing_target(e),
        },
{
    match target {
        Some(t) => Ok(t),
        None => Err(AppError::InvalidInput("this command requires a target".to_string())),
    }
}

/// The effective wait budget of a request.
pub open spec fn budget_of(req: CliRequest) -> u64 {
    match req.timeout_ms {
        None => DEFAULT_TIMEOUT_MS,
        Some(t) => if t < MIN_TIMEOUT_MS {
            MIN_TIMEOUT_MS
        } else if t > MAX_TIMEOUT_MS {
            MAX_TIMEOUT_MS
        } else {
            t
        },
    }
}

/// Decide what a request asks for: any other protocol version is refused;
/// `status`, `connect` and `disconnect` need a target; `connect` and
/// `connect-all` carry the clamped budget and the wait flag.
pub fn plan_request(req: &CliRequest) -> (r: Result<RequestPlan, AppError>)
    ensures
        req.v != PROTOCOL_VERSION ==> (r matches Err(e) && e is InvalidInput && e->InvalidInput_0@
            == "unsupported protocol version "@ + decimal(req.v as nat) + "; this app speaks v1"@),
        req.v == PROTOCOL_VERSION ==> match req.cmd {
            CliCommand::List => r == Ok::<RequestPlan, AppError>(RequestPlan::List),
            CliCommand::Version => r == Ok::<RequestPlan, AppError>(RequestPlan::Version),
            CliCommand::DisconnectAll => r == Ok::<RequestPlan, AppError>(RequestPlan::DisconnectAll),
            CliCommand::ConnectAll => r == Ok::<RequestPlan, AppError>(
                RequestPlan::ConnectAll { wait: req.wait, timeout_ms: budget_of(*req) },
            ),
            CliCommand::Status => match req.target {
                Some(t) => r matches Ok(RequestPlan::Status { target }) && target@ == t@,
                None => r matches Err(e) && missing_target(e),
            },
            CliCommand::Connect => match req.target {
                Some(t) => r matches Ok(RequestPlan::Connect { target, wait, timeout_ms })
                    && target@ == t@ && wait == req.wait && timeout_ms == budget_of(*req),
                None => r matches Err(e) && missing_target(e),
            },
            CliCommand::Disconnect => match req.target {
                Some(t) => r matches Ok(RequestPlan::Disconnect { target }) && target@ == t@,
                None => r matches Err(e) && missing_target(e),
            },
        },
{
    if req.v != PROTOCOL_VERSION {
        return Err(
            AppError::InvalidInput(
                push_decimal("unsupported protocol version ".to_string(), req.v as u64).concat(
                    "; this app speaks v1",
                ),
            ),
        );
    }
    let timeout_ms = req.effective_timeout_ms();
    let target = crate::state::models::clone_opt_string(&req.target);
    match req.cmd {
        CliCommand::List => Ok(RequestPlan::List),
        CliCommand::Version => Ok(RequestPlan::Version),
        CliCommand::Status => match require_target(target) {
            Ok(t) => Ok(RequestPlan::Status { target: t }),
            Err(e) => Err(e),
        },
        CliCommand::Connect => match require_target(target) {
            Ok(t) => Ok(RequestPlan::Connect { target: t, wait: req.wait, timeout_ms }),
            Err(e) => Err(e),
        },
        CliCommand::Disconnect => match require_target(target) {
            Ok(t) => Ok(RequestPlan::Disconnect { target: t }),
            Err(e) => Err(e),
        },
        CliCommand::ConnectAll => Ok(RequestPlan::ConnectAll { wait: req.wait, timeout_ms }),
        CliCommand::DisconnectAll => Ok(RequestPlan::DisconnectAll),
    }
}

/// The matches of a target by name, given the lower-cased names
/// (`lower_names[k]` for configuration `k`) and the lower-cased target.
pub open spec fn lowered_matches(
    cs: Seq<ForwardConfigView>,
    lower_names: Seq<Seq<char>>,
    lower_target: Seq<char>,
    n: nat,
) -> Seq<ForwardConfigView>
    decreases n,
{
    if n == 0 || n > cs.len() {
        Seq::empty()
    } else {
        let before = lowered_matches(cs, lower_names, lower_target, (n - 1) as nat);
        if lower_names[n - 1] == lower_target {
            before.push(cs[n - 1])
        } else {
            before
        }
    }
}

/// Which forwards a target names: the exact id first; otherwise every
/// configuration whose lower-cased name equals the lower-cased target.
pub open spec fn target_matches_with(
    cs: Seq<ForwardConfigView>,
    target: Seq<char>,
    lower_names: Seq<Seq<char>>,
    lower_target: Seq<char>,
) -> Seq<ForwardConfigView> {
    match find_config(cs, target) {
        Some(k) => seq![cs[k]],
        None => lowered_matches(cs, lower_names, lower_target, cs.len()),
    }
}

/// Which forwards a target names, with the case mapping of
/// `str::to_lowercase` (named [`lowercase`]).
pub open spec fn target_matches(cs: Seq<ForwardConfigView>, target: Seq<char>) -> Seq<ForwardConfigView> {
    target_matches_with(
        cs,
        target,
        cs.map_values(|c: ForwardConfigView| lowercase(c.name)),
        lowercase(target),
    )
}

/// The outcome of resolving a target whose matches are `m`.
pub open spec fn resolution_ok(r: Result<ForwardConfig, AppError>, m: Seq<ForwardConfigView>, target: Seq<char>) -> bool {
    &&& m.len() == 1 ==> (r matches Ok(c) && c@ == m[0])
    &&& m.len() == 0 ==> (r matches Err(e) && e is NotFound && e->NotFound_0@ == "no forward matches '"@
        + target + "' (by id or name)"@)
    &&& m.len() > 1 ==> (r matches Err(e) && e is InvalidInput && e->InvalidInput_0@
        == "ambiguous target '"@ + target + "': "@ + decimal(m.len())
        + " forwards match; use the id"@)
}

/// Resolve a target given the lower-cased names of the configurations and
/// the lower-cased target: an exact id first; otherwise exactly one
/// configuration whose lower-cased name equals the lower-cased target. None
/// is not found; several are ambiguous.
pub fn resolve_target_with(
    configs: &[ForwardConfig],
    target: &str,
    lower_names: &[String],
    lower_target: &str,
) -> (r: Result<ForwardConfig, AppError>)
    requires
        lower_names@.len() == configs@.len(),
    ensures
        resolution_ok(
            r,
            target_matches_with(
                configs_view(configs@),
                target@,
                crate::state::models::strings_view(lower_names@),
                lower_target@,
            ),
            target@,
        ),
{
    let ghost cs = configs_view(configs@);
    let ghost ln = crate::state::models::strings_view(lower_names@);
    match crate::state::models::config_position(configs, target) {
        Some(k) => {
            proof {
                crate::state::models::lemma_find_config(cs, target@);
            }
            return Ok(configs[k].clone_config());
        },
        None => {},
    }
    let mut count: usize = 0;
    let mut first: usize = 0;
    let mut i: usize = 0;
    while i < configs.len()
        invariant
            i <= configs.len(),
            lower_names@.len() == configs@.len(),
            cs == configs_view(configs@),
            ln == crate::state::models::strings_view(lower_names@),
            count == lowered_matches(cs, ln, lower_target@, i as nat).len(),
            count <= i,
            count > 0 ==> first < i && cs[first as int] == lowered_matches(
                cs,
                ln,
                lower_target@,
                i as nat,
            )[0],
        decreases configs.len() - i,
    {
        assert(ln[i as int] == lower_names@[i as int]@);
        if str_eq(lower_names[i].as_str(), lower_target) {
            if count == 0 {
                first = i;
            }
            count = count + 1;
        }
        i = i + 1;
    }
    if count == 0 {
        Err(
            AppError::NotFound(
                "no forward matches '".to_string().concat(target).concat("' (by id or name)"),
            ),
        )
    } else if count == 1 {
        Ok(configs[first].clone_config())
    } else {
        Err(
            AppError::InvalidInput(
                push_decimal(
                    "ambiguous target '".to_string().concat(target).concat("': "),
                    count as u64,
                ).concat(" forwards match; use the id"),
            ),
        )
    }
}

/// Resolve a user-supplied target to exactly one forward: an exact id (case
/// sensitive) first, then an exact name compared case-insensitively. No
/// fuzzy or prefix matching: an unknown target is not found, a name shared
/// by several forwards is ambiguous.
pub fn resolve_target(configs: &[ForwardConfig], target: &str) -> (r: Result<ForwardConfig, AppError>)
    ensures
        resolution_ok(r, target_matches(configs_view(configs@), target@), target@),
{
    let mut lower_names: Vec<String> = Vec::new();
    let mut i: usize = 0;
    while i < configs.len()
        invariant
            i <= configs.len(),
            lower_names@.len() == i,
            forall|k: int| 0 <= k < i ==> (#[trigger] lower_names@[k])@ == lowercase(configs@[k].name@),
        decreases configs.len() - i,
    {
        lower_names.push(to_lowercase(configs[i].name.as_str()));
        i = i + 1;
    }
    proof {
        assert(crate::state::models::strings_view(lower_names@) =~= configs_view(configs@).map_values(
            |c: ForwardConfigView| lowercase(c.name),
        ));
    }
    let lower_target = to_lowercase(target);
    resolve_target_with(configs, target, lower_names.as_slice(), lower_target.as_str())
}

/// Terminal for a connect: the forward came up or parked in `error`.
pub fn is_terminal(status: ForwardStatus) -> (r: bool)
    ensures
        r == (status == ForwardStatus::Connected || status == ForwardStatus::Error),
{
    status == ForwardStatus::Connected || status == ForwardStatus::Error
}

/// What a wait for a terminal status observed.
#[derive(Debug, Clone, Copy, PartialEq, Eq, Structural)]
pub enum WaitEvent {
    /// No handle appeared within the grace period; `deadline_passed` says
    /// whether the caller's budget is spent too.
    NoHandle { deadline_passed: bool },
    /// The current status.
    Status(ForwardStatus),
    /// The budget elapsed while waiting for a change.
    DeadlineElapsed,
    /// The status sender was dropped (handle removed or replaced).
    SenderDropped,
}

/// The next step of a wait.
#[derive(Debug, Clone, Copy, PartialEq, Eq, Structural)]
pub enum WaitStep {
    Done(WaitOutcome),
    /// Wait for the next status change.
    KeepWaiting,
    /// Subscribe again to the tunnel's status, once.
    Resubscribe,
}

/// One step of waiting for a terminal status (`resubscribed`: the one
/// re-subscription was already spent).
pub open spec fn wait_step_of(resubscribed: bool, event: WaitEvent) -> WaitStep {
    match event {
        WaitEvent::NoHandle { deadline_passed } => if deadline_passed {
            WaitStep::Done(WaitOutcome::TimedOut)
        } else {
            WaitStep::Done(WaitOutcome::Vanished)
        },
        WaitEvent::Status(s) => if s == ForwardStatus::Connected || s == ForwardStatus::Error {
            WaitStep::Done(WaitOutcome::Terminal(s))
        } else {
            WaitStep::KeepWaiting
        },
        WaitEvent::DeadlineElapsed => WaitStep::Done(WaitOutcome::TimedOut),
        WaitEvent::SenderDropped => if resubscribed {
            WaitStep::Done(WaitOutcome::Vanished)
        } else {
            WaitStep::Resubscribe
        },
    }
}

/// Decide one step of a wait for a terminal status: a terminal status ends
/// it; a spent budget times out; a dropped sender re-subscribes once, then
/// counts as vanished.
pub fn wait_step(resubscribed: bool, event: WaitEvent) -> (r: WaitStep)
    ensures
        r == wait_step_of(resubscribed, event),
{
    match event {
        WaitEvent::NoHandle { deadline_passed } => {
            if deadline_passed {
                WaitStep::Done(WaitOutcome::TimedOut)
            } else {
                WaitStep::Done(WaitOutcome::Vanished)
            }
        },
        WaitEvent::Status(s) => {
            if is_terminal(s) {
                WaitStep::Done(WaitOutcome::Terminal(s))
            } else {
                WaitStep::KeepWaiting
            }
        },
        WaitEvent::DeadlineElapsed => WaitStep::Done(WaitOutcome::TimedOut),
        WaitEvent::SenderDropped => {
            if resubscribed {
                WaitStep::Done(WaitOutcome::Vanished)
            } else {
                WaitStep::Resubscribe
            }
        },
    }
}

/// The bulk entry of one forward.
pub fn bulk_result(cfg: &ForwardConfig, runtime: ForwardRuntime, timed_out: bool) -> (r: BulkResult)
    ensures
        r.id@ == cfg.id@,
        r.name@ == cfg.name@,
        r.status == runtime.status,
        r.last_error == runtime.last_error,
        r.timed_out == timed_out,
{
    BulkResult {
        id: cfg.id.clone(),
        name: cfg.name.clone(),
        status: runtime.status,
        last_error: runtime.last_error,
        timed_out,
    }
}

/// How many of the first `n` results reached `wanted`.
pub open spec fn count_reached(rs: Seq<BulkResult>, wanted: ForwardStatus, n: nat) -> nat
    decreases n,
{
    if n == 0 || n > rs.len() {
        0
    } else {
        count_reached(rs, wanted, (n - 1) as nat) + if rs[n - 1].status == wanted {
            1nat
        } else {
            0nat
        }
    }
}

/// How many of the first `n` results failed: ended in `error` or ran out of
/// budget.
pub open spec fn count_failed(rs: Seq<BulkResult>, n: nat) -> nat
    decreases n,
{
    if n == 0 || n > rs.len() {
        0
    } else {
        count_failed(rs, (n - 1) as nat) + if rs[n - 1].status == ForwardStatus::Error
            || rs[n - 1].timed_out {
            1nat
        } else {
            0nat
        }
    }
}

/// Count a bulk sweep: `succeeded` reached `wanted`; `failed` ended in
/// `error` or ran out of budget. A tunnel still `connecting` under
/// `--no-wait` is neither.
pub fn summarize(results: Vec<BulkResult>, wanted: ForwardStatus) -> (r: CliData)
    ensures
        r matches CliData::Bulk { results: rs, succeeded, failed } && rs@ == results@ && succeeded
            == count_reached(results@, wanted, results@.len()) && failed == count_failed(
            results@,
            results@.len(),
        ),
{
    let mut succeeded: usize = 0;
    let mut failed: usize = 0;
    let mut i: usize = 0;
    while i < results.len()
        invariant
            i <= results.len(),
            succeeded == count_reached(results@, wanted, i as nat),
            failed == count_failed(results@, i as nat),
            succeeded <= i,
            failed <= i,
        decreases results.len() - i,
    {
        if results[i].status == wanted {
            succeeded = succeeded + 1;
        }
        if results[i].status == ForwardStatus::Error || results[i].timed_out {
            failed = failed + 1;
        }
        i = i + 1;
    }
    CliData::Bulk { results, succeeded, failed }
}

/// In a sweep, the succeeded and failed counts never add up to more than
/// the tunnels swept when `wanted` is not `error` (no tunnel counts twice
/// unless it both reached `wanted` and ran out of budget).
pub proof fn law_summary_counts_bounded(rs: Seq<BulkResult>, wanted: ForwardStatus, n: nat)
    requires
        n <= rs.len(),
        wanted != ForwardStatus::Error,
        forall|k: int| 0 <= k < rs.len() ==> !((#[trigger] rs[k]).timed_out && rs[k].status == wanted),
    ensures
        count_reached(rs, wanted, n) + count_failed(rs, n) <= n,
    decreases n,
{
    if n > 0 {
        law_summary_counts_bounded(rs, wanted, (n - 1) as nat);
        assert(!(rs[n - 1].timed_out && rs[n - 1].status == wanted));
    }
}

/// The list payload: one view per configuration with its runtime, in order.
pub fn list_data(configs: &[ForwardConfig], runtimes: &[ForwardRuntime]) -> (r: CliData)
    requires
        runtimes@.len() == configs@.len(),
    ensures
        r matches CliData::List { forwards } && forwards@.len() == configs@.len() && forall|k: int|
            0 <= k < configs@.len() ==> (#[trigger] forwards@[k]).id@ == configs@[k].id@
                && forwards@[k].name@ == configs@[k].name@ && forwards@[k].status
                == runtimes@[k].status && opt_view(forwards@[k].last_error) == opt_view(
                runtimes@[k].last_error,
            ),
{
    let mut forwards: Vec<ForwardView> = Vec::new();
    let mut i: usize = 0;
    while i < configs.len()
        invariant
            i <= configs.len(),
            runtimes@.len() == configs@.len(),
            forwards@.len() == i,
            forall|k: int|
                0 <= k < i ==> (#[trigger] forwards@[k]).id@ == configs@[k].id@ && forwards@[k].name@
                    == configs@[k].name@ && forwards@[k].status == runtimes@[k].status && opt_view(
                    forwards@[k].last_error,
                ) == opt_view(runtimes@[k].last_error),
        decreases configs.len() - i,
    {
        forwards.push(ForwardView::from_parts(&configs[i], &runtimes[i]));
        i = i + 1;
    }
    CliData::List { forwards }
}

} // verus!
