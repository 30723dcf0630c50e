//! The order of a tunnel supervisor's steps.
//!
//! A supervisor runs one tunnel across reconnect attempts. Each step here
//! takes where the supervisor stands and what the last action reported, and
//! names the next phase and the next action. The actions themselves are the
//! decisions of [`crate::ssh::engine`] (`begin_attempt`, `on_connected`,
//! `handle_teardown`, `on_park_wake`) and the waiting around them.
use crate::ssh::engine::{teardown_for, Disposition, TeardownAction};
use vstd::prelude::*;

verus! {

/// Where a supervisor stands.
#[derive(Debug, Clone, Copy, PartialEq, Eq, Structural)]
pub enum SupervisorPhase {
    /// Launched: the configuration is looked up first.
    Starting,
    /// About to clear the retry flag and enter `connecting`.
    Attempting,
    /// Binding, connecting and authenticating (cancellable).
    Connecting,
    /// Connected: serving local connections.
    Serving,
    /// Deciding between reconnect and park after a failure.
    TearingDown,
    /// Waiting out the reconnect backoff (cancellable).
    BackingOff,
    /// Parked in `error` until a retry request or a cancellation.
    Parked,
    /// The supervisor has ended.
    Stopped,
}

/// Why a session is torn down.
#[derive(Debug, Clone, PartialEq, Eq)]
pub enum TeardownCause {
    /// Bind, connect or authentication failed with this message.
    ConnectError(String),
    /// The session dropped, or its forward channels died.
    Lost,
    /// A wake probe found the session dead.
    LostWakeProbe,
}

/// What a supervisor does next.
#[derive(Debug, Clone, PartialEq, Eq)]
pub enum SupervisorAction {
    /// Run `begin_attempt` and report whether `connecting` was entered.
    BeginAttempt,
    /// Bind, connect and authenticate, cancellable by the attempt token.
    Connect,
    /// Notify, start the sampler and run the accept loop.
    Serve,
    /// Run `handle_teardown` with the message and immediacy of this cause
    /// (see [`teardown_message`]).
    TearDown(TeardownCause),
    /// Sleep this many seconds, leaving early on a cancellation.
    Sleep(u64),
    /// Wait for a retry request or a cancellation, then run `on_park_wake`.
    WaitForRetry,
    /// Close the session just opened (a disconnect won the race) and stop.
    CloseSession,
    /// Stop supervising.
    Stop,
    /// Nothing new: keep doing what the phase is doing.
    KeepWaiting,
}

/// What the last action reported.
#[derive(Debug, Clone, PartialEq, Eq)]
pub enum SupervisorEvent {
    /// The configuration lookup at launch.
    ConfigChecked { found: bool },
    /// `begin_attempt` ran; `applied`: `connecting` was entered.
    AttemptBegun { applied: bool },
    /// The attempt token was cancelled during the connect.
    ConnectCancelled { parent_cancelled: bool },
    /// The connect failed with this message.
    ConnectFailed(String),
    /// The session is up and `on_connected` ran; `applied`: `connected` was
    /// entered.
    SessionUp { applied: bool },
    /// The accept loop ended this way (the session is closed first).
    AcceptEnded(Disposition),
    /// `handle_teardown` decided this.
    TeardownDecided(TeardownAction),
    /// The backoff sleep ended, by time or by a cancellation.
    BackoffEnded { parent_cancelled: bool },
    /// A parked supervisor was woken; `retry`: what `on_park_wake` found.
    ParkWoken { parent_cancelled: bool, retry: bool },
}

/// The next phase and action after `event` in `phase`. An event that does
/// not belong to the phase changes nothing: the phase is kept and the
/// supervisor keeps waiting; a stopped supervisor stays stopped.
pub open spec fn supervisor_next(phase: SupervisorPhase, event: SupervisorEvent) -> (
    SupervisorPhase,
    SupervisorAction,
) {
    match (phase, event) {
        (SupervisorPhase::Starting, SupervisorEvent::ConfigChecked { found }) => if found {
            (SupervisorPhase::Attempting, SupervisorAction::BeginAttempt)
        } else {
            (SupervisorPhase::Stopped, SupervisorAction::Stop)
        },
        (SupervisorPhase::Attempting, SupervisorEvent::AttemptBegun { applied }) => if applied {
            (SupervisorPhase::Connecting, SupervisorAction::Connect)
        } else {
            (SupervisorPhase::Stopped, SupervisorAction::Stop)
        },
        (SupervisorPhase::Connecting, SupervisorEvent::ConnectCancelled { parent_cancelled }) =>
            if parent_cancelled {
            (SupervisorPhase::Stopped, SupervisorAction::Stop)
        } else {
            (SupervisorPhase::Attempting, SupervisorAction::BeginAttempt)
        },
        (SupervisorPhase::Connecting, SupervisorEvent::ConnectFailed(msg)) => (
            SupervisorPhase::TearingDown,
            SupervisorAction::TearDown(TeardownCause::ConnectError(msg)),
        ),
        (SupervisorPhase::Connecting, SupervisorEvent::SessionUp { applied }) => if applied {
            (SupervisorPhase::Serving, SupervisorAction::Serve)
        } else {
            (SupervisorPhase::Stopped, SupervisorAction::CloseSession)
        },
        (SupervisorPhase::Serving, SupervisorEvent::AcceptEnded(d)) => match d {
            Disposition::UserExit => (SupervisorPhase::Stopped, SupervisorAction::Stop),
            Disposition::Reconnect => (
                SupervisorPhase::TearingDown,
                SupervisorAction::TearDown(TeardownCause::Lost),
            ),
            Disposition::ReconnectImmediate => (
                SupervisorPhase::TearingDown,
                SupervisorAction::TearDown(TeardownCause::LostWakeProbe),
            ),
        },
        (SupervisorPhase::TearingDown, SupervisorEvent::TeardownDecided(a)) => match a {
            TeardownAction::Exit => (SupervisorPhase::Stopped, SupervisorAction::Stop),
            TeardownAction::ReconnectNow => (
                SupervisorPhase::Attempting,
                SupervisorAction::BeginAttempt,
            ),
            TeardownAction::Backoff { secs } => (
                SupervisorPhase::BackingOff,
                SupervisorAction::Sleep(secs),
            ),
            TeardownAction::Park => (SupervisorPhase::Parked, SupervisorAction::WaitForRetry),
        },
        (SupervisorPhase::BackingOff, SupervisorEvent::BackoffEnded { parent_cancelled }) =>
            if parent_cancelled {
            (SupervisorPhase::Stopped, SupervisorAction::Stop)
        } else {
            (SupervisorPhase::Attempting, SupervisorAction::BeginAttempt)
        },
        (SupervisorPhase::Parked, SupervisorEvent::ParkWoken { parent_cancelled, retry }) =>
            if parent_cancelled {
            (SupervisorPhase::Stopped, SupervisorAction::Stop)
        } else if retry {
            (SupervisorPhase::Attempting, SupervisorAction::BeginAttempt)
        } else {
            (SupervisorPhase::Parked, SupervisorAction::WaitForRetry)
        },
        (SupervisorPhase::Stopped, _) => (SupervisorPhase::Stopped, SupervisorAction::Stop),
        (p, _) => (p, SupervisorAction::KeepWaiting),
    }
}

/// One supervisor step: the next phase and action after `event` in `phase`.
/// Launch looks up the configuration (missing: stop); every attempt starts
/// with `begin_attempt` (a disconnect that got there first stops it); a
/// connect failure or a lost session goes to `handle_teardown`, whose answer
/// reconnects now, backs off, parks or stops; a parked supervisor wakes on a
/// retry request; a cancelled parent stops the supervisor wherever it
/// waits.
pub fn supervisor_step(phase: SupervisorPhase, event: SupervisorEvent) -> (r: (
    SupervisorPhase,
    SupervisorAction,
))
    ensures
        r == supervisor_next(phase, event),
{
    match (phase, event) {
        (SupervisorPhase::Starting, SupervisorEvent::ConfigChecked { found }) => {
            if found {
                (SupervisorPhase::Attempting, SupervisorAction::BeginAttempt)
            } else {
                (SupervisorPhase::Stopped, SupervisorAction::Stop)
            }
        },
        (SupervisorPhase::Attempting, SupervisorEvent::AttemptBegun { applied }) => {
            if applied {
                (SupervisorPhase::Connecting, SupervisorAction::Connect)
            } else {
                (SupervisorPhase::Stopped, SupervisorAction::Stop)
            }
        },
        (SupervisorPhase::Connecting, SupervisorEvent::ConnectCancelled { parent_cancelled }) => {
            if parent_cancelled {
                (SupervisorPhase::Stopped, SupervisorAction::Stop)
            } else {
                (SupervisorPhase::Attempting, SupervisorAction::BeginAttempt)
            }
        },
        (SupervisorPhase::Connecting, SupervisorEvent::ConnectFailed(msg)) => (
            SupervisorPhase::TearingDown,
            SupervisorAction::TearDown(TeardownCause::ConnectError(msg)),
        ),
        (SupervisorPhase::Connecting, SupervisorEvent::SessionUp { applied }) => {
            if applied {
                (SupervisorPhase::Serving, SupervisorAction::Serve)
            } else {
                (SupervisorPhase::Stopped, SupervisorAction::CloseSession)
            }
        },
        (SupervisorPhase::Serving, SupervisorEvent::AcceptEnded(d)) => match d {
            Disposition::UserExit => (SupervisorPhase::Stopped, SupervisorAction::Stop),
            Disposition::Reconnect => (
                SupervisorPhase::TearingDown,
                SupervisorAction::TearDown(TeardownCause::Lost),
            ),
            Disposition::ReconnectImmediate => (
                SupervisorPhase::TearingDown,
                SupervisorAction::TearDown(TeardownCause::LostWakeProbe),
            ),
        },
        (SupervisorPhase::TearingDown, SupervisorEvent::TeardownDecided(a)) => match a {
            TeardownAction::Exit => (SupervisorPhase::Stopped, SupervisorAction::Stop),
            TeardownAction::ReconnectNow => (
                SupervisorPhase::Attempting,
                SupervisorAction::BeginAttempt,
            ),
            TeardownAction::Backoff { secs } => (
                SupervisorPhase::BackingOff,
                SupervisorAction::Sleep(secs),
            ),
            TeardownAction::Park => (SupervisorPhase::Parked, SupervisorAction::WaitForRetry),
        },
        (SupervisorPhase::BackingOff, SupervisorEvent::BackoffEnded { parent_cancelled }) => {
            if parent_cancelled {
                (SupervisorPhase::Stopped, SupervisorAction::Stop)
            } else {
                (SupervisorPhase::Attempting, SupervisorAction::BeginAttempt)
            }
        },
        (SupervisorPhase::Parked, SupervisorEvent::ParkWoken { parent_cancelled, retry }) => {
            if parent_cancelled {
                (SupervisorPhase::Stopped, SupervisorAction::Stop)
            } else if retry {
                (SupervisorPhase::Attempting, SupervisorAction::BeginAttempt)
            } else {
                (SupervisorPhase::Parked, SupervisorAction::WaitForRetry)
            }
        },
        (SupervisorPhase::Stopped, _) => (SupervisorPhase::Stopped, SupervisorAction::Stop),
        (p, _) => (p, SupervisorAction::KeepWaiting),
    }
}

/// The message and immediacy `handle_teardown` gets for a cause: a connect
/// error's own message, or the lost-connection messages of [`teardown_for`]
/// (immediate only for a dead wake probe).
pub fn teardown_message(cause: TeardownCause) -> (r: (String, bool))
    ensures
        cause matches TeardownCause::ConnectError(m) ==> r == (m, false),
        cause == TeardownCause::Lost ==> r.0@ == "connection lost"@ && !r.1,
        cause == TeardownCause::LostWakeProbe ==> r.0@ == "connection lost (wake probe)"@ && r.1,
{
    match cause {
        TeardownCause::ConnectError(m) => (m, false),
        TeardownCause::Lost => match teardown_for(Disposition::Reconnect) {
            Some(t) => t,
            None => ("connection lost".to_string(), false),
        },
        TeardownCause::LostWakeProbe => match teardown_for(Disposition::ReconnectImmediate) {
            Some(t) => t,
            None => ("connection lost (wake probe)".to_string(), true),
        },
    }
}

/// Whether the supervisor is waiting in `phase` for something that a
/// cancellation of the tunnel (a user disconnect or delete) interrupts.
pub open spec fn cancellable_wait(phase: SupervisorPhase) -> bool {
    phase == SupervisorPhase::Connecting || phase == SupervisorPhase::BackingOff || phase
        == SupervisorPhase::Parked
}

/// The event a cancellation of the tunnel produces while waiting in `phase`.
pub open spec fn cancel_event(phase: SupervisorPhase) -> SupervisorEvent {
    match phase {
        SupervisorPhase::Connecting => SupervisorEvent::ConnectCancelled { parent_cancelled: true },
        SupervisorPhase::BackingOff => SupervisorEvent::BackoffEnded { parent_cancelled: true },
        _ => SupervisorEvent::ParkWoken { parent_cancelled: true, retry: false },
    }
}

/// A user disconnect always ends the supervisor: wherever it waits
/// (connecting, backing off, parked), a cancelled parent stops it; and once
/// stopped it never acts again.
pub proof fn law_cancel_always_stops(phase: SupervisorPhase, event: SupervisorEvent)
    ensures
        cancellable_wait(phase) ==> supervisor_next(phase, cancel_event(phase)) == (
            SupervisorPhase::Stopped,
            SupervisorAction::Stop,
        ),
        supervisor_next(SupervisorPhase::Stopped, event) == (
            SupervisorPhase::Stopped,
            SupervisorAction::Stop,
        ),
{
}

/// Every path back to a new attempt goes through `begin_attempt` (which
/// clears a stale retry flag and may stop on a racing disconnect): whenever
/// a step enters the attempting phase, its action is `BeginAttempt`; and
/// the supervisor serves only after `connected` was entered.
pub proof fn law_reconnects_begin_an_attempt(phase: SupervisorPhase, event: SupervisorEvent)
    ensures
        supervisor_next(phase, event).0 == SupervisorPhase::Attempting && phase
            != SupervisorPhase::Attempting ==> supervisor_next(phase, event).1
            == SupervisorAction::BeginAttempt,
        supervisor_next(phase, event).0 == SupervisorPhase::Serving && phase
            != SupervisorPhase::Serving ==> event == (SupervisorEvent::SessionUp { applied: true }),
{
}

/// Whether `event` in `phase` is one of the reasons a supervisor ends: the
/// configuration is missing; `begin_attempt` was refused (a disconnect got
/// there first); `connected` could not be entered (a disconnect won the race);
/// the accept loop ended by a user exit; the teardown decided to exit; or the
/// parent was cancelled while connecting, backing off or parked.
pub open spec fn ends_supervision(phase: SupervisorPhase, event: SupervisorEvent) -> bool {
    ||| phase == SupervisorPhase::Starting && event == (SupervisorEvent::ConfigChecked {
        found: false,
    })
    ||| phase == SupervisorPhase::Attempting && event == (SupervisorEvent::AttemptBegun {
        applied: false,
    })
    ||| phase == SupervisorPhase::Connecting && event == (SupervisorEvent::SessionUp {
        applied: false,
    })
    ||| phase == SupervisorPhase::Connecting && event == (SupervisorEvent::ConnectCancelled {
        parent_cancelled: true,
    })
    ||| phase == SupervisorPhase::Serving && event == SupervisorEvent::AcceptEnded(
        Disposition::UserExit,
    )
    ||| phase == SupervisorPhase::TearingDown && event == SupervisorEvent::TeardownDecided(
        TeardownAction::Exit,
    )
    ||| phase == SupervisorPhase::BackingOff && event == (SupervisorEvent::BackoffEnded {
        parent_cancelled: true,
    })
    ||| phase == SupervisorPhase::Parked && event matches SupervisorEvent::ParkWoken {
        parent_cancelled: true,
        ..
    }
}

/// A running supervisor stops exactly for the reasons of
/// [`ends_supervision`]: for every phase and event, a step from a running
/// phase ends in `Stopped` if and only if the event is one of those reasons.
/// In particular a dropped session or dead forward channels never end it:
/// a connected tunnel whose session was lost always goes to the teardown
/// (which then reconnects, backs off or parks), with the matching cause.
pub proof fn law_stops_only_for_a_reason(phase: SupervisorPhase, event: SupervisorEvent)
    requires
        phase != SupervisorPhase::Stopped,
    ensures
        (supervisor_next(phase, event).0 == SupervisorPhase::Stopped) == ends_supervision(
            phase,
            event,
        ),
        phase == SupervisorPhase::Serving && event == SupervisorEvent::AcceptEnded(
            Disposition::Reconnect,
        ) ==> supervisor_next(phase, event).0 == SupervisorPhase::TearingDown
            && supervisor_next(phase, event).1 == SupervisorAction::TearDown(TeardownCause::Lost),
        phase == SupervisorPhase::Serving && event == SupervisorEvent::AcceptEnded(
            Disposition::ReconnectImmediate,
        ) ==> supervisor_next(phase, event).0 == SupervisorPhase::TearingDown
            && supervisor_next(phase, event).1 == SupervisorAction::TearDown(
            TeardownCause::LostWakeProbe,
        ),
        phase == SupervisorPhase::Connecting && event is ConnectFailed ==> supervisor_next(
            phase,
            event,
        ).1 == SupervisorAction::TearDown(TeardownCause::ConnectError(event->ConnectFailed_0)),
{
}

/// Whether `event` in `phase` sends a running supervisor into a new
/// attempt: the configuration was found at launch; a connect was cut short
/// without the parent being cancelled; the teardown decided to reconnect at
/// once; the backoff ran out uncancelled; or a parked supervisor got a real
/// retry request.
pub open spec fn starts_new_attempt(phase: SupervisorPhase, event: SupervisorEvent) -> bool {
    ||| phase == SupervisorPhase::Starting && event == (SupervisorEvent::ConfigChecked {
        found: true,
    })
    ||| phase == SupervisorPhase::Connecting && event == (SupervisorEvent::ConnectCancelled {
        parent_cancelled: false,
    })
    ||| phase == SupervisorPhase::TearingDown && event == SupervisorEvent::TeardownDecided(
        TeardownAction::ReconnectNow,
    )
    ||| phase == SupervisorPhase::BackingOff && event == (SupervisorEvent::BackoffEnded {
        parent_cancelled: false,
    })
    ||| phase == SupervisorPhase::Parked && event == (SupervisorEvent::ParkWoken {
        parent_cancelled: false,
        retry: true,
    })
}

/// A supervisor tries again exactly when it should: a step from another
/// phase enters a new attempt if and only if [`starts_new_attempt`] holds;
/// the backoff it sleeps is exactly the one the teardown decided; and a
/// teardown that decides to park leaves it waiting for a retry.
pub proof fn law_retries_exactly_when_due(phase: SupervisorPhase, event: SupervisorEvent)
    requires
        phase != SupervisorPhase::Attempting,
    ensures
        (supervisor_next(phase, event).0 == SupervisorPhase::Attempting) == starts_new_attempt(
            phase,
            event,
        ),
        phase == SupervisorPhase::TearingDown && event is TeardownDecided
            && event->TeardownDecided_0 is Backoff ==> supervisor_next(phase, event) == (
            SupervisorPhase::BackingOff,
            SupervisorAction::Sleep(event->TeardownDecided_0->secs),
        ),
        phase == SupervisorPhase::TearingDown && event == SupervisorEvent::TeardownDecided(
            TeardownAction::Park,
        ) ==> supervisor_next(phase, event) == (
            SupervisorPhase::Parked,
            SupervisorAction::WaitForRetry,
        ),
{
}

} // verus!
