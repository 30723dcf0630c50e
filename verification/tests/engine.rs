use tunnel_pilot::error::AppError;
use tunnel_pilot::ssh::engine::{
    accept_step, begin_attempt, bind_addr, bind_step, config_missing, connect_forward,
    handle_teardown, interrupted_attempt, on_connected, on_park_wake, request_wake_probe,
    retry_forward, teardown_for, AcceptEvent, BindResult, BindStep, Disposition, Flow, ProbeGate,
    TeardownAction, TeardownOutcome,
};
use tunnel_pilot::ssh::supervisor::{
    supervisor_step, teardown_message, SupervisorAction, SupervisorEvent, SupervisorPhase, TeardownCause,
};
use tunnel_pilot::state::models::{AppSettings, ForwardConfig, ForwardStatus};
use tunnel_pilot::state::tunnel_registry::{TunnelEntry, TunnelRegistry};
use tunnel_pilot::state::AppState;

fn engine_config(id: &str, port: u16) -> ForwardConfig {
    ForwardConfig {
        id: id.into(),
        name: format!("tunnel {id}"),
        ssh_host: "bastion.example.com".into(),
        ssh_port: 22,
        ssh_username: "deploy".into(),
        identity_file_path: None,
        has_stored_password: false,
        local_bind_address: "127.0.0.1".into(),
        local_port: port,
        remote_host: "db.internal".into(),
        remote_port: 5432,
        keep_alive_interval_sec: 30,
        keep_alive_max_count: 5,
        group_id: None,
        tags: vec![],
    }
}

fn engine_registry(id: &str, status: ForwardStatus) -> TunnelRegistry {
    let mut reg = TunnelRegistry::new();
    reg.insert(TunnelEntry::new(id.into(), status));
    reg
}

#[test]
fn accept_loop_keeps_serving_until_something_ends_it() {
    assert_eq!(accept_step(AcceptEvent::Serve, false), None);
    assert_eq!(accept_step(AcceptEvent::LivenessTick { session_closed: false }, false), None);
    assert_eq!(
        accept_step(AcceptEvent::LivenessTick { session_closed: true }, false),
        Some(Disposition::Reconnect)
    );
    assert_eq!(accept_step(AcceptEvent::ForwardFailureWake { failures: 2 }, false), None);
    assert_eq!(
        accept_step(AcceptEvent::ForwardFailureWake { failures: 3 }, false),
        Some(Disposition::Reconnect)
    );
    assert_eq!(
        accept_step(AcceptEvent::WakeProbeDead, false),
        Some(Disposition::ReconnectImmediate)
    );
}

#[test]
fn a_cancelled_attempt_is_a_user_exit_only_when_the_parent_was_cancelled() {
    assert_eq!(accept_step(AcceptEvent::AttemptCancelled, true), Some(Disposition::UserExit));
    assert_eq!(accept_step(AcceptEvent::AttemptCancelled, false), Some(Disposition::Reconnect));
    assert_eq!(interrupted_attempt(true), Flow::Exit);
    assert_eq!(interrupted_attempt(false), Flow::Reconnect);
}

#[test]
fn teardown_messages_name_the_cause() {
    assert_eq!(teardown_for(Disposition::UserExit), None);
    assert_eq!(
        teardown_for(Disposition::Reconnect),
        Some(("connection lost".to_string(), false))
    );
    assert_eq!(
        teardown_for(Disposition::ReconnectImmediate),
        Some(("connection lost (wake probe)".to_string(), true))
    );
}

#[test]
fn a_cancelled_parent_exits_without_touching_the_status() {
    let mut reg = engine_registry("a", ForwardStatus::Disconnecting);
    let mut attempt = 2;
    let out = handle_teardown(
        &mut reg,
        "a",
        true,
        &AppSettings::default(),
        &mut attempt,
        "connection lost".into(),
        false,
    );
    assert_eq!(
        out,
        TeardownOutcome { action: TeardownAction::Exit, emit_error: false, notify_terminal: false }
    );
    assert_eq!(reg.current_status("a"), Some(ForwardStatus::Disconnecting));
    assert_eq!(attempt, 2);
}

#[test]
fn an_eligible_teardown_backs_off_and_spends_one_retry() {
    let mut reg = engine_registry("a", ForwardStatus::Connected);
    let mut attempt = 1;
    let out = handle_teardown(
        &mut reg,
        "a",
        false,
        &AppSettings::default(),
        &mut attempt,
        "connection lost".into(),
        false,
    );
    // Default delay 5 s, doubled once for the second attempt.
    assert_eq!(out.action, TeardownAction::Backoff { secs: 10 });
    assert!(out.emit_error);
    assert!(!out.notify_terminal);
    assert_eq!(attempt, 2);
    assert_eq!(reg.current_status("a"), Some(ForwardStatus::Error));
    assert_eq!(reg.last_error("a"), Some("connection lost".to_string()));
}

#[test]
fn a_dead_wake_probe_reconnects_at_once_without_spending_a_retry() {
    let mut reg = engine_registry("a", ForwardStatus::Connected);
    let mut attempt = 0;
    let out = handle_teardown(
        &mut reg,
        "a",
        false,
        &AppSettings::default(),
        &mut attempt,
        "connection lost (wake probe)".into(),
        true,
    );
    assert_eq!(out.action, TeardownAction::ReconnectNow);
    assert_eq!(attempt, 0);
    assert_eq!(reg.current_status("a"), Some(ForwardStatus::Error));
}

#[test]
fn a_spent_budget_parks_in_a_terminal_error_and_notifies() {
    let mut reg = engine_registry("a", ForwardStatus::Connected);
    let mut attempt = 3;
    let out = handle_teardown(
        &mut reg,
        "a",
        false,
        &AppSettings::default(),
        &mut attempt,
        "connection lost".into(),
        false,
    );
    assert_eq!(
        out,
        TeardownOutcome { action: TeardownAction::Park, emit_error: true, notify_terminal: true }
    );
    assert_eq!(attempt, 3);
    assert_eq!(reg.current_status("a"), Some(ForwardStatus::Error));
}

#[test]
fn auto_reconnect_off_parks_at_once() {
    let mut reg = engine_registry("a", ForwardStatus::Connected);
    let settings = AppSettings { auto_reconnect: false, ..AppSettings::default() };
    let mut attempt = 0;
    let out = handle_teardown(&mut reg, "a", false, &settings, &mut attempt, "boom".into(), false);
    assert_eq!(out.action, TeardownAction::Park);
    assert_eq!(reg.last_error("a"), Some("boom".to_string()));
}

#[test]
fn a_retry_that_arrived_before_parking_reconnects_with_a_fresh_budget() {
    let mut reg = engine_registry("a", ForwardStatus::Error);
    assert!(reg.request_retry("a"));
    reg.set_status("a", ForwardStatus::Connecting, None);
    let mut attempt = 3;
    let out = handle_teardown(
        &mut reg,
        "a",
        false,
        &AppSettings::default(),
        &mut attempt,
        "connection lost".into(),
        false,
    );
    assert_eq!(out.action, TeardownAction::ReconnectNow);
    assert_eq!(attempt, 0);
    // The flag was consumed in the same step.
    let mut again = 1;
    assert!(!on_park_wake(&mut reg, "a", &mut again));
    assert_eq!(again, 1);
}

#[test]
fn a_park_wake_reconnects_only_on_a_real_retry_request() {
    let mut reg = engine_registry("a", ForwardStatus::Error);
    let mut attempt = 3;
    assert!(!on_park_wake(&mut reg, "a", &mut attempt));
    assert_eq!(attempt, 3);
    assert!(reg.request_retry("a"));
    assert!(on_park_wake(&mut reg, "a", &mut attempt));
    assert_eq!(attempt, 0);
    assert!(!on_park_wake(&mut reg, "a", &mut attempt));
}

#[test]
fn an_attempt_starts_in_connecting_unless_a_disconnect_won() {
    let mut reg = engine_registry("a", ForwardStatus::Error);
    assert!(begin_attempt(&mut reg, "a"));
    assert_eq!(reg.current_status("a"), Some(ForwardStatus::Connecting));

    let mut gone = engine_registry("b", ForwardStatus::Disconnecting);
    assert!(!begin_attempt(&mut gone, "b"));
    assert_eq!(gone.current_status("b"), Some(ForwardStatus::Disconnecting));
}

#[test]
fn connecting_resets_the_budget_and_enters_connected() {
    let mut reg = engine_registry("a", ForwardStatus::Connecting);
    let mut attempt = 2;
    assert!(on_connected(&mut reg, "a", &mut attempt));
    assert_eq!(attempt, 0);
    assert_eq!(reg.current_status("a"), Some(ForwardStatus::Connected));

    let mut raced = engine_registry("b", ForwardStatus::Disconnecting);
    let mut attempt = 1;
    assert!(!on_connected(&mut raced, "b", &mut attempt));
    assert_eq!(attempt, 0);
    assert_eq!(raced.current_status("b"), Some(ForwardStatus::Disconnecting));
}

#[test]
fn binding_retries_while_the_address_is_in_use_then_fails() {
    assert_eq!(bind_step("127.0.0.1:5432", 0, BindResult::Bound), BindStep::Bound);
    assert_eq!(
        bind_step("127.0.0.1:5432", 0, BindResult::AddrInUse("in use".into())),
        BindStep::Retry
    );
    assert_eq!(
        bind_step("127.0.0.1:5432", 3, BindResult::AddrInUse("in use".into())),
        BindStep::Retry
    );
    assert_eq!(
        bind_step("127.0.0.1:5432", 4, BindResult::AddrInUse("in use".into())),
        BindStep::Fail(AppError::Connection(
            "local port 127.0.0.1:5432 in use after 5 attempts: in use".into()
        ))
    );
    assert_eq!(
        bind_step("127.0.0.1:5432", 0, BindResult::Failed("permission denied".into())),
        BindStep::Fail(AppError::Connection(
            "bind 127.0.0.1:5432 failed: permission denied".into()
        ))
    );
}

#[test]
fn the_bind_address_joins_address_and_port() {
    assert_eq!(bind_addr(&engine_config("a", 5432)), "127.0.0.1:5432");
}

#[test]
fn a_missing_config_parks_the_tunnel_in_error() {
    let mut reg = engine_registry("a", ForwardStatus::Connecting);
    assert!(config_missing(&mut reg, "a"));
    assert_eq!(reg.current_status("a"), Some(ForwardStatus::Error));
    assert_eq!(reg.last_error("a"), Some("config not found".to_string()));
}

#[test]
fn the_probe_runs_one_at_a_time() {
    let mut gate = ProbeGate::new();
    assert!(gate.try_start());
    assert!(!gate.try_start());
    gate.finish();
    assert!(gate.try_start());
}

#[test]
fn connect_plans_disconnect_self_and_port_conflicts() {
    let mut state = AppState::new_headless();
    state.upsert_config(engine_config("a", 5432));
    state.upsert_config(engine_config("b", 5432));
    state.upsert_config(engine_config("c", 6000));
    state.registry.insert(TunnelEntry::new("a".into(), ForwardStatus::Connected));
    state.registry.insert(TunnelEntry::new("b".into(), ForwardStatus::Connected));
    state.registry.insert(TunnelEntry::new("c".into(), ForwardStatus::Connected));

    let plan = connect_forward(&state, "a").expect("config a exists");
    assert!(plan.disconnect_self);
    assert_eq!(plan.disconnect_others, vec!["b".to_string()]);

    let plan = connect_forward(&state, "c").expect("config c exists");
    assert!(plan.disconnect_self);
    assert!(plan.disconnect_others.is_empty());

    match connect_forward(&state, "zzz") {
        Err(AppError::NotFound(m)) => assert_eq!(m, "forward zzz"),
        other => panic!("expected not found, got {other:?}"),
    }
}

#[test]
fn a_retry_is_accepted_only_for_a_parked_tunnel() {
    let mut state = AppState::new_headless();
    state.registry.insert(TunnelEntry::new("a".into(), ForwardStatus::Error));
    state.registry.insert(TunnelEntry::new("b".into(), ForwardStatus::Connected));
    assert!(retry_forward(&mut state, "a"));
    assert!(!retry_forward(&mut state, "b"));
    assert!(!retry_forward(&mut state, "missing"));
    let mut attempt = 2;
    assert!(on_park_wake(&mut state.registry, "a", &mut attempt));
}

#[test]
fn a_wake_probe_reaches_only_live_tunnels() {
    let mut state = AppState::new_headless();
    state.registry.insert(TunnelEntry::new("a".into(), ForwardStatus::Connected));
    assert!(request_wake_probe(&state, "a"));
    assert!(!request_wake_probe(&state, "b"));
}

#[test]
fn a_supervisor_walks_attempt_connect_serve() {
    let (p, a) = supervisor_step(SupervisorPhase::Starting, SupervisorEvent::ConfigChecked { found: true });
    assert_eq!((p, a.clone()), (SupervisorPhase::Attempting, SupervisorAction::BeginAttempt));
    let (p, a) = supervisor_step(p, SupervisorEvent::AttemptBegun { applied: true });
    assert_eq!((p, a), (SupervisorPhase::Connecting, SupervisorAction::Connect));
    let (p, a) = supervisor_step(p, SupervisorEvent::SessionUp { applied: true });
    assert_eq!((p, a), (SupervisorPhase::Serving, SupervisorAction::Serve));
    let (p, a) = supervisor_step(p, SupervisorEvent::AcceptEnded(Disposition::ReconnectImmediate));
    assert_eq!((p, a), (SupervisorPhase::TearingDown, SupervisorAction::TearDown(TeardownCause::LostWakeProbe)));
    let (p, a) = supervisor_step(p, SupervisorEvent::TeardownDecided(TeardownAction::Backoff { secs: 10 }));
    assert_eq!((p, a), (SupervisorPhase::BackingOff, SupervisorAction::Sleep(10)));
    let (p, a) = supervisor_step(p, SupervisorEvent::BackoffEnded { parent_cancelled: false });
    assert_eq!((p, a), (SupervisorPhase::Attempting, SupervisorAction::BeginAttempt));
}

#[test]
fn a_supervisor_stops_on_missing_config_lost_races_and_cancellation() {
    assert_eq!(
        supervisor_step(SupervisorPhase::Starting, SupervisorEvent::ConfigChecked { found: false }),
        (SupervisorPhase::Stopped, SupervisorAction::Stop)
    );
    assert_eq!(
        supervisor_step(SupervisorPhase::Attempting, SupervisorEvent::AttemptBegun { applied: false }),
        (SupervisorPhase::Stopped, SupervisorAction::Stop)
    );
    assert_eq!(
        supervisor_step(SupervisorPhase::Connecting, SupervisorEvent::SessionUp { applied: false }),
        (SupervisorPhase::Stopped, SupervisorAction::CloseSession)
    );
    assert_eq!(
        supervisor_step(SupervisorPhase::Connecting, SupervisorEvent::ConnectCancelled { parent_cancelled: true }),
        (SupervisorPhase::Stopped, SupervisorAction::Stop)
    );
    assert_eq!(
        supervisor_step(SupervisorPhase::Connecting, SupervisorEvent::ConnectCancelled { parent_cancelled: false }),
        (SupervisorPhase::Attempting, SupervisorAction::BeginAttempt)
    );
    assert_eq!(
        supervisor_step(SupervisorPhase::Parked, SupervisorEvent::ParkWoken { parent_cancelled: true, retry: true }),
        (SupervisorPhase::Stopped, SupervisorAction::Stop)
    );
    assert_eq!(
        supervisor_step(SupervisorPhase::Serving, SupervisorEvent::AcceptEnded(Disposition::UserExit)),
        (SupervisorPhase::Stopped, SupervisorAction::Stop)
    );
    assert_eq!(
        supervisor_step(SupervisorPhase::Stopped, SupervisorEvent::AttemptBegun { applied: true }),
        (SupervisorPhase::Stopped, SupervisorAction::Stop)
    );
}

#[test]
fn a_connect_failure_is_torn_down_with_its_own_message() {
    let (p, a) = supervisor_step(SupervisorPhase::Connecting, SupervisorEvent::ConnectFailed("auth failed".into()));
    assert_eq!(p, SupervisorPhase::TearingDown);
    assert_eq!(a, SupervisorAction::TearDown(TeardownCause::ConnectError("auth failed".into())));
    assert_eq!(teardown_message(TeardownCause::ConnectError("auth failed".into())), ("auth failed".to_string(), false));
    assert_eq!(teardown_message(TeardownCause::Lost), ("connection lost".to_string(), false));
    assert_eq!(teardown_message(TeardownCause::LostWakeProbe), ("connection lost (wake probe)".to_string(), true));
}

#[test]
fn a_parked_supervisor_waits_for_a_real_retry() {
    assert_eq!(
        supervisor_step(SupervisorPhase::TearingDown, SupervisorEvent::TeardownDecided(TeardownAction::Park)),
        (SupervisorPhase::Parked, SupervisorAction::WaitForRetry)
    );
    assert_eq!(
        supervisor_step(SupervisorPhase::Parked, SupervisorEvent::ParkWoken { parent_cancelled: false, retry: false }),
        (SupervisorPhase::Parked, SupervisorAction::WaitForRetry)
    );
    assert_eq!(
        supervisor_step(SupervisorPhase::Parked, SupervisorEvent::ParkWoken { parent_cancelled: false, retry: true }),
        (SupervisorPhase::Attempting, SupervisorAction::BeginAttempt)
    );
    assert_eq!(
        supervisor_step(SupervisorPhase::TearingDown, SupervisorEvent::TeardownDecided(TeardownAction::ReconnectNow)),
        (SupervisorPhase::Attempting, SupervisorAction::BeginAttempt)
    );
    assert_eq!(
        supervisor_step(SupervisorPhase::TearingDown, SupervisorEvent::TeardownDecided(TeardownAction::Exit)),
        (SupervisorPhase::Stopped, SupervisorAction::Stop)
    );
    assert_eq!(
        supervisor_step(SupervisorPhase::Parked, SupervisorEvent::AttemptBegun { applied: true }),
        (SupervisorPhase::Parked, SupervisorAction::KeepWaiting)
    );
}
