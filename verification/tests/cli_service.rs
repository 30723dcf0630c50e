use tunnel_pilot::cli::protocol::{BulkResult, CliCommand, CliData, CliRequest};
use tunnel_pilot::cli::service::{
    bulk_result, is_terminal, list_data, plan_request, require_target, resolve_target, summarize,
    wait_step, RequestPlan, WaitEvent, WaitOutcome, WaitStep,
};
use tunnel_pilot::error::AppError;
use tunnel_pilot::state::models::{ForwardConfig, ForwardRuntime, ForwardStatus, TunnelStats};

fn service_config(id: &str, name: &str) -> ForwardConfig {
    ForwardConfig {
        id: id.to_string(),
        name: name.to_string(),
        ssh_host: "bastion.example.com".into(),
        ssh_port: 22,
        ssh_username: "deploy".into(),
        identity_file_path: None,
        has_stored_password: true,
        local_bind_address: "127.0.0.1".into(),
        local_port: 5432,
        remote_host: "db.internal".into(),
        remote_port: 5432,
        keep_alive_interval_sec: 30,
        keep_alive_max_count: 5,
        group_id: None,
        tags: vec!["prod".into()],
    }
}

fn configs_with(names: &[(&str, &str)]) -> Vec<ForwardConfig> {
    names.iter().map(|(id, name)| service_config(id, name)).collect()
}

fn service_runtime(status: ForwardStatus, last_error: Option<&str>) -> ForwardRuntime {
    ForwardRuntime {
        status,
        stats: TunnelStats::default(),
        last_error: last_error.map(|e| e.to_string()),
    }
}

fn bulk(id: &str, status: ForwardStatus, timed_out: bool) -> BulkResult {
    BulkResult { id: id.into(), name: id.into(), status, last_error: None, timed_out }
}

#[test]
fn resolves_by_exact_id() {
    let configs = configs_with(&[("id-a", "prod-db"), ("id-b", "staging-redis")]);
    let cfg = resolve_target(&configs, "id-b").expect("resolve by id");
    assert_eq!(cfg.name, "staging-redis");
}

#[test]
fn resolves_by_case_insensitive_name() {
    let configs = configs_with(&[("id-a", "Prod-DB")]);
    for target in ["Prod-DB", "prod-db", "PROD-DB"] {
        let cfg = resolve_target(&configs, target).expect("resolve by name");
        assert_eq!(cfg.id, "id-a");
    }
}

#[test]
fn unknown_target_is_not_found() {
    let configs = configs_with(&[("id-a", "prod-db")]);
    let err = resolve_target(&configs, "nope").expect_err("must not resolve");
    assert!(matches!(err, AppError::NotFound(_)), "{err:?}");
}

#[test]
fn ambiguous_name_is_rejected_not_guessed() {
    let configs = configs_with(&[("id-a", "db"), ("id-b", "DB")]);
    let err = resolve_target(&configs, "db").expect_err("must not guess");
    match err {
        AppError::InvalidInput(msg) => {
            assert!(msg.contains("ambiguous"), "{msg}");
            assert!(msg.contains("use the id"), "{msg}");
        }
        other => panic!("expected invalidInput, got {other:?}"),
    }
}

#[test]
fn id_match_wins_over_a_name_collision() {
    let configs = configs_with(&[("id-a", "prod-db"), ("id-b", "id-a")]);
    let cfg = resolve_target(&configs, "id-a").expect("id match wins");
    assert_eq!(cfg.name, "prod-db");
}

#[test]
fn resolution_errors_carry_the_documented_messages() {
    let configs = configs_with(&[("id-a", "db"), ("id-b", "DB"), ("id-c", "Db")]);
    assert_eq!(
        resolve_target(&configs, "nope"),
        Err(AppError::NotFound("no forward matches 'nope' (by id or name)".into()))
    );
    assert_eq!(
        resolve_target(&configs, "dB"),
        Err(AppError::InvalidInput("ambiguous target 'dB': 3 forwards match; use the id".into()))
    );
}

#[test]
fn name_matching_is_exact_not_a_prefix() {
    let configs = configs_with(&[("id-a", "prod-db")]);
    assert!(matches!(resolve_target(&configs, "prod"), Err(AppError::NotFound(_))));
}

#[test]
fn an_unsupported_version_is_refused_before_any_work() {
    let req = CliRequest { v: 2, ..CliRequest::new(CliCommand::List) };
    assert_eq!(
        plan_request(&req),
        Err(AppError::InvalidInput("unsupported protocol version 2; this app speaks v1".into()))
    );
}

#[test]
fn targeted_commands_refuse_a_missing_target() {
    for cmd in [CliCommand::Status, CliCommand::Connect, CliCommand::Disconnect] {
        assert_eq!(
            plan_request(&CliRequest::new(cmd)),
            Err(AppError::InvalidInput("this command requires a target".into()))
        );
    }
    assert_eq!(require_target(Some("x".into())), Ok("x".to_string()));
}

#[test]
fn plans_carry_the_target_wait_flag_and_clamped_budget() {
    assert_eq!(plan_request(&CliRequest::new(CliCommand::List)), Ok(RequestPlan::List));
    assert_eq!(plan_request(&CliRequest::new(CliCommand::Version)), Ok(RequestPlan::Version));
    assert_eq!(
        plan_request(&CliRequest::new(CliCommand::DisconnectAll)),
        Ok(RequestPlan::DisconnectAll)
    );
    let req = CliRequest {
        target: Some("prod-db".into()),
        timeout_ms: Some(10),
        wait: true,
        ..CliRequest::new(CliCommand::Connect)
    };
    assert_eq!(
        plan_request(&req),
        Ok(RequestPlan::Connect { target: "prod-db".into(), wait: true, timeout_ms: 1_000 })
    );
    let req = CliRequest { timeout_ms: Some(999_999), ..CliRequest::new(CliCommand::ConnectAll) };
    assert_eq!(
        plan_request(&req),
        Ok(RequestPlan::ConnectAll { wait: false, timeout_ms: 300_000 })
    );
    let req = CliRequest { target: Some("a".into()), ..CliRequest::new(CliCommand::Status) };
    assert_eq!(plan_request(&req), Ok(RequestPlan::Status { target: "a".into() }));
    let req = CliRequest { target: Some("a".into()), ..CliRequest::new(CliCommand::Disconnect) };
    assert_eq!(plan_request(&req), Ok(RequestPlan::Disconnect { target: "a".into() }));
    let req = CliRequest { target: Some("a".into()), ..CliRequest::new(CliCommand::Connect) };
    assert_eq!(
        plan_request(&req),
        Ok(RequestPlan::Connect { target: "a".into(), wait: false, timeout_ms: 30_000 })
    );
}

#[test]
fn a_wait_ends_on_a_terminal_status_only() {
    assert!(is_terminal(ForwardStatus::Connected));
    assert!(is_terminal(ForwardStatus::Error));
    assert!(!is_terminal(ForwardStatus::Connecting));
    assert_eq!(
        wait_step(false, WaitEvent::Status(ForwardStatus::Connected)),
        WaitStep::Done(WaitOutcome::Terminal(ForwardStatus::Connected))
    );
    assert_eq!(
        wait_step(false, WaitEvent::Status(ForwardStatus::Error)),
        WaitStep::Done(WaitOutcome::Terminal(ForwardStatus::Error))
    );
    assert_eq!(wait_step(false, WaitEvent::Status(ForwardStatus::Connecting)), WaitStep::KeepWaiting);
}

#[test]
fn a_wait_times_out_or_vanishes() {
    assert_eq!(wait_step(false, WaitEvent::DeadlineElapsed), WaitStep::Done(WaitOutcome::TimedOut));
    assert_eq!(
        wait_step(false, WaitEvent::NoHandle { deadline_passed: true }),
        WaitStep::Done(WaitOutcome::TimedOut)
    );
    assert_eq!(
        wait_step(false, WaitEvent::NoHandle { deadline_passed: false }),
        WaitStep::Done(WaitOutcome::Vanished)
    );
    assert_eq!(wait_step(false, WaitEvent::SenderDropped), WaitStep::Resubscribe);
    assert_eq!(wait_step(true, WaitEvent::SenderDropped), WaitStep::Done(WaitOutcome::Vanished));
}

#[test]
fn bulk_entries_copy_the_forward_and_its_runtime() {
    let cfg = service_config("id-a", "prod-db");
    let r = bulk_result(&cfg, service_runtime(ForwardStatus::Error, Some("auth failed")), false);
    assert_eq!(
        r,
        BulkResult {
            id: "id-a".into(),
            name: "prod-db".into(),
            status: ForwardStatus::Error,
            last_error: Some("auth failed".into()),
            timed_out: false,
        }
    );
}

#[test]
fn a_sweep_counts_successes_and_failures() {
    let results = vec![
        bulk("a", ForwardStatus::Connected, false),
        bulk("b", ForwardStatus::Error, false),
        bulk("c", ForwardStatus::Connecting, true),
        bulk("d", ForwardStatus::Connecting, false),
    ];
    match summarize(results.clone(), ForwardStatus::Connected) {
        CliData::Bulk { results: rs, succeeded, failed } => {
            assert_eq!(rs, results);
            assert_eq!(succeeded, 1);
            assert_eq!(failed, 2);
        }
        other => panic!("expected a bulk payload, got {other:?}"),
    }
    let down = vec![bulk("a", ForwardStatus::Disconnected, false), bulk("b", ForwardStatus::Disconnected, false)];
    match summarize(down, ForwardStatus::Disconnected) {
        CliData::Bulk { succeeded, failed, .. } => {
            assert_eq!(succeeded, 2);
            assert_eq!(failed, 0);
        }
        other => panic!("expected a bulk payload, got {other:?}"),
    }
}

#[test]
fn the_list_payload_pairs_each_config_with_its_runtime() {
    let configs = configs_with(&[("id-a", "prod-db"), ("id-b", "staging")]);
    let runtimes = vec![service_runtime(ForwardStatus::Connected, None), service_runtime(ForwardStatus::Disconnected, None)];
    match list_data(&configs, &runtimes) {
        CliData::List { forwards } => {
            assert_eq!(forwards.len(), 2);
            assert_eq!(forwards[0].id, "id-a");
            assert_eq!(forwards[0].status, ForwardStatus::Connected);
            assert_eq!(forwards[1].name, "staging");
            assert_eq!(forwards[1].status, ForwardStatus::Disconnected);
            assert!(forwards[1].has_stored_password);
        }
        other => panic!("expected a list payload, got {other:?}"),
    }
}
