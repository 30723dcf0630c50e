use std::io::{Error, ErrorKind};
use std::time::Duration;

use tunnel_pilot::cli::args::Command;
use tunnel_pilot::cli::client::{
    build_request, classify_read_error, client_error_report, dispatch_kind, exit_code_for_data,
    exit_code_for_error, exit_code_for_shim_error, format_bytes, read_error_outcome, read_timeout,
    render, render_action, render_bulk, render_list, render_shim_status, render_status,
    render_version, ClientError, DispatchKind, IoErrorKind, DEFAULT_READ_TIMEOUT_SECS, EXIT_INTERNAL,
    EXIT_NOT_FOUND, EXIT_NOT_RUNNING, EXIT_OK, EXIT_OPERATION_FAILED, EXIT_TIMEOUT, EXIT_USAGE,
    NOT_RUNNING_HINT,
};
use tunnel_pilot::cli::protocol::{BulkResult, CliCommand, CliData, ForwardView};
use tunnel_pilot::cli::shim::{CliShimStatus, ShimTarget};
use tunnel_pilot::error::AppError;
use tunnel_pilot::state::models::{ForwardConfig, ForwardRuntime, ForwardStatus, TunnelStats};

fn sample_config(id: &str, name: &str) -> ForwardConfig {
    ForwardConfig {
        id: id.to_string(),
        name: name.to_string(),
        ssh_host: "bastion.example.com".into(),
        ssh_port: 22,
        ssh_username: "deploy".into(),
        identity_file_path: None,
        has_stored_password: true,
        local_bind_address: "127.0.0.1".into(),
        local_port: 5432,
        remote_host: "db.internal".into(),
        remote_port: 5432,
        keep_alive_interval_sec: 30,
        keep_alive_max_count: 5,
        group_id: None,
        tags: vec!["prod".into()],
    }
}

fn view(id: &str, name: &str, status: ForwardStatus, last_error: Option<&str>) -> ForwardView {
    let mut cfg = sample_config(id, name);
    cfg.local_port = 5432;
    ForwardView::from_parts(
        &cfg,
        &ForwardRuntime {
            status,
            stats: TunnelStats::default(),
            last_error: last_error.map(|e| e.to_string()),
        },
    )
}

fn strings(args: &[&str]) -> Vec<String> {
    args.iter().map(|s| s.to_string()).collect()
}

fn connect_cmd(wait: bool) -> Command {
    Command::Connect { target: "prod-db".into(), timeout_secs: 30, wait, force: false }
}

#[test]
fn dispatch_ignores_gui_launches() {
    assert_eq!(dispatch_kind(&strings(&["tunnel-pilot"])), DispatchKind::Gui);
    assert_eq!(dispatch_kind(&strings(&["tunnel-pilot", "--minimized"])), DispatchKind::Gui);
    assert_eq!(dispatch_kind(&strings(&["tunnel-pilot", "-psn_0_1234"])), DispatchKind::Gui);
}

#[test]
fn dispatch_rejects_options_before_the_subcommand() {
    for argv in [
        vec!["tunnel-pilot", "--json", "list"],
        vec!["tunnel-pilot", "--socket", "/tmp/x.sock", "status", "prod-db"],
        vec!["tunnel-pilot", "--no-wait", "connect-all"],
    ] {
        assert_eq!(
            dispatch_kind(&strings(&argv)),
            DispatchKind::OptionsBeforeSubcommand,
            "{argv:?} must not launch the GUI"
        );
    }
}

#[test]
fn dispatch_handles_help_locally_without_a_socket() {
    assert_eq!(dispatch_kind(&strings(&["tunnel-pilot", "help"])), DispatchKind::Cli);
    assert_eq!(dispatch_kind(&strings(&["tunnel-pilot", "--help"])), DispatchKind::Cli);
}

#[test]
fn list_columns_line_up_and_ids_are_printed_in_full() {
    let out = render_list(&[
        view("9f3c1a02-0000-4000-8000-000000000001", "prod-db", ForwardStatus::Connected, None),
        view(
            "1b77e5d4-0000-4000-8000-000000000002",
            "staging-redis-longer",
            ForwardStatus::Disconnected,
            None,
        ),
        view(
            "c0ffee12-0000-4000-8000-000000000003",
            "legacy-api",
            ForwardStatus::Error,
            Some("auth failed"),
        ),
    ]);
    let lines: Vec<&str> = out.lines().collect();
    assert_eq!(lines.len(), 4, "header + 3 rows:\n{out}");
    assert!(lines[0].starts_with("STATUS"), "{}", lines[0]);
    let name_col = lines[0].find("NAME").expect("NAME header");
    for (line, expected) in lines[1..].iter().zip(["prod-db", "staging-redis-longer", "legacy-api"]) {
        assert!(line[name_col..].starts_with(expected), "column drift at {name_col} in: {line}");
    }
    assert!(out.contains("9f3c1a02-0000-4000-8000-000000000001"));
    assert!(lines[3].ends_with("auth failed"), "{}", lines[3]);
    assert!(!out.contains('\u{1b}'), "output must be plain text");
}

#[test]
fn an_empty_list_says_so() {
    assert_eq!(render_list(&[]), "No forwards configured.\n");
}

#[test]
fn status_renders_endpoints_stats_and_error() {
    let stats = TunnelStats {
        active_connections: 2,
        total_bytes_up: 2048,
        total_bytes_down: 512,
        last_ping_latency_ms: Some(17),
        connected_since: Some("2026-09-10T09:00:00Z".into()),
    };
    let out = render_status(&view("id-1", "prod-db", ForwardStatus::Error, Some("auth failed")), &stats);
    assert!(out.contains("status      error"), "{out}");
    assert!(out.contains("local       127.0.0.1:5432"), "{out}");
    assert!(out.contains("remote      db.internal:5432"), "{out}");
    assert!(out.contains("ssh         deploy@bastion.example.com:22"), "{out}");
    assert!(out.contains("up 2.0 KB / down 512 B"), "{out}");
    assert!(out.contains("latency     17 ms"), "{out}");
    assert!(out.contains("error       auth failed"), "{out}");
}

#[test]
fn action_lines_report_wait_and_failure_shape() {
    let connected = render_action(&view("id", "prod-db", ForwardStatus::Connected, None), true, false);
    assert_eq!(connected, "prod-db  connected\n");
    let failed =
        render_action(&view("id", "prod-db", ForwardStatus::Error, Some("auth failed")), true, false);
    assert_eq!(failed, "prod-db  error: auth failed\n");
    let dispatched =
        render_action(&view("id", "prod-db", ForwardStatus::Connecting, None), false, false);
    assert!(dispatched.contains("not waited"), "{dispatched}");
    let timed_out = render_action(&view("id", "prod-db", ForwardStatus::Connecting, None), true, true);
    assert!(timed_out.contains("timed out"), "{timed_out}");
}

#[test]
fn bulk_output_summarizes_the_sweep() {
    let results = vec![
        BulkResult {
            id: "id-a".into(),
            name: "prod-db".into(),
            status: ForwardStatus::Connected,
            last_error: None,
            timed_out: false,
        },
        BulkResult {
            id: "id-b".into(),
            name: "legacy".into(),
            status: ForwardStatus::Error,
            last_error: Some("auth failed".into()),
            timed_out: false,
        },
    ];
    let out = render_bulk(&results, 1, 1);
    assert!(out.contains("prod-db  connected"), "{out}");
    assert!(out.contains("legacy   error: auth failed"), "{out}");
    assert!(out.contains("1 succeeded, 1 failed, 2 total"), "{out}");
}

#[test]
fn version_output_separates_the_cli_from_the_app() {
    let out = render_version("0.1.0", "2.1.0", 1);
    assert!(out.contains("cli       0.1.0"), "{out}");
    assert!(out.contains("app       2.1.0"), "{out}");
    assert!(out.contains("protocol  1"), "{out}");
}

#[test]
fn error_kinds_map_to_the_documented_exit_codes() {
    let cases = [
        (AppError::NotFound("forward x".into()), EXIT_NOT_FOUND),
        (AppError::InvalidInput("ambiguous".into()), EXIT_NOT_FOUND),
        (AppError::Ssh("auth failed".into()), EXIT_OPERATION_FAILED),
        (AppError::Connection("bind failed".into()), EXIT_OPERATION_FAILED),
        (AppError::Storage("disk".into()), EXIT_INTERNAL),
        (AppError::Internal("boom".into()), EXIT_INTERNAL),
    ];
    for (error, expected) in cases {
        assert_eq!(exit_code_for_error(&error), expected, "{error:?}");
    }
}

#[test]
fn payload_outcomes_map_to_the_documented_exit_codes() {
    let connect = connect_cmd(true);
    let ok = CliData::Action {
        forward: view("id", "n", ForwardStatus::Connected, None),
        waited: true,
        timed_out: false,
    };
    assert_eq!(exit_code_for_data(&connect, &ok), EXIT_OK);
    let failed = CliData::Action {
        forward: view("id", "n", ForwardStatus::Error, Some("auth failed")),
        waited: true,
        timed_out: false,
    };
    assert_eq!(exit_code_for_data(&connect, &failed), EXIT_OPERATION_FAILED);
    let timed_out = CliData::Action {
        forward: view("id", "n", ForwardStatus::Connecting, None),
        waited: true,
        timed_out: true,
    };
    assert_eq!(exit_code_for_data(&connect, &timed_out), EXIT_TIMEOUT);
    let status = CliData::Status {
        forward: view("id", "n", ForwardStatus::Error, Some("auth failed")),
        stats: TunnelStats::default(),
    };
    assert_eq!(exit_code_for_data(&Command::List, &status), EXIT_OK);
    let bulk_failed = CliData::Bulk {
        results: vec![BulkResult {
            id: "id".into(),
            name: "n".into(),
            status: ForwardStatus::Error,
            last_error: None,
            timed_out: false,
        }],
        succeeded: 0,
        failed: 1,
    };
    assert_eq!(exit_code_for_data(&Command::DisconnectAll, &bulk_failed), EXIT_OPERATION_FAILED);
    let bulk_timed_out = CliData::Bulk {
        results: vec![BulkResult {
            id: "id".into(),
            name: "n".into(),
            status: ForwardStatus::Connecting,
            last_error: None,
            timed_out: true,
        }],
        succeeded: 0,
        failed: 1,
    };
    assert_eq!(exit_code_for_data(&Command::DisconnectAll, &bulk_timed_out), EXIT_TIMEOUT);
}

#[test]
fn a_waited_connect_that_did_not_connect_exits_five() {
    let vanished = CliData::Action {
        forward: view("id", "n", ForwardStatus::Disconnected, None),
        waited: true,
        timed_out: false,
    };
    assert_eq!(exit_code_for_data(&connect_cmd(true), &vanished), EXIT_OPERATION_FAILED);
    assert_eq!(
        exit_code_for_data(
            &Command::ConnectAll { timeout_secs: 30, wait: true },
            &CliData::Bulk {
                results: vec![BulkResult {
                    id: "id".into(),
                    name: "n".into(),
                    status: ForwardStatus::Disconnected,
                    last_error: None,
                    timed_out: false,
                }],
                succeeded: 0,
                failed: 0,
            }
        ),
        EXIT_OPERATION_FAILED
    );
    assert_eq!(exit_code_for_data(&Command::Disconnect { target: "n".into() }, &vanished), EXIT_OK);
    let dispatched = CliData::Action {
        forward: view("id", "n", ForwardStatus::Connecting, None),
        waited: false,
        timed_out: false,
    };
    assert_eq!(exit_code_for_data(&connect_cmd(false), &dispatched), EXIT_OK);
}

#[test]
fn requests_carry_the_flags_the_user_typed() {
    let req = build_request(&Command::Connect {
        target: "prod-db".into(),
        timeout_secs: 45,
        wait: true,
        force: true,
    });
    assert_eq!(req.cmd, CliCommand::Connect);
    assert_eq!(req.target.as_deref(), Some("prod-db"));
    assert_eq!(req.timeout_ms, Some(45_000));
    assert!(req.wait);
    assert!(req.force, "--force must reach the server");
    assert!(!build_request(&connect_cmd(true)).force, "connect is idempotent unless --force");

    let req = build_request(&Command::ConnectAll { timeout_secs: 30, wait: false });
    assert_eq!(req.cmd, CliCommand::ConnectAll);
    assert!(!req.wait);
    assert!(req.target.is_none());
}

#[test]
fn the_read_timeout_covers_the_servers_own_budget() {
    let waiting = read_timeout(&Command::Connect {
        target: "x".into(),
        timeout_secs: 300,
        wait: true,
        force: false,
    });
    assert!(waiting > Duration::from_secs(300), "{waiting:?}");
    let not_waiting = read_timeout(&Command::Connect {
        target: "x".into(),
        timeout_secs: 300,
        wait: false,
        force: false,
    });
    assert_eq!(not_waiting, Duration::from_secs(DEFAULT_READ_TIMEOUT_SECS));
}

#[test]
fn transport_failures_map_to_the_documented_exit_codes() {
    let path = "/tmp/does-not-matter.sock";
    assert_eq!(client_error_report(&ClientError::NotRunning, path, 1).1, EXIT_NOT_RUNNING);
    assert_eq!(client_error_report(&ClientError::TimedOut, path, 1).1, EXIT_TIMEOUT);
    assert_eq!(
        client_error_report(&ClientError::Io("broken pipe".into()), path, 1).1,
        EXIT_INTERNAL
    );
    assert_eq!(
        client_error_report(&ClientError::Protocol("garbage".into()), path, 1).1,
        EXIT_INTERNAL
    );
    assert!(NOT_RUNNING_HINT.contains("open -a"), "hint must be actionable");
}

#[test]
fn timed_out_report_names_the_budget_and_the_socket() {
    let (text, code) = client_error_report(&ClientError::TimedOut, "/tmp/tp.sock", 40);
    assert_eq!(text, "error: Tunnel Pilot did not answer within 40s on /tmp/tp.sock");
    assert_eq!(code, EXIT_TIMEOUT);
}

#[test]
fn both_read_timeout_error_kinds_are_recognized() {
    for kind in [ErrorKind::WouldBlock, ErrorKind::TimedOut] {
        assert_eq!(
            classify_read_error(&Error::new(kind, "timed out")),
            ClientError::TimedOut,
            "{kind:?}"
        );
    }
    assert!(matches!(
        classify_read_error(&Error::new(ErrorKind::BrokenPipe, "gone")),
        ClientError::Io(_)
    ));
}

#[test]
fn read_error_outcome_keeps_the_text_of_other_failures() {
    assert_eq!(
        read_error_outcome(IoErrorKind::Other, "gone".to_string()),
        ClientError::Io("gone".to_string())
    );
}

#[test]
fn byte_formatting_is_ascii_and_stable() {
    assert_eq!(format_bytes(0), "0 B");
    assert_eq!(format_bytes(512), "512 B");
    assert_eq!(format_bytes(2048), "2.0 KB");
    assert_eq!(format_bytes(5 * 1024 * 1024), "5.0 MB");
}

#[test]
fn byte_formatting_rounds_to_one_decimal() {
    assert_eq!(format_bytes(1536), "1.5 KB");
    assert_eq!(format_bytes(1023), "1023 B");
    assert_eq!(format_bytes(1024), "1.0 KB");
    assert_eq!(format_bytes(1024 * 1024 * 1024), "1.0 GB");
}

fn shim_status_fixture() -> CliShimStatus {
    CliShimStatus {
        supported: true,
        installed: true,
        path: Some("/Users/me/.local/bin/tunnel-pilot".into()),
        target: Some(ShimTarget::UserLocal),
        links_to_current: true,
        linked_path: Some("/Applications/Tunnel Pilot.app/Contents/MacOS/tunnel-pilot".into()),
        linked_elsewhere: false,
        conflict: false,
        install_target: Some(ShimTarget::UserLocal),
        install_path: Some("/Users/me/.local/bin/tunnel-pilot".into()),
        needs_elevation: false,
        current_exe: Some("/Applications/Tunnel Pilot.app/Contents/MacOS/tunnel-pilot".into()),
        dev_build: false,
        entries: Vec::new(),
    }
}

#[test]
fn shim_rendering_states_the_path_and_the_problem() {
    let out = render_shim_status(&shim_status_fixture());
    assert!(out.contains("installed   yes"), "{out}");
    assert!(out.contains("/Users/me/.local/bin/tunnel-pilot"), "{out}");
    assert!(!out.contains("warning"), "a healthy shim has no warning: {out}");

    let stale = CliShimStatus { links_to_current: false, linked_elsewhere: true, ..shim_status_fixture() };
    let out = render_shim_status(&stale);
    assert!(out.contains("needs attention"), "{out}");
    assert!(out.contains("re-run install-cli"), "{out}");

    let absent = CliShimStatus {
        installed: false,
        links_to_current: false,
        path: None,
        linked_path: None,
        target: None,
        needs_elevation: true,
        install_path: Some("/usr/local/bin/tunnel-pilot".into()),
        ..shim_status_fixture()
    };
    let out = render_shim_status(&absent);
    assert!(out.contains("installed   no"), "{out}");
    assert!(out.contains("administrator rights"), "{out}");

    let unsupported = render_shim_status(&CliShimStatus::unsupported());
    assert!(unsupported.contains("macOS and Linux only"), "{unsupported}");
}

#[test]
fn shim_errors_map_onto_the_existing_exit_codes() {
    assert_eq!(exit_code_for_shim_error(&AppError::InvalidInput("dev build".into())), EXIT_USAGE);
    assert_eq!(exit_code_for_shim_error(&AppError::Io("permission denied".into())), EXIT_INTERNAL);
    assert_eq!(exit_code_for_shim_error(&AppError::Internal("boom".into())), EXIT_INTERNAL);
}

#[test]
fn render_of_a_list_payload_matches_render_list() {
    let forwards = vec![view("id-1", "prod-db", ForwardStatus::Connected, None)];
    let data = CliData::List { forwards: forwards.clone() };
    assert_eq!(render(&data, "9.9.9"), render_list(&forwards));
}
