use tunnel_pilot::cli::protocol::{
    status_label, CliCommand, CliRequest, CliResponse, ForwardView, DEFAULT_TIMEOUT_MS,
    MAX_TIMEOUT_MS, MIN_TIMEOUT_MS, PROTOCOL_VERSION,
};
use tunnel_pilot::cli::server::{
    clear_stale_socket, malformed_request, remove_socket, request_text, SocketPathState,
};
use tunnel_pilot::cli::{
    check_socket_path_len, default_socket_path, platform_config_dir, resolved_socket_path,
    socket_path_from_env, socket_path_in, MAX_SOCKET_PATH_BYTES, SOCKET_ENV,
};
use tunnel_pilot::error::AppError;
use tunnel_pilot::state::models::{ForwardConfig, ForwardRuntime, ForwardStatus, TunnelStats};

fn sample_config(id: &str, name: &str) -> ForwardConfig {
    ForwardConfig {
        id: id.to_string(),
        name: name.to_string(),
        ssh_host: "bastion.example.com".into(),
        ssh_port: 22,
        ssh_username: "deploy".into(),
        identity_file_path: None,
        has_stored_password: true,
        local_bind_address: "127.0.0.1".into(),
        local_port: 5432,
        remote_host: "db.internal".into(),
        remote_port: 5432,
        keep_alive_interval_sec: 30,
        keep_alive_max_count: 5,
        group_id: None,
        tags: vec!["prod".into()],
    }
}

fn runtime(status: ForwardStatus) -> ForwardRuntime {
    ForwardRuntime { status, stats: TunnelStats::default(), last_error: None }
}

#[test]
fn socket_path_is_config_dir_cli_cli_sock() {
    let p = socket_path_in("/tmp/cfg");
    assert_eq!(p, "/tmp/cfg/cli/cli.sock");
}

#[test]
fn path_length_guard_accepts_a_typical_path() {
    let p = "/Users/someone/Library/Application Support/com.kalfian.tunnelpilot/cli/cli.sock";
    assert!(p.len() <= MAX_SOCKET_PATH_BYTES);
    assert!(check_socket_path_len(p).is_ok());
}

#[test]
fn path_length_guard_rejects_and_names_the_env_var() {
    let long = format!("/tmp/{}/cli.sock", "x".repeat(120));
    let err = check_socket_path_len(&long).expect_err("must reject an over-long path");
    let msg = err.to_text();
    assert!(msg.contains(SOCKET_ENV), "error must name the env override");
    assert!(msg.contains("sun_path"), "error must explain the limit");
}

#[test]
fn the_override_wins_only_when_non_empty() {
    assert_eq!(resolved_socket_path("/tmp/cfg", Some("/tmp/tp.sock")), "/tmp/tp.sock");
    assert_eq!(resolved_socket_path("/tmp/cfg", Some("")), "/tmp/cfg/cli/cli.sock");
    assert_eq!(resolved_socket_path("/tmp/cfg", None), "/tmp/cfg/cli/cli.sock");
    assert_eq!(socket_path_from_env(Some(String::new())), None);
    assert_eq!(socket_path_from_env(Some("/x.sock".into())), Some("/x.sock".to_string()));
}

#[test]
fn client_socket_path_follows_the_platform_config_dir() {
    assert_eq!(
        platform_config_dir(true, Some("/Users/me"), None),
        Some("/Users/me/Library/Application Support".to_string())
    );
    assert_eq!(platform_config_dir(false, Some("/home/me"), Some("/xdg")), Some("/xdg".to_string()));
    assert_eq!(platform_config_dir(false, Some("/home/me"), None), Some("/home/me/.config".to_string()));
    assert_eq!(
        default_socket_path(None, Some("/home/me/.config")),
        Some("/home/me/.config/com.kalfian.tunnelpilot/cli/cli.sock".to_string())
    );
    assert_eq!(default_socket_path(Some("/o.sock"), None), Some("/o.sock".to_string()));
}

#[test]
fn timeout_is_clamped_and_defaulted() {
    let mut req = CliRequest::new(CliCommand::Connect);
    assert_eq!(req.effective_timeout_ms(), DEFAULT_TIMEOUT_MS);
    req.timeout_ms = Some(1);
    assert_eq!(req.effective_timeout_ms(), MIN_TIMEOUT_MS);
    req.timeout_ms = Some(9_999_999);
    assert_eq!(req.effective_timeout_ms(), MAX_TIMEOUT_MS);
    req.timeout_ms = Some(45_000);
    assert_eq!(req.effective_timeout_ms(), 45_000);
}

#[test]
fn forward_view_maps_config_and_runtime() {
    let cfg = sample_config("id-1", "prod-db");
    let view = ForwardView::from_parts(&cfg, &runtime(ForwardStatus::Connected));
    assert_eq!(view.id, "id-1");
    assert_eq!(view.name, "prod-db");
    assert_eq!(view.local_endpoint(), "127.0.0.1:5432");
    assert_eq!(view.remote_endpoint(), "db.internal:5432");
    assert_eq!(view.status, ForwardStatus::Connected);
    assert!(view.has_stored_password);
    assert_eq!(view.tags, vec!["prod".to_string()]);
}

#[test]
fn status_labels_match_the_wire_form() {
    assert_eq!(status_label(ForwardStatus::Disconnected), "disconnected");
    assert_eq!(status_label(ForwardStatus::Connecting), "connecting");
    assert_eq!(status_label(ForwardStatus::Connected), "connected");
    assert_eq!(status_label(ForwardStatus::Disconnecting), "disconnecting");
    assert_eq!(status_label(ForwardStatus::Error), "error");
}

#[test]
fn responses_carry_exactly_one_of_data_and_error() {
    let err = CliResponse::err(AppError::NotFound("forward x".into()));
    assert!(!err.ok && err.data.is_none() && err.error.is_some());
    assert_eq!(err.v, PROTOCOL_VERSION);
}

#[test]
fn stale_socket_handling_never_touches_a_non_socket() {
    assert_eq!(clear_stale_socket("/tmp/x.sock", SocketPathState::Missing), Ok(false));
    assert_eq!(clear_stale_socket("/tmp/x.sock", SocketPathState::StaleSocket), Ok(true));
    let err = clear_stale_socket("/tmp/x.sock", SocketPathState::NotASocket).expect_err("refused");
    assert_eq!(
        err,
        AppError::InvalidInput(
            "/tmp/x.sock exists and is not a socket; refusing to remove it. Point TUNNEL_PILOT_SOCKET somewhere else"
                .into()
        )
    );
    let err = clear_stale_socket("/tmp/x.sock", SocketPathState::LiveSocket).expect_err("busy");
    assert_eq!(
        err,
        AppError::Internal("another Tunnel Pilot instance is already serving /tmp/x.sock".into())
    );
    assert!(remove_socket(SocketPathState::StaleSocket));
    assert!(!remove_socket(SocketPathState::NotASocket));
    assert!(!remove_socket(SocketPathState::Missing));
}

#[test]
fn blank_request_lines_are_skipped_and_others_trimmed() {
    assert_eq!(request_text("   \n"), None);
    assert_eq!(request_text("  {\"v\":1}\r\n"), Some("{\"v\":1}".to_string()));
    let r = malformed_request("expected value");
    assert!(!r.ok);
    assert_eq!(r.error, Some(AppError::InvalidInput("malformed request line: expected value".into())));
}
