use tunnel_pilot::credentials::fallback::SecretsFile;
use tunnel_pilot::credentials::CredentialStore;
use tunnel_pilot::state::log_buffer::{LogBuffer, LOG_CAP};
use tunnel_pilot::storage::config_file::ConfigDocument;
use tunnel_pilot::state::models::{AppSettings, ForwardConfig, ForwardStatus, LogEntry, LogLevel};
use tunnel_pilot::state::tunnel_registry::{transition_allowed, TunnelEntry, TunnelRegistry};
use tunnel_pilot::state::{coalesce, AppState, PersistMsg};
use ForwardStatus::{Connected, Connecting, Disconnected, Disconnecting, Error};

const ALL: [ForwardStatus; 5] = [Disconnected, Connecting, Connected, Disconnecting, Error];

#[test]
fn transition_table_exhaustive_over_all_pairs() {
    let allowed = [
        (Disconnected, Connecting),
        (Connecting, Connected),
        (Connecting, Error),
        (Connecting, Disconnecting),
        (Connected, Error),
        (Connected, Disconnecting),
        (Disconnecting, Disconnected),
        (Error, Connecting),
        (Error, Disconnecting),
    ];
    for &from in &ALL {
        for &to in &ALL {
            let expected = allowed.contains(&(from, to));
            assert_eq!(transition_allowed(from, to), expected, "({from:?} -> {to:?}) allow mismatch");
        }
    }
}

#[test]
fn disconnecting_to_error_is_dropped() {
    assert!(!transition_allowed(Disconnecting, Error));
    assert!(!transition_allowed(Disconnecting, Connected));
    assert!(!transition_allowed(Disconnecting, Connecting));
}

#[test]
fn connecting_to_disconnecting_is_allowed() {
    assert!(transition_allowed(Connecting, Disconnecting));
}

#[test]
fn same_state_is_never_allowed() {
    for &s in &ALL {
        assert!(!transition_allowed(s, s), "{s:?} -> {s:?} must be a no-op");
    }
}

fn registry_with(id: &str, status: ForwardStatus) -> TunnelRegistry {
    let mut reg = TunnelRegistry::new();
    reg.insert(TunnelEntry::new(id.into(), status));
    reg
}

#[test]
fn lifecycle_happy_path() {
    let mut reg = registry_with("a", Disconnected);
    assert!(reg.set_status("a", Connecting, None).applied);
    assert!(reg.set_status("a", Connected, None).applied);
    assert!(reg.set_status("a", Disconnecting, None).applied);
    assert!(reg.set_status("a", Disconnected, None).applied);
    assert_eq!(reg.current_status("a"), Some(Disconnected));
}

#[test]
fn clicks_during_disconnecting_are_no_ops() {
    let mut reg = registry_with("a", Disconnecting);
    assert!(!reg.set_status("a", Connecting, None).applied);
    assert!(!reg.set_status("a", Error, Some("x".into())).applied);
    assert!(!reg.set_status("a", Connected, None).applied);
    assert_eq!(reg.current_status("a"), Some(Disconnecting));
    assert!(reg.set_status("a", Disconnected, None).applied);
}

#[test]
fn session_drop_racing_user_disconnect_never_flashes_error() {
    let mut reg = registry_with("a", Connected);
    assert!(reg.set_status("a", Disconnecting, None).applied);
    assert!(!reg.set_status("a", Error, Some("drop".into())).applied);
    assert_eq!(reg.current_status("a"), Some(Disconnecting));
}

#[test]
fn disconnect_while_connecting_is_allowed_f31() {
    let mut reg = registry_with("a", Connecting);
    assert!(reg.set_status("a", Disconnecting, None).applied);
    assert!(reg.set_status("a", Disconnected, None).applied);
}

#[test]
fn retry_only_acts_when_parked_in_error_f27c() {
    let mut reg = registry_with("a", Connecting);
    assert!(!reg.request_retry("a"));
    assert!(!reg.take_retry_requested("a"));
    reg.insert(TunnelEntry::new("b".into(), Error));
    assert!(reg.request_retry("b"));
    assert!(reg.take_retry_requested("b"));
    assert!(!reg.take_retry_requested("b"));
}

#[test]
fn retry_racing_final_failure_is_honored_f29() {
    let mut reg = registry_with("a", Connected);
    let term = reg.begin_terminal_error("a", Some("final".into()));
    assert!(term.applied);
    assert!(!term.retry_already_requested);
    assert!(reg.request_retry("a"));
    assert!(reg.take_retry_requested("a"));
}

#[test]
fn errors_are_recorded_and_cleared_on_connect() {
    let mut reg = registry_with("a", Connecting);
    reg.set_status("a", Error, Some("auth failed".into()));
    assert_eq!(reg.last_error("a"), Some("auth failed".to_string()));
    reg.set_status("a", Connecting, None);
    assert_eq!(reg.last_error("a"), Some("auth failed".to_string()), "kept while reconnecting");
    reg.set_status("a", Connected, None);
    assert_eq!(reg.last_error("a"), None);
}

#[test]
fn a_write_never_touches_another_tunnel() {
    let mut reg = registry_with("a", Connected);
    reg.insert(TunnelEntry::new("b".into(), Connected));
    reg.set_status("a", Disconnecting, None);
    assert_eq!(reg.current_status("b"), Some(Connected));
}

#[test]
fn start_reservations_block_a_second_start() {
    let mut reg = TunnelRegistry::new();
    assert!(reg.try_begin_start("a"));
    assert!(!reg.try_begin_start("a"), "a concurrent start loses");
    reg.insert(TunnelEntry::new("a".into(), Disconnected));
    assert!(!reg.try_begin_start("a"), "a live id cannot be reserved");
    reg.remove("a");
    assert!(reg.try_begin_start("a"));
    reg.finish_start("a");
    assert!(reg.try_begin_start("a"));
}

fn entry(msg: &str) -> LogEntry {
    LogEntry { level: LogLevel::Info, tunnel_name: None, message: msg.to_string(), timestamp: "00:00:00".to_string() }
}

#[test]
fn buffer_is_newest_first_and_capped() {
    let mut buf = LogBuffer::new();
    for i in 0..(LOG_CAP + 50) {
        buf.push(entry(&format!("m{i}")));
    }
    let snap = buf.snapshot();
    assert_eq!(snap.len(), LOG_CAP, "buffer never exceeds the cap");
    assert_eq!(snap.first().unwrap().message, format!("m{}", LOG_CAP + 49));
    assert_eq!(snap.last().unwrap().message, "m50");
}

#[test]
fn clear_empties_the_buffer() {
    let mut buf = LogBuffer::new();
    buf.push(entry("a"));
    buf.push(entry("b"));
    assert_eq!(buf.snapshot().len(), 2);
    buf.clear();
    assert!(buf.snapshot().is_empty());
}

#[test]
fn formatted_line_shape_matches_spec() {
    let with_tunnel = LogEntry {
        level: LogLevel::Error,
        tunnel_name: Some("Prod DB".into()),
        message: "connection refused".into(),
        timestamp: "12:34:56".into(),
    };
    assert_eq!(with_tunnel.formatted(), "[12:34:56] [ERROR] [Prod DB] connection refused");
    let app_level = LogEntry {
        level: LogLevel::Info,
        tunnel_name: None,
        message: "started".into(),
        timestamp: "00:00:01".into(),
    };
    assert_eq!(app_level.formatted(), "[00:00:01] [INFO] started");
}

#[test]
fn formatted_text_is_newest_first_joined() {
    let mut buf = LogBuffer::new();
    buf.push(entry("old"));
    buf.push(entry("new"));
    let text = buf.formatted_text();
    let lines: Vec<&str> = text.lines().collect();
    assert_eq!(lines.len(), 2);
    assert!(lines[0].contains("new"));
    assert!(lines[1].contains("old"));
}

#[test]
fn log_stamps_the_local_time() {
    let mut buf = LogBuffer::new();
    buf.log(LogLevel::Warning, Some("t".into()), "slow".into());
    let e = &buf.snapshot()[0];
    assert_eq!(e.level, LogLevel::Warning);
    assert_eq!(e.timestamp.len(), 8);
    assert_eq!(&e.timestamp[2..3], ":");
    assert_eq!(&e.timestamp[5..6], ":");
}

fn forward_with_port(id: &str, port: u16) -> ForwardConfig {
    ForwardConfig {
        id: id.to_string(),
        name: format!("fwd-{id}"),
        ssh_host: "bastion.example.com".into(),
        ssh_port: 22,
        ssh_username: "deploy".into(),
        identity_file_path: None,
        has_stored_password: false,
        local_bind_address: "127.0.0.1".into(),
        local_port: port,
        remote_host: "db.internal".into(),
        remote_port: 5432,
        keep_alive_interval_sec: 30,
        keep_alive_max_count: 5,
        group_id: None,
        tags: vec![],
    }
}

#[test]
fn ordered_writer_persists_last_enqueued_snapshot() {
    let mut queue = Vec::new();
    for i in 0..200u16 {
        queue.push(PersistMsg::Forwards(vec![forward_with_port("f", 1000 + i)]));
    }
    let last = vec![forward_with_port("f", 9999), forward_with_port("g", 8888)];
    queue.push(PersistMsg::Forwards(last.clone()));
    let out = coalesce(queue);
    assert_eq!(out.forwards, Some(last));
    assert!(out.settings.is_none());
    assert!(out.groups.is_none());
}

#[test]
fn ordered_writer_coalesces_both_sections_to_latest() {
    let mut queue = Vec::new();
    for i in 0..50u16 {
        queue.push(PersistMsg::Forwards(vec![forward_with_port("f", 2000 + i)]));
        let settings = AppSettings { auto_reconnect_max_retries: i as u32, ..AppSettings::default() };
        queue.push(PersistMsg::Settings(settings));
    }
    let last_forwards = vec![forward_with_port("final", 7777)];
    let last_settings = AppSettings { auto_reconnect_max_retries: 99, show_in_dock: true, ..AppSettings::default() };
    queue.push(PersistMsg::Forwards(last_forwards.clone()));
    queue.push(PersistMsg::Settings(last_settings.clone()));
    let out = coalesce(queue);
    assert_eq!(out.forwards, Some(last_forwards));
    assert_eq!(out.settings, Some(last_settings));
}

#[test]
fn a_hydrated_state_queues_every_mutation_in_order() {
    let mut state =
        AppState::new_hydrated(CredentialStore::in_memory(), SecretsFile::new(), ConfigDocument::default());
    state.upsert_config(forward_with_port("a", 1));
    state.set_settings(AppSettings { show_in_dock: true, ..AppSettings::default() });
    assert!(state.remove_config("a"));
    assert!(!state.remove_config("a"), "removing twice queues nothing the second time");
    let queued = state.take_pending_saves();
    assert_eq!(queued.len(), 3);
    let out = coalesce(queued);
    assert_eq!(out.forwards, Some(vec![]));
    assert!(out.settings.unwrap().show_in_dock);
    assert!(state.take_pending_saves().is_empty());
}

#[test]
fn upsert_keeps_display_position_on_replace() {
    let mut state = AppState::new_headless();
    state.upsert_config(forward_with_port("a", 1));
    state.upsert_config(forward_with_port("b", 2));
    state.upsert_config(forward_with_port("a", 3));
    let snap = state.configs_snapshot();
    assert_eq!(snap.iter().map(|c| c.id.as_str()).collect::<Vec<_>>(), ["a", "b"]);
    assert_eq!(snap[0].local_port, 3);
    assert_eq!(state.get_config("b").map(|c| c.local_port), Some(2));
    assert!(state.get_config("zz").is_none());
}
