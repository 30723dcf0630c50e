use tunnel_pilot::credentials::{CredentialStore, SECRETS_FILE_NAME};
use tunnel_pilot::error::AppError;
use tunnel_pilot::ssh::client::auth_timed_out;
use tunnel_pilot::state::models::{
    default_bind_address, default_keepalive_interval, default_keepalive_max, default_ssh_port,
    AppSettings, ForwardConfig, ForwardStatus, TunnelGroup, TunnelStats,
};
use tunnel_pilot::state::AppState;
use tunnel_pilot::storage::backup::natural_key;
use tunnel_pilot::storage::config_file::ConfigDocument;
use tunnel_pilot::text::u64_to_string;
use tunnel_pilot::tray::animation::ConnectingAnimator;
use tunnel_pilot::updater::{auto_check_on_startup, install_failed, no_pending_update};
use tunnel_pilot::window::close_hides_to_tray;

fn forward_fixture(id: &str) -> ForwardConfig {
    ForwardConfig {
        id: id.into(),
        name: "Prod DB".into(),
        ssh_host: "bastion.example.com".into(),
        ssh_port: 2222,
        ssh_username: "deploy".into(),
        identity_file_path: None,
        has_stored_password: false,
        local_bind_address: "127.0.0.1".into(),
        local_port: 15432,
        remote_host: "db.internal".into(),
        remote_port: 5432,
        keep_alive_interval_sec: 30,
        keep_alive_max_count: 5,
        group_id: None,
        tags: vec![],
    }
}

#[test]
fn missing_config_fields_take_the_documented_defaults() {
    assert_eq!(default_ssh_port(), 22);
    assert_eq!(default_bind_address(), "127.0.0.1");
    assert_eq!(default_keepalive_interval(), 30);
    assert_eq!(default_keepalive_max(), 5);
}

#[test]
fn a_password_is_needed_only_without_key_and_stored_secret() {
    let mut cfg = forward_fixture("a");
    assert!(cfg.needs_password());
    cfg.has_stored_password = true;
    assert!(!cfg.needs_password());
    cfg.has_stored_password = false;
    cfg.identity_file_path = Some("~/.ssh/id_ed25519".into());
    assert!(!cfg.needs_password());
}

#[test]
fn the_natural_key_ignores_id_user_and_bind_address() {
    let a = forward_fixture("a");
    let mut b = forward_fixture("b");
    b.ssh_username = "other".into();
    b.local_bind_address = "0.0.0.0".into();
    assert_eq!(natural_key(&a), natural_key(&b));
    assert_eq!(
        natural_key(&a),
        ("Prod DB".to_string(), "bastion.example.com".to_string(), 2222, 15432, "db.internal".to_string(), 5432)
    );
    b.remote_port = 5433;
    assert_ne!(natural_key(&a), natural_key(&b));
}

#[test]
fn stats_clone_keeps_every_field() {
    let s = TunnelStats {
        active_connections: 2,
        total_bytes_up: 10,
        total_bytes_down: 20,
        last_ping_latency_ms: Some(7),
        connected_since: Some("2024-01-01T00:00:00Z".into()),
    };
    assert_eq!(s.clone_stats(), s);
}

#[test]
fn a_document_clone_keeps_its_sections() {
    let mut doc = ConfigDocument::default();
    doc.forwards.push(forward_fixture("a"));
    doc.groups.push(TunnelGroup { id: "g".into(), name: "G".into(), color: None, order: 1, collapsed: false });
    doc.settings.auto_reconnect = false;
    let copy = doc.clone_document();
    assert_eq!(copy.schema_version, doc.schema_version);
    assert_eq!(copy.forwards, doc.forwards);
    assert_eq!(copy.groups, doc.groups);
    assert_eq!(copy.settings, doc.settings);
}

#[test]
fn event_payloads_carry_what_they_announce() {
    let state = AppState::new_headless();
    let p = state.emit_status("a", ForwardStatus::Error, Some("boom".into()));
    assert_eq!(p.id, "a");
    assert_eq!(p.status, ForwardStatus::Error);
    assert_eq!(p.last_error, Some("boom".to_string()));
    let s = state.emit_stats("a", TunnelStats { active_connections: 3, ..TunnelStats::default() });
    assert_eq!(s.id, "a");
    assert_eq!(s.stats.active_connections, 3);
}

#[test]
fn the_hydrate_snapshot_reflects_the_state() {
    let mut state = AppState::new_headless();
    state.upsert_config(forward_fixture("a"));
    let snap = state.hydrate_snapshot();
    assert_eq!(snap.forwards, vec![forward_fixture("a")]);
    assert!(snap.groups.is_empty());
    assert_eq!(snap.settings, AppSettings::default());
    assert!(snap.keychain_available);
}

#[test]
fn the_fallback_file_lives_in_the_app_dir() {
    let store = CredentialStore::from_app_dir("/tmp/app");
    assert_eq!(store.fallback_path(), format!("/tmp/app/{SECRETS_FILE_NAME}"));
    let store = CredentialStore::from_app_dir("/tmp/app/");
    assert_eq!(store.fallback_path(), format!("/tmp/app/{SECRETS_FILE_NAME}"));
}

#[test]
fn updater_and_ssh_errors_carry_their_messages() {
    assert_eq!(auth_timed_out(), AppError::Connection("SSH authentication timed out after 30s".into()));
    assert_eq!(
        no_pending_update(),
        AppError::Updater("no pending update \u{2014} run check_update first".into())
    );
    assert_eq!(install_failed("disk full"), AppError::Updater("update install failed: disk full".into()));
    assert!(auto_check_on_startup(true));
    assert!(!auto_check_on_startup(false));
}

#[test]
fn the_animator_reports_whether_it_is_active() {
    let mut a = ConnectingAnimator::new(4);
    assert!(!a.is_active());
    assert!(a.set_active(true));
    assert!(a.is_active());
    assert!(!a.set_active(true));
    assert!(a.set_active(false));
    assert!(!a.is_active());
}

#[test]
fn closing_the_window_hides_it_to_the_tray() {
    assert!(close_hides_to_tray());
}

#[test]
fn numbers_render_in_decimal() {
    assert_eq!(u64_to_string(0), "0");
    assert_eq!(u64_to_string(42), "42");
    assert_eq!(u64_to_string(u64::MAX), "18446744073709551615");
}
