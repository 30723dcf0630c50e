use tunnel_pilot::credentials::backend::{InMemoryBackend, NullBackend};
use tunnel_pilot::credentials::fallback::SecretsFile;
use tunnel_pilot::credentials::{lookup_outcome, CredentialStore, Keychain};
use tunnel_pilot::error::AppError;
use tunnel_pilot::logging::{trim_quotes, FieldExtractor, LogBufferLayer, TraceLevel};
use tunnel_pilot::platform::autostart::{reconcile, AutostartChange};
use tunnel_pilot::platform::dock::{macos_dock_icon_present, taskbar_visible};
use tunnel_pilot::platform::notify::{notification_script, notify_connected, notify_error, notify_update_available};
use tunnel_pilot::startup::{launched_from_autostart, startup_plan};
use tunnel_pilot::state::log_buffer::LogBuffer;
use tunnel_pilot::state::models::{AppSettings, ForwardStatus, LogLevel, UpdateStatus};
use tunnel_pilot::state::tunnel_registry::{TunnelEntry, TunnelRegistry};
use tunnel_pilot::state::AppState;
use tunnel_pilot::text::text_less;
use tunnel_pilot::tray::menu::update_notice_from_status;
use tunnel_pilot::updater::{
    run_check, skip_update, CheckTrigger, UpdateProgress, UpdaterState,
};
use tunnel_pilot::window::popover::{hides_on, toggle_popover, PopoverEvent, PopoverState};
use tunnel_pilot::window::quit_app;

#[test]
fn macos_dock_follows_setting_not_visibility() {
    assert!(macos_dock_icon_present(true));
    assert!(!macos_dock_icon_present(false));
}

#[test]
fn taskbar_visible_only_when_shown_and_enabled() {
    assert!(taskbar_visible(true, true));
    assert!(!taskbar_visible(false, true));
    assert!(!taskbar_visible(true, false));
    assert!(!taskbar_visible(false, false));
}

#[test]
fn autostart_reconcile_touches_the_login_item_only_on_mismatch() {
    assert_eq!(reconcile(true, false), AutostartChange::Enable);
    assert_eq!(reconcile(false, true), AutostartChange::Disable);
    assert_eq!(reconcile(true, true), AutostartChange::Keep);
    assert_eq!(reconcile(false, false), AutostartChange::Keep);
}

fn available(version: &str) -> UpdateStatus {
    UpdateStatus { available: true, version: Some(version.to_string()), notes: None, skipped: false, error: None }
}

#[test]
fn skip_flips_cached_status_and_hides_tray_notice() {
    let mut state = UpdaterState::new();
    state.set_latest_status(available("2.1.0"));
    assert!(update_notice_from_status(&state.latest_status()).is_some());
    let refreshed = state.mark_skipped("2.1.0");
    assert!(refreshed.skipped);
    assert!(state.latest_status().skipped);
    assert!(update_notice_from_status(&state.latest_status()).is_none());
}

#[test]
fn skip_of_other_version_leaves_current_offer_visible() {
    let mut state = UpdaterState::new();
    state.set_latest_status(available("2.1.0"));
    let refreshed = state.mark_skipped("2.0.0");
    assert!(!refreshed.skipped);
    assert!(!state.latest_status().skipped);
    assert!(update_notice_from_status(&state.latest_status()).is_some());
}

#[test]
fn a_startup_check_notifies_once_per_version() {
    let mut updater = UpdaterState::new();
    let found = || Ok(Some(("2.2.0".to_string(), Some("notes".to_string()))));
    let first = run_check(&mut updater, &None, CheckTrigger::Startup, found());
    assert!(first.status.available && first.notify);
    let again = run_check(&mut updater, &None, CheckTrigger::Startup, found());
    assert!(!again.notify, "the same version is not announced twice");
    let skipped = run_check(&mut UpdaterState::new(), &Some("2.2.0".into()), CheckTrigger::Startup, found());
    assert!(skipped.status.skipped && !skipped.notify);
    let requested = run_check(&mut UpdaterState::new(), &None, CheckTrigger::UserRequested, found());
    assert!(!requested.notify, "a requested check does not notify");
}

#[test]
fn failed_checks_are_silent_at_startup_and_reported_on_request() {
    let mut updater = UpdaterState::new();
    updater.set_latest_status(available("2.0.0"));
    let quiet = run_check(&mut updater, &None, CheckTrigger::Startup, Err("offline".into()));
    assert_eq!(quiet.status, available("2.0.0"));
    let loud = run_check(&mut updater, &None, CheckTrigger::UserRequested, Err("offline".into()));
    assert_eq!(loud.status.error.as_deref(), Some("offline"));
    assert!(!loud.status.available);
    assert_eq!(updater.latest_status(), loud.status);
}

#[test]
fn skipping_remembers_the_version_in_settings() {
    let mut state = AppState::new_headless();
    let mut updater = UpdaterState::new();
    updater.set_latest_status(available("3.0.0"));
    let status = skip_update(&mut state, &mut updater, "3.0.0".into());
    assert!(status.skipped);
    assert_eq!(state.settings_snapshot().last_skipped_version.as_deref(), Some("3.0.0"));
}

#[test]
fn download_progress_saturates() {
    let p = UpdateProgress::advance(u64::MAX - 1, 10, Some(5));
    assert_eq!(p.downloaded, u64::MAX);
    assert_eq!(UpdateProgress::advance(100, 28, None).downloaded, 128);
}

#[test]
fn notifications_follow_the_setting() {
    let mut state = AppState::new_headless();
    let n = notify_connected(&state, "Prod DB").expect("on by default");
    assert_eq!(n.title, "Tunnel Connected");
    assert_eq!(n.body, "Prod DB is now active.");
    assert_eq!(notify_error(&state, "DB", "auth failed").expect("on").body, "DB: auth failed");
    assert_eq!(
        notify_update_available(&state, "2.0.0").expect("on").body,
        "Tunnel Pilot 2.0.0 is available. Open Tunnel Pilot to update."
    );
    assert_eq!(
        notification_script(&n),
        "display notification \"Prod DB is now active.\" with title \"Tunnel Connected\""
    );
    state.set_settings(AppSettings { show_notifications: false, ..AppSettings::default() });
    assert!(notify_connected(&state, "Prod DB").is_none());
}

#[test]
fn a_login_item_launch_stays_in_the_tray() {
    let args = vec!["tunnel-pilot".to_string(), "--minimized".to_string()];
    assert!(launched_from_autostart(&args));
    assert!(!launched_from_autostart(&["tunnel-pilot".to_string()]));
    let plan = startup_plan(&AppSettings::default(), false, false, &args);
    assert!(!plan.show_window);
    assert!(plan.check_updates);
    assert_eq!(plan.autostart, AutostartChange::Enable);
    assert!(plan.warn_plaintext_secrets);
}

#[test]
fn the_popover_ignores_the_blur_of_its_own_opening_click() {
    let mut state = PopoverState::new();
    assert!(toggle_popover(&mut state, false, 1_000));
    assert!(!hides_on(&state, PopoverEvent::Blurred, 1_100));
    assert!(hides_on(&state, PopoverEvent::Blurred, 1_400));
    assert!(hides_on(&state, PopoverEvent::CloseRequested, 1_100));
    assert!(!hides_on(&state, PopoverEvent::Other, 5_000));
    assert!(!toggle_popover(&mut state, true, 2_000), "a visible popover is hidden");
}

#[test]
fn quitting_disconnects_every_live_tunnel() {
    let mut reg = TunnelRegistry::new();
    reg.insert(TunnelEntry::new("a".into(), ForwardStatus::Connected));
    reg.insert(TunnelEntry::new("b".into(), ForwardStatus::Error));
    assert_eq!(quit_app(&reg), vec!["a".to_string(), "b".to_string()]);
}

#[test]
fn only_crate_events_with_a_message_become_lines() {
    let layer = LogBufferLayer::new();
    let mut buf = LogBuffer::new();
    let mut fields = FieldExtractor::new();
    fields.record_str("message", "connected");
    fields.record_debug("tunnel", "\"Prod DB\"");
    assert!(layer.on_event(&mut buf, "tunnel_pilot_lib::ssh", TraceLevel::Warn, fields.clone()));
    assert!(!layer.on_event(&mut buf, "russh::client", TraceLevel::Error, fields.clone()));
    assert!(!layer.on_event(&mut buf, "tunnel_pilot_lib::ssh", TraceLevel::Debug, fields));
    assert!(!layer.on_event(&mut buf, "tunnel_pilot_lib", TraceLevel::Info, FieldExtractor::new()));
    let lines = buf.snapshot();
    assert_eq!(lines.len(), 1);
    assert_eq!(lines[0].level, LogLevel::Warning);
    assert_eq!(lines[0].tunnel_name.as_deref(), Some("Prod DB"));
    assert_eq!(lines[0].message, "connected");
    assert_eq!(trim_quotes("\"\"x\""), "x");
}

#[test]
fn fallback_roundtrip_set_get_delete() {
    let mut store = CredentialStore::with_backend(Keychain::Null(NullBackend), "/tmp/s.json".into());
    let mut file = SecretsFile::new();
    assert!(!store.keychain_available());
    assert_eq!(store.get_password("f1", &file).expect("get"), None);
    store.set_password("f1", "hunter2", &mut file).expect("set");
    assert_eq!(store.get_password("f1", &file).expect("get"), Some("hunter2".to_string()));
    store.delete_password("f1", &mut file).expect("delete");
    assert_eq!(store.get_password("f1", &file).expect("get"), None);
}

#[test]
fn fallback_isolates_secrets_per_forward() {
    let mut store = CredentialStore::fallback_only("/tmp/s.json".into());
    let mut file = SecretsFile::new();
    store.set_password("a", "secret-a", &mut file).expect("set a");
    store.set_password("b", "secret-b", &mut file).expect("set b");
    store.delete_password("a", &mut file).expect("delete a");
    assert_eq!(store.get_password("a", &file).expect("get a"), None);
    assert_eq!(store.get_password("b", &file).expect("get b"), Some("secret-b".to_string()));
}

#[test]
fn delete_missing_is_idempotent() {
    let mut store = CredentialStore::fallback_only("/tmp/s.json".into());
    let mut file = SecretsFile::new();
    store.delete_password("nope", &mut file).expect("idempotent delete");
}

#[test]
fn keychain_available_does_not_write_fallback_file() {
    let mut store = CredentialStore::with_backend(Keychain::Memory(InMemoryBackend::new()), "/tmp/s.json".into());
    let mut file = SecretsFile::new();
    assert!(store.keychain_available());
    store.set_password("f1", "topsecret", &mut file).expect("set");
    assert_eq!(store.get_password("f1", &file).expect("get"), Some("topsecret".to_string()));
    assert_eq!(file.secrets.entries().len(), 0, "the fallback content stays empty");
}

#[test]
fn fallback_get_falls_through_when_keychain_available_but_empty() {
    let mut store = CredentialStore::in_memory();
    let mut file = SecretsFile::new();
    file.secrets.insert("legacy", "from-file");
    assert_eq!(store.get_password("legacy", &file).expect("get"), Some("from-file".to_string()));
}

#[test]
fn text_order_is_by_character_code() {
    assert!(text_less("Zeta", "alpha"));
    assert!(text_less("ab", "abc"));
    assert!(!text_less("abc", "abc"));
    assert!(!text_less("b", "a"));
}

#[test]
fn a_keychain_answer_wins_fails_or_falls_through_to_the_file() {
    assert_eq!(
        lookup_outcome(Ok(Some("kc".into())), Some("file".into())),
        Ok(Some("kc".to_string()))
    );
    assert_eq!(lookup_outcome(Ok(None), Some("file".into())), Ok(Some("file".to_string())));
    assert_eq!(lookup_outcome(Ok(None), None), Ok(None));
    assert_eq!(
        lookup_outcome(Err(AppError::Credential("keychain read failed: locked".into())), Some("file".into())),
        Err(AppError::Credential("keychain read failed: locked".into()))
    );
}

#[test]
fn deleting_from_a_store_without_keychain_always_succeeds() {
    let mut store = CredentialStore::with_backend(Keychain::Null(NullBackend), "/tmp/s.json".into());
    let mut file = SecretsFile::new();
    assert!(!store.keychain_available());
    assert_eq!(store.delete_password("never-stored", &mut file), Ok(()));
    store.set_password("a", "pw", &mut file).expect("set");
    assert_eq!(store.delete_password("a", &mut file), Ok(()));
    assert_eq!(store.get_password("a", &file).expect("get"), None);
}

#[test]
fn a_store_remembers_its_keychains_probe_answer() {
    let memory = CredentialStore::with_backend(Keychain::Memory(InMemoryBackend::new()), "/tmp/s.json".into());
    assert!(memory.keychain_available());
    let none = CredentialStore::with_backend(Keychain::Null(NullBackend), "/tmp/s.json".into());
    assert!(!none.keychain_available());
}
