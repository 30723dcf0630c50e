use std::time::Duration;

use tunnel_pilot::ssh::client::{
    auth_method, auth_rejected, build_config, connect_failed, connect_timed_out, password_for_auth,
    AuthMethod, ClientHandler,
};
use tunnel_pilot::ssh::engine::MAX_FORWARD_FAILURES;
use tunnel_pilot::ssh::forward::{originator, ForwardFailSignal};
use tunnel_pilot::ssh::health::{continue_after_empty_sample, ensure_sampler, sample_ids};
use tunnel_pilot::ssh::reconnect::{backoff, backoff_secs};
use tunnel_pilot::ssh::stats::StatsInner;
use tunnel_pilot::error::AppError;
use tunnel_pilot::state::models::{ForwardConfig, ForwardStatus};
use tunnel_pilot::state::tunnel_registry::{TunnelEntry, TunnelRegistry};

#[test]
fn backoff_sequence_for_delay_5() {
    assert_eq!(backoff(5, 0), Duration::from_secs(5));
    assert_eq!(backoff(5, 1), Duration::from_secs(10));
    assert_eq!(backoff(5, 2), Duration::from_secs(20));
    assert_eq!(backoff(5, 3), Duration::from_secs(40));
    assert_eq!(backoff(5, 4), Duration::from_secs(60));
    assert_eq!(backoff(5, 5), Duration::from_secs(60));
}

#[test]
fn backoff_never_below_1s() {
    assert_eq!(backoff(0, 0), Duration::from_secs(1));
    assert_eq!(backoff(0, 10), Duration::from_secs(1));
}

#[test]
fn backoff_never_above_60s() {
    for attempt in 0..64 {
        assert!(backoff(1, attempt) <= Duration::from_secs(60));
        assert!(backoff(60, attempt) <= Duration::from_secs(60));
    }
}

#[test]
fn backoff_large_attempt_does_not_panic() {
    assert_eq!(backoff(5, 1000), Duration::from_secs(60));
}

#[test]
fn backoff_grows_with_the_attempt() {
    for attempt in 0..20u32 {
        assert!(backoff_secs(3, attempt) <= backoff_secs(3, attempt + 1));
    }
    assert_eq!(backoff_secs(u32::MAX, 0), 60);
}

fn cfg_with_keepalive(interval: u32, max: u32) -> ForwardConfig {
    ForwardConfig {
        id: "t".into(),
        name: "t".into(),
        ssh_host: "h".into(),
        ssh_port: 22,
        ssh_username: "u".into(),
        identity_file_path: None,
        has_stored_password: false,
        local_bind_address: "127.0.0.1".into(),
        local_port: 1,
        remote_host: "r".into(),
        remote_port: 1,
        keep_alive_interval_sec: interval,
        keep_alive_max_count: max,
        group_id: None,
        tags: vec![],
    }
}

#[test]
fn keepalive_normalization_zero_maps_to_defaults() {
    let c = build_config(&cfg_with_keepalive(0, 0));
    assert_eq!(c.keepalive_interval_secs, 10);
    assert_eq!(c.keepalive_max, 3);
}

#[test]
fn keepalive_normalization_nonzero_passes_through() {
    let c = build_config(&cfg_with_keepalive(45, 7));
    assert_eq!(c.keepalive_interval_secs, 45);
    assert_eq!(c.keepalive_max, 7);
}

#[test]
fn authentication_prefers_a_non_empty_identity_file() {
    let mut cfg = cfg_with_keepalive(30, 5);
    assert_eq!(auth_method(&cfg), AuthMethod::Password);
    cfg.identity_file_path = Some(String::new());
    assert_eq!(auth_method(&cfg), AuthMethod::Password);
    cfg.identity_file_path = Some("/k/id".into());
    assert_eq!(auth_method(&cfg), AuthMethod::PublicKey("/k/id".into()));
    assert_eq!(
        password_for_auth(None),
        Err(AppError::Connection("password or identity file required".into()))
    );
    assert_eq!(password_for_auth(Some("pw".into())), Ok("pw".to_string()));
    assert_eq!(
        auth_rejected(&AuthMethod::Password),
        AppError::Ssh("password authentication rejected".into())
    );
    assert_eq!(
        auth_rejected(&AuthMethod::PublicKey("/k".into())),
        AppError::Ssh("publickey authentication rejected".into())
    );
    assert_eq!(connect_failed("refused"), AppError::Ssh("connect failed: refused".into()));
    assert_eq!(connect_timed_out(), AppError::Connection("SSH connect timed out after 15s".into()));
    assert!(ClientHandler.check_server_key());
}

#[test]
fn fail_signal_notifies_only_at_threshold() {
    let mut sig = ForwardFailSignal::new();
    assert!(!sig.record_failure());
    assert_eq!(sig.failures(), 1);
    assert!(!sig.record_failure());
    assert_eq!(sig.failures(), 2);
    assert!(sig.record_failure());
    assert_eq!(sig.failures(), MAX_FORWARD_FAILURES);
}

#[test]
fn success_resets_consecutive_failures() {
    let mut sig = ForwardFailSignal::new();
    sig.record_failure();
    sig.record_failure();
    sig.reset();
    assert_eq!(sig.failures(), 0);
    sig.record_failure();
    assert_eq!(sig.failures(), 1);
}

#[test]
fn originator_falls_back_to_loopback_port_zero() {
    assert_eq!(originator(None), ("127.0.0.1".to_string(), 0));
    assert_eq!(originator(Some(("10.0.0.2".into(), 5555))), ("10.0.0.2".to_string(), 5555));
}

#[test]
fn stats_counters_track_connections_and_bytes() {
    let mut s = StatsInner::new();
    s.connection_opened();
    s.connection_opened();
    s.connection_closed();
    s.connection_closed();
    s.connection_closed();
    assert_eq!(s.active_connections, 0, "never below zero");
    s.add_bytes_up(100);
    s.add_bytes_down(7);
    s.set_latency(0);
    let snap = s.snapshot();
    assert_eq!(snap.total_bytes_up, 100);
    assert_eq!(snap.total_bytes_down, 7);
    assert_eq!(snap.last_ping_latency_ms, None, "zero latency shows as none");
    s.set_latency(42);
    assert_eq!(s.snapshot().last_ping_latency_ms, Some(42));
    s.mark_connected();
    assert!(s.snapshot().connected_since.is_some());
    s.mark_disconnected();
    assert!(s.snapshot().connected_since.is_none());
}

#[test]
fn sample_once_skips_non_connected_and_never_mutates_status() {
    let mut reg = TunnelRegistry::new();
    reg.insert(TunnelEntry::new("up".into(), ForwardStatus::Connected));
    reg.insert(TunnelEntry::new("err".into(), ForwardStatus::Error));
    reg.insert(TunnelEntry::new("conn".into(), ForwardStatus::Connecting));
    assert_eq!(sample_ids(&reg), vec!["up".to_string()]);
    for _ in 0..5 {
        let _ = sample_ids(&reg);
    }
    assert_eq!(reg.current_status("up"), Some(ForwardStatus::Connected));
    assert_eq!(reg.current_status("err"), Some(ForwardStatus::Error));
    assert_eq!(reg.current_status("conn"), Some(ForwardStatus::Connecting));
}

#[test]
fn ensure_sampler_is_idempotent_and_auto_stops() {
    let mut reg = TunnelRegistry::new();
    reg.insert(TunnelEntry::new("a".into(), ForwardStatus::Connected));
    assert!(ensure_sampler(&mut reg));
    assert!(reg.is_sampler_running());
    assert!(!ensure_sampler(&mut reg), "a second ensure starts nothing");
    reg.remove("a");
    assert!(sample_ids(&reg).is_empty());
    assert!(!continue_after_empty_sample(&mut reg, true));
    assert!(!reg.is_sampler_running(), "the sampler stops once nothing is connected");
    assert!(ensure_sampler(&mut reg));
    assert!(continue_after_empty_sample(&mut reg, false));
    assert!(reg.is_sampler_running());
}

#[test]
fn a_snapshot_shows_the_last_latency_and_the_last_connect_marker() {
    let mut s = StatsInner::new();
    let snap = s.snapshot();
    assert_eq!(snap.last_ping_latency_ms, None);
    assert_eq!(snap.connected_since, None);
    s.set_latency(12);
    s.mark_connected();
    assert_eq!(s.snapshot().last_ping_latency_ms, Some(12));
    assert!(s.snapshot().connected_since.is_some());
    s.set_latency(0);
    s.mark_disconnected();
    let snap = s.snapshot();
    assert_eq!(snap.last_ping_latency_ms, None);
    assert_eq!(snap.connected_since, None);
    s.mark_connected();
    s.set_latency(7);
    let snap = s.snapshot();
    assert_eq!(snap.last_ping_latency_ms, Some(7));
    assert!(snap.connected_since.is_some());
}
