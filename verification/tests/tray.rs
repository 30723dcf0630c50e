use tunnel_pilot::state::models::{ForwardConfig, ForwardStatus, UpdateStatus};
use tunnel_pilot::state::tunnel_registry::TunnelEntry;
use tunnel_pilot::state::AppState;
use tunnel_pilot::tray::animation::{AnimationStep, ConnectingAnimator};
use tunnel_pilot::tray::icon::{dot_png_asset, png_asset, tray_icon_for_count, StatusDot, TrayIcon, MAX_BADGE};
use tunnel_pilot::tray::menu::{
    build_current_menu, build_menu_model, build_tauri_menu, connected_count, gather_tunnel_states,
    handle_menu_event, parse_tunnel_item_id, primary_action, tunnel_item_id, tunnel_row_label,
    update_notice_from_status, MenuCommand, MenuEntry, TunnelAction, TunnelState, UpdateNotice,
    ID_CHECK_UPDATE, ID_OPEN, ID_QUIT, ID_START_ALL, ID_STOP_ALL, ID_UPDATE,
};

#[test]
fn zero_is_idle() {
    assert_eq!(tray_icon_for_count(0), TrayIcon::Idle);
}

#[test]
fn one_through_nine_map_to_badge() {
    for n in 1..=9usize {
        assert_eq!(tray_icon_for_count(n), TrayIcon::Badge(n as u8));
    }
}

#[test]
fn clamps_at_nine() {
    assert_eq!(tray_icon_for_count(9), TrayIcon::Badge(9));
    assert_eq!(tray_icon_for_count(10), TrayIcon::Badge(9));
    assert_eq!(tray_icon_for_count(100), TrayIcon::Badge(9));
    assert_eq!(tray_icon_for_count(usize::MAX), TrayIcon::Badge(9));
}

#[test]
fn every_selectable_icon_has_embedded_bytes() {
    assert_eq!(png_asset(TrayIcon::Idle), "tray_icon_idle.png");
    for n in 1..=MAX_BADGE {
        assert_eq!(png_asset(tray_icon_for_count(n)), format!("tray_icon_{n}.png"), "badge {n}");
    }
    assert_eq!(png_asset(TrayIcon::Badge(0)), "tray_icon_1.png");
    assert_eq!(png_asset(TrayIcon::Badge(200)), "tray_icon_9.png");
}

#[test]
fn status_dot_matches_palette() {
    assert_eq!(StatusDot::for_status(ForwardStatus::Connected), StatusDot::Green);
    assert_eq!(StatusDot::for_status(ForwardStatus::Connecting), StatusDot::Yellow);
    assert_eq!(StatusDot::for_status(ForwardStatus::Disconnecting), StatusDot::Yellow);
    assert_eq!(StatusDot::for_status(ForwardStatus::Error), StatusDot::Red);
    assert_eq!(StatusDot::for_status(ForwardStatus::Disconnected), StatusDot::Grey);
}

#[test]
fn every_status_dot_has_embedded_bytes() {
    for (dot, name) in [
        (StatusDot::Green, "dot_green.png"),
        (StatusDot::Yellow, "dot_yellow.png"),
        (StatusDot::Red, "dot_red.png"),
        (StatusDot::Grey, "dot_grey.png"),
    ] {
        assert_eq!(dot_png_asset(dot), name, "dot {dot:?}");
    }
}

fn ts(id: &str, status: ForwardStatus) -> TunnelState {
    TunnelState { id: id.to_string(), name: format!("fwd-{id}"), port: 5000, status }
}

#[test]
fn empty_has_no_bulk() {
    let m = build_menu_model(&[], None);
    assert!(m.tunnels.is_empty());
    assert!(!m.show_start_all);
    assert!(!m.show_stop_all);
    assert!(m.update_notice.is_none());
}

#[test]
fn error_row_exposes_retry() {
    let m = build_menu_model(&[ts("a", ForwardStatus::Error)], None);
    assert!(m.tunnels[0].actions.contains(&TunnelAction::Retry));
}

#[test]
fn connected_row_offers_disconnect_only() {
    let m = build_menu_model(&[ts("a", ForwardStatus::Connected)], None);
    assert_eq!(m.tunnels[0].actions, vec![TunnelAction::Disconnect]);
}

#[test]
fn disconnected_row_offers_connect_only() {
    let m = build_menu_model(&[ts("a", ForwardStatus::Disconnected)], None);
    assert_eq!(m.tunnels[0].actions, vec![TunnelAction::Connect]);
}

#[test]
fn disconnecting_row_has_no_actions() {
    let m = build_menu_model(&[ts("a", ForwardStatus::Disconnecting)], None);
    assert!(m.tunnels[0].actions.is_empty());
}

#[test]
fn primary_action_toggles_by_status() {
    assert_eq!(primary_action(ForwardStatus::Disconnected), Some(TunnelAction::Connect));
    assert_eq!(primary_action(ForwardStatus::Connecting), Some(TunnelAction::Disconnect));
    assert_eq!(primary_action(ForwardStatus::Connected), Some(TunnelAction::Disconnect));
    assert_eq!(primary_action(ForwardStatus::Error), Some(TunnelAction::Retry));
    assert_eq!(primary_action(ForwardStatus::Disconnecting), None);
}

#[test]
fn error_row_primary_is_retry() {
    let m = build_menu_model(&[ts("a", ForwardStatus::Error)], None);
    assert_eq!(m.tunnels[0].primary, Some(TunnelAction::Retry));
}

#[test]
fn disconnecting_row_has_no_primary() {
    let m = build_menu_model(&[ts("a", ForwardStatus::Disconnecting)], None);
    assert!(m.tunnels[0].primary.is_none());
}

#[test]
fn row_carries_port_and_label() {
    let mut t = ts("a", ForwardStatus::Connected);
    t.name = "Qismo Prod".to_string();
    t.port = 5431;
    let m = build_menu_model(&[t], None);
    let row = &m.tunnels[0];
    assert_eq!(row.port, 5431);
    assert_eq!(tunnel_row_label(row), "Qismo Prod   :5431");
}

#[test]
fn disconnecting_label_includes_state() {
    let mut t = ts("a", ForwardStatus::Disconnecting);
    t.name = "DB".to_string();
    t.port = 6001;
    let m = build_menu_model(&[t], None);
    assert_eq!(tunnel_row_label(&m.tunnels[0]), "DB   :6001  (Disconnecting…)");
}

#[test]
fn start_all_shown_when_something_startable() {
    let m = build_menu_model(&[ts("a", ForwardStatus::Connected), ts("b", ForwardStatus::Disconnected)], None);
    assert!(m.show_start_all);
    assert!(m.show_stop_all);
}

#[test]
fn start_all_hidden_when_all_connected() {
    let m = build_menu_model(&[ts("a", ForwardStatus::Connected), ts("b", ForwardStatus::Connected)], None);
    assert!(!m.show_start_all);
    assert!(m.show_stop_all);
}

#[test]
fn stop_all_hidden_when_all_disconnected() {
    let m = build_menu_model(&[ts("a", ForwardStatus::Disconnected), ts("b", ForwardStatus::Error)], None);
    assert!(m.show_start_all);
    assert!(!m.show_stop_all);
}

#[test]
fn error_makes_start_all_available() {
    let m = build_menu_model(&[ts("a", ForwardStatus::Error)], None);
    assert!(m.show_start_all);
    assert!(!m.show_stop_all);
}

#[test]
fn connecting_makes_stop_all_available() {
    let m = build_menu_model(&[ts("a", ForwardStatus::Connecting)], None);
    assert!(!m.show_start_all);
    assert!(m.show_stop_all);
}

#[test]
fn connected_count_counts_only_connected() {
    let tunnels = [
        ts("a", ForwardStatus::Connected),
        ts("b", ForwardStatus::Connected),
        ts("c", ForwardStatus::Connecting),
        ts("d", ForwardStatus::Error),
    ];
    assert_eq!(connected_count(&tunnels), 2);
}

#[test]
fn update_notice_flows_through_when_present() {
    let notice = UpdateNotice { version: Some("1.5.0".to_string()) };
    let m = build_menu_model(&[], Some(notice.clone()));
    assert_eq!(m.update_notice, Some(notice));
}

#[test]
fn update_notice_absent_when_none() {
    let m = build_menu_model(&[ts("a", ForwardStatus::Connected)], None);
    assert!(m.update_notice.is_none());
}

#[test]
fn update_notice_from_status_offered_when_available_not_skipped() {
    let status = UpdateStatus {
        available: true,
        version: Some("1.5.0".to_string()),
        notes: Some("changelog".to_string()),
        skipped: false,
        error: None,
    };
    assert_eq!(update_notice_from_status(&status), Some(UpdateNotice { version: Some("1.5.0".to_string()) }));
}

#[test]
fn update_notice_from_status_hidden_when_unavailable() {
    assert!(update_notice_from_status(&UpdateStatus::default()).is_none());
}

#[test]
fn update_notice_from_status_hidden_when_skipped() {
    let status = UpdateStatus {
        available: true,
        version: Some("1.5.0".to_string()),
        notes: None,
        skipped: true,
        error: None,
    };
    assert!(update_notice_from_status(&status).is_none());
}

#[test]
fn update_notice_carries_no_version_when_missing() {
    let status = UpdateStatus { available: true, version: None, notes: None, skipped: false, error: None };
    assert_eq!(update_notice_from_status(&status), Some(UpdateNotice { version: None }));
}

#[test]
fn tunnel_item_id_roundtrips() {
    let id = "550e8400-e29b-41d4-a716-446655440000";
    let item = tunnel_item_id("retry", id);
    assert_eq!(parse_tunnel_item_id(&item), Some(("retry".to_string(), id.to_string())));
}

#[test]
fn non_tunnel_ids_do_not_parse() {
    assert_eq!(parse_tunnel_item_id(ID_OPEN), None);
    assert_eq!(parse_tunnel_item_id(ID_START_ALL), None);
    assert_eq!(parse_tunnel_item_id("noop:status:abc"), None);
}

#[test]
fn menu_events_route_to_their_commands() {
    assert_eq!(handle_menu_event(ID_OPEN), MenuCommand::ShowWindow);
    assert_eq!(handle_menu_event(ID_QUIT), MenuCommand::Quit);
    assert_eq!(handle_menu_event(ID_START_ALL), MenuCommand::StartAll);
    assert_eq!(handle_menu_event(ID_STOP_ALL), MenuCommand::StopAll);
    assert_eq!(handle_menu_event(ID_UPDATE), MenuCommand::InstallUpdate);
    assert_eq!(handle_menu_event(ID_CHECK_UPDATE), MenuCommand::CheckUpdate);
    assert_eq!(handle_menu_event(&tunnel_item_id("connect", "x")), MenuCommand::Connect("x".into()));
    assert_eq!(handle_menu_event(&tunnel_item_id("disconnect", "x")), MenuCommand::Disconnect("x".into()));
    assert_eq!(handle_menu_event(&tunnel_item_id("retry", "x")), MenuCommand::Retry("x".into()));
    assert_eq!(handle_menu_event("noop:empty"), MenuCommand::Ignore);
}

#[test]
fn native_menu_lists_the_update_rows_and_bulk_actions() {
    let model = build_menu_model(&[ts("a", ForwardStatus::Disconnected)], Some(UpdateNotice { version: Some("2.0.0".into()) }));
    let entries = build_tauri_menu(&model);
    match &entries[0] {
        MenuEntry::Item { id, label, .. } => {
            assert_eq!(id, ID_UPDATE);
            assert_eq!(label, "Update available (v2.0.0) — Install");
        }
        other => panic!("expected the update item first, got {other:?}"),
    }
    assert_eq!(entries[1], MenuEntry::Separator);
    let has_start_all = entries.iter().any(|e| matches!(e, MenuEntry::Item { id, .. } if id == ID_START_ALL));
    let has_stop_all = entries.iter().any(|e| matches!(e, MenuEntry::Item { id, .. } if id == ID_STOP_ALL));
    assert!(has_start_all);
    assert!(!has_stop_all);
    let empty = build_tauri_menu(&build_menu_model(&[], None));
    assert!(empty.iter().any(|e| matches!(e, MenuEntry::Item { label, enabled: false, .. } if label == "No forwards configured")));
}

#[test]
fn the_current_menu_reflects_live_status() {
    let mut state = AppState::new_headless();
    state.upsert_config(ForwardConfig {
        id: "a".into(),
        name: "DB".into(),
        ssh_host: "h".into(),
        ssh_port: 22,
        ssh_username: "u".into(),
        identity_file_path: None,
        has_stored_password: false,
        local_bind_address: "127.0.0.1".into(),
        local_port: 6001,
        remote_host: "r".into(),
        remote_port: 1,
        keep_alive_interval_sec: 30,
        keep_alive_max_count: 5,
        group_id: None,
        tags: vec![],
    });
    assert_eq!(gather_tunnel_states(&state)[0].status, ForwardStatus::Disconnected);
    state.registry.insert(TunnelEntry::new("a".into(), ForwardStatus::Connected));
    let (model, _entries) = build_current_menu(&state, &UpdateStatus::default());
    assert_eq!(model.tunnels[0].status, ForwardStatus::Connected);
    assert!(model.update_notice.is_none());
}

#[test]
fn the_connecting_animation_cycles_and_parks() {
    let mut anim = ConnectingAnimator::new(3);
    assert!(anim.spawn());
    assert!(!anim.spawn(), "the loop starts once");
    assert_eq!(anim.tick(), AnimationStep::Park);
    assert!(anim.set_active(true));
    assert!(!anim.set_active(true), "no change, no wake");
    let painted: Vec<AnimationStep> = (0..5).map(|_| anim.tick()).collect();
    assert_eq!(
        painted,
        vec![
            AnimationStep::Paint(0),
            AnimationStep::Paint(1),
            AnimationStep::Paint(2),
            AnimationStep::Paint(0),
            AnimationStep::Paint(1),
        ]
    );
    assert!(anim.set_active(false));
    assert_eq!(anim.tick(), AnimationStep::Park);
    anim.set_active(true);
    assert_eq!(anim.tick(), AnimationStep::Paint(0), "restarts from the first frame");
}
