use tunnel_pilot::commands::app::app_hydrate;
use tunnel_pilot::commands::backup::{export_backup, import_backup};
use tunnel_pilot::commands::debug::{debug_runtime, debug_set_password, debug_upsert_config};
use tunnel_pilot::commands::forwards::{
    build_ssh_command, clear_forward_password, copy_ssh_command, create_forward, delete_forward,
    duplicate_config, duplicate_forward, get_forward_runtime, list_forwards, reorder_configs,
    reorder_forwards, run_start_all, run_stop_all, set_forward_password, update_forward, StartAction,
};
use tunnel_pilot::commands::groups::{
    assign_forward_group, create_group, delete_group, list_groups, list_tags, next_group_order,
    start_group, stop_group, update_group,
};
use tunnel_pilot::commands::logs::{clear_logs, get_logs, get_logs_text};
use tunnel_pilot::commands::settings::{get_settings, update_settings};
use tunnel_pilot::error::AppError;
use tunnel_pilot::platform::autostart::AutostartChange;
use tunnel_pilot::ssh::engine::{disconnect_forward, DisconnectStart};
use tunnel_pilot::state::models::{
    AppSettings, ForwardConfig, ForwardInput, ForwardStatus, GroupInput, LogEntry, LogLevel,
    TunnelGroup,
};
use tunnel_pilot::state::tunnel_registry::TunnelEntry;
use tunnel_pilot::state::AppState;
use tunnel_pilot::storage::backup::{BackupFile, ImportMode};

fn base_config() -> ForwardConfig {
    ForwardConfig {
        id: "id".into(),
        name: "Prod DB".into(),
        ssh_host: "bastion.example.com".into(),
        ssh_port: 22,
        ssh_username: "deploy".into(),
        identity_file_path: None,
        has_stored_password: false,
        local_bind_address: "127.0.0.1".into(),
        local_port: 5432,
        remote_host: "db.internal".into(),
        remote_port: 5432,
        keep_alive_interval_sec: 30,
        keep_alive_max_count: 5,
        group_id: None,
        tags: vec![],
    }
}

fn input(name: &str) -> ForwardInput {
    ForwardInput {
        name: name.into(),
        ssh_host: "new.example.com".into(),
        ssh_port: 22,
        ssh_username: "deploy".into(),
        identity_file_path: None,
        local_bind_address: "127.0.0.1".into(),
        local_port: 6000,
        remote_host: "db.internal".into(),
        remote_port: 5432,
        keep_alive_interval_sec: 30,
        keep_alive_max_count: 5,
        group_id: None,
        tags: vec![],
    }
}

fn with_id(id: &str) -> ForwardConfig {
    ForwardConfig { id: id.into(), ..base_config() }
}

#[test]
fn default_case_emits_p_22_and_no_bind_prefix() {
    let cfg = base_config();
    assert_eq!(
        build_ssh_command(&cfg),
        "ssh -N -L 5432:db.internal:5432 -p 22 deploy@bastion.example.com"
    );
}

#[test]
fn non_default_bind_address_adds_prefix() {
    let cfg = ForwardConfig { local_bind_address: "0.0.0.0".into(), ..base_config() };
    assert_eq!(
        build_ssh_command(&cfg),
        "ssh -N -L 0.0.0.0:5432:db.internal:5432 -p 22 deploy@bastion.example.com"
    );
}

#[test]
fn non_default_ssh_port_is_emitted() {
    let cfg = ForwardConfig { ssh_port: 2222, ..base_config() };
    assert!(build_ssh_command(&cfg).contains("-p 2222"));
}

#[test]
fn identity_file_adds_i_flag_unquoted_when_no_space() {
    let cfg = ForwardConfig { identity_file_path: Some("/Users/me/.ssh/id_ed25519".into()), ..base_config() };
    assert_eq!(
        build_ssh_command(&cfg),
        "ssh -N -L 5432:db.internal:5432 -p 22 -i /Users/me/.ssh/id_ed25519 deploy@bastion.example.com"
    );
}

#[test]
fn identity_file_with_space_is_quoted() {
    let cfg = ForwardConfig { identity_file_path: Some("/Users/me/My Keys/id".into()), ..base_config() };
    assert_eq!(
        build_ssh_command(&cfg),
        "ssh -N -L 5432:db.internal:5432 -p 22 -i \"/Users/me/My Keys/id\" deploy@bastion.example.com"
    );
}

#[test]
fn empty_identity_path_is_ignored() {
    let cfg = ForwardConfig { identity_file_path: Some(String::new()), ..base_config() };
    assert!(!build_ssh_command(&cfg).contains("-i"));
}

#[test]
fn command_never_contains_a_password() {
    let out = build_ssh_command(&base_config());
    assert!(!out.to_lowercase().contains("password"));
}

#[test]
fn duplicate_appends_copy_suffix_new_id_and_strips_password() {
    let source = ForwardConfig {
        id: "orig".into(),
        name: "Prod DB".into(),
        has_stored_password: true,
        ..base_config()
    };
    let dup = duplicate_config(source.clone());
    assert_eq!(dup.name, "Prod DB (copy)");
    assert_ne!(dup.id, source.id, "duplicate gets a fresh id");
    assert_eq!(dup.id.len(), 36);
    assert!(!dup.has_stored_password, "duplicate never inherits the secret");
    assert_eq!(dup.ssh_host, source.ssh_host);
    assert_eq!(dup.local_port, source.local_port);
}

#[test]
fn reorder_moves_known_ids_and_preserves_omitted() {
    let current = vec![with_id("a"), with_id("b"), with_id("c")];
    let ordered = vec!["c".to_string(), "b".to_string(), "zzz".to_string()];
    let out = reorder_configs(current, &ordered);
    assert_eq!(out.iter().map(|c| c.id.clone()).collect::<Vec<_>>(), ["c", "b", "a"]);
}

#[test]
fn update_forward_force_disconnects_a_live_tunnel() {
    let mut state = AppState::new_headless();
    let original = ForwardConfig {
        id: "live".into(),
        name: "Before".into(),
        has_stored_password: true,
        ..base_config()
    };
    debug_upsert_config(&mut state, original);
    state.registry.insert(TunnelEntry::new("live".into(), ForwardStatus::Connected));
    assert!(state.registry.contains("live"));

    // The edit of a live forward tears it down first.
    assert_eq!(
        disconnect_forward(&mut state, "live"),
        DisconnectStart::Proceed { emit_disconnecting: true }
    );
    state.registry.remove("live");
    let updated = update_forward(&mut state, "live".into(), input("After")).expect("update");

    assert!(!state.registry.contains("live"));
    assert_eq!(updated.id, "live");
    assert_eq!(updated.name, "After");
    assert_eq!(updated.ssh_host, "new.example.com");
    assert!(updated.has_stored_password, "the stored-password flag is preserved across an edit");
    assert_eq!(list_forwards(&state), vec![updated]);
}

#[test]
fn update_of_an_unknown_forward_is_not_found() {
    let mut state = AppState::new_headless();
    let err = update_forward(&mut state, "nope".into(), input("x")).expect_err("unknown");
    assert_eq!(err, AppError::NotFound("forward nope".into()));
    assert!(list_forwards(&state).is_empty());
}

#[test]
fn create_duplicate_and_delete_forwards() {
    let mut state = AppState::new_headless();
    let created = create_forward(&mut state, input("Web"));
    assert_eq!(created.id.len(), 36);
    assert!(!created.has_stored_password);
    let copy = duplicate_forward(&mut state, &created.id).expect("duplicate");
    assert_eq!(copy.name, "Web (copy)");
    assert_eq!(list_forwards(&state).len(), 2);
    assert_eq!(
        duplicate_forward(&mut state, "missing").expect_err("unknown"),
        AppError::NotFound("forward missing".into())
    );
    delete_forward(&mut state, &created.id);
    let left = list_forwards(&state);
    assert_eq!(left.len(), 1);
    assert_eq!(left[0].id, copy.id);
}

#[test]
fn reorder_forwards_over_the_state_keeps_every_forward() {
    let mut state = AppState::new_headless();
    for id in ["a", "b", "c"] {
        debug_upsert_config(&mut state, with_id(id));
    }
    reorder_forwards(&mut state, &["b".to_string()]);
    let ids: Vec<String> = list_forwards(&state).into_iter().map(|c| c.id).collect();
    assert_eq!(ids, ["b", "a", "c"]);
}

#[test]
fn copy_ssh_command_is_the_built_line_or_not_found() {
    let mut state = AppState::new_headless();
    debug_upsert_config(&mut state, base_config());
    assert_eq!(
        copy_ssh_command(&state, "id").expect("known"),
        "ssh -N -L 5432:db.internal:5432 -p 22 deploy@bastion.example.com"
    );
    assert_eq!(copy_ssh_command(&state, "x"), Err(AppError::NotFound("forward x".into())));
}

#[test]
fn password_set_read_and_clear_round_trip() {
    let mut state = AppState::new_headless();
    debug_upsert_config(&mut state, base_config());
    set_forward_password(&mut state, "id", "s3cret").expect("stored");
    assert!(list_forwards(&state)[0].has_stored_password);
    assert_eq!(state.get_password("id"), Some("s3cret".to_string()));
    clear_forward_password(&mut state, "id").expect("cleared");
    assert!(!list_forwards(&state)[0].has_stored_password);
    assert_eq!(state.get_password("id"), None);
    assert_eq!(
        set_forward_password(&mut state, "other", "x"),
        Err(AppError::NotFound("forward other".into()))
    );
}

#[test]
fn debug_password_write_is_read_back() {
    let mut state = AppState::new_headless();
    debug_set_password(&mut state, "a", "pw".to_string());
    assert_eq!(state.get_password("a"), Some("pw".to_string()));
}

#[test]
fn runtime_of_a_missing_tunnel_is_the_disconnected_default() {
    let mut state = AppState::new_headless();
    let rt = get_forward_runtime(&state, "ghost", None);
    assert_eq!(rt.status, ForwardStatus::Disconnected);
    assert_eq!(rt.stats.active_connections, 0);
    assert!(rt.last_error.is_none());
    assert!(debug_runtime(&state, "ghost", None).is_none());
    state.registry.insert(TunnelEntry::new("live".into(), ForwardStatus::Connected));
    assert_eq!(debug_runtime(&state, "live", None).expect("live").status, ForwardStatus::Connected);
}

#[test]
fn start_all_and_stop_all_plan_over_the_state() {
    let mut state = AppState::new_headless();
    for id in ["up", "err", "off"] {
        debug_upsert_config(&mut state, with_id(id));
    }
    state.registry.insert(TunnelEntry::new("up".into(), ForwardStatus::Connected));
    state.registry.insert(TunnelEntry::new("err".into(), ForwardStatus::Error));
    let plan = run_start_all(&state);
    assert_eq!(
        plan,
        vec![
            ("up".to_string(), StartAction::Leave),
            ("err".to_string(), StartAction::Retry),
            ("off".to_string(), StartAction::Connect),
        ]
    );
    assert_eq!(run_stop_all(&state), vec!["up".to_string(), "err".to_string()]);
}

fn group_input(name: &str) -> GroupInput {
    GroupInput { name: name.into(), color: Some("#EF4444".into()), collapsed: false }
}

#[test]
fn new_groups_sort_last() {
    let mut state = AppState::new_headless();
    let first = create_group(&mut state, group_input("Prod"));
    let second = create_group(&mut state, group_input("Staging"));
    assert_eq!(first.order, 0);
    assert_eq!(second.order, 1);
    assert_eq!(list_groups(&state).len(), 2);
    let g = |order: u32| TunnelGroup {
        id: format!("g{order}"),
        name: "n".into(),
        color: None,
        order,
        collapsed: false,
    };
    assert_eq!(next_group_order(&[g(3), g(7), g(2)]), 8);
    assert_eq!(next_group_order(&[]), 0);
}

#[test]
fn update_group_keeps_order_and_records_collapse() {
    let mut state = AppState::new_headless();
    let g = create_group(&mut state, group_input("Prod"));
    let updated = update_group(
        &mut state,
        g.id.clone(),
        GroupInput { name: "Production".into(), color: None, collapsed: true },
    )
    .expect("update");
    assert_eq!(updated.order, g.order);
    assert!(updated.collapsed);
    assert_eq!(list_groups(&state), vec![updated]);
    assert_eq!(
        update_group(&mut state, "nope".into(), group_input("x")).expect_err("unknown"),
        AppError::NotFound("group nope".into())
    );
}

#[test]
fn deleting_a_group_ungroups_its_forwards() {
    let mut state = AppState::new_headless();
    let g = create_group(&mut state, group_input("Prod"));
    debug_upsert_config(&mut state, ForwardConfig { group_id: Some(g.id.clone()), tags: vec!["db".into()], ..with_id("a") });
    debug_upsert_config(&mut state, with_id("b"));
    delete_group(&mut state, &g.id).expect("delete");
    assert!(list_groups(&state).is_empty());
    let forwards = list_forwards(&state);
    assert!(forwards.iter().all(|c| c.group_id.is_none()));
    assert_eq!(forwards[0].tags, vec!["db".to_string()], "tags are kept");
    assert_eq!(delete_group(&mut state, &g.id), Err(AppError::NotFound(format!("group {}", g.id))));
}

#[test]
fn assigning_rejects_unknown_forwards_and_groups() {
    let mut state = AppState::new_headless();
    let g = create_group(&mut state, group_input("Prod"));
    debug_upsert_config(&mut state, with_id("a"));
    assert_eq!(
        assign_forward_group(&mut state, "zz", None),
        Err(AppError::NotFound("forward zz".into()))
    );
    assert_eq!(
        assign_forward_group(&mut state, "a", Some("ghost".into())),
        Err(AppError::NotFound("group ghost".into()))
    );
    assign_forward_group(&mut state, "a", Some(g.id.clone())).expect("assign");
    assert_eq!(list_forwards(&state)[0].group_id, Some(g.id.clone()));
    assign_forward_group(&mut state, "a", None).expect("ungroup");
    assert_eq!(list_forwards(&state)[0].group_id, None);
}

#[test]
fn group_start_and_stop_act_only_on_the_folder() {
    let mut state = AppState::new_headless();
    debug_upsert_config(&mut state, ForwardConfig { group_id: Some("g".into()), ..with_id("in-err") });
    debug_upsert_config(&mut state, ForwardConfig { group_id: Some("g".into()), ..with_id("in-off") });
    debug_upsert_config(&mut state, with_id("out"));
    state.registry.insert(TunnelEntry::new("in-err".into(), ForwardStatus::Error));
    state.registry.insert(TunnelEntry::new("out".into(), ForwardStatus::Connected));
    assert_eq!(
        start_group(&state, "g"),
        vec![("in-err".to_string(), StartAction::Retry), ("in-off".to_string(), StartAction::Connect)]
    );
    assert_eq!(stop_group(&state, "g"), vec!["in-err".to_string()]);
}

#[test]
fn tags_are_sorted_and_deduplicated() {
    let mut state = AppState::new_headless();
    debug_upsert_config(&mut state, ForwardConfig { tags: vec!["prod".into(), "db".into()], ..with_id("a") });
    debug_upsert_config(&mut state, ForwardConfig { tags: vec!["db".into(), "Aws".into(), "eu".into()], ..with_id("b") });
    assert_eq!(list_tags(&state), vec!["Aws", "db", "eu", "prod"]);
    assert!(list_tags(&AppState::new_headless()).is_empty());
}

#[test]
fn settings_update_is_stored_and_drives_the_platform() {
    let mut state = AppState::new_headless();
    let input = AppSettings { launch_at_login: false, show_in_dock: true, ..get_settings(&state) };
    let (applied, effects) = update_settings(&mut state, input.clone(), true, false);
    assert_eq!(applied, input);
    assert_eq!(get_settings(&state), input);
    assert_eq!(effects.autostart, AutostartChange::Disable);
    assert!(effects.dock_icon);
    assert!(!effects.taskbar, "the taskbar entry needs a visible window");
}

#[test]
fn logs_are_read_copied_and_cleared() {
    let mut state = AppState::new_headless();
    state.logs.push(LogEntry {
        level: LogLevel::Info,
        tunnel_name: None,
        message: "old".into(),
        timestamp: "00:00:00".into(),
    });
    state.logs.push(LogEntry {
        level: LogLevel::Error,
        tunnel_name: Some("Prod DB".into()),
        message: "new".into(),
        timestamp: "00:00:01".into(),
    });
    assert_eq!(get_logs(&state).len(), 2);
    assert_eq!(get_logs_text(&state), "[00:00:01] [ERROR] [Prod DB] new\n[00:00:00] [INFO] old");
    clear_logs(&mut state);
    assert!(get_logs(&state).is_empty());
    assert_eq!(get_logs_text(&state), "");
}

#[test]
fn hydrate_snapshot_carries_state_and_no_update() {
    let mut state = AppState::new_headless();
    debug_upsert_config(&mut state, base_config());
    let snap = app_hydrate(&state, Vec::new());
    assert_eq!(snap.forwards.len(), 1);
    assert!(!snap.update.available);
    assert!(snap.keychain_available);
}

#[test]
fn backup_export_strips_passwords_and_import_replaces() {
    let mut state = AppState::new_headless();
    debug_upsert_config(&mut state, ForwardConfig { has_stored_password: true, ..base_config() });
    let backup = export_backup(&state, "2026-01-01T00:00:00Z".into());
    assert_eq!(backup.exported_at.as_deref(), Some("2026-01-01T00:00:00Z"));
    assert!(!backup.forwards[0].has_stored_password);

    let incoming = BackupFile {
        version: 2,
        exported_at: None,
        forwards: vec![with_id("x"), with_id("y")],
        groups: vec![],
    };
    let result = import_backup(&mut state, incoming, ImportMode::Replace);
    assert!(result.replaced);
    assert_eq!(result.imported, 2);
    let ids: Vec<String> = list_forwards(&state).into_iter().map(|c| c.id).collect();
    assert_eq!(ids, ["x", "y"]);
    assert_eq!(state.take_pending_saves().len(), 0, "headless state writes nothing back");
}
