use tunnel_pilot::error::AppError;
use tunnel_pilot::state::models::{AppSettings, ForwardConfig, ThemeMode, TunnelGroup};
use tunnel_pilot::storage::backup::{plan_import, validate_backup, BackupFile, ImportMode, BACKUP_VERSION};
use tunnel_pilot::storage::config_file::{
    load_outcome, merge_base, ConfigDocument, ConfigRead, ConfigStore, CONFIG_FILE_NAME, SCHEMA_VERSION,
};

fn fwd(id: &str, name: &str, local_port: u16) -> ForwardConfig {
    ForwardConfig {
        id: id.into(),
        name: name.into(),
        ssh_host: "h".into(),
        ssh_port: 22,
        ssh_username: "u".into(),
        identity_file_path: None,
        has_stored_password: false,
        local_bind_address: "127.0.0.1".into(),
        local_port,
        remote_host: "r".into(),
        remote_port: 5432,
        keep_alive_interval_sec: 30,
        keep_alive_max_count: 5,
        group_id: None,
        tags: vec![],
    }
}

fn grp(id: &str) -> TunnelGroup {
    TunnelGroup { id: id.into(), name: format!("g-{id}"), color: None, order: 0, collapsed: false }
}

#[test]
fn rejects_backup_version_newer_than_current() {
    let future = BackupFile { version: 3, exported_at: None, forwards: vec![], groups: vec![] };
    let err = validate_backup(future).expect_err("must reject");
    assert!(matches!(err, AppError::Backup(_)));
    assert_eq!(
        err,
        AppError::Backup(
            "backup version 3 is newer than this app supports (max v2). Please update Tunnel Pilot.".into()
        )
    );
}

#[test]
fn validated_backups_never_carry_a_stored_password() {
    let v1 = BackupFile {
        version: 1,
        exported_at: Some("2024-01-01T00:00:00.000Z".into()),
        forwards: vec![ForwardConfig { has_stored_password: true, ..fwd("v1-fwd", "Legacy", 1234) }],
        groups: vec![],
    };
    let ok = validate_backup(v1).expect("v1 accepted");
    assert_eq!(ok.version, 1);
    assert!(ok.groups.is_empty());
    assert!(!ok.forwards[0].has_stored_password);
}

#[test]
fn replace_import_swaps_everything() {
    let current_f = vec![fwd("keep", "Keep", 1)];
    let current_g = vec![grp("old")];
    let backup = BackupFile {
        version: 2,
        exported_at: None,
        forwards: vec![fwd("new1", "New1", 2), fwd("new2", "New2", 3)],
        groups: vec![grp("newgrp")],
    };
    let (forwards, groups, result) = plan_import(&current_f, &current_g, backup, ImportMode::Replace);
    assert!(result.replaced);
    assert_eq!(result.imported, 2);
    assert_eq!(result.skipped, 0);
    assert_eq!(forwards.iter().map(|f| f.id.clone()).collect::<Vec<_>>(), ["new1", "new2"]);
    assert_eq!(groups.len(), 1);
    assert_eq!(groups[0].id, "newgrp");
}

#[test]
fn merge_import_appends_new_and_skips_duplicates() {
    let current_f = vec![fwd("a", "Alpha", 10)];
    let current_g = vec![grp("g1")];
    let backup = BackupFile {
        version: 2,
        exported_at: None,
        forwards: vec![fwd("a", "Alpha", 10), fwd("b-different-id", "Alpha", 10), fwd("c", "Charlie", 11)],
        groups: vec![grp("g1"), grp("g2")],
    };
    let (forwards, groups, result) = plan_import(&current_f, &current_g, backup, ImportMode::Merge);
    assert!(!result.replaced);
    assert_eq!(result.imported, 1, "only Charlie is new");
    assert_eq!(result.skipped, 2, "id dup + natural-key dup");
    assert_eq!(forwards.len(), 2);
    assert!(forwards.iter().any(|f| f.id == "c"));
    assert_eq!(groups.len(), 2);
    assert!(groups.iter().any(|g| g.id == "g2"));
}

#[test]
fn merging_the_same_backup_twice_adds_nothing_the_second_time() {
    let backup = || BackupFile {
        version: 2,
        exported_at: None,
        forwards: vec![fwd("x", "X", 1), fwd("y", "Y", 2)],
        groups: vec![grp("g")],
    };
    let (f1, g1, r1) = plan_import(&[], &[], backup(), ImportMode::Merge);
    assert_eq!(r1.imported, 2);
    let (f2, g2, r2) = plan_import(&f1, &g1, backup(), ImportMode::Merge);
    assert_eq!(r2.imported, 0);
    assert_eq!(r2.skipped, 2);
    assert_eq!(f2.len(), 2);
    assert_eq!(g2.len(), 1);
}

#[test]
fn export_strips_stored_password_flag() {
    let f = ForwardConfig { has_stored_password: true, ..fwd("x", "n", 1) };
    let backup = BackupFile::export(&[f], &[], "now".into());
    assert_eq!(backup.version, BACKUP_VERSION);
    assert!(!backup.forwards[0].has_stored_password);
}

#[test]
fn load_missing_file_is_fresh_default() {
    let out = load_outcome(ConfigRead::Missing);
    assert!(!out.quarantine);
    assert_eq!(out.document.schema_version, SCHEMA_VERSION);
    assert!(out.document.forwards.is_empty());
    assert_eq!(out.document.settings, AppSettings::default());
    assert!(!load_outcome(ConfigRead::Empty).quarantine);
}

#[test]
fn corrupt_json_quarantined_and_defaults_returned() {
    let out = load_outcome(ConfigRead::Corrupt);
    assert!(out.quarantine);
    assert!(out.document.forwards.is_empty());
    let store = ConfigStore::from_config_dir("/tmp/cfg");
    assert_eq!(store.path(), format!("/tmp/cfg/{CONFIG_FILE_NAME}"));
    assert_eq!(store.tmp_path(), "/tmp/cfg/tunnel_pilot_config.json.tmp");
    assert_eq!(
        store.quarantine_path("20260101T000000000Z"),
        "/tmp/cfg/tunnel_pilot_config.json.corrupted-20260101T000000000Z"
    );
}

#[test]
fn save_settings_preserves_forwards_and_groups() {
    let mut doc = ConfigDocument::default();
    doc.forwards.push(fwd("keep-me", "K", 1));
    doc.groups.push(TunnelGroup {
        id: "grp".into(),
        name: "Prod".into(),
        color: Some("#EF4444".into()),
        order: 0,
        collapsed: false,
    });
    let settings = AppSettings { theme_mode: ThemeMode::Dark, auto_reconnect_max_retries: 9, ..AppSettings::default() };
    let base = merge_base(ConfigRead::Parsed(doc.clone()));
    let saved = base.replace_settings(settings.clone());
    assert_eq!(saved.settings, settings, "settings updated");
    assert_eq!(saved.forwards, doc.forwards, "forwards preserved");
    assert_eq!(saved.groups, doc.groups, "groups preserved");
}

#[test]
fn save_forwards_preserves_settings_sibling() {
    let settings = AppSettings { show_in_dock: true, ..AppSettings::default() };
    let after_settings = merge_base(ConfigRead::Missing).replace_settings(settings.clone());
    let after_forwards = merge_base(ConfigRead::Parsed(after_settings))
        .replace_forwards(vec![fwd("x", "X", 1), fwd("y", "Y", 2)]);
    assert_eq!(after_forwards.settings, settings, "settings sibling untouched");
    assert_eq!(after_forwards.forwards.len(), 2);
    assert_eq!(after_forwards.schema_version, SCHEMA_VERSION);
}

#[test]
fn unreadable_content_is_discarded_as_merge_base() {
    let base = merge_base(ConfigRead::Corrupt);
    assert!(base.forwards.is_empty() && base.groups.is_empty());
    let saved = base.replace_groups(vec![grp("g")]);
    assert_eq!(saved.groups.len(), 1);
}
