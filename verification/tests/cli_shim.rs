use tunnel_pilot::cli::shim::{
    applescript_quote, auto_install_on_startup, auto_install_skip_reason, candidates, choose_target,
    dev_build_blocks, inspect_candidate, install_shell_command, is_dev_build, is_removable_link,
    shell_quote, shim_status, status_from, uninstall_shell_command, Candidate, CliShimStatus,
    LinkStat, ShimEntry, ShimState, ShimTarget, SHIM_NAME,
};

fn candidate(target: ShimTarget, dir: &str) -> Candidate {
    Candidate { target, dir: dir.to_string() }
}

fn entry(target: ShimTarget, dir: &str, found: LinkStat, exe: Option<&str>, writable: bool) -> ShimEntry {
    inspect_candidate(&candidate(target, dir), found, exe, writable, true)
}

fn entries_for(user_writable: bool, system_writable: bool) -> Vec<ShimEntry> {
    vec![
        entry(ShimTarget::UserLocal, "/home/me/.local/bin", LinkStat::Missing, None, user_writable),
        entry(ShimTarget::UsrLocal, "/usr/local/bin", LinkStat::Missing, None, system_writable),
    ]
}

#[test]
fn candidates_prefer_the_user_directory() {
    let candidates = candidates(Some("/home/me"));
    assert_eq!(candidates.len(), 2);
    assert_eq!(candidates[0].target, ShimTarget::UserLocal);
    assert_eq!(candidates[1].target, ShimTarget::UsrLocal);
    assert!(candidates.iter().all(|c| c.link_path().ends_with(&format!("/{SHIM_NAME}"))));
    let without_home = candidates_for_no_home();
    assert_eq!(without_home.len(), 1);
    assert_eq!(without_home[0].target, ShimTarget::UsrLocal);
}

fn candidates_for_no_home() -> Vec<Candidate> {
    candidates(None)
}

#[test]
fn a_writable_user_dir_wins_and_needs_no_elevation() {
    let entries = entries_for(true, true);
    let chosen = choose_target(&entries).expect("a target");
    assert_eq!(chosen.target, ShimTarget::UserLocal);
    assert_eq!(chosen.path, "/home/me/.local/bin/tunnel-pilot");
    assert!(!chosen.needs_elevation);
}

#[test]
fn a_missing_but_creatable_dir_counts_as_writable() {
    let user = inspect_candidate(
        &candidate(ShimTarget::UserLocal, "/home/me/.local/bin"),
        LinkStat::Missing,
        None,
        true,
        false,
    );
    let system = entry(ShimTarget::UsrLocal, "/usr/local/bin", LinkStat::Missing, None, true);
    let entries = vec![user, system];
    assert!(entries[0].writable);
    assert!(!entries[0].dir_exists);
    let chosen = choose_target(&entries).expect("a target");
    assert_eq!(chosen.target, ShimTarget::UserLocal);
    assert!(!chosen.needs_elevation);
}

#[test]
fn a_read_only_user_dir_falls_through_to_the_system_dir() {
    let entries = entries_for(false, true);
    assert!(!entries[0].writable);
    let chosen = choose_target(&entries).expect("a target");
    assert_eq!(chosen.target, ShimTarget::UsrLocal);
    assert!(!chosen.needs_elevation, "the system dir is writable here");
}

#[test]
fn no_writable_dir_means_usr_local_with_elevation() {
    let entries = entries_for(false, false);
    let chosen = choose_target(&entries).expect("a target");
    assert_eq!(chosen.target, ShimTarget::UsrLocal);
    assert!(chosen.needs_elevation);
    assert_eq!(chosen.path, "/usr/local/bin/tunnel-pilot");
}

#[test]
fn choose_target_needs_at_least_one_candidate() {
    assert!(choose_target(&[]).is_none());
}

#[test]
fn status_reports_absent_when_nothing_is_installed() {
    let exe = "/home/me/app-binary";
    let status = status_from(entries_for(true, true), Some(exe), false);
    assert!(status.supported);
    assert!(!status.installed);
    assert!(!status.links_to_current);
    assert!(!status.conflict);
    assert_eq!(status.entries[0].state, ShimState::Absent);
    assert_eq!(status.install_target, Some(ShimTarget::UserLocal));
}

#[test]
fn status_reports_a_correct_link_as_up_to_date() {
    let exe = "/opt/Tunnel Pilot.app";
    let entries = vec![
        entry(
            ShimTarget::UserLocal,
            "/home/me/.local/bin",
            LinkStat::Symlink(Some(exe.to_string())),
            Some(exe),
            true,
        ),
        entry(ShimTarget::UsrLocal, "/usr/local/bin", LinkStat::Missing, Some(exe), true),
    ];
    let status = status_from(entries, Some(exe), false);
    assert!(status.installed);
    assert!(status.links_to_current);
    assert!(!status.linked_elsewhere);
    assert_eq!(status.target, Some(ShimTarget::UserLocal));
    assert_eq!(status.linked_path, Some(exe.to_string()));
}

#[test]
fn status_reports_a_stale_link_even_when_it_dangles() {
    let exe = "/opt/current-binary";
    let gone = "/opt/old/tunnel-pilot";
    let entries = vec![
        entry(
            ShimTarget::UserLocal,
            "/home/me/.local/bin",
            LinkStat::Symlink(Some(gone.to_string())),
            Some(exe),
            true,
        ),
        entry(ShimTarget::UsrLocal, "/usr/local/bin", LinkStat::Missing, Some(exe), true),
    ];
    let status = status_from(entries, Some(exe), false);
    assert!(status.installed);
    assert!(status.linked_elsewhere);
    assert!(!status.links_to_current);
    assert_eq!(status.linked_path, Some(gone.to_string()));
    assert!(is_removable_link(gone, Some(exe)));
}

#[test]
fn status_reports_a_real_file_as_a_conflict() {
    let entries = vec![
        entry(ShimTarget::UserLocal, "/home/me/.local/bin", LinkStat::NotASymlink, None, true),
        entry(ShimTarget::UsrLocal, "/usr/local/bin", LinkStat::Missing, None, true),
    ];
    let status = status_from(entries, None, false);
    assert!(status.installed);
    assert!(status.conflict);
    assert!(!status.links_to_current);
    assert_eq!(status.entries[0].state, ShimState::NotASymlink);
    assert!(status.entries[0].linked_path.is_none());
}

#[test]
fn a_foreign_symlink_is_never_removable() {
    let exe = "/Applications/Tunnel Pilot.app/Contents/MacOS/tunnel-pilot";
    assert!(is_removable_link(exe, Some(exe)));
    assert!(is_removable_link("/old/path/tunnel-pilot", Some(exe)));
    assert!(!is_removable_link("/usr/bin/python3", Some(exe)));
    assert!(!is_removable_link("/usr/bin/python3", None));
}

#[test]
fn the_override_flows_through_the_shared_dev_build_predicate() {
    let dev = "/Users/me/dev/tunnel-pilot/src-tauri/target/debug/tunnel-pilot";
    let shipped = "/Applications/Tunnel Pilot.app/Contents/MacOS/tunnel-pilot";
    assert!(dev_build_blocks(dev, false), "dev build blocks by default");
    assert!(!dev_build_blocks(dev, true), "the override unblocks it");
    assert!(!dev_build_blocks(shipped, false), "a shipped build never blocks");
    assert!(!dev_build_blocks(shipped, true));
}

#[test]
fn dev_builds_are_refused_unless_the_override_is_set() {
    assert!(is_dev_build("/Users/me/dev/tunnel-pilot/src-tauri/target/debug/tunnel-pilot"));
    assert!(is_dev_build(
        "/Users/me/dev/tunnel-pilot/src-tauri/target/release/bundle/macos/Tunnel Pilot.app/Contents/MacOS/tunnel-pilot"
    ));
    assert!(!is_dev_build("/Applications/Tunnel Pilot.app/Contents/MacOS/tunnel-pilot"));
    assert!(!is_dev_build("/usr/local/bin/tunnel-pilot"));
}

#[test]
fn elevated_commands_quote_every_path() {
    let exe = "/Applications/Tunnel Pilot.app/Contents/MacOS/tunnel-pilot";
    let link = "/usr/local/bin/tunnel-pilot";
    let cmd = install_shell_command(exe, link).expect("build command");
    assert_eq!(
        cmd,
        "/bin/mkdir -p '/usr/local/bin' && /bin/ln -sfn \
         '/Applications/Tunnel Pilot.app/Contents/MacOS/tunnel-pilot' \
         '/usr/local/bin/tunnel-pilot'"
    );
    assert_eq!(uninstall_shell_command(link).expect("build command"), "/bin/rm -f '/usr/local/bin/tunnel-pilot'");
}

#[test]
fn shell_quoting_survives_a_single_quote() {
    assert_eq!(shell_quote("/Users/o'brien/bin"), "'/Users/o'\\''brien/bin'");
    assert_eq!(applescript_quote("/bin/ln -sfn 'a\\b'"), "\"/bin/ln -sfn 'a\\\\b'\"");
}

#[test]
fn labels_are_stable() {
    assert_eq!(ShimTarget::UserLocal.label(), "~/.local/bin");
    assert_eq!(ShimTarget::UsrLocal.label(), "/usr/local/bin");
}

#[test]
fn off_unix_the_status_is_unsupported() {
    let status = shim_status(false, entries_for(true, true), None, false);
    assert!(!status.supported);
    assert!(status.entries.is_empty());
    let on_unix = shim_status(true, entries_for(true, true), None, false);
    assert!(on_unix.supported);
    assert_eq!(on_unix.entries.len(), 2);
}

#[test]
fn auto_install_runs_only_for_an_uninstalled_shipped_build_without_prompt() {
    let exe = "/Applications/Tunnel Pilot.app/Contents/MacOS/tunnel-pilot";
    let fresh = status_from(entries_for(true, true), Some(exe), false);
    assert!(auto_install_on_startup(&fresh));
    let elevated = status_from(entries_for(false, false), Some(exe), false);
    assert_eq!(
        auto_install_skip_reason(&elevated),
        Some("the install location needs administrator rights")
    );
    assert!(!auto_install_on_startup(&elevated));
    assert_eq!(
        auto_install_skip_reason(&CliShimStatus { installed: true, ..fresh.clone() }),
        Some("a shim already exists")
    );
}

#[test]
fn the_install_directory_is_the_path_parent_of_the_link() {
    let cmd = |link: &str| install_shell_command("/Applications/App", link).expect("command");
    assert_eq!(
        cmd("/usr/local/bin//tunnel-pilot"),
        "/bin/mkdir -p '/usr/local/bin' && /bin/ln -sfn '/Applications/App' '/usr/local/bin//tunnel-pilot'"
    );
    assert!(cmd("/usr/local/bin/tunnel-pilot/").starts_with("/bin/mkdir -p '/usr/local/bin' "));
    assert!(cmd("/home/u/./tunnel-pilot").starts_with("/bin/mkdir -p '/home/u' "));
    assert!(cmd("/tunnel-pilot").starts_with("/bin/mkdir -p '/' "));
    assert!(cmd("/").starts_with("/bin/mkdir -p '/' "));
    assert!(cmd("tunnel-pilot").starts_with("/bin/mkdir -p '' "));
    assert!(cmd("./tunnel-pilot").starts_with("/bin/mkdir -p '.' "));
}

#[test]
fn a_link_is_ours_by_its_last_path_component() {
    assert!(is_removable_link("/old/bin/tunnel-pilot/", None));
    assert!(is_removable_link("/old/bin/tunnel-pilot/.", None));
    assert!(is_removable_link("/old/bin//tunnel-pilot", None));
    assert!(!is_removable_link("/old/bin/tunnel-pilot/..", None));
    assert!(!is_removable_link("/", None));
    assert!(!is_removable_link("/old/bin/tunnel-pilot-2", None));
}
