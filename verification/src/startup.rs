//! What happens at launch, decided from the loaded settings and the
//! command line: the login item and Dock brought in line, the optional
//! update check, and whether the window shows (a login-item launch stays in
//! the tray).
use vstd::prelude::*;
use crate::platform::autostart::{autostart_change, reconcile, AutostartChange};
use crate::state::models::AppSettings;
use crate::text::str_eq;

verus! {

/// The argument the login item launches the app with.
pub const AUTOSTART_ARG: &'static str = "--minimized";

/// Whether the process was launched by the login item: some argument is
/// exactly [`AUTOSTART_ARG`].
pub fn launched_from_autostart(args: &[String]) -> (r: bool)
    ensures
        r == exists|k: int| 0 <= k < args@.len() && (#[trigger] args@[k])@ == AUTOSTART_ARG@,
{
    let mut i: usize = 0;
    while i < args.len()
        invariant
            i <= args.len(),
            forall|k: int| 0 <= k < i ==> (#[trigger] args@[k])@ != AUTOSTART_ARG@,
        decreases args.len() - i,
    {
        if str_eq(args[i].as_str(), AUTOSTART_ARG) {
            return true;
        }
        i = i + 1;
    }
    false
}

/// The launch decisions.
#[derive(Debug, Clone, Copy, PartialEq, Eq, Structural)]
pub struct StartupPlan {
    /// Whether the startup update check runs.
    pub check_updates: bool,
    /// Whether the macOS Dock icon is present.
    pub dock_icon: bool,
    /// How the login item must change.
    pub autostart: AutostartChange,
    /// Whether the main window is shown (not for a login-item launch).
    pub show_window: bool,
    /// Whether to warn that passwords fall back to the plaintext file.
    pub warn_plaintext_secrets: bool,
}

/// Plan the launch from the loaded settings, whether the login item is on
/// now, whether the keychain works, and the command line.
pub fn startup_plan(
    settings: &AppSettings,
    autostart_on: bool,
    keychain_available: bool,
    args: &[String],
) -> (r: StartupPlan)
    ensures
        r.check_updates == settings.auto_check_updates,
        r.dock_icon == settings.show_in_dock,
        r.autostart == autostart_change(settings.launch_at_login, autostart_on),
        r.show_window == !exists|k: int| 0 <= k < args@.len() && (#[trigger] args@[k])@
            == AUTOSTART_ARG@,
        r.warn_plaintext_secrets == !keychain_available,
{
    StartupPlan {
        check_updates: settings.auto_check_updates,
        dock_icon: settings.show_in_dock,
        autostart: reconcile(settings.launch_at_login, autostart_on),
        show_window: !launched_from_autostart(args),
        warn_plaintext_secrets: !keychain_available,
    }
}

} // verus!
