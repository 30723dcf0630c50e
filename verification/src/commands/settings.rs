//! Settings commands: read, and apply an update (saved, then the login item
//! and the Dock / taskbar presence brought in line).
use vstd::prelude::*;
use crate::platform::autostart::{reconcile, AutostartChange, autostart_change};
use crate::platform::dock::{macos_dock_icon_present, taskbar_visible};
use crate::state::models::AppSettings;
use crate::state::{queued, AppState, PersistView};

verus! {

/// The current settings.
pub fn get_settings(state: &AppState) -> (r: AppSettings)
    ensures
        r == state.settings(),
{
    state.settings_snapshot()
}

/// What applying a settings update asks of the platform.
#[derive(Debug, Clone, Copy, PartialEq, Eq, Structural)]
pub struct SettingsEffects {
    /// How the login item must change.
    pub autostart: AutostartChange,
    /// Whether the macOS Dock icon is present.
    pub dock_icon: bool,
    /// Whether the taskbar entry is visible.
    pub taskbar: bool,
}

/// Store `input` (queued for saving) and say what the platform must do: the
/// login item follows `launch_at_login` (given whether it is `autostart_on`
/// now), the Dock icon follows `show_in_dock`, and the taskbar entry shows
/// while the window is visible with `show_in_dock` on.
pub fn update_settings(
    state: &mut AppState,
    input: AppSettings,
    autostart_on: bool,
    window_visible: bool,
) -> (r: (AppSettings, SettingsEffects))
    ensures
        r.0 == input,
        final(state).settings() == input,
        final(state).pending() == queued(
            old(state).persists(),
            old(state).pending(),
            PersistView::Settings(input),
        ),
        r.1.autostart == autostart_change(input.launch_at_login, autostart_on),
        r.1.dock_icon == input.show_in_dock,
        r.1.taskbar == (window_visible && input.show_in_dock),
        final(state).configs() == old(state).configs(),
        final(state).groups() == old(state).groups(),
        final(state).registry == old(state).registry,
        final(state).wf() == old(state).wf(),
{
    state.set_settings(input.clone_settings());
    let effects = SettingsEffects {
        autostart: reconcile(input.launch_at_login, autostart_on),
        dock_icon: macos_dock_icon_present(input.show_in_dock),
        taskbar: taskbar_visible(window_visible, input.show_in_dock),
    };
    (input, effects)
}

} // verus!
