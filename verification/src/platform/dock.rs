//! Dock and taskbar presence. On macOS the Dock icon follows the
//! `show_in_dock` setting alone (the app lives in the menu bar); elsewhere
//! the taskbar entry shows only while the window is shown AND the setting is
//! on.
use vstd::prelude::*;

verus! {

/// Whether the macOS Dock icon is present: the setting, whatever the window.
pub fn macos_dock_icon_present(show_in_dock: bool) -> (r: bool)
    ensures
        r == show_in_dock,
{
    show_in_dock
}

/// Whether the taskbar entry is visible: window shown and setting on.
pub fn taskbar_visible(window_shown: bool, show_in_dock: bool) -> (r: bool)
    ensures
        r == (window_shown && show_in_dock),
{
    window_shown && show_in_dock
}

} // verus!
