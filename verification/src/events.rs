//! Event names announced to the UI.
use vstd::prelude::*;

verus! {

/// A tunnel's status changed.
pub const TUNNEL_STATUS: &'static str = "tunnel://status";

/// A tunnel's stats sample.
pub const TUNNEL_STATS: &'static str = "tunnel://stats";

/// A log line was added.
pub const LOG_LINE: &'static str = "log://line";

/// The log was cleared.
pub const LOG_CLEARED: &'static str = "log://cleared";

/// The forwards list changed.
pub const FORWARDS_CHANGED: &'static str = "forwards://changed";

/// The groups list changed.
pub const GROUPS_CHANGED: &'static str = "groups://changed";

/// The settings changed.
pub const SETTINGS_CHANGED: &'static str = "settings://changed";

/// The update availability changed.
pub const UPDATE_STATUS: &'static str = "update://status";

/// Update download progress.
pub const UPDATE_PROGRESS: &'static str = "update://progress";

/// The main window was focused.
pub const WINDOW_FOCUS: &'static str = "window://focus";

/// The tray popover opened.
pub const POPOVER_OPENED: &'static str = "tray://opened";

} // verus!
