//! Best-effort OS notifications: which ones are shown (only with the
//! notifications setting on) and their text. Showing them happens outside.
use vstd::prelude::*;
use crate::cli::shim::{applescript_quote, applescript_quoted};
use crate::state::AppState;

verus! {

/// A notification to show: a title and a body.
#[derive(Debug, Clone)]
pub struct Notification {
    pub title: String,
    pub body: String,
}

/// The "connected" notification for tunnel `name`, unless notifications are
/// off.
pub fn notify_connected(state: &AppState, name: &str) -> (r: Option<Notification>)
    ensures
        !state.settings().show_notifications ==> r is None,
        state.settings().show_notifications ==> r is Some && r->0.title@ == "Tunnel Connected"@
            && r->0.body@ == name@ + " is now active."@,
{
    if !state.settings.show_notifications {
        return None;
    }
    Some(Notification {
        title: "Tunnel Connected".to_string(),
        body: name.to_string().concat(" is now active."),
    })
}

/// The "error" notification for tunnel `name` with `error`, unless
/// notifications are off.
pub fn notify_error(state: &AppState, name: &str, error: &str) -> (r: Option<Notification>)
    ensures
        !state.settings().show_notifications ==> r is None,
        state.settings().show_notifications ==> r is Some && r->0.title@ == "Tunnel Error"@
            && r->0.body@ == name@ + ": "@ + error@,
{
    if !state.settings.show_notifications {
        return None;
    }
    Some(Notification {
        title: "Tunnel Error".to_string(),
        body: name.to_string().concat(": ").concat(error),
    })
}

/// The "update available" notification for `version`, unless notifications
/// are off.
pub fn notify_update_available(state: &AppState, version: &str) -> (r: Option<Notification>)
    ensures
        !state.settings().show_notifications ==> r is None,
        state.settings().show_notifications ==> r is Some && r->0.title@ == "Update Available"@
            && r->0.body@ == "Tunnel Pilot "@ + version@
            + " is available. Open Tunnel Pilot to update."@,
{
    if !state.settings.show_notifications {
        return None;
    }
    Some(Notification {
        title: "Update Available".to_string(),
        body: "Tunnel Pilot ".to_string().concat(version).concat(
            " is available. Open Tunnel Pilot to update.",
        ),
    })
}

/// The AppleScript that shows `n` on macOS:
/// `display notification "<body>" with title "<title>"`, both texts escaped.
pub fn notification_script(n: &Notification) -> (r: String)
    ensures
        r@ == "display notification "@ + applescript_quoted(n.body@) + " with title "@
            + applescript_quoted(n.title@),
{
    "display notification ".to_string().concat(applescript_quote(n.body.as_str()).as_str()).concat(
        " with title ",
    ).concat(applescript_quote(n.title.as_str()).as_str())
}

} // verus!
