//! Main window behaviour: closing hides to the tray, quitting tears every
//! tunnel down first, and the tray popover's rules.
pub mod popover;

use vstd::prelude::*;
use crate::state::models::strings_view;
use crate::state::tunnel_registry::{ids_of, TunnelRegistry};

verus! {

/// The main window's label.
pub const MAIN_WINDOW: &'static str = "main";

/// What the main window does on a close request: it is hidden to the tray,
/// never destroyed (the app keeps running in the menu bar).
pub fn close_hides_to_tray() -> (r: bool)
    ensures
        r,
{
    true
}

/// Quitting: the tunnels to disconnect (user-initiated, silent) before the
/// process exits: every live one.
pub fn quit_app(registry: &TunnelRegistry) -> (r: Vec<String>)
    ensures
        strings_view(r@) == ids_of(registry@.entries),
{
    registry.all_ids()
}

} // verus!
