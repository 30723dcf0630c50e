//! The tray: icon selection, the connecting animation and the state-driven
//! menu model.
pub mod animation;
pub mod icon;
pub mod menu;

use vstd::prelude::*;

verus! {

/// The single tray icon id.
pub const TRAY_ID: &'static str = "main";

} // verus!
