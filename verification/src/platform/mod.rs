//! Platform presentation policy: login item, dock / taskbar visibility and
//! notifications.
pub mod autostart;
pub mod dock;
pub mod notify;
