//! The logic behind the app's commands.
pub mod app;
pub mod backup;
pub mod debug;
pub mod forwards;
pub mod groups;
pub mod logs;
pub mod settings;
