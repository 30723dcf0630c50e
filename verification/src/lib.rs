//! Tunnel Pilot core: the verified logic behind the SSH tunnel manager —
//! tunnel status state machine, reconnect backoff, CLI parsing and rendering,
//! backup planning, tray menu model, command builders and shim planning.
#![allow(unused_imports)]

pub mod cli;
pub mod commands;
pub mod credentials;
pub mod error;
pub mod events;
pub mod logging;
pub mod platform;
pub mod ssh;
pub mod startup;
pub mod state;
pub mod storage;
pub mod text;
pub mod tray;
pub mod updater;
pub mod window;
