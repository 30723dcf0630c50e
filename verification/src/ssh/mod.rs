//! The tunnel engine's decisions: the SSH client's settings and errors,
//! forward-channel bookkeeping, reconnect backoff, the supervisor's state
//! transitions, the shared stats sampler and the per-tunnel stats counters.
pub mod client;
pub mod engine;
pub mod forward;
pub mod health;
pub mod reconnect;
pub mod stats;
pub mod supervisor;
