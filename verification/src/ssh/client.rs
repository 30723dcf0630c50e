//! The SSH client's decisions: session settings from a forward's keep-alive
//! fields, which authentication to use, and the error for each failure.
//! The SSH transport itself runs outside.
use vstd::prelude::*;
use crate::error::AppError;
use crate::state::models::ForwardConfig;

verus! {

/// Seconds allowed for the TCP connect plus SSH handshake.
pub const CONNECT_TIMEOUT_SECS: u64 = 15;

/// Seconds allowed for authentication.
pub const AUTH_TIMEOUT_SECS: u64 = 30;

/// The session handler: every server host key is accepted (no known-hosts
/// pinning).
pub struct ClientHandler;

impl ClientHandler {
    /// Whether the server's host key is accepted: always.
    pub fn check_server_key(&self) -> (r: bool)
        ensures
            r,
    {
        true
    }
}

/// The session settings a forward's keep-alive fields give.
#[derive(Debug, Clone, Copy, PartialEq, Eq, Structural)]
pub struct SessionSettings {
    /// Seconds between keep-alives.
    pub keepalive_interval_secs: u64,
    /// Unanswered keep-alives before the session counts as dead.
    pub keepalive_max: usize,
}

/// The session settings for `cfg`: a zero interval means 10 s and a zero
/// count means 3, otherwise the configured values.
pub fn build_config(cfg: &ForwardConfig) -> (r: SessionSettings)
    ensures
        r.keepalive_interval_secs == (if cfg.keep_alive_interval_sec == 0 {
            10
        } else {
            cfg.keep_alive_interval_sec as u64
        }),
        r.keepalive_max as int == (if cfg.keep_alive_max_count == 0 {
            3
        } else {
            cfg.keep_alive_max_count as int
        }),
{
    SessionSettings {
        keepalive_interval_secs: cfg.effective_keepalive_interval_sec(),
        keepalive_max: cfg.effective_keepalive_max(),
    }
}

/// How a session authenticates.
#[derive(Debug, Clone, PartialEq, Eq)]
pub enum AuthMethod {
    /// With the private key at this path.
    PublicKey(String),
    /// With the stored password.
    Password,
}

/// The authentication for `cfg`: its identity file when one is set and
/// non-empty, else the stored password.
pub fn auth_method(cfg: &ForwardConfig) -> (r: AuthMethod)
    ensures
        (cfg.identity_file_path matches Some(p) && p@.len() > 0) ==> r == AuthMethod::PublicKey(
            cfg.identity_file_path->0,
        ),
        !(cfg.identity_file_path matches Some(p) && p@.len() > 0) ==> r == AuthMethod::Password,
{
    match &cfg.identity_file_path {
        Some(p) => {
            if p.unicode_len() > 0 {
                AuthMethod::PublicKey(p.clone())
            } else {
                AuthMethod::Password
            }
        },
        None => AuthMethod::Password,
    }
}

/// The password to authenticate with, or the error when none is stored.
pub fn password_for_auth(stored: Option<String>) -> (r: Result<String, AppError>)
    ensures
        stored matches Some(p) ==> r == Ok::<String, AppError>(p),
        stored is None ==> r is Err && r->Err_0 == AppError::Connection(r->Err_0->Connection_0)
            && r->Err_0->Connection_0@ == "password or identity file required"@,
{
    match stored {
        Some(p) => Ok(p),
        None => Err(AppError::Connection("password or identity file required".to_string())),
    }
}

/// The error when the server rejects the credentials of `method`.
pub fn auth_rejected(method: &AuthMethod) -> (r: AppError)
    ensures
        r == AppError::Ssh(r->Ssh_0),
        method is PublicKey ==> r->Ssh_0@ == "publickey authentication rejected"@,
        method is Password ==> r->Ssh_0@ == "password authentication rejected"@,
{
    match method {
        AuthMethod::PublicKey(_) => AppError::Ssh("publickey authentication rejected".to_string()),
        AuthMethod::Password => AppError::Ssh("password authentication rejected".to_string()),
    }
}

/// The error when connecting failed with `reason`.
pub fn connect_failed(reason: &str) -> (r: AppError)
    ensures
        r == AppError::Ssh(r->Ssh_0),
        r->Ssh_0@ == "connect failed: "@ + reason@,
{
    AppError::Ssh("connect failed: ".to_string().concat(reason))
}

/// The error when connecting took longer than [`CONNECT_TIMEOUT_SECS`].
pub fn connect_timed_out() -> (r: AppError)
    ensures
        r == AppError::Connection(r->Connection_0),
        r->Connection_0@ == "SSH connect timed out after 15s"@,
{
    AppError::Connection("SSH connect timed out after 15s".to_string())
}

/// The error when authentication took longer than [`AUTH_TIMEOUT_SECS`].
pub fn auth_timed_out() -> (r: AppError)
    ensures
        r == AppError::Connection(r->Connection_0),
        r->Connection_0@ == "SSH authentication timed out after 30s"@,
{
    AppError::Connection("SSH authentication timed out after 30s".to_string())
}

} // verus!
