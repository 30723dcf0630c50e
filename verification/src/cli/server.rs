//! The app side of the control socket, as decisions: whether an existing
//! socket path may be cleared, which request lines are handled, and the
//! answer to a line that is not a request. Binding, accepting and the
//! newline-delimited I/O happen around them.
use vstd::prelude::*;
use crate::cli::protocol::CliResponse;
use crate::cli::SOCKET_ENV;
use crate::error::AppError;
use crate::text::{trim, trim_end_ws, trim_start_ws};

verus! {

/// Mode of a socket directory the app creates (owner only).
pub const DIR_MODE: u32 = 0o700;

/// Mode of the socket file (owner read/write).
pub const SOCKET_MODE: u32 = 0o600;

/// Longest request stream read from one connection, in bytes.
pub const MAX_REQUEST_BYTES: u64 = 65536;

/// Seconds an idle connection is kept before it is closed.
pub const IDLE_READ_TIMEOUT_SECS: u64 = 30;

/// Milliseconds to wait after a failed accept before accepting again.
pub const ACCEPT_ERROR_BACKOFF_MS: u64 = 200;

/// What is found at the socket path before binding.
#[derive(Debug, Clone, Copy, PartialEq, Eq, Structural)]
pub enum SocketPathState {
    /// Nothing is there.
    Missing,
    /// Something that is not a socket.
    NotASocket,
    /// A socket another process still answers on.
    LiveSocket,
    /// A socket nobody answers on (left by a crash).
    StaleSocket,
}

/// Before binding: `Ok(true)` means remove the stale socket first,
/// `Ok(false)` means the path is free. A non-socket is never touched, and a
/// socket someone still serves means another instance is running.
pub fn clear_stale_socket(path: &str, found: SocketPathState) -> (r: Result<bool, AppError>)
    ensures
        found == SocketPathState::Missing ==> r == Ok::<bool, AppError>(false),
        found == SocketPathState::StaleSocket ==> r == Ok::<bool, AppError>(true),
        found == SocketPathState::NotASocket ==> r is Err && r->Err_0 == AppError::InvalidInput(
            r->Err_0->InvalidInput_0,
        ) && r->Err_0->InvalidInput_0@ == path@
            + " exists and is not a socket; refusing to remove it. Point "@ + SOCKET_ENV@
            + " somewhere else"@,
        found == SocketPathState::LiveSocket ==> r is Err && r->Err_0 == AppError::Internal(
            r->Err_0->Internal_0,
        ) && r->Err_0->Internal_0@ == "another Tunnel Pilot instance is already serving "@
            + path@,
{
    match found {
        SocketPathState::Missing => Ok(false),
        SocketPathState::StaleSocket => Ok(true),
        SocketPathState::NotASocket => Err(
            AppError::InvalidInput(
                path.to_string().concat(" exists and is not a socket; refusing to remove it. Point ").concat(
                    SOCKET_ENV,
                ).concat(" somewhere else"),
            ),
        ),
        SocketPathState::LiveSocket => Err(
            AppError::Internal(
                "another Tunnel Pilot instance is already serving ".to_string().concat(path),
            ),
        ),
    }
}

/// On shutdown: remove the socket only when a socket is there (a path that
/// turned into something else is left untouched).
pub fn remove_socket(found: SocketPathState) -> (r: bool)
    ensures
        r <==> (found == SocketPathState::LiveSocket || found == SocketPathState::StaleSocket),
{
    match found {
        SocketPathState::LiveSocket | SocketPathState::StaleSocket => true,
        _ => false,
    }
}

/// The request text of one received line: the line trimmed, or `None` for a
/// blank line (skipped).
pub fn request_text(line: &str) -> (r: Option<String>)
    ensures
        trim_start_ws(trim_end_ws(line@)).len() == 0 ==> r is None,
        trim_start_ws(trim_end_ws(line@)).len() > 0 ==> r is Some && r->0@ == trim_start_ws(
            trim_end_ws(line@),
        ),
{
    let t = trim(line);
    if t.unicode_len() == 0 {
        None
    } else {
        Some(t)
    }
}

/// The answer to a line that does not parse as a request.
pub fn malformed_request(reason: &str) -> (r: CliResponse)
    ensures
        !r.ok,
        r.data is None,
        r.error matches Some(AppError::InvalidInput(m)) && m@ == "malformed request line: "@
            + reason@,
{
    CliResponse::err(AppError::InvalidInput("malformed request line: ".to_string().concat(reason)))
}

} // verus!
