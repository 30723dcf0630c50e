//! The command-line client's logic: argument parsing, the wire protocol
//! types, response rendering, target resolution and the PATH shim plan, plus
//! where the control socket lives.
pub mod args;
pub mod client;
pub mod protocol;
pub mod server;
pub mod service;
pub mod shim;

use crate::cli::shim::{join, join_path};
use crate::error::AppError;
use crate::text::push_decimal;
use vstd::prelude::*;

verus! {

/// Bundle identifier: the app config directory is named after it.
pub const IDENTIFIER: &'static str = "com.kalfian.tunnelpilot";

/// Sub-directory of the app config dir holding the control socket.
pub const SOCKET_DIR: &'static str = "cli";

/// Socket file name inside [`SOCKET_DIR`].
pub const SOCKET_FILE: &'static str = "cli.sock";

/// Environment override honored by both the app and the client.
pub const SOCKET_ENV: &'static str = "TUNNEL_PILOT_SOCKET";

/// `sun_path` is 104 bytes on macOS and 108 on Linux, NUL included; anything
/// over 100 bytes is refused with an actionable message.
pub const MAX_SOCKET_PATH_BYTES: usize = 100;

/// `<config_dir>/cli/cli.sock`.
pub open spec fn socket_in(config_dir: Seq<char>) -> Seq<char> {
    join_path(join_path(config_dir, SOCKET_DIR@), SOCKET_FILE@)
}

/// The control socket inside a given app config dir (no override).
pub fn socket_path_in(config_dir: &str) -> (r: String)
    ensures
        r@ == socket_in(config_dir@),
{
    let dir = join(config_dir, SOCKET_DIR);
    join(dir.as_str(), SOCKET_FILE)
}

/// An override that counts: set and non-empty.
pub open spec fn usable_override(env: Option<Seq<char>>) -> Option<Seq<char>> {
    match env {
        Some(v) => if v.len() > 0 {
            Some(v)
        } else {
            None
        },
        None => None,
    }
}

/// The socket the app binds: the override (the value of [`SOCKET_ENV`]) when
/// set and non-empty, else the one in the app config dir.
pub fn resolved_socket_path(config_dir: &str, env_override: Option<&str>) -> (r: String)
    ensures
        r@ == (match usable_override(
            match env_override {
                Some(v) => Some(v@),
                None => None,
            },
        ) {
            Some(v) => v,
            None => socket_in(config_dir@),
        }),
{
    match env_override {
        Some(v) => {
            if v.unicode_len() > 0 {
                return v.to_string();
            }
        },
        None => {},
    }
    socket_path_in(config_dir)
}

/// The platform's config directory: on macOS `$HOME/Library/Application
/// Support`; elsewhere `$XDG_CONFIG_HOME`, or `$HOME/.config`. Empty
/// variables count as unset.
pub open spec fn config_dir_of(macos: bool, home: Option<Seq<char>>, xdg: Option<Seq<char>>) -> Option<
    Seq<char>,
> {
    if macos {
        match usable_override(home) {
            Some(h) => Some(join_path(join_path(h, "Library"@), "Application Support"@)),
            None => None,
        }
    } else {
        match usable_override(xdg) {
            Some(x) => Some(x),
            None => match usable_override(home) {
                Some(h) => Some(join_path(h, ".config"@)),
                None => None,
            },
        }
    }
}

/// The platform's config directory from `$HOME` and `$XDG_CONFIG_HOME`.
pub fn platform_config_dir(macos: bool, home: Option<&str>, xdg: Option<&str>) -> (r: Option<
    String,
>)
    ensures
        crate::state::models::opt_view(r) == config_dir_of(
            macos,
            match home {
                Some(h) => Some(h@),
                None => None,
            },
            match xdg {
                Some(x) => Some(x@),
                None => None,
            },
        ),
{
    if macos {
        match home {
            Some(h) => {
                if h.unicode_len() > 0 {
                    let lib = join(h, "Library");
                    return Some(join(lib.as_str(), "Application Support"));
                }
                None
            },
            None => None,
        }
    } else {
        match xdg {
            Some(x) => {
                if x.unicode_len() > 0 {
                    return Some(x.to_string());
                }
            },
            None => {},
        }
        match home {
            Some(h) => {
                if h.unicode_len() > 0 {
                    return Some(join(h, ".config"));
                }
                None
            },
            None => None,
        }
    }
}

/// The socket the client dials: the override first, else the socket in
/// `<platform config dir>/<IDENTIFIER>`.
pub fn default_socket_path(env_override: Option<&str>, config_dir: Option<&str>) -> (r: Option<
    String,
>)
    ensures
        crate::state::models::opt_view(r) == (match usable_override(
            match env_override {
                Some(v) => Some(v@),
                None => None,
            },
        ) {
            Some(v) => Some(v),
            None => match config_dir {
                Some(d) => Some(socket_in(join_path(d@, IDENTIFIER@))),
                None => None,
            },
        }),
{
    match env_override {
        Some(v) => {
            if v.unicode_len() > 0 {
                return Some(v.to_string());
            }
        },
        None => {},
    }
    match config_dir {
        Some(d) => {
            let app_dir = join(d, IDENTIFIER);
            Some(socket_path_in(app_dir.as_str()))
        },
        None => None,
    }
}

/// Refuse a socket path over [`MAX_SOCKET_PATH_BYTES`] bytes (its UTF-8
/// length, `str::len`); the
/// message names the limit and [`SOCKET_ENV`].
pub fn check_socket_path_len(path: &str) -> (r: Result<(), AppError>)
    ensures
        path.len() <= MAX_SOCKET_PATH_BYTES <==> r is Ok,
        r is Err ==> r->Err_0 is InvalidInput && r->Err_0->InvalidInput_0@
            == "control socket path is "@ + crate::text::decimal(path.len() as nat)
            + " bytes, over the 100-byte sun_path limit: "@ + path@ + ". Set "@ + SOCKET_ENV@
            + " to a shorter path (e.g. /tmp/tp.sock)."@,
{
    let len = path.len();
    if len > MAX_SOCKET_PATH_BYTES {
        return Err(
            AppError::InvalidInput(
                push_decimal("control socket path is ".to_string(), len as u64).concat(
                    " bytes, over the 100-byte sun_path limit: ",
                ).concat(path).concat(". Set ").concat(SOCKET_ENV).concat(
                    " to a shorter path (e.g. /tmp/tp.sock).",
                ),
            ),
        );
    }
    Ok(())
}

/// The override from the value of [`SOCKET_ENV`]: kept when set and
/// non-empty.
pub fn socket_path_from_env(value: Option<String>) -> (r: Option<String>)
    ensures
        crate::state::models::opt_view(r) == usable_override(crate::state::models::opt_view(value)),
{
    match value {
        Some(v) => {
            if v.unicode_len() > 0 {
                Some(v)
            } else {
                None
            }
        },
        None => None,
    }
}

} // verus!
