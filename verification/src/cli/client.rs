//! The command-line client's decisions: whether argv is a CLI run, the
//! request it sends, the read budget, how transport failures and responses
//! map to exit codes, and the plain-ASCII rendering of every payload.
use crate::cli::args::{cli_word, is_cli_subcommand, Command, CommandView};
use crate::cli::protocol::{
    endpoint, status_label, status_text, BulkResult, CliCommand, CliData, CliRequest, ForwardView,
};
use crate::cli::shim::{CliShimStatus, ShimEntry, ShimState};
use crate::error::AppError;
use crate::ssh::reconnect::{duration_from_secs, seconds};
use crate::state::models::{opt_view, strings_view, ForwardStatus, TunnelStats};
use crate::text::{
    decimal, digit, digit_char, has_prefix, join, join_strings, pad, padded, push_decimal,
    starts_with, str_eq, trim_end, trim_end_ws,
};
use std::time::Duration;
use vstd::prelude::*;

verus! {

/// Success.
pub const EXIT_OK: i32 = 0;

/// Internal, I/O or protocol failure.
pub const EXIT_INTERNAL: i32 = 1;

/// Usage error.
pub const EXIT_USAGE: i32 = 2;

/// The app is not running.
pub const EXIT_NOT_RUNNING: i32 = 3;

/// Target not found, or ambiguous.
pub const EXIT_NOT_FOUND: i32 = 4;

/// The operation itself ended in `error`.
pub const EXIT_OPERATION_FAILED: i32 = 5;

/// Timed out waiting for a terminal status.
pub const EXIT_TIMEOUT: i32 = 6;

/// Printed when the socket is absent; the GUI is never auto-launched.
pub const NOT_RUNNING_HINT: &'static str = "Tunnel Pilot is not running. Start it with: open -a \"Tunnel Pilot\"";

/// Printed when a subcommand hides behind leading options.
pub const OPTIONS_AFTER_SUBCOMMAND_HINT: &'static str = "options go after the subcommand (e.g. 'tunnel-pilot list --json')";

/// Slack added to the wait budget for the socket read, in seconds, so the
/// server's own answer wins the race.
pub const READ_TIMEOUT_SLACK_SECS: u64 = 10;

/// Read budget, in seconds, for commands that do not wait on a tunnel.
pub const DEFAULT_READ_TIMEOUT_SECS: u64 = 30;

/// What argv asks for.
#[derive(Debug, Clone, Copy, PartialEq, Eq, Structural)]
pub enum DispatchKind {
    /// Start the GUI (a bare launch or GUI flags).
    Gui,
    /// Run the CLI on `argv[1..]`.
    Cli,
    /// A leading option followed by a subcommand: a mistyped CLI call
    /// (usage error), never a GUI launch.
    OptionsBeforeSubcommand,
}

/// What argv (program name first) asks for.
pub open spec fn dispatch_of(argv: Seq<Seq<char>>) -> DispatchKind {
    if argv.len() < 2 {
        DispatchKind::Gui
    } else if cli_word(argv[1]) {
        DispatchKind::Cli
    } else if has_prefix(argv[1], "-"@) && exists|k: int| 2 <= k < argv.len() && cli_word(#[trigger] argv[k]) {
        DispatchKind::OptionsBeforeSubcommand
    } else {
        DispatchKind::Gui
    }
}

/// Classify argv: a subcommand word in first position runs the CLI; a
/// leading option with a subcommand later is a usage error; anything else
/// (a bare launch, `--minimized`) starts the GUI.
pub fn dispatch_kind(argv: &[String]) -> (r: DispatchKind)
    ensures
        r == dispatch_of(strings_view(argv@)),
{
    let ghost av = strings_view(argv@);
    if argv.len() < 2 {
        return DispatchKind::Gui;
    }
    assert(av[1] == argv@[1]@);
    if is_cli_subcommand(argv[1].as_str()) {
        return DispatchKind::Cli;
    }
    if !starts_with(argv[1].as_str(), "-") {
        return DispatchKind::Gui;
    }
    let mut k: usize = 2;
    while k < argv.len()
        invariant
            2 <= k <= argv.len(),
            av == strings_view(argv@),
            !cli_word(av[1]),
            has_prefix(av[1], "-"@),
            forall|j: int| 2 <= j < k ==> !cli_word(#[trigger] av[j]),
        decreases argv.len() - k,
    {
        assert(av[k as int] == argv@[k as int]@);
        if is_cli_subcommand(argv[k].as_str()) {
            return DispatchKind::OptionsBeforeSubcommand;
        }
        k = k + 1;
    }
    DispatchKind::Gui
}

/// The socket command a parsed command sends (local commands send the
/// harmless `version`; they never reach the socket).
pub open spec fn socket_command(c: CommandView) -> CliCommand {
    match c {
        CommandView::List => CliCommand::List,
        CommandView::Status { .. } => CliCommand::Status,
        CommandView::Connect { .. } => CliCommand::Connect,
        CommandView::Disconnect { .. } => CliCommand::Disconnect,
        CommandView::ConnectAll { .. } => CliCommand::ConnectAll,
        CommandView::DisconnectAll => CliCommand::DisconnectAll,
        _ => CliCommand::Version,
    }
}

/// Whether the wait budget of `c` fits the request in milliseconds.
pub open spec fn budget_fits(c: CommandView) -> bool {
    match c {
        CommandView::Connect { timeout_secs, .. } => timeout_secs * 1000 <= u64::MAX,
        CommandView::ConnectAll { timeout_secs, .. } => timeout_secs * 1000 <= u64::MAX,
        _ => true,
    }
}

/// The request a command sends: its socket command, with the target of
/// `status`/`connect`/`disconnect`, and the budget (in ms), wait and force
/// flags the user typed.
pub fn build_request(command: &Command) -> (r: CliRequest)
    requires
        budget_fits(command@),
    ensures
        r.v == crate::cli::protocol::PROTOCOL_VERSION,
        r.cmd == socket_command(command@),
        opt_view(r.target) == (match command@ {
            CommandView::Status { target } => Some(target),
            CommandView::Connect { target, .. } => Some(target),
            CommandView::Disconnect { target } => Some(target),
            _ => None,
        }),
        r.timeout_ms == (match command@ {
            CommandView::Connect { timeout_secs, .. } => Some((timeout_secs * 1000) as u64),
            CommandView::ConnectAll { timeout_secs, .. } => Some((timeout_secs * 1000) as u64),
            _ => None,
        }),
        r.wait == (match command@ {
            CommandView::Connect { wait, .. } => wait,
            CommandView::ConnectAll { wait, .. } => wait,
            _ => false,
        }),
        r.force == (match command@ {
            CommandView::Connect { force, .. } => force,
            _ => false,
        }),
{
    match command {
        Command::Help | Command::InstallCli { .. } | Command::UninstallCli => CliRequest::new(
            CliCommand::Version,
        ),
        Command::List => CliRequest::new(CliCommand::List),
        Command::Version => CliRequest::new(CliCommand::Version),
        Command::Status { target } => {
            let mut r = CliRequest::new(CliCommand::Status);
            r.target = Some(target.clone());
            r
        },
        Command::Disconnect { target } => {
            let mut r = CliRequest::new(CliCommand::Disconnect);
            r.target = Some(target.clone());
            r
        },
        Command::Connect { target, timeout_secs, wait, force } => {
            let mut r = CliRequest::new(CliCommand::Connect);
            r.target = Some(target.clone());
            r.timeout_ms = Some(*timeout_secs * 1000);
            r.wait = *wait;
            r.force = *force;
            r
        },
        Command::ConnectAll { timeout_secs, wait } => {
            let mut r = CliRequest::new(CliCommand::ConnectAll);
            r.timeout_ms = Some(*timeout_secs * 1000);
            r.wait = *wait;
            r
        },
        Command::DisconnectAll => CliRequest::new(CliCommand::DisconnectAll),
    }
}

/// The read budget in seconds: a waited connect gets its own budget plus
/// the slack; anything else the default.
pub open spec fn read_budget(c: CommandView) -> int {
    match c {
        CommandView::Connect { timeout_secs, wait, .. } => if wait {
            timeout_secs + READ_TIMEOUT_SLACK_SECS
        } else {
            DEFAULT_READ_TIMEOUT_SECS as int
        },
        CommandView::ConnectAll { timeout_secs, wait } => if wait {
            timeout_secs + READ_TIMEOUT_SLACK_SECS
        } else {
            DEFAULT_READ_TIMEOUT_SECS as int
        },
        _ => DEFAULT_READ_TIMEOUT_SECS as int,
    }
}

/// How long to wait for the response line, in seconds.
pub fn read_timeout_secs(command: &Command) -> (r: u64)
    requires
        read_budget(command@) <= u64::MAX,
    ensures
        r == read_budget(command@),
{
    match command {
        Command::Connect { timeout_secs, wait, .. } => {
            if *wait {
                *timeout_secs + READ_TIMEOUT_SLACK_SECS
            } else {
                DEFAULT_READ_TIMEOUT_SECS
            }
        },
        Command::ConnectAll { timeout_secs, wait } => {
            if *wait {
                *timeout_secs + READ_TIMEOUT_SLACK_SECS
            } else {
                DEFAULT_READ_TIMEOUT_SECS
            }
        },
        _ => DEFAULT_READ_TIMEOUT_SECS,
    }
}

/// The wait budget, in seconds, a command asks the server for when it
/// waits for a terminal status (`connect`/`connect-all` without
/// `--no-wait`); `None` for every other command.
pub open spec fn awaited_budget_secs(c: CommandView) -> Option<u64> {
    match c {
        CommandView::Connect { timeout_secs, wait, .. } => if wait {
            Some(timeout_secs)
        } else {
            None
        },
        CommandView::ConnectAll { timeout_secs, wait } => if wait {
            Some(timeout_secs)
        } else {
            None
        },
        _ => None,
    }
}

/// The client never gives up before the server answers: for a command that
/// waits, the socket read budget exceeds the command's own wait budget by
/// at least the slack, and in milliseconds it exceeds the budget the server
/// waits for after clamping the request's `timeout_ms` into
/// `[MIN_TIMEOUT_MS, MAX_TIMEOUT_MS]`; a command that does not wait gets the
/// default read budget.
pub proof fn law_client_outwaits_the_server(c: CommandView)
    ensures
        awaited_budget_secs(c) matches Some(t) ==> {
            &&& read_budget(c) >= t + READ_TIMEOUT_SLACK_SECS
            &&& read_budget(c) * 1000 > (if t * 1000 < crate::cli::protocol::MIN_TIMEOUT_MS {
                crate::cli::protocol::MIN_TIMEOUT_MS as int
            } else if t * 1000 > crate::cli::protocol::MAX_TIMEOUT_MS {
                crate::cli::protocol::MAX_TIMEOUT_MS as int
            } else {
                t * 1000
            })
        },
        awaited_budget_secs(c) is None ==> read_budget(c) == DEFAULT_READ_TIMEOUT_SECS,
{
}

/// How long to wait for the response line: the server's own budget plus
/// slack for a waited connect, so a long connect is answered rather than cut
/// off locally.
pub fn read_timeout(command: &Command) -> (r: Duration)
    requires
        read_budget(command@) <= u64::MAX,
    ensures
        r == seconds(read_budget(command@) as u64),
{
    duration_from_secs(read_timeout_secs(command))
}

/// The I/O error kinds the client tells apart.
#[derive(Debug, Clone, Copy, PartialEq, Eq, Structural)]
pub enum IoErrorKind {
    WouldBlock,
    TimedOut,
    NotFound,
    ConnectionRefused,
    Other,
}

/// A transport failure (application errors come back in the response).
#[derive(Debug, Clone, PartialEq, Eq)]
pub enum ClientError {
    /// No socket, or nothing listening: the app is not running.
    NotRunning,
    /// The read budget elapsed before the response line arrived.
    TimedOut,
    Io(String),
    Protocol(String),
}

#[verifier::external_type_specification]
#[verifier::external_body]
pub struct ExIoError(std::io::Error);

/// `std::io::Error::kind`, narrowed to the kinds the client tells apart.
/// The error is opaque here, so nothing is stated of the result.
#[verifier::external_body]
fn io_error_kind(e: &std::io::Error) -> IoErrorKind {
    match e.kind() {
        std::io::ErrorKind::WouldBlock => IoErrorKind::WouldBlock,
        std::io::ErrorKind::TimedOut => IoErrorKind::TimedOut,
        std::io::ErrorKind::NotFound => IoErrorKind::NotFound,
        std::io::ErrorKind::ConnectionRefused => IoErrorKind::ConnectionRefused,
        _ => IoErrorKind::Other,
    }
}

/// `ToString::to_string` of a `std::io::Error`: its display text. The error
/// is opaque here, so nothing is stated of the result.
#[verifier::external_body]
fn io_error_text(e: &std::io::Error) -> String {
    e.to_string()
}

/// A read failure of kind `kind` with text `text`: an elapsed budget
/// (`WouldBlock` on Linux, `TimedOut` on macOS) is a timeout, anything else
/// an I/O failure.
pub fn read_error_outcome(kind: IoErrorKind, text: String) -> (r: ClientError)
    ensures
        (kind == IoErrorKind::WouldBlock || kind == IoErrorKind::TimedOut) ==> r
            == ClientError::TimedOut,
        !(kind == IoErrorKind::WouldBlock || kind == IoErrorKind::TimedOut) ==> r == ClientError::Io(
            text,
        ),
{
    match kind {
        IoErrorKind::WouldBlock | IoErrorKind::TimedOut => ClientError::TimedOut,
        _ => ClientError::Io(text),
    }
}

/// A connect failure of kind `kind` with text `text`: a missing socket or a
/// refused connection means the app is not running.
pub fn connect_error_outcome(kind: IoErrorKind, text: String) -> (r: ClientError)
    ensures
        (kind == IoErrorKind::NotFound || kind == IoErrorKind::ConnectionRefused) ==> r
            == ClientError::NotRunning,
        !(kind == IoErrorKind::NotFound || kind == IoErrorKind::ConnectionRefused) ==> r
            == ClientError::Io(text),
{
    match kind {
        IoErrorKind::NotFound | IoErrorKind::ConnectionRefused => ClientError::NotRunning,
        _ => ClientError::Io(text),
    }
}

/// Classify a socket read failure: an elapsed budget is a timeout, never an
/// internal fault.
pub fn classify_read_error(error: &std::io::Error) -> (r: ClientError)
    ensures
        r is TimedOut || r is Io,
{
    read_error_outcome(io_error_kind(error), io_error_text(error))
}

/// Classify a socket connect failure.
pub fn classify_connect_error(error: &std::io::Error) -> (r: ClientError)
    ensures
        r is NotRunning || r is Io,
{
    connect_error_outcome(io_error_kind(error), io_error_text(error))
}

/// The message and exit code of a transport failure on socket `path` with a
/// read budget of `budget_secs`.
pub open spec fn client_error_text(e: ClientError, path: Seq<char>, budget_secs: u64) -> (
    Seq<char>,
    i32,
) {
    match e {
        ClientError::NotRunning => (NOT_RUNNING_HINT@, EXIT_NOT_RUNNING),
        ClientError::TimedOut => (
            "error: Tunnel Pilot did not answer within "@ + decimal(budget_secs as nat) + "s on "@
                + path,
            EXIT_TIMEOUT,
        ),
        ClientError::Io(m) => ("error: control socket at "@ + path + ": "@ + m@, EXIT_INTERNAL),
        ClientError::Protocol(m) => (
            "error: unexpected response from Tunnel Pilot: "@ + m@,
            EXIT_INTERNAL,
        ),
    }
}

/// What to print for a transport failure, and the exit code: a timeout is a
/// timeout (the app is running), not an internal error.
pub fn client_error_report(error: &ClientError, path: &str, budget_secs: u64) -> (r: (
    String,
    i32,
))
    ensures
        (r.0@, r.1) == client_error_text(*error, path@, budget_secs),
{
    match error {
        ClientError::NotRunning => (NOT_RUNNING_HINT.to_string(), EXIT_NOT_RUNNING),
        ClientError::TimedOut => (
            push_decimal("error: Tunnel Pilot did not answer within ".to_string(), budget_secs)
                .concat("s on ").concat(path),
            EXIT_TIMEOUT,
        ),
        ClientError::Io(m) => (
            "error: control socket at ".to_string().concat(path).concat(": ").concat(m.as_str()),
            EXIT_INTERNAL,
        ),
        ClientError::Protocol(m) => (
            "error: unexpected response from Tunnel Pilot: ".to_string().concat(m.as_str()),
            EXIT_INTERNAL,
        ),
    }
}

/// The exit code of an application error: not found or ambiguous is 4, a
/// failure inside the engine (SSH, connection) is 5, anything else 1.
pub open spec fn error_exit_code(e: AppError) -> i32 {
    match e {
        AppError::NotFound(_) => EXIT_NOT_FOUND,
        AppError::InvalidInput(_) => EXIT_NOT_FOUND,
        AppError::Ssh(_) => EXIT_OPERATION_FAILED,
        AppError::Connection(_) => EXIT_OPERATION_FAILED,
        _ => EXIT_INTERNAL,
    }
}

/// Map the app's error vocabulary onto exit codes.
pub fn exit_code_for_error(error: &AppError) -> (r: i32)
    ensures
        r == error_exit_code(*error),
{
    match error {
        AppError::NotFound(_) | AppError::InvalidInput(_) => EXIT_NOT_FOUND,
        AppError::Ssh(_) | AppError::Connection(_) => EXIT_OPERATION_FAILED,
        _ => EXIT_INTERNAL,
    }
}

/// A refusal of a local shim command (`InvalidInput`) is a usage error;
/// anything else an I/O or internal failure.
pub fn exit_code_for_shim_error(error: &AppError) -> (r: i32)
    ensures
        r == (if error is InvalidInput {
            EXIT_USAGE
        } else {
            EXIT_INTERNAL
        }),
{
    match error {
        AppError::InvalidInput(_) => EXIT_USAGE,
        _ => EXIT_INTERNAL,
    }
}

/// Whether the command waited for a connect to finish.
pub open spec fn awaited_connect(c: CommandView) -> bool {
    match c {
        CommandView::Connect { wait, .. } => wait,
        CommandView::ConnectAll { wait, .. } => wait,
        _ => false,
    }
}

/// The exit code of a successful round-trip.
pub open spec fn data_exit_code(c: CommandView, d: CliData) -> i32 {
    match d {
        CliData::Action { forward, timed_out, .. } => {
            let failed = forward.status == ForwardStatus::Error || (awaited_connect(c)
                && forward.status != ForwardStatus::Connected);
            if timed_out {
                EXIT_TIMEOUT
            } else if failed {
                EXIT_OPERATION_FAILED
            } else {
                EXIT_OK
            }
        },
        CliData::Bulk { results, failed, .. } => {
            let any_failed = failed > 0 || (awaited_connect(c) && exists|k: int|
                0 <= k < results@.len() && (#[trigger] results@[k]).status
                    != ForwardStatus::Connected);
            if exists|k: int| 0 <= k < results@.len() && (#[trigger] results@[k]).timed_out {
                EXIT_TIMEOUT
            } else if any_failed {
                EXIT_OPERATION_FAILED
            } else {
                EXIT_OK
            }
        },
        _ => EXIT_OK,
    }
}

/// Exit code for a successful round-trip, from the payload AND the command:
/// `list`, `status` and `version` exit 0; a timed-out wait exits 6; an
/// operation that ended in `error`, or a waited connect that did not end
/// `connected`, exits 5; under `--no-wait` a `connecting` result is neutral.
pub fn exit_code_for_data(command: &Command, data: &CliData) -> (r: i32)
    ensures
        r == data_exit_code(command@, *data),
{
    let awaited = match command {
        Command::Connect { wait, .. } => *wait,
        Command::ConnectAll { wait, .. } => *wait,
        _ => false,
    };
    match data {
        CliData::Action { forward, timed_out, .. } => {
            let failed = forward.status == ForwardStatus::Error || (awaited && forward.status
                != ForwardStatus::Connected);
            if *timed_out {
                EXIT_TIMEOUT
            } else if failed {
                EXIT_OPERATION_FAILED
            } else {
                EXIT_OK
            }
        },
        CliData::Bulk { results, failed, .. } => {
            let mut any_timed_out = false;
            let mut any_not_connected = false;
            let mut i: usize = 0;
            while i < results.len()
                invariant
                    i <= results.len(),
                    any_timed_out == exists|k: int| 0 <= k < i && (#[trigger] results@[k]).timed_out,
                    any_not_connected == exists|k: int|
                        0 <= k < i && (#[trigger] results@[k]).status != ForwardStatus::Connected,
                decreases results.len() - i,
            {
                if results[i].timed_out {
                    any_timed_out = true;
                }
                if results[i].status != ForwardStatus::Connected {
                    any_not_connected = true;
                }
                i = i + 1;
                proof {
                    if results@[i - 1].timed_out {
                        assert(results@[i - 1].timed_out);
                    }
                    if results@[i - 1].status != ForwardStatus::Connected {
                        assert(results@[i - 1].status != ForwardStatus::Connected);
                    }
                }
            }
            let any_failed = *failed > 0 || (awaited && any_not_connected);
            if any_timed_out {
                EXIT_TIMEOUT
            } else if any_failed {
                EXIT_OPERATION_FAILED
            } else {
                EXIT_OK
            }
        },
        _ => EXIT_OK,
    }
}

/// One `label value` line of the field-per-line renderings.
pub open spec fn field_line(label: Seq<char>, value: Seq<char>) -> Seq<char> {
    padded(label, 12) + value + "\n"@
}

fn push_field(out: String, label: &str, value: &str) -> (r: String)
    ensures
        r@ == out@ + field_line(label@, value@),
{
    out.concat(pad(label, 12).as_str()).concat(value).concat("\n")
}

/// Doubles are spaced 1 apart below 2^53 and twice as far each binade
/// above: the spacing at magnitude `b` (below 2^64).
pub open spec fn double_spacing(b: nat) -> nat {
    if b < 0x20_0000_0000_0000 {
        1
    } else if b < 0x40_0000_0000_0000 {
        2
    } else if b < 0x80_0000_0000_0000 {
        4
    } else if b < 0x100_0000_0000_0000 {
        8
    } else if b < 0x200_0000_0000_0000 {
        16
    } else if b < 0x400_0000_0000_0000 {
        32
    } else if b < 0x800_0000_0000_0000 {
        64
    } else if b < 0x1000_0000_0000_0000 {
        128
    } else if b < 0x2000_0000_0000_0000 {
        256
    } else if b < 0x4000_0000_0000_0000 {
        512
    } else if b < 0x8000_0000_0000_0000 {
        1024
    } else {
        2048
    }
}

/// `n / d` rounded to the nearest integer, ties to even.
pub open spec fn div_round_even(n: nat, d: nat) -> nat {
    let q = n / d;
    let r = n % d;
    if 2 * r > d || (2 * r == d && q % 2 == 1) {
        q + 1
    } else {
        q
    }
}

/// `b` rounded to the nearest double, ties to even.
pub open spec fn nearest_double(b: nat) -> nat {
    div_round_even(b, double_spacing(b)) * double_spacing(b)
}

/// The unit a size of `m` bytes (at least 1024) is shown in: 1 KB, 2 MB,
/// 3 GB, 4 TB (the largest).
pub open spec fn size_unit(m: nat) -> nat {
    if m < 0x10_0000 {
        1
    } else if m < 0x4000_0000 {
        2
    } else if m < 0x100_0000_0000 {
        3
    } else {
        4
    }
}

/// `1024^u` for the units.
pub open spec fn unit_divisor(u: nat) -> nat {
    if u == 1 {
        0x400
    } else if u == 2 {
        0x10_0000
    } else if u == 3 {
        0x4000_0000
    } else {
        0x100_0000_0000
    }
}

/// The unit's name.
pub open spec fn unit_name(u: nat) -> Seq<char> {
    if u == 1 {
        "KB"@
    } else if u == 2 {
        "MB"@
    } else if u == 3 {
        "GB"@
    } else {
        "TB"@
    }
}

/// A byte count for humans, ASCII only: below 1024 the exact count and `B`;
/// otherwise the count as a double, in the largest unit (KB to TB) that
/// keeps it at or above 1, with one decimal rounded half to even.
pub open spec fn bytes_text(bytes: u64) -> Seq<char> {
    if bytes < 1024 {
        decimal(bytes as nat) + " B"@
    } else {
        let m = nearest_double(bytes as nat);
        let u = size_unit(m);
        let tenths = div_round_even(m * 10, unit_divisor(u));
        decimal(tenths / 10) + "."@ + seq![digit_char((tenths % 10) as int)] + " "@ + unit_name(u)
    }
}

/// `b` rounded to the nearest double.
fn round_to_double(bytes: u64) -> (m: u128)
    ensures
        m == nearest_double(bytes as nat),
        m <= 0x1_0000_0000_0000_0800,
{
    let b: u128 = bytes as u128;
    let spacing: u128 = if b < 0x20_0000_0000_0000 {
        1
    } else if b < 0x40_0000_0000_0000 {
        2
    } else if b < 0x80_0000_0000_0000 {
        4
    } else if b < 0x100_0000_0000_0000 {
        8
    } else if b < 0x200_0000_0000_0000 {
        16
    } else if b < 0x400_0000_0000_0000 {
        32
    } else if b < 0x800_0000_0000_0000 {
        64
    } else if b < 0x1000_0000_0000_0000 {
        128
    } else if b < 0x2000_0000_0000_0000 {
        256
    } else if b < 0x4000_0000_0000_0000 {
        512
    } else if b < 0x8000_0000_0000_0000 {
        1024
    } else {
        2048
    };
    assert(spacing == double_spacing(b as nat));
    let q = b / spacing;
    let rem = b % spacing;
    proof {
        vstd::arithmetic::div_mod::lemma_fundamental_div_mod(b as int, spacing as int);
        assert((q + 1) * spacing <= b + spacing) by (nonlinear_arith)
            requires
                b == spacing * q + rem,
                rem >= 0,
        ;
    }
    let rounded = if 2 * rem > spacing || (2 * rem == spacing && q % 2 == 1) {
        q + 1
    } else {
        q
    };
    proof {
        assert(rounded * spacing <= b + spacing) by (nonlinear_arith)
            requires
                rounded <= q + 1,
                (q + 1) * spacing <= b + spacing,
                spacing > 0,
        ;
    }
    rounded * spacing
}

/// The unit and the tenths of a rounded size `m` (at least 1024).
fn size_parts(m: u128) -> (r: (u64, u128))
    requires
        m <= 0x1_0000_0000_0000_0800,
    ensures
        r.0 == size_unit(m as nat),
        r.1 == div_round_even((m * 10) as nat, unit_divisor(size_unit(m as nat))),
        r.1 / 10 <= u64::MAX,
{
    let (unit, divisor): (u64, u128) = if m < 0x10_0000 {
        (1, 0x400)
    } else if m < 0x4000_0000 {
        (2, 0x10_0000)
    } else if m < 0x100_0000_0000 {
        (3, 0x4000_0000)
    } else {
        (4, 0x100_0000_0000)
    };
    let n = m * 10;
    let q2 = n / divisor;
    let r2 = n % divisor;
    proof {
        assert(q2 <= n / 0x400) by (nonlinear_arith)
            requires
                q2 == n / divisor,
                divisor >= 0x400,
                n >= 0,
        ;
    }
    let tenths = if 2 * r2 > divisor || (2 * r2 == divisor && q2 % 2 == 1) {
        q2 + 1
    } else {
        q2
    };
    (unit, tenths)
}

/// Human byte sizes; ASCII only.
pub fn format_bytes(bytes: u64) -> (r: String)
    ensures
        r@ == bytes_text(bytes),
{
    if bytes < 1024 {
        return push_decimal(String::new(), bytes).concat(" B");
    }
    let m = round_to_double(bytes);
    let (unit, tenths) = size_parts(m);
    let whole = (tenths / 10) as u64;
    let frac = (tenths % 10) as u64;
    let name = if unit == 1 {
        "KB"
    } else if unit == 2 {
        "MB"
    } else if unit == 3 {
        "GB"
    } else {
        "TB"
    };
    let r = crate::text::push_char(push_decimal(String::new(), whole).concat("."), digit(frac)).concat(
        " ",
    ).concat(name);
    proof {
        assert(r@ =~= bytes_text(bytes));
    }
    r
}

/// `user@host:port`.
pub open spec fn ssh_text(f: ForwardView) -> Seq<char> {
    f.ssh_username@ + "@"@ + f.ssh_host@ + ":"@ + decimal(f.ssh_port as nat)
}

/// The `status` rendering: one `label value` line per field; tags,
/// latency, session start and last error only when present.
pub open spec fn status_render(f: ForwardView, s: TunnelStats) -> Seq<char> {
    field_line("name"@, f.name@) + field_line("id"@, f.id@) + field_line(
        "status"@,
        status_text(f.status),
    ) + field_line("local"@, endpoint(f.local_bind_address@, f.local_port)) + field_line(
        "remote"@,
        endpoint(f.remote_host@, f.remote_port),
    ) + field_line("ssh"@, ssh_text(f)) + (if f.tags@.len() > 0 {
        field_line("tags"@, join(strings_view(f.tags@), ", "@))
    } else {
        Seq::empty()
    }) + field_line("connections"@, decimal(s.active_connections as nat)) + field_line(
        "transfer"@,
        "up "@ + bytes_text(s.total_bytes_up) + " / down "@ + bytes_text(s.total_bytes_down),
    ) + (match s.last_ping_latency_ms {
        Some(l) => field_line("latency"@, decimal(l as nat) + " ms"@),
        None => Seq::empty(),
    }) + (match s.connected_since {
        Some(x) => field_line("since"@, x@),
        None => Seq::empty(),
    }) + (match f.last_error {
        Some(e) => field_line("error"@, e@),
        None => Seq::empty(),
    })
}

/// Render one forward's status, endpoints and stats.
pub fn render_status(forward: &ForwardView, stats: &TunnelStats) -> (r: String)
    ensures
        r@ == status_render(*forward, *stats),
{
    let mut out = String::new();
    out = push_field(out, "name", forward.name.as_str());
    out = push_field(out, "id", forward.id.as_str());
    out = push_field(out, "status", status_label(forward.status));
    out = push_field(out, "local", forward.local_endpoint().as_str());
    out = push_field(out, "remote", forward.remote_endpoint().as_str());
    let ssh = push_decimal(
        forward.ssh_username.clone().concat("@").concat(forward.ssh_host.as_str()).concat(":"),
        forward.ssh_port as u64,
    );
    out = push_field(out, "ssh", ssh.as_str());
    let ghost head = out@;
    if forward.tags.len() > 0 {
        out = push_field(out, "tags", join_strings(&forward.tags, ", ").as_str());
    }
    let ghost with_tags = out@;
    out = push_field(out, "connections", push_decimal(String::new(), stats.active_connections as u64).as_str());
    let transfer = "up ".to_string().concat(format_bytes(stats.total_bytes_up).as_str()).concat(
        " / down ",
    ).concat(format_bytes(stats.total_bytes_down).as_str());
    out = push_field(out, "transfer", transfer.as_str());
    let ghost with_transfer = out@;
    match stats.last_ping_latency_ms {
        Some(l) => {
            out = push_field(out, "latency", push_decimal(String::new(), l).concat(" ms").as_str());
        },
        None => {},
    }
    let ghost with_latency = out@;
    match &stats.connected_since {
        Some(x) => {
            out = push_field(out, "since", x.as_str());
        },
        None => {},
    }
    let ghost with_since = out@;
    match &forward.last_error {
        Some(e) => {
            out = push_field(out, "error", e.as_str());
        },
        None => {},
    }
    proof {
        assert(strings_view(forward.tags@) =~= forward.tags@.map_values(|s: String| s@));
        assert(out@ =~= status_render(*forward, *stats));
    }
    out
}

/// The suffix of an action line.
pub open spec fn action_suffix(waited: bool, timed_out: bool) -> Seq<char> {
    if timed_out {
        " (timed out waiting for a terminal status)"@
    } else if !waited {
        " (dispatched; not waited)"@
    } else {
        Seq::empty()
    }
}

/// The error part of a line: `: <error>` for a tunnel in `error` with a
/// message.
pub open spec fn error_part(status: ForwardStatus, last_error: Option<String>) -> Seq<char> {
    match last_error {
        Some(e) => if status == ForwardStatus::Error {
            ": "@ + e@
        } else {
            Seq::empty()
        },
        None => Seq::empty(),
    }
}

fn push_error_part(out: String, status: ForwardStatus, last_error: &Option<String>) -> (r: String)
    ensures
        r@ == out@ + error_part(status, *last_error),
{
    match last_error {
        Some(e) => {
            if status == ForwardStatus::Error {
                out.concat(": ").concat(e.as_str())
            } else {
                proof {
                    assert(out@ + Seq::<char>::empty() =~= out@);
                }
                out
            }
        },
        None => {
            proof {
                assert(out@ + Seq::<char>::empty() =~= out@);
            }
            out
        },
    }
}

/// The line of a connect or disconnect: name, status, the error when it
/// ended in `error`, and whether the wait timed out or was skipped.
pub open spec fn action_render(f: ForwardView, waited: bool, timed_out: bool) -> Seq<char> {
    f.name@ + "  "@ + status_text(f.status) + error_part(f.status, f.last_error) + action_suffix(
        waited,
        timed_out,
    ) + "\n"@
}

/// Render the outcome of one connect or disconnect.
pub fn render_action(forward: &ForwardView, waited: bool, timed_out: bool) -> (r: String)
    ensures
        r@ == action_render(*forward, waited, timed_out),
{
    let suffix = if timed_out {
        " (timed out waiting for a terminal status)"
    } else if !waited {
        " (dispatched; not waited)"
    } else {
        ""
    };
    let head = forward.name.clone().concat("  ").concat(status_label(forward.status));
    let with_error = push_error_part(head, forward.status, &forward.last_error);
    let r = with_error.concat(suffix).concat("\n");
    proof {
        reveal_strlit("");
        assert(suffix@ == action_suffix(waited, timed_out));
    }
    r
}

/// The longest name among the first `n` results, in characters.
pub open spec fn name_width(rs: Seq<BulkResult>, n: nat) -> nat
    decreases n,
{
    if n == 0 || n > rs.len() {
        0
    } else {
        let w = name_width(rs, (n - 1) as nat);
        if rs[n - 1].name@.len() > w {
            rs[n - 1].name@.len()
        } else {
            w
        }
    }
}

/// One line of a bulk rendering.
pub open spec fn bulk_line(r: BulkResult, w: nat) -> Seq<char> {
    trim_end_ws(
        padded(r.name@, w) + "  "@ + status_text(r.status) + (if r.timed_out {
            " (timed out)"@
        } else {
            Seq::empty()
        }) + error_part(r.status, r.last_error),
    ) + "\n"@
}

/// The lines of the first `n` results.
pub open spec fn bulk_lines(rs: Seq<BulkResult>, w: nat, n: nat) -> Seq<char>
    decreases n,
{
    if n == 0 || n > rs.len() {
        Seq::empty()
    } else {
        bulk_lines(rs, w, (n - 1) as nat) + bulk_line(rs[n - 1], w)
    }
}

/// The bulk rendering: one line per tunnel (names padded to the longest),
/// then the totals.
pub open spec fn bulk_render(rs: Seq<BulkResult>, succeeded: usize, failed: usize) -> Seq<char> {
    if rs.len() == 0 {
        "No forwards configured.\n"@
    } else {
        bulk_lines(rs, name_width(rs, rs.len()), rs.len()) + decimal(succeeded as nat)
            + " succeeded, "@ + decimal(failed as nat) + " failed, "@ + decimal(rs.len())
            + " total\n"@
    }
}

/// Render a bulk sweep and its totals.
pub fn render_bulk(results: &[BulkResult], succeeded: usize, failed: usize) -> (r: String)
    ensures
        r@ == bulk_render(results@, succeeded, failed),
{
    if results.len() == 0 {
        return "No forwards configured.\n".to_string();
    }
    let mut w: usize = 0;
    let mut i: usize = 0;
    while i < results.len()
        invariant
            i <= results.len(),
            w == name_width(results@, i as nat),
        decreases results.len() - i,
    {
        let n = results[i].name.unicode_len();
        if n > w {
            w = n;
        }
        i = i + 1;
    }
    let mut out = String::new();
    let mut j: usize = 0;
    while j < results.len()
        invariant
            j <= results.len(),
            w == name_width(results@, results@.len()),
            out@ == bulk_lines(results@, w as nat, j as nat),
        decreases results.len() - j,
    {
        let res = &results[j];
        let mut line = pad(res.name.as_str(), w).concat("  ").concat(status_label(res.status));
        let ghost base = line@;
        if res.timed_out {
            line = line.concat(" (timed out)");
        }
        proof {
            assert(line@ =~= base + (if res.timed_out {
                " (timed out)"@
            } else {
                Seq::empty()
            }));
        }
        line = push_error_part(line, res.status, &res.last_error);
        out = out.concat(trim_end(line).as_str()).concat("\n");
        j = j + 1;
    }
    let total = push_decimal(
        push_decimal(push_decimal(String::new(), succeeded as u64).concat(" succeeded, "), failed as u64)
            .concat(" failed, "),
        results.len() as u64,
    ).concat(" total\n");
    out.concat(total.as_str())
}

/// The version rendering: this client's version, the app's, the protocol.
pub open spec fn version_render(cli_version: Seq<char>, app_version: Seq<char>, protocol: u32) -> Seq<char> {
    "cli       "@ + cli_version + "\napp       "@ + app_version + "\nprotocol  "@ + decimal(
        protocol as nat,
    ) + "\n"@
}

/// Render the versions (`cli_version` is this client's own).
pub fn render_version(cli_version: &str, app_version: &str, protocol: u32) -> (r: String)
    ensures
        r@ == version_render(cli_version@, app_version@, protocol),
{
    push_decimal(
        "cli       ".to_string().concat(cli_version).concat("\napp       ").concat(app_version).concat(
            "\nprotocol  ",
        ),
        protocol as u64,
    ).concat("\n")
}

/// The cells of one list row: status, name, local and remote endpoints, id.
pub open spec fn list_cells(f: ForwardView) -> Seq<Seq<char>> {
    seq![
        status_text(f.status),
        f.name@,
        endpoint(f.local_bind_address@, f.local_port),
        endpoint(f.remote_host@, f.remote_port),
        f.id@,
    ]
}

/// The header row of the list.
pub open spec fn list_header() -> Seq<Seq<char>> {
    seq!["STATUS"@, "NAME"@, "LOCAL"@, "REMOTE"@, "ID"@]
}

/// What follows a row: the last error of a tunnel in `error`.
pub open spec fn list_trailer(f: ForwardView) -> Seq<char> {
    match f.last_error {
        Some(e) => if f.status == ForwardStatus::Error {
            e@
        } else {
            Seq::empty()
        },
        None => Seq::empty(),
    }
}

/// The width of column `c`: its longest cell, header and first `n` rows.
pub open spec fn column_width(fs: Seq<ForwardView>, c: int, n: nat) -> nat
    decreases n,
{
    if n == 0 || n > fs.len() {
        list_header()[c].len()
    } else {
        let w = column_width(fs, c, (n - 1) as nat);
        let l = list_cells(fs[n - 1])[c].len();
        if l > w {
            l
        } else {
            w
        }
    }
}

/// The padded cells of a row, each followed by two spaces.
pub open spec fn cells_text(cells: Seq<Seq<char>>, fs: Seq<ForwardView>, k: nat) -> Seq<char>
    decreases k,
{
    if k == 0 {
        Seq::empty()
    } else {
        cells_text(cells, fs, (k - 1) as nat) + padded(
            cells[k - 1],
            column_width(fs, k - 1, fs.len()),
        ) + "  "@
    }
}

/// One line of the list: padded cells, the trailer, trailing space trimmed.
pub open spec fn list_line(cells: Seq<Seq<char>>, trailer: Seq<char>, fs: Seq<ForwardView>) -> Seq<char> {
    trim_end_ws(cells_text(cells, fs, 5) + trailer) + "\n"@
}

/// The rows of the first `n` forwards.
pub open spec fn list_rows(fs: Seq<ForwardView>, n: nat) -> Seq<char>
    decreases n,
{
    if n == 0 || n > fs.len() {
        Seq::empty()
    } else {
        list_rows(fs, (n - 1) as nat) + list_line(list_cells(fs[n - 1]), list_trailer(fs[n - 1]), fs)
    }
}

/// The list rendering: a header and one row per forward in fixed-width
/// columns (full ids, no colour), a tunnel's last error after its id.
pub open spec fn list_render(fs: Seq<ForwardView>) -> Seq<char> {
    if fs.len() == 0 {
        "No forwards configured.\n"@
    } else {
        list_line(list_header(), Seq::empty(), fs) + list_rows(fs, fs.len())
    }
}

fn cells_of(f: &ForwardView) -> (r: Vec<String>)
    ensures
        strings_view(r@) == list_cells(*f),
        r@.len() == 5,
{
    let r = vec![
        status_label(f.status).to_string(),
        f.name.clone(),
        f.local_endpoint(),
        f.remote_endpoint(),
        f.id.clone(),
    ];
    proof {
        assert(strings_view(r@) =~= list_cells(*f));
    }
    r
}

fn header_cells() -> (r: Vec<String>)
    ensures
        strings_view(r@) == list_header(),
        r@.len() == 5,
{
    let r = vec![
        "STATUS".to_string(),
        "NAME".to_string(),
        "LOCAL".to_string(),
        "REMOTE".to_string(),
        "ID".to_string(),
    ];
    proof {
        assert(strings_view(r@) =~= list_header());
    }
    r
}

fn list_line_of(cells: &Vec<String>, trailer: &str, widths: &Vec<usize>, Ghost(fs): Ghost<
    Seq<ForwardView>,
>) -> (r: String)
    requires
        cells@.len() == 5,
        widths@.len() == 5,
        forall|c: int| 0 <= c < 5 ==> widths@[c] == column_width(fs, c, fs.len()),
    ensures
        r@ == list_line(strings_view(cells@), trailer@, fs),
{
    let ghost cv = strings_view(cells@);
    let mut line = String::new();
    let mut c: usize = 0;
    while c < 5
        invariant
            c <= 5,
            cells@.len() == 5,
            widths@.len() == 5,
            cv == strings_view(cells@),
            forall|k: int| 0 <= k < 5 ==> widths@[k] == column_width(fs, k, fs.len()),
            line@ == cells_text(cv, fs, c as nat),
        decreases 5 - c,
    {
        line = line.concat(pad(cells[c].as_str(), widths[c]).as_str()).concat("  ");
        c = c + 1;
    }
    trim_end(line.concat(trailer)).concat("\n")
}

/// Render the forwards as a fixed-width table.
pub fn render_list(forwards: &[ForwardView]) -> (r: String)
    ensures
        r@ == list_render(forwards@),
{
    if forwards.len() == 0 {
        return "No forwards configured.\n".to_string();
    }
    let ghost fs = forwards@;
    let mut widths: Vec<usize> = vec![6, 4, 5, 6, 2];
    proof {
        reveal_strlit("STATUS");
        reveal_strlit("NAME");
        reveal_strlit("LOCAL");
        reveal_strlit("REMOTE");
        reveal_strlit("ID");
    }
    let mut i: usize = 0;
    while i < forwards.len()
        invariant
            i <= forwards.len(),
            fs == forwards@,
            widths@.len() == 5,
            forall|c: int| 0 <= c < 5 ==> widths@[c] == column_width(fs, c, i as nat),
        decreases forwards.len() - i,
    {
        let cells = cells_of(&forwards[i]);
        let mut c: usize = 0;
        while c < 5
            invariant
                c <= 5,
                i < forwards.len(),
                fs == forwards@,
                widths@.len() == 5,
                cells@.len() == 5,
                strings_view(cells@) == list_cells(fs[i as int]),
                forall|k: int| 0 <= k < c ==> widths@[k] == column_width(fs, k, (i + 1) as nat),
                forall|k: int| c <= k < 5 ==> widths@[k] == column_width(fs, k, i as nat),
            decreases 5 - c,
        {
            let n = cells[c].unicode_len();
            assert(n == list_cells(fs[i as int])[c as int].len());
            if n > widths[c] {
                widths.set(c, n);
            }
            c = c + 1;
        }
        i = i + 1;
    }
    let mut out = list_line_of(&header_cells(), "", &widths, Ghost(fs));
    proof {
        reveal_strlit("");
    }
    let ghost header = out@;
    let mut j: usize = 0;
    while j < forwards.len()
        invariant
            j <= forwards.len(),
            fs == forwards@,
            widths@.len() == 5,
            forall|c: int| 0 <= c < 5 ==> widths@[c] == column_width(fs, c, fs.len()),
            header == list_line(list_header(), Seq::empty(), fs),
            out@ == header + list_rows(fs, j as nat),
        decreases forwards.len() - j,
    {
        let f = &forwards[j];
        let cells = cells_of(f);
        let trailer = match &f.last_error {
            Some(e) => {
                if f.status == ForwardStatus::Error {
                    e.clone()
                } else {
                    String::new()
                }
            },
            None => String::new(),
        };
        let line = list_line_of(&cells, trailer.as_str(), &widths, Ghost(fs));
        out = out.concat(line.as_str());
        j = j + 1;
    }
    out
}

/// Render any payload (`cli_version` is this client's own, for `version`).
pub fn render(data: &CliData, cli_version: &str) -> (r: String)
    ensures
        r@ == (match *data {
            CliData::List { forwards } => list_render(forwards@),
            CliData::Status { forward, stats } => status_render(forward, stats),
            CliData::Action { forward, waited, timed_out } => action_render(
                forward,
                waited,
                timed_out,
            ),
            CliData::Bulk { results, succeeded, failed } => bulk_render(
                results@,
                succeeded,
                failed,
            ),
            CliData::Version { app_version, protocol } => version_render(
                cli_version@,
                app_version@,
                protocol,
            ),
        }),
{
    match data {
        CliData::List { forwards } => render_list(forwards.as_slice()),
        CliData::Status { forward, stats } => render_status(forward, stats),
        CliData::Action { forward, waited, timed_out } => render_action(forward, *waited, *timed_out),
        CliData::Bulk { results, succeeded, failed } => render_bulk(
            results.as_slice(),
            *succeeded,
            *failed,
        ),
        CliData::Version { app_version, protocol } => render_version(
            cli_version,
            app_version.as_str(),
            *protocol,
        ),
    }
}

/// The debug name of a shim state.
pub open spec fn state_name(s: ShimState) -> Seq<char> {
    match s {
        ShimState::Absent => "Absent"@,
        ShimState::LinkedToCurrent => "LinkedToCurrent"@,
        ShimState::LinkedElsewhere => "LinkedElsewhere"@,
        ShimState::NotASymlink => "NotASymlink"@,
    }
}

fn state_label(s: ShimState) -> (r: &'static str)
    ensures
        r@ == state_name(s),
{
    match s {
        ShimState::Absent => "Absent",
        ShimState::LinkedToCurrent => "LinkedToCurrent",
        ShimState::LinkedElsewhere => "LinkedElsewhere",
        ShimState::NotASymlink => "NotASymlink",
    }
}

/// The `also at` lines of the first `n` entries: every present entry other
/// than the reported path.
pub open spec fn also_at_lines(es: Seq<ShimEntry>, reported: Option<String>, n: nat) -> Seq<char>
    decreases n,
{
    if n == 0 || n > es.len() {
        Seq::empty()
    } else {
        let e = es[n - 1];
        let before = also_at_lines(es, reported, (n - 1) as nat);
        if opt_view(reported) == Some(e.path@) || e.state == ShimState::Absent {
            before
        } else {
            before + field_line("also at"@, e.path@ + " ("@ + state_name(e.state) + ")"@)
        }
    }
}

/// An optional field line.
pub open spec fn opt_field(label: Seq<char>, value: Option<String>) -> Seq<char> {
    match value {
        Some(v) => field_line(label, v@),
        None => Seq::empty(),
    }
}

/// The shim rendering: one `label value` line per fact, the same shape as
/// `status`.
pub open spec fn shim_render(st: CliShimStatus) -> Seq<char> {
    if !st.supported {
        field_line("supported"@, "no (macOS and Linux only)"@)
    } else {
        field_line(
            "installed"@,
            if !st.installed {
                "no"@
            } else if st.links_to_current {
                "yes"@
            } else {
                "yes (needs attention)"@
            },
        ) + opt_field("path"@, st.path) + opt_field("links to"@, st.linked_path) + opt_field(
            "this app"@,
            st.current_exe,
        ) + (if st.conflict {
            field_line("warning"@, "a real file is in the way; remove it yourself"@)
        } else if st.linked_elsewhere {
            field_line("warning"@, "the shim points at another binary; re-run install-cli"@)
        } else {
            Seq::empty()
        }) + also_at_lines(st.entries@, st.path, st.entries@.len()) + (if !st.installed {
            match st.install_path {
                Some(p) => field_line(
                    "would use"@,
                    p@ + if st.needs_elevation {
                        " (needs administrator rights)"@
                    } else {
                        Seq::empty()
                    },
                ),
                None => Seq::empty(),
            }
        } else {
            Seq::empty()
        }) + (if st.dev_build {
            field_line("note"@, "development build — install is refused"@)
        } else {
            Seq::empty()
        })
    }
}

fn push_opt_field(out: String, label: &str, value: &Option<String>) -> (r: String)
    ensures
        r@ == out@ + opt_field(label@, *value),
{
    match value {
        Some(v) => push_field(out, label, v.as_str()),
        None => {
            proof {
                assert(out@ + Seq::<char>::empty() =~= out@);
            }
            out
        },
    }
}

/// Render the shim status, field per line, so a person can read where the
/// shim went and a script can grep it.
pub fn render_shim_status(status: &CliShimStatus) -> (r: String)
    ensures
        r@ == shim_render(*status),
{
    if !status.supported {
        return push_field(String::new(), "supported", "no (macOS and Linux only)");
    }
    let installed = if !status.installed {
        "no"
    } else if status.links_to_current {
        "yes"
    } else {
        "yes (needs attention)"
    };
    let mut out = push_field(String::new(), "installed", installed);
    out = push_opt_field(out, "path", &status.path);
    out = push_opt_field(out, "links to", &status.linked_path);
    out = push_opt_field(out, "this app", &status.current_exe);
    let ghost before_warning = out@;
    if status.conflict {
        out = push_field(out, "warning", "a real file is in the way; remove it yourself");
    } else if status.linked_elsewhere {
        out = push_field(out, "warning", "the shim points at another binary; re-run install-cli");
    }
    let ghost before_entries = out@;
    proof {
        assert(before_entries =~= before_warning + (if status.conflict {
            field_line("warning"@, "a real file is in the way; remove it yourself"@)
        } else if status.linked_elsewhere {
            field_line("warning"@, "the shim points at another binary; re-run install-cli"@)
        } else {
            Seq::empty()
        }));
    }
    let mut i: usize = 0;
    while i < status.entries.len()
        invariant
            i <= status.entries.len(),
            out@ == before_entries + also_at_lines(status.entries@, status.path, i as nat),
        decreases status.entries.len() - i,
    {
        let e = &status.entries[i];
        let same = match &status.path {
            Some(p) => str_eq(p.as_str(), e.path.as_str()),
            None => false,
        };
        if !same && e.state != ShimState::Absent {
            out = push_field(
                out,
                "also at",
                e.path.clone().concat(" (").concat(state_label(e.state)).concat(")").as_str(),
            );
        }
        i = i + 1;
    }
    let ghost before_install = out@;
    if !status.installed {
        match &status.install_path {
            Some(p) => {
                let suffix = if status.needs_elevation {
                    " (needs administrator rights)"
                } else {
                    ""
                };
                proof {
                    reveal_strlit("");
                }
                out = push_field(out, "would use", p.clone().concat(suffix).as_str());
            },
            None => {},
        }
    }
    let ghost before_note = out@;
    if status.dev_build {
        out = push_field(out, "note", "development build — install is refused");
    }
    proof {
        assert(out@ =~= shim_render(*status));
    }
    out
}

} // verus!
