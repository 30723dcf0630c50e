//! Hand-rolled argument parsing for the command-line client.
//!
//! [`parse`] is pure: it takes the argv tail and returns either an
//! [`Invocation`] or a [`UsageError`]. Its contract is [`parse_spec`], a scan
//! over the arguments that mirrors the documented flag grammar.
use crate::cli::shim::ShimTarget;
use crate::state::models::{opt_view, strings_view};
use crate::text::{
    decimal, has_prefix, parse_u64, push_decimal, starts_with, str_eq, suffix_from, u64_from_str,
};
use vstd::prelude::*;

verus! {

/// Lower bound for `--timeout`, in seconds (mirrors the server clamp).
pub const MIN_TIMEOUT_SECS: u64 = 1;

/// Upper bound for `--timeout`, in seconds (mirrors the server clamp).
pub const MAX_TIMEOUT_SECS: u64 = 300;

/// Default wait budget in seconds when `--timeout` is absent.
pub const DEFAULT_TIMEOUT_SECS: u64 = 30;

/// The usage text printed by `help`.
pub const HELP_TEXT: &'static str = "\
tunnel-pilot — control the running Tunnel Pilot app from a terminal

USAGE:
    tunnel-pilot <command> [options]

COMMANDS:
    list                       List every configured forward and its status
    status <id|name>           Show one forward's status, endpoints and stats
    connect <id|name>          Connect a forward and wait for a terminal status
    disconnect <id|name>       Disconnect a forward (waits for teardown)
    connect-all                Connect every forward (tray 'Start All')
    disconnect-all             Disconnect every live forward (tray 'Stop All')
    install-cli                Put `tunnel-pilot` on PATH (symlink to this app)
    uninstall-cli              Remove the PATH symlink
    version                    App version + protocol version
    help                       Show this help

OPTIONS:
    --json                     Print the raw JSON response payload
    --socket <path>            Control socket path (default: app config dir)
    --timeout <secs>           Wait budget for connect/connect-all (1-300, default 30)
    --no-wait                  Return as soon as the connect is dispatched
    --force                    Reconnect even when the forward is already connected

TARGETS:
    A target is a forward id (exact) or name (case-insensitive, exact).
    Ambiguous names are rejected — use the id.

EXIT CODES:
    0 ok   1 internal/IO   2 usage   3 app not running
    4 target not found or ambiguous   5 operation ended in error   6 timed out

ENVIRONMENT:
    TUNNEL_PILOT_SOCKET        Socket path override (both app and CLI)
";

/// A fully parsed invocation: what to do, plus the global flags.
#[derive(Debug, Clone, PartialEq, Eq)]
pub struct Invocation {
    pub command: Command,
    /// `--json`: print the response payload verbatim instead of a table.
    pub json: bool,
    /// `--socket <path>`: override the socket path.
    pub socket: Option<String>,
}

/// The subcommand plus its own arguments.
#[allow(inconsistent_fields)]
#[derive(Debug, Clone, PartialEq, Eq)]
pub enum Command {
    Help,
    List,
    Status { target: String },
    Connect { target: String, timeout_secs: u64, wait: bool, force: bool },
    Disconnect { target: String },
    ConnectAll { timeout_secs: u64, wait: bool },
    DisconnectAll,
    Version,
    InstallCli { target: Option<ShimTarget> },
    UninstallCli,
}

/// A user-facing usage failure (exit code 2).
#[derive(Debug, Clone, PartialEq, Eq)]
pub struct UsageError {
    pub message: String,
}

/// The mathematical content of a [`Command`].
#[allow(inconsistent_fields)]
pub enum CommandView {
    Help,
    List,
    Status { target: Seq<char> },
    Connect { target: Seq<char>, timeout_secs: u64, wait: bool, force: bool },
    Disconnect { target: Seq<char> },
    ConnectAll { timeout_secs: u64, wait: bool },
    DisconnectAll,
    Version,
    InstallCli { target: Option<ShimTarget> },
    UninstallCli,
}

impl View for Command {
    type V = CommandView;

    open spec fn view(&self) -> CommandView {
        match self {
            Command::Help => CommandView::Help,
            Command::List => CommandView::List,
            Command::Status { target } => CommandView::Status { target: target@ },
            Command::Connect { target, timeout_secs, wait, force } => CommandView::Connect {
                target: target@,
                timeout_secs: *timeout_secs,
                wait: *wait,
                force: *force,
            },
            Command::Disconnect { target } => CommandView::Disconnect { target: target@ },
            Command::ConnectAll { timeout_secs, wait } => CommandView::ConnectAll {
                timeout_secs: *timeout_secs,
                wait: *wait,
            },
            Command::DisconnectAll => CommandView::DisconnectAll,
            Command::Version => CommandView::Version,
            Command::InstallCli { target } => CommandView::InstallCli { target: *target },
            Command::UninstallCli => CommandView::UninstallCli,
        }
    }
}

/// The mathematical content of an [`Invocation`].
pub struct InvocationView {
    pub command: CommandView,
    pub json: bool,
    pub socket: Option<Seq<char>>,
}

impl View for Invocation {
    type V = InvocationView;

    open spec fn view(&self) -> InvocationView {
        InvocationView { command: self.command@, json: self.json, socket: opt_view(self.socket) }
    }
}

/// A parse result as values: the invocation, or the usage message.
pub open spec fn parse_result_view(r: Result<Invocation, UsageError>) -> Result<
    InvocationView,
    Seq<char>,
> {
    match r {
        Ok(inv) => Ok(inv@),
        Err(e) => Err(e.message@),
    }
}

/// The words that start a CLI run (never a GUI flag such as `--minimized`).
pub open spec fn cli_word(word: Seq<char>) -> bool {
    ||| word == "list"@
    ||| word == "status"@
    ||| word == "connect"@
    ||| word == "disconnect"@
    ||| word == "connect-all"@
    ||| word == "disconnect-all"@
    ||| word == "install-cli"@
    ||| word == "uninstall-cli"@
    ||| word == "version"@
    ||| word == "help"@
    ||| word == "--help"@
    ||| word == "-h"@
}

/// Whether `word` starts a CLI invocation rather than a GUI launch.
pub fn is_cli_subcommand(word: &str) -> (r: bool)
    ensures
        r == cli_word(word@),
{
    str_eq(word, "list") || str_eq(word, "status") || str_eq(word, "connect") || str_eq(
        word,
        "disconnect",
    ) || str_eq(word, "connect-all") || str_eq(word, "disconnect-all") || str_eq(
        word,
        "install-cli",
    ) || str_eq(word, "uninstall-cli") || str_eq(word, "version") || str_eq(word, "help")
        || str_eq(word, "--help") || str_eq(word, "-h")
}

/// The flags gathered while scanning the arguments after the subcommand.
pub struct ScanState {
    pub json: bool,
    pub socket: Option<Seq<char>>,
    pub timeout: Option<u64>,
    pub wait: bool,
    pub force: bool,
    pub positionals: Seq<Seq<char>>,
}

/// Where a scan ends.
pub enum ScanEnd {
    /// `--help`/`-h` seen: help, with the flags gathered so far.
    Help { json: bool, socket: Option<Seq<char>> },
    /// A usage error.
    Fail(Seq<char>),
    /// Every argument consumed.
    Done(ScanState),
}

/// The value of `flag` at argument `i`: inline (`--flag=value`, non-empty)
/// or the next argument when it does not start with `-`. Also gives the index
/// of the next unread argument.
pub open spec fn flag_value(args: Seq<Seq<char>>, i: int, flag: Seq<char>) -> Result<
    (Seq<char>, int),
    Seq<char>,
> {
    let arg = args[i];
    let eq = flag + "="@;
    if has_prefix(arg, eq) {
        let inline = arg.subrange(eq.len() as int, arg.len() as int);
        if inline.len() == 0 {
            Err(flag + " requires a value"@)
        } else {
            Ok((inline, i + 1))
        }
    } else if i + 1 < args.len() && !has_prefix(args[i + 1], "-"@) {
        Ok((args[i + 1], i + 2))
    } else {
        Err(flag + " requires a value"@)
    }
}

/// A `--timeout` value: whole seconds within `[1, 300]`.
pub open spec fn timeout_value(raw: Seq<char>) -> Result<u64, Seq<char>> {
    match u64_from_str(raw) {
        None => Err("--timeout expects whole seconds, got '"@ + raw + "'"@),
        Some(secs) => if MIN_TIMEOUT_SECS <= secs && secs <= MAX_TIMEOUT_SECS {
            Ok(secs)
        } else {
            Err("--timeout must be between 1 and 300 seconds, got "@ + decimal(secs as nat))
        },
    }
}

/// Scan the arguments from index `i` on, with the flags gathered so far.
pub open spec fn scan(args: Seq<Seq<char>>, i: int, st: ScanState) -> ScanEnd
    decreases args.len() - i,
{
    if i < 0 || i >= args.len() {
        ScanEnd::Done(st)
    } else {
        let a = args[i];
        if a == "--json"@ {
            scan(args, i + 1, ScanState { json: true, ..st })
        } else if a == "--no-wait"@ {
            scan(args, i + 1, ScanState { wait: false, ..st })
        } else if a == "--force"@ {
            scan(args, i + 1, ScanState { force: true, ..st })
        } else if a == "--help"@ || a == "-h"@ {
            ScanEnd::Help { json: st.json, socket: st.socket }
        } else if a == "--socket"@ || has_prefix(a, "--socket="@) {
            match flag_value(args, i, "--socket"@) {
                Err(m) => ScanEnd::Fail(m),
                Ok((v, j)) => if i < j <= args.len() {
                    scan(args, j, ScanState { socket: Some(v), ..st })
                } else {
                    ScanEnd::Done(st)
                },
            }
        } else if a == "--timeout"@ || has_prefix(a, "--timeout="@) {
            match flag_value(args, i, "--timeout"@) {
                Err(m) => ScanEnd::Fail(m),
                Ok((v, j)) => match timeout_value(v) {
                    Err(m) => ScanEnd::Fail(m),
                    Ok(t) => if i < j <= args.len() {
                        scan(args, j, ScanState { timeout: Some(t), ..st })
                    } else {
                        ScanEnd::Done(st)
                    },
                },
            }
        } else if has_prefix(a, "-"@) {
            ScanEnd::Fail("unknown option '"@ + a + "'"@)
        } else {
            scan(args, i + 1, ScanState { positionals: st.positionals.push(a), ..st })
        }
    }
}

/// The target of a one-target command.
pub open spec fn one_target_spec(command: Seq<char>, ps: Seq<Seq<char>>) -> Result<
    Seq<char>,
    Seq<char>,
> {
    if ps.len() == 0 {
        Err("'"@ + command + "' needs a target (forward id or name)"@)
    } else if ps.len() == 1 {
        Ok(ps[0])
    } else {
        Err("'"@ + command + "' takes exactly one target, got "@ + decimal(ps.len()))
    }
}

/// The check of a command that takes no positional arguments.
pub open spec fn no_positionals_spec(command: Seq<char>, ps: Seq<Seq<char>>) -> Result<
    (),
    Seq<char>,
> {
    if ps.len() == 0 {
        Ok(())
    } else {
        Err("'"@ + command + "' takes no arguments, got '"@ + ps[0] + "'"@)
    }
}

/// The command a subcommand word names, given the scanned flags.
pub open spec fn command_for(sub: Seq<char>, st: ScanState) -> Result<CommandView, Seq<char>> {
    let timeout_secs = match st.timeout {
        Some(t) => t,
        None => DEFAULT_TIMEOUT_SECS,
    };
    if sub == "help"@ || sub == "--help"@ || sub == "-h"@ {
        Ok(CommandView::Help)
    } else if sub == "list"@ {
        match no_positionals_spec("list"@, st.positionals) {
            Ok(_) => Ok(CommandView::List),
            Err(m) => Err(m),
        }
    } else if sub == "version"@ {
        match no_positionals_spec("version"@, st.positionals) {
            Ok(_) => Ok(CommandView::Version),
            Err(m) => Err(m),
        }
    } else if sub == "status"@ {
        match one_target_spec("status"@, st.positionals) {
            Ok(t) => Ok(CommandView::Status { target: t }),
            Err(m) => Err(m),
        }
    } else if sub == "connect"@ {
        match one_target_spec("connect"@, st.positionals) {
            Ok(t) => Ok(
                CommandView::Connect { target: t, timeout_secs, wait: st.wait, force: st.force },
            ),
            Err(m) => Err(m),
        }
    } else if sub == "disconnect"@ {
        match one_target_spec("disconnect"@, st.positionals) {
            Ok(t) => Ok(CommandView::Disconnect { target: t }),
            Err(m) => Err(m),
        }
    } else if sub == "connect-all"@ {
        match no_positionals_spec("connect-all"@, st.positionals) {
            Ok(_) => Ok(CommandView::ConnectAll { timeout_secs, wait: st.wait }),
            Err(m) => Err(m),
        }
    } else if sub == "disconnect-all"@ {
        match no_positionals_spec("disconnect-all"@, st.positionals) {
            Ok(_) => Ok(CommandView::DisconnectAll),
            Err(m) => Err(m),
        }
    } else if sub == "install-cli"@ {
        match no_positionals_spec("install-cli"@, st.positionals) {
            Ok(_) => Ok(CommandView::InstallCli { target: None }),
            Err(m) => Err(m),
        }
    } else if sub == "uninstall-cli"@ {
        match no_positionals_spec("uninstall-cli"@, st.positionals) {
            Ok(_) => Ok(CommandView::UninstallCli),
            Err(m) => Err(m),
        }
    } else {
        Err("unknown command '"@ + sub + "'"@)
    }
}

/// The flags before any argument is scanned.
pub open spec fn initial_scan() -> ScanState {
    ScanState {
        json: false,
        socket: None,
        timeout: None,
        wait: true,
        force: false,
        positionals: Seq::empty(),
    }
}

/// What parsing the argv tail `args` yields.
pub open spec fn parse_spec(args: Seq<Seq<char>>) -> Result<InvocationView, Seq<char>> {
    if args.len() == 0 {
        Err("missing command"@)
    } else {
        match scan(args, 1, initial_scan()) {
            ScanEnd::Help { json, socket } => Ok(
                InvocationView { command: CommandView::Help, json, socket },
            ),
            ScanEnd::Fail(m) => Err(m),
            ScanEnd::Done(st) => match command_for(args[0], st) {
                Ok(c) => Ok(InvocationView { command: c, json: st.json, socket: st.socket }),
                Err(m) => Err(m),
            },
        }
    }
}

fn usage(message: String) -> (r: UsageError)
    ensures
        r.message@ == message@,
{
    UsageError { message }
}

/// Read a flag value written either as `--flag value` or `--flag=value`;
/// also returns the index of the next unread argument.
fn take_value(args: &[String], i: usize, flag: &str) -> (r: Result<(String, usize), UsageError>)
    requires
        i < args.len(),
    ensures
        match flag_value(strings_view(args@), i as int, flag@) {
            Ok((v, j)) => r matches Ok((rv, rj)) && rv@ == v && rj == j,
            Err(m) => r matches Err(e) && e.message@ == m,
        },
{
    let ghost av = strings_view(args@);
    let arg = args[i].as_str();
    let eq = flag.to_string().concat("=");
    if starts_with(arg, eq.as_str()) {
        let n = eq.unicode_len();
        let inline = suffix_from(arg, n);
        if inline.unicode_len() == 0 {
            return Err(usage(flag.to_string().concat(" requires a value")));
        }
        return Ok((inline, i + 1));
    }
    if i + 1 < args.len() && !starts_with(args[i + 1].as_str(), "-") {
        return Ok((args[i + 1].clone(), i + 2));
    }
    Err(usage(flag.to_string().concat(" requires a value")))
}

/// Parse a `--timeout` value: whole seconds within `[1, 300]`.
fn parse_timeout(raw: &str) -> (r: Result<u64, UsageError>)
    ensures
        match timeout_value(raw@) {
            Ok(t) => r == Ok::<u64, UsageError>(t),
            Err(m) => r matches Err(e) && e.message@ == m,
        },
{
    match parse_u64(raw) {
        None => Err(
            usage("--timeout expects whole seconds, got '".to_string().concat(raw).concat("'")),
        ),
        Some(secs) => {
            if MIN_TIMEOUT_SECS <= secs && secs <= MAX_TIMEOUT_SECS {
                Ok(secs)
            } else {
                Err(
                    usage(
                        push_decimal(
                            "--timeout must be between 1 and 300 seconds, got ".to_string(),
                            secs,
                        ),
                    ),
                )
            }
        },
    }
}

/// The single target of `command`.
fn one_target(command: &str, positionals: &Vec<String>) -> (r: Result<String, UsageError>)
    ensures
        match one_target_spec(command@, strings_view(positionals@)) {
            Ok(t) => r matches Ok(s) && s@ == t,
            Err(m) => r matches Err(e) && e.message@ == m,
        },
{
    if positionals.len() == 0 {
        Err(
            usage(
                "'".to_string().concat(command).concat("' needs a target (forward id or name)"),
            ),
        )
    } else if positionals.len() == 1 {
        Ok(positionals[0].clone())
    } else {
        Err(
            usage(
                push_decimal(
                    "'".to_string().concat(command).concat("' takes exactly one target, got "),
                    positionals.len() as u64,
                ),
            ),
        )
    }
}

/// Check that `command` got no positional arguments.
fn no_positionals(command: &str, positionals: &Vec<String>) -> (r: Result<(), UsageError>)
    ensures
        match no_positionals_spec(command@, strings_view(positionals@)) {
            Ok(_) => r is Ok,
            Err(m) => r matches Err(e) && e.message@ == m,
        },
{
    if positionals.len() == 0 {
        Ok(())
    } else {
        Err(
            usage(
                "'".to_string().concat(command).concat("' takes no arguments, got '").concat(
                    positionals[0].as_str(),
                ).concat("'"),
            ),
        )
    }
}

/// The scan state of the loop variables.
pub open spec fn scan_state(
    json: bool,
    socket: Option<String>,
    timeout: Option<u64>,
    wait: bool,
    force: bool,
    positionals: Seq<String>,
) -> ScanState {
    ScanState {
        json,
        socket: opt_view(socket),
        timeout,
        wait,
        force,
        positionals: strings_view(positionals),
    }
}

/// Build the command a subcommand word names from the scanned flags.
fn build_command(
    sub: &str,
    positionals: &Vec<String>,
    timeout: Option<u64>,
    wait: bool,
    force: bool,
    Ghost(st): Ghost<ScanState>,
) -> (r: Result<Command, UsageError>)
    requires
        st.positionals == strings_view(positionals@),
        st.timeout == timeout,
        st.wait == wait,
        st.force == force,
    ensures
        match command_for(sub@, st) {
            Ok(c) => r matches Ok(rc) && rc@ == c,
            Err(m) => r matches Err(e) && e.message@ == m,
        },
{
    let timeout_secs = match timeout {
        Some(t) => t,
        None => DEFAULT_TIMEOUT_SECS,
    };
    if str_eq(sub, "help") || str_eq(sub, "--help") || str_eq(sub, "-h") {
        Ok(Command::Help)
    } else if str_eq(sub, "list") {
        match no_positionals("list", positionals) {
            Ok(_) => Ok(Command::List),
            Err(e) => Err(e),
        }
    } else if str_eq(sub, "version") {
        match no_positionals("version", positionals) {
            Ok(_) => Ok(Command::Version),
            Err(e) => Err(e),
        }
    } else if str_eq(sub, "status") {
        match one_target("status", positionals) {
            Ok(t) => Ok(Command::Status { target: t }),
            Err(e) => Err(e),
        }
    } else if str_eq(sub, "connect") {
        match one_target("connect", positionals) {
            Ok(t) => Ok(Command::Connect { target: t, timeout_secs, wait, force }),
            Err(e) => Err(e),
        }
    } else if str_eq(sub, "disconnect") {
        match one_target("disconnect", positionals) {
            Ok(t) => Ok(Command::Disconnect { target: t }),
            Err(e) => Err(e),
        }
    } else if str_eq(sub, "connect-all") {
        match no_positionals("connect-all", positionals) {
            Ok(_) => Ok(Command::ConnectAll { timeout_secs, wait }),
            Err(e) => Err(e),
        }
    } else if str_eq(sub, "disconnect-all") {
        match no_positionals("disconnect-all", positionals) {
            Ok(_) => Ok(Command::DisconnectAll),
            Err(e) => Err(e),
        }
    } else if str_eq(sub, "install-cli") {
        match no_positionals("install-cli", positionals) {
            Ok(_) => Ok(Command::InstallCli { target: None }),
            Err(e) => Err(e),
        }
    } else if str_eq(sub, "uninstall-cli") {
        match no_positionals("uninstall-cli", positionals) {
            Ok(_) => Ok(Command::UninstallCli),
            Err(e) => Err(e),
        }
    } else {
        Err(usage("unknown command '".to_string().concat(sub).concat("'")))
    }
}

/// Parse the argv tail (everything after the program name).
pub fn parse(args: &[String]) -> (r: Result<Invocation, UsageError>)
    ensures
        parse_result_view(r) == parse_spec(strings_view(args@)),
{
    let ghost av = strings_view(args@);
    if args.len() == 0 {
        return Err(usage("missing command".to_string()));
    }
    let mut json = false;
    let mut socket: Option<String> = None;
    let mut timeout: Option<u64> = None;
    let mut wait = true;
    let mut force = false;
    let mut positionals: Vec<String> = Vec::new();
    let mut i: usize = 1;
    proof {
        assert(strings_view(positionals@) =~= Seq::<Seq<char>>::empty());
    }
    while i < args.len()
        invariant
            1 <= i <= args.len(),
            av == strings_view(args@),
            scan(av, 1, initial_scan()) == scan(
                av,
                i as int,
                scan_state(json, socket, timeout, wait, force, positionals@),
            ),
        decreases args.len() - i,
    {
        let arg = args[i].as_str();
        let ghost st = scan_state(json, socket, timeout, wait, force, positionals@);
        assert(av[i as int] == arg@);
        if str_eq(arg, "--json") {
            json = true;
            i = i + 1;
        } else if str_eq(arg, "--no-wait") {
            wait = false;
            i = i + 1;
        } else if str_eq(arg, "--force") {
            force = true;
            i = i + 1;
        } else if str_eq(arg, "--help") || str_eq(arg, "-h") {
            return Ok(Invocation { command: Command::Help, json, socket });
        } else if str_eq(arg, "--socket") || starts_with(arg, "--socket=") {
            match take_value(args, i, "--socket") {
                Err(e) => {
                    return Err(e);
                },
                Ok((v, j)) => {
                    socket = Some(v);
                    i = j;
                },
            }
        } else if str_eq(arg, "--timeout") || starts_with(arg, "--timeout=") {
            match take_value(args, i, "--timeout") {
                Err(e) => {
                    return Err(e);
                },
                Ok((v, j)) => {
                    match parse_timeout(v.as_str()) {
                        Err(e) => {
                            return Err(e);
                        },
                        Ok(t) => {
                            timeout = Some(t);
                            i = j;
                        },
                    }
                },
            }
        } else if starts_with(arg, "-") {
            return Err(usage("unknown option '".to_string().concat(arg).concat("'")));
        } else {
            positionals.push(arg.to_string());
            i = i + 1;
            proof {
                assert(strings_view(positionals@) =~= st.positionals.push(arg@));
            }
        }
    }
    let ghost st = scan_state(json, socket, timeout, wait, force, positionals@);
    match build_command(args[0].as_str(), &positionals, timeout, wait, force, Ghost(st)) {
        Ok(command) => Ok(Invocation { command, json, socket }),
        Err(e) => Err(e),
    }
}

/// Whether the word `w` occurs among the arguments from index `i` on.
pub open spec fn has_arg_from(args: Seq<Seq<char>>, i: int, w: Seq<char>) -> bool {
    exists|k: int| i <= k < args.len() && args[k] == w
}

/// A gathered timeout, if any, lies within `[1, 300]` seconds.
pub open spec fn timeout_in_bounds(t: Option<u64>) -> bool {
    match t {
        Some(x) => MIN_TIMEOUT_SECS <= x && x <= MAX_TIMEOUT_SECS,
        None => true,
    }
}

/// The flag words that start with `-` (so none of them is ever taken as a
/// flag's value).
proof fn lemma_flag_words_start_with_dash()
    ensures
        has_prefix("--json"@, "-"@),
        has_prefix("--no-wait"@, "-"@),
        has_prefix("--help"@, "-"@),
        has_prefix("-h"@, "-"@),
{
    reveal_strlit("--json");
    reveal_strlit("--no-wait");
    reveal_strlit("--help");
    reveal_strlit("-h");
    reveal_strlit("-");
    assert("--json"@.subrange(0, 1) =~= "-"@);
    assert("--no-wait"@.subrange(0, 1) =~= "-"@);
    assert("--help"@.subrange(0, 1) =~= "-"@);
    assert("-h"@.subrange(0, 1) =~= "-"@);
}

/// A `--socket`/`--timeout` argument is none of the other flag words.
proof fn lemma_value_flags_differ(a: Seq<char>)
    requires
        a == "--socket"@ || has_prefix(a, "--socket="@) || a == "--timeout"@ || has_prefix(
            a,
            "--timeout="@,
        ),
    ensures
        a != "--json"@,
        a != "--no-wait"@,
        a != "--help"@,
        a != "-h"@,
{
    reveal_strlit("--socket");
    reveal_strlit("--socket=");
    reveal_strlit("--timeout");
    reveal_strlit("--timeout=");
    reveal_strlit("--json");
    reveal_strlit("--no-wait");
    reveal_strlit("--help");
    reveal_strlit("-h");
    if a == "--json"@ {
        assert(a[2] == 'j');
    }
    if a == "--no-wait"@ {
        assert(a[2] == 'n');
        if has_prefix(a, "--socket="@) {
            assert(a.subrange(0, 9)[2] == 's');
        }
        if has_prefix(a, "--timeout="@) {
            assert(a.subrange(0, 10)[2] == 't');
        }
    }
    if a == "--help"@ {
        assert(a[2] == 'h');
    }
    if a == "-h"@ {
        assert(a[1] == 'h');
    }
}

/// The plain flag words differ from one another and from the value flags.
proof fn lemma_flag_words_distinct()
    ensures
        "--json"@ != "--no-wait"@,
        "--json"@ != "--force"@,
        "--no-wait"@ != "--force"@,
        "--json"@ != "--help"@,
        "--force"@ != "--help"@,
        "--no-wait"@ != "--help"@,
        "--json"@ != "-h"@,
        "--force"@ != "-h"@,
        "--no-wait"@ != "-h"@,
{
    reveal_strlit("--json");
    reveal_strlit("--no-wait");
    reveal_strlit("--force");
    reveal_strlit("--help");
    reveal_strlit("-h");
    assert("--json"@.len() == 6);
    assert("--no-wait"@.len() == 9);
    assert("--force"@.len() == 7);
    assert("--help"@.len() == 6);
    assert("-h"@.len() == 2);
    assert("--json"@[2] != "--help"@[2]);
}

/// What a scan that consumed every argument from `i` on gathered: no help
/// flag among them, `--json` set exactly when given (or already set), the
/// wait flag cleared exactly when `--no-wait` was given (or already clear),
/// and a timeout only within bounds.
proof fn lemma_scan_done(args: Seq<Seq<char>>, i: int, st: ScanState)
    requires
        0 <= i,
    ensures
        scan(args, i, st) matches ScanEnd::Done(st2) ==> {
            &&& forall|k: int| i <= k < args.len() ==> args[k] != "--help"@ && args[k] != "-h"@
            &&& st2.json == (st.json || has_arg_from(args, i, "--json"@))
            &&& st2.wait == (st.wait && !has_arg_from(args, i, "--no-wait"@))
            &&& (timeout_in_bounds(st.timeout) ==> timeout_in_bounds(st2.timeout))
        },
    decreases args.len() - i,
{
    if i >= args.len() {
        return;
    }
    lemma_flag_words_start_with_dash();
    lemma_flag_words_distinct();
    let a = args[i];
    if a == "--json"@ {
        let next = ScanState { json: true, ..st };
        assert(scan(args, i, st) == scan(args, i + 1, next));
        lemma_scan_done(args, i + 1, next);
        lemma_has_arg_step(args, i, "--no-wait"@);
        assert(has_arg_from(args, i, "--json"@));
    } else if a == "--no-wait"@ {
        let next = ScanState { wait: false, ..st };
        assert(scan(args, i, st) == scan(args, i + 1, next));
        lemma_scan_done(args, i + 1, next);
        lemma_has_arg_step(args, i, "--json"@);
        assert(has_arg_from(args, i, "--no-wait"@));
    } else if a == "--force"@ {
        let next = ScanState { force: true, ..st };
        assert(scan(args, i, st) == scan(args, i + 1, next));
        lemma_scan_done(args, i + 1, next);
        lemma_has_arg_step(args, i, "--json"@);
        lemma_has_arg_step(args, i, "--no-wait"@);
    } else if a == "--help"@ || a == "-h"@ {
    } else if a == "--socket"@ || has_prefix(a, "--socket="@) {
        lemma_value_flags_differ(a);
        match flag_value(args, i, "--socket"@) {
            Err(_) => {},
            Ok((v, j)) => {
                lemma_flag_value_step(args, i, "--socket"@);
                let next = ScanState { socket: Some(v), ..st };
                assert(scan(args, i, st) == scan(args, j, next));
                lemma_scan_done(args, j, next);
                lemma_has_arg_skip(args, i, j, "--json"@);
                lemma_has_arg_skip(args, i, j, "--no-wait"@);
            },
        }
    } else if a == "--timeout"@ || has_prefix(a, "--timeout="@) {
        lemma_value_flags_differ(a);
        match flag_value(args, i, "--timeout"@) {
            Err(_) => {},
            Ok((v, j)) => {
                lemma_flag_value_step(args, i, "--timeout"@);
                match timeout_value(v) {
                    Err(_) => {},
                    Ok(t) => {
                        let next = ScanState { timeout: Some(t), ..st };
                        assert(scan(args, i, st) == scan(args, j, next));
                        lemma_scan_done(args, j, next);
                        lemma_has_arg_skip(args, i, j, "--json"@);
                        lemma_has_arg_skip(args, i, j, "--no-wait"@);
                    },
                }
            },
        }
    } else if has_prefix(a, "-"@) {
    } else {
        let next = ScanState { positionals: st.positionals.push(a), ..st };
        assert(scan(args, i, st) == scan(args, i + 1, next));
        lemma_scan_done(args, i + 1, next);
        assert(a != "--json"@ && a != "--no-wait"@);
        lemma_has_arg_step(args, i, "--json"@);
        lemma_has_arg_step(args, i, "--no-wait"@);
    }
}

/// Past argument `i`, which is not `w`, `w` occurs from `i` exactly when it
/// occurs from `i + 1`.
proof fn lemma_has_arg_step(args: Seq<Seq<char>>, i: int, w: Seq<char>)
    requires
        0 <= i < args.len(),
        args[i] != w,
    ensures
        has_arg_from(args, i, w) == has_arg_from(args, i + 1, w),
{
    if has_arg_from(args, i, w) {
        let k = choose|k: int| i <= k < args.len() && args[k] == w;
        assert(i + 1 <= k);
    }
}

/// A value flag at `i` takes the argument itself and at most the next one,
/// which never starts with `-`.
proof fn lemma_flag_value_step(args: Seq<Seq<char>>, i: int, flag: Seq<char>)
    requires
        0 <= i < args.len(),
        flag_value(args, i, flag) is Ok,
    ensures
        ({
            let j = flag_value(args, i, flag)->Ok_0.1;
            j == i + 1 || (j == i + 2 && i + 1 < args.len() && !has_prefix(args[i + 1], "-"@))
        }),
{
}

/// Skipping a flag argument and its value, neither of which is a flag word
/// `w` starting with `-`, keeps whether `w` occurs.
proof fn lemma_has_arg_skip(args: Seq<Seq<char>>, i: int, j: int, w: Seq<char>)
    requires
        0 <= i < args.len(),
        j == i + 1 || (j == i + 2 && i + 1 < args.len() && !has_prefix(args[i + 1], "-"@)),
        args[i] != w,
        has_prefix(w, "-"@),
    ensures
        has_arg_from(args, i, w) == has_arg_from(args, j, w),
{
    lemma_has_arg_step(args, i, w);
    if j == i + 2 {
        assert(args[i + 1] != w);
        lemma_has_arg_step(args, i + 1, w);
    }
}

/// A successful parse of anything but help reflects the arguments: the
/// first is a CLI subcommand word (and not a help word), no later argument
/// asks for help, `--json` is on exactly when given, and a connect's wait
/// budget lies within `[1, 300]` seconds and it waits exactly when
/// `--no-wait` was not given.
pub proof fn law_parse_reflects_arguments(args: Seq<Seq<char>>)
    requires
        parse_spec(args) is Ok,
        parse_spec(args)->Ok_0.command != CommandView::Help,
    ensures
        args.len() > 0,
        cli_word(args[0]),
        args[0] != "help"@ && args[0] != "--help"@ && args[0] != "-h"@,
        forall|k: int| 1 <= k < args.len() ==> args[k] != "--help"@ && args[k] != "-h"@,
        parse_spec(args)->Ok_0.json == has_arg_from(args, 1, "--json"@),
        parse_spec(args)->Ok_0.command is Connect ==> MIN_TIMEOUT_SECS
            <= parse_spec(args)->Ok_0.command->Connect_timeout_secs <= MAX_TIMEOUT_SECS
            && parse_spec(args)->Ok_0.command->Connect_wait == !has_arg_from(args, 1, "--no-wait"@),
        parse_spec(args)->Ok_0.command is ConnectAll ==> MIN_TIMEOUT_SECS
            <= parse_spec(args)->Ok_0.command->ConnectAll_timeout_secs <= MAX_TIMEOUT_SECS
            && parse_spec(args)->Ok_0.command->ConnectAll_wait == !has_arg_from(
            args,
            1,
            "--no-wait"@,
        ),
{
    lemma_scan_done(args, 1, initial_scan());
}

} // verus!
