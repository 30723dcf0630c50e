use tunnel_pilot::cli::args::{
    is_cli_subcommand, parse, Command, Invocation, UsageError, DEFAULT_TIMEOUT_SECS, HELP_TEXT,
};

fn parse_str(args: &[&str]) -> Result<Invocation, UsageError> {
    let owned: Vec<String> = args.iter().map(|s| s.to_string()).collect();
    parse(&owned)
}

#[test]
fn every_subcommand_is_recognized_by_the_dispatch_probe() {
    for word in [
        "list",
        "status",
        "connect",
        "disconnect",
        "connect-all",
        "disconnect-all",
        "version",
        "help",
        "--help",
        "-h",
    ] {
        assert!(is_cli_subcommand(word), "{word} must start a CLI run");
    }
}

#[test]
fn gui_flags_are_not_cli_subcommands() {
    for word in ["--minimized", "--foo", "", "Tunnel Pilot"] {
        assert!(!is_cli_subcommand(word), "{word} must launch the GUI");
    }
}

#[test]
fn list_parses_with_and_without_json() {
    let inv = parse_str(&["list"]).expect("parse list");
    assert_eq!(inv.command, Command::List);
    assert!(!inv.json);
    assert!(inv.socket.is_none());

    let inv = parse_str(&["list", "--json"]).expect("parse list --json");
    assert!(inv.json);
}

#[test]
fn status_requires_exactly_one_target() {
    let inv = parse_str(&["status", "prod-db"]).expect("parse status");
    assert_eq!(inv.command, Command::Status { target: "prod-db".into() });
    assert!(parse_str(&["status"]).is_err(), "missing target is a usage error");
    assert!(parse_str(&["status", "a", "b"]).is_err(), "two targets is a usage error");
}

#[test]
fn connect_defaults_to_waiting_with_the_default_timeout() {
    let inv = parse_str(&["connect", "prod-db"]).expect("parse connect");
    assert_eq!(
        inv.command,
        Command::Connect {
            target: "prod-db".into(),
            timeout_secs: DEFAULT_TIMEOUT_SECS,
            wait: true,
            force: false,
        }
    );
}

#[test]
fn connect_honors_no_wait_and_timeout_in_both_forms() {
    let inv = parse_str(&["connect", "prod-db", "--no-wait"]).expect("parse");
    assert_eq!(
        inv.command,
        Command::Connect {
            target: "prod-db".into(),
            timeout_secs: DEFAULT_TIMEOUT_SECS,
            wait: false,
            force: false,
        }
    );

    for args in [
        vec!["connect", "prod-db", "--timeout", "120"],
        vec!["connect", "--timeout=120", "prod-db"],
    ] {
        let inv = parse_str(&args).expect("parse timeout form");
        assert_eq!(
            inv.command,
            Command::Connect {
                target: "prod-db".into(),
                timeout_secs: 120,
                wait: true,
                force: false,
            }
        );
    }
}

#[test]
fn timeout_bounds_are_enforced_client_side() {
    for bad in ["0", "301", "-5", "abc", ""] {
        let args = vec!["connect".to_string(), "x".to_string(), format!("--timeout={bad}")];
        assert!(parse(&args).is_err(), "--timeout={bad} must be rejected");
    }
    assert!(parse_str(&["connect", "x", "--timeout", "1"]).is_ok());
    assert!(parse_str(&["connect", "x", "--timeout", "300"]).is_ok());
    assert!(parse_str(&["connect", "x", "--timeout", "--json"]).is_err());
}

#[test]
fn socket_override_parses_in_both_forms() {
    for args in [vec!["list", "--socket", "/tmp/tp.sock"], vec!["list", "--socket=/tmp/tp.sock"]] {
        let inv = parse_str(&args).expect("parse socket form");
        assert_eq!(inv.socket, Some("/tmp/tp.sock".to_string()));
    }
    assert!(parse_str(&["list", "--socket"]).is_err());
}

#[test]
fn bulk_and_version_take_no_positionals() {
    assert_eq!(
        parse_str(&["connect-all"]).expect("parse").command,
        Command::ConnectAll { timeout_secs: DEFAULT_TIMEOUT_SECS, wait: true }
    );
    assert_eq!(
        parse_str(&["connect-all", "--no-wait"]).expect("parse").command,
        Command::ConnectAll { timeout_secs: DEFAULT_TIMEOUT_SECS, wait: false }
    );
    assert_eq!(parse_str(&["disconnect-all"]).expect("parse").command, Command::DisconnectAll);
    assert_eq!(parse_str(&["version"]).expect("parse").command, Command::Version);
    assert!(parse_str(&["list", "extra"]).is_err());
    assert!(parse_str(&["version", "extra"]).is_err());
}

#[test]
fn help_forms_all_resolve_to_help() {
    for args in [vec!["help"], vec!["--help"], vec!["-h"], vec!["list", "--help"]] {
        assert_eq!(parse_str(&args).expect("parse help").command, Command::Help);
    }
}

#[test]
fn unknown_command_and_option_are_usage_errors() {
    let err = parse_str(&["frobnicate"]).expect_err("unknown command");
    assert!(err.message.contains("frobnicate"));
    let err = parse_str(&["list", "--colour"]).expect_err("unknown option");
    assert!(err.message.contains("--colour"));
    assert!(parse(&[]).is_err(), "no command at all is a usage error");
}

#[test]
fn help_text_documents_every_subcommand_and_exit_code() {
    for word in [
        "list",
        "status",
        "connect",
        "disconnect",
        "connect-all",
        "disconnect-all",
        "version",
        "--json",
        "--socket",
        "--timeout",
        "--no-wait",
        "TUNNEL_PILOT_SOCKET",
    ] {
        assert!(HELP_TEXT.contains(word), "help must mention {word}");
    }
}

#[test]
fn force_flag_sets_connect_force() {
    let inv = parse_str(&["connect", "prod-db", "--force"]).expect("parse --force");
    assert_eq!(
        inv.command,
        Command::Connect {
            target: "prod-db".into(),
            timeout_secs: DEFAULT_TIMEOUT_SECS,
            wait: true,
            force: true,
        }
    );
}

#[test]
fn shim_subcommands_parse() {
    assert_eq!(parse_str(&["uninstall-cli"]).expect("parse").command, Command::UninstallCli);
    assert_eq!(
        parse_str(&["install-cli"]).expect("parse").command,
        Command::InstallCli { target: None }
    );
}
