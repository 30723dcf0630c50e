# tunnel_pilot

The core of Tunnel Pilot, a manager for SSH local port forwards, written in
Verus: the functions in `src/` are verified against `requires`/`ensures`
contracts, and the properties that span several functions are stated as
public proof functions (`law_*`). What depends on the machine (what the OS
keychain answers, the clock, random ids) is left open in the contracts; the
code that acts on such an answer is verified for every value of it.

## Layout

- `src/state/`: the data model, the tunnel registry and its status state
  machine, the log ring buffer, and the application state that commands act
  on.
- `src/ssh/`: the supervisor's decisions (attempt, teardown, reconnect or
  park, bind retries) and the order of its steps (`supervisor_step`), the
  reconnect backoff, forward-failure counting and traffic counters.
- `src/cli/`: the command-line client and control socket: argument parsing,
  request planning, target resolution, exit codes, plain-text rendering, and
  the planning of the `tunnel-pilot` shim on `PATH`.
- `src/commands/`: what the UI commands do to the state (forwards, groups,
  settings, logs, backup import and export).
- `src/storage/`: the config document, section saves, and backup merging.
- `src/credentials/`: password storage in the OS keychain (through
  `keyring`, built with the native store of each platform: macOS Keychain,
  Windows Credential Manager, the Secret Service on Linux) or, when the
  keychain does not answer its probe, the fallback file's content.
- `src/tray/`, `src/window/`, `src/platform/`, `src/updater/`: the menu
  model, icon choice, window behaviour, autostart and notification
  decisions, and update bookkeeping.
- `app/`: the `tunnel-pilot` command-line program around the library: the
  socket round-trip, the filesystem side of installing the shim, JSON on the
  wire, printing and exit codes.
- `tests/`: scenario tests run against the compiled library.

Calls into outside crates (`keyring`, `uuid`, `chrono`, and a few std
functions) go through small trusted wrappers whose doc comments say what
their contracts assume.
