//! Forward commands: building a configuration from its input, the `ssh`
//! command line, duplication, reordering, the runtime view, and the bulk
//! start/stop sweeps.
use crate::error::AppError;
use crate::state::models::{
    configs_view, find_config, opt_view, strings_view, ForwardConfig, ForwardConfigView,
    ForwardInput, ForwardRuntime, ForwardStatus, TunnelStats,
};
use crate::state::tunnel_registry::{
    has_id, index_of, registry_wf, status_of, RegistryView, TunnelRegistry,
};
use crate::state::{config_id_differs, queued, upserted_config, AppState, PersistView};
use crate::state::models::lemma_find_config;
use crate::text::{contains_char, decimal, push_decimal, str_eq};
use vstd::prelude::*;

verus! {

/// The configuration (as characters) an input payload makes under `id`
/// with the given stored-password flag.
pub open spec fn config_view_from_input(id: Seq<char>, input: ForwardInput, has_stored_password: bool) -> ForwardConfigView {
    ForwardConfigView {
        id,
        name: input.name@,
        ssh_host: input.ssh_host@,
        ssh_port: input.ssh_port,
        ssh_username: input.ssh_username@,
        identity_file_path: opt_view(input.identity_file_path),
        has_stored_password,
        local_bind_address: input.local_bind_address@,
        local_port: input.local_port,
        remote_host: input.remote_host@,
        remote_port: input.remote_port,
        keep_alive_interval_sec: input.keep_alive_interval_sec,
        keep_alive_max_count: input.keep_alive_max_count,
        group_id: opt_view(input.group_id),
        tags: strings_view(input.tags@),
    }
}

/// The configuration an input payload makes under `id`. The stored-password
/// flag comes from the caller, never from the input (which carries no
/// secret).
pub fn config_from_input(id: String, input: ForwardInput, has_stored_password: bool) -> (r:
    ForwardConfig)
    ensures
        r.id == id,
        r.name == input.name,
        r.ssh_host == input.ssh_host,
        r.ssh_port == input.ssh_port,
        r.ssh_username == input.ssh_username,
        r.identity_file_path == input.identity_file_path,
        r.has_stored_password == has_stored_password,
        r.local_bind_address == input.local_bind_address,
        r.local_port == input.local_port,
        r.remote_host == input.remote_host,
        r.remote_port == input.remote_port,
        r.keep_alive_interval_sec == input.keep_alive_interval_sec,
        r.keep_alive_max_count == input.keep_alive_max_count,
        r.group_id == input.group_id,
        r.tags == input.tags,
        r@ == config_view_from_input(id@, input, has_stored_password),
{
    ForwardConfig {
        id,
        name: input.name,
        ssh_host: input.ssh_host,
        ssh_port: input.ssh_port,
        ssh_username: input.ssh_username,
        identity_file_path: input.identity_file_path,
        has_stored_password,
        local_bind_address: input.local_bind_address,
        local_port: input.local_port,
        remote_host: input.remote_host,
        remote_port: input.remote_port,
        keep_alive_interval_sec: input.keep_alive_interval_sec,
        keep_alive_max_count: input.keep_alive_max_count,
        group_id: input.group_id,
        tags: input.tags,
    }
}

/// The `-L` forward spec: `[bind:]local:remote_host:remote_port`, the bind
/// address omitted for the default `127.0.0.1`.
pub open spec fn forward_spec(c: ForwardConfigView) -> Seq<char> {
    (if c.local_bind_address == "127.0.0.1"@ {
        Seq::empty()
    } else {
        c.local_bind_address + ":"@
    }) + decimal(c.local_port as nat) + ":"@ + c.remote_host + ":"@ + decimal(c.remote_port as nat)
}

/// The `-i` part: present only for a non-empty identity path, quoted only
/// when the path contains a space.
pub open spec fn identity_part(c: ForwardConfigView) -> Seq<char> {
    match c.identity_file_path {
        Some(i) => if i.len() == 0 {
            Seq::empty()
        } else if i.contains(' ') {
            " -i \""@ + i + "\""@
        } else {
            " -i "@ + i
        },
        None => Seq::empty(),
    }
}

/// `ssh -N -L <fwd> -p <port> [-i <identity>] user@host`; never a password.
pub open spec fn ssh_command(c: ForwardConfigView) -> Seq<char> {
    "ssh -N -L "@ + forward_spec(c) + " -p "@ + decimal(c.ssh_port as nat) + identity_part(c) + " "@
        + c.ssh_username + "@"@ + c.ssh_host
}

/// The `ssh` command line that opens the same forward by hand. `-p` is
/// always present.
pub fn build_ssh_command(cfg: &ForwardConfig) -> (r: String)
    ensures
        r@ == ssh_command(cfg@),
{
    let bind_prefix = if str_eq(cfg.local_bind_address.as_str(), "127.0.0.1") {
        String::new()
    } else {
        cfg.local_bind_address.clone().concat(":")
    };
    let fwd = push_decimal(
        push_decimal(bind_prefix, cfg.local_port as u64).concat(":").concat(cfg.remote_host.as_str())
            .concat(":"),
        cfg.remote_port as u64,
    );
    let mut out = push_decimal("ssh -N -L ".to_string().concat(fwd.as_str()).concat(" -p "), cfg.ssh_port as u64);
    let ghost before = out@;
    match &cfg.identity_file_path {
        Some(identity) => {
            if identity.unicode_len() > 0 {
                if contains_char(identity.as_str(), ' ') {
                    out = out.concat(" -i \"").concat(identity.as_str()).concat("\"");
                } else {
                    out = out.concat(" -i ").concat(identity.as_str());
                }
            }
        },
        None => {},
    }
    proof {
        assert(out@ =~= before + identity_part(cfg@));
    }
    let r = out.concat(" ").concat(cfg.ssh_username.as_str()).concat("@").concat(cfg.ssh_host.as_str());
    proof {
        assert(r@ =~= ssh_command(cfg@));
    }
    r
}

/// `uuid::Uuid::new_v4().to_string()`: a fresh random version-4 UUID in its
/// hyphenated form, which is always 36 characters. Random, so nothing more
/// is stated.
#[verifier::external_body]
pub(crate) fn new_uuid() -> (r: String)
    ensures
        r@.len() == 36,
{
    uuid::Uuid::new_v4().to_string()
}

/// A copy of `source` under a fresh random id, named `<name> (copy)`, with
/// no stored password (a duplicate never inherits the secret).
pub fn duplicate_config(source: ForwardConfig) -> (r: ForwardConfig)
    ensures
        r@.id.len() == 36,
        r@ == (ForwardConfigView {
            id: r@.id,
            name: source@.name + " (copy)"@,
            has_stored_password: false,
            ..source@
        }),
{
    ForwardConfig {
        id: new_uuid(),
        name: source.name.concat(" (copy)"),
        has_stored_password: false,
        ..source
    }
}

/// The configurations the first `n` requested ids name, in request order
/// (unknown ids skipped).
pub open spec fn picked(cur: Seq<ForwardConfigView>, ids: Seq<Seq<char>>, n: nat) -> Seq<ForwardConfigView>
    decreases n,
{
    if n == 0 || n > ids.len() {
        Seq::empty()
    } else {
        let before = picked(cur, ids, (n - 1) as nat);
        match find_config(cur, ids[n - 1]) {
            Some(k) => before.push(cur[k]),
            None => before,
        }
    }
}

/// The configurations no requested id names, in their current order.
pub open spec fn not_listed(ids: Seq<Seq<char>>) -> spec_fn(ForwardConfigView) -> bool {
    |c: ForwardConfigView| !ids.contains(c.id)
}

/// The reordered list: the requested ids' configurations first, in request
/// order; then every configuration no id names, in current order.
pub open spec fn reordered(cur: Seq<ForwardConfigView>, ids: Seq<Seq<char>>) -> Seq<ForwardConfigView> {
    picked(cur, ids, ids.len()) + cur.filter(not_listed(ids))
}

/// Reorder: requested ids first (unknown ids dropped), then every omitted
/// configuration in its current order, so nothing is ever lost.
pub fn reorder_configs(current: Vec<ForwardConfig>, ordered_ids: &[String]) -> (r: Vec<ForwardConfig>)
    ensures
        configs_view(r@) == reordered(configs_view(current@), strings_view(ordered_ids@)),
{
    let ghost cur = configs_view(current@);
    let ghost ids = strings_view(ordered_ids@);
    let mut out: Vec<ForwardConfig> = Vec::new();
    let mut i: usize = 0;
    while i < ordered_ids.len()
        invariant
            i <= ordered_ids.len(),
            cur == configs_view(current@),
            ids == strings_view(ordered_ids@),
            configs_view(out@) == picked(cur, ids, i as nat),
        decreases ordered_ids.len() - i,
    {
        proof {
            crate::state::models::lemma_find_config(cur, ids[i as int]);
        }
        match crate::state::models::config_position(current.as_slice(), ordered_ids[i].as_str()) {
            Some(k) => {
                let ghost before = configs_view(out@);
                out.push(current[k].clone_config());
                proof {
                    assert(configs_view(out@) =~= before.push(cur[k as int]));
                }
            },
            None => {},
        }
        i = i + 1;
    }
    let ghost head = configs_view(out@);
    let ghost pred = not_listed(ids);
    let mut j: usize = 0;
    while j < current.len()
        invariant
            j <= current.len(),
            cur == configs_view(current@),
            ids == strings_view(ordered_ids@),
            pred == not_listed(ids),
            configs_view(out@) == head + cur.subrange(0, j as int).filter(pred),
        decreases current.len() - j,
    {
        let c = &current[j];
        let ghost s = cur.subrange(0, j as int);
        proof {
            assert(cur.subrange(0, j + 1) =~= s.push(c@));
            s.lemma_filter_push(c@, pred);
        }
        let mut found = false;
        let mut k: usize = 0;
        while k < ordered_ids.len()
            invariant
                k <= ordered_ids.len(),
                ids == strings_view(ordered_ids@),
                found == exists|m: int| 0 <= m < k && ids[m] == c@.id,
            decreases ordered_ids.len() - k,
        {
            if str_eq(ordered_ids[k].as_str(), c.id.as_str()) {
                found = true;
            }
            k = k + 1;
            proof {
                if ids[k - 1] == c@.id {
                    assert(ids[k - 1] == c@.id);
                }
            }
        }
        if !found {
            let ghost before = configs_view(out@);
            out.push(c.clone_config());
            proof {
                assert(configs_view(out@) =~= before.push(c@));
                assert(!ids.contains(c@.id));
            }
        } else {
            proof {
                let m = choose|m: int| 0 <= m < k && ids[m] == c@.id;
                assert(ids.contains(c@.id));
            }
        }
        j = j + 1;
    }
    proof {
        assert(cur.subrange(0, j as int) =~= cur);
    }
    out
}

/// Every configuration the requested ids name, in request order, comes
/// first; with distinct ids no configuration is ever lost by a reorder: each
/// The Copy SSH Command text opens the same forward: after `ssh -N -L `
/// comes the bind address and `:` (left out for the loopback default), the
/// config's local port, `:`, the remote host, `:` and its remote port, in
/// that order; then ` -p ` and the SSH port; and the line ends with
/// ` user@host`.
pub proof fn law_ssh_command_forwards_local_to_remote(c: ForwardConfigView)
    ensures
        exists|bind: Seq<char>, tail: Seq<char>|
            {
                &&& ssh_command(c) == "ssh -N -L "@ + bind + decimal(c.local_port as nat) + ":"@
                    + c.remote_host + ":"@ + decimal(c.remote_port as nat) + " -p "@ + decimal(
                    c.ssh_port as nat,
                ) + tail
                &&& (c.local_bind_address == "127.0.0.1"@ ==> bind.len() == 0)
                &&& (c.local_bind_address != "127.0.0.1"@ ==> bind == c.local_bind_address + ":"@)
                &&& tail.len() >= c.ssh_username.len() + c.ssh_host.len() + 2
                &&& tail.subrange(
                    tail.len() - (c.ssh_username.len() + c.ssh_host.len() + 2),
                    tail.len() as int,
                ) == " "@ + c.ssh_username + "@"@ + c.ssh_host
            },
{
    let bind = if c.local_bind_address == "127.0.0.1"@ {
        Seq::<char>::empty()
    } else {
        c.local_bind_address + ":"@
    };
    let ending = " "@ + c.ssh_username + "@"@ + c.ssh_host;
    let tail = identity_part(c) + ending;
    reveal_strlit(" ");
    reveal_strlit("@");
    assert(ending.len() == c.ssh_username.len() + c.ssh_host.len() + 2);
    assert(tail.subrange(tail.len() - ending.len(), tail.len() as int) =~= ending);
    assert(ssh_command(c) =~= "ssh -N -L "@ + bind + decimal(c.local_port as nat) + ":"@
        + c.remote_host + ":"@ + decimal(c.remote_port as nat) + " -p "@ + decimal(
        c.ssh_port as nat,
    ) + tail);
}

/// one appears in the result.
pub proof fn law_reorder_keeps_every_config(cur: Seq<ForwardConfigView>, ids: Seq<Seq<char>>, k: int)
    requires
        0 <= k < cur.len(),
        forall|a: int, b: int| 0 <= a < b < cur.len() ==> (#[trigger] cur[a]).id != (#[trigger] cur[b]).id,
    ensures
        reordered(cur, ids).contains(cur[k]),
{
    let c = cur[k];
    if ids.contains(c.id) {
        let m = choose|m: int| 0 <= m < ids.len() && ids[m] == c.id;
        crate::state::models::lemma_find_config(cur, c.id);
        let j = find_config(cur, c.id)->Some_0;
        if j != k {
            assert(cur[j].id == c.id);
        }
        lemma_picked_contains(cur, ids, m, ids.len());
        let p = picked(cur, ids, ids.len());
        let w = choose|w: int| 0 <= w < p.len() && p[w] == cur[k];
        assert((p + cur.filter(not_listed(ids)))[w] == cur[k]);
    } else {
        assert(not_listed(ids)(c));
        cur.lemma_filter_contains_rev(not_listed(ids), c);
        let f = cur.filter(not_listed(ids));
        let p = picked(cur, ids, ids.len());
        let w = choose|w: int| 0 <= w < f.len() && f[w] == c;
        assert((p + f)[p.len() + w] == c);
    }
}

/// A requested id that names a configuration contributes it to the picked
/// prefix.
proof fn lemma_picked_contains(cur: Seq<ForwardConfigView>, ids: Seq<Seq<char>>, m: int, n: nat)
    requires
        0 <= m < n <= ids.len(),
        find_config(cur, ids[m]) is Some,
    ensures
        picked(cur, ids, n).contains(cur[find_config(cur, ids[m])->Some_0]),
    decreases n,
{
    let x = cur[find_config(cur, ids[m])->Some_0];
    let before = picked(cur, ids, (n - 1) as nat);
    if m == n - 1 {
        assert(picked(cur, ids, n) == before.push(x));
        assert(picked(cur, ids, n)[before.len() as int] == x);
    } else {
        lemma_picked_contains(cur, ids, m, (n - 1) as nat);
        let w = choose|w: int| 0 <= w < before.len() && before[w] == x;
        match find_config(cur, ids[n - 1]) {
            Some(k) => {
                assert(before.push(cur[k])[w] == x);
            },
            None => {},
        }
    }
}

/// The runtime view of a tunnel: its live status and last error, or
/// disconnected with no error when it is not live; `stats` is its snapshot,
/// empty when there is none.
pub open spec fn runtime_status(r: RegistryView, id: Seq<char>) -> ForwardStatus {
    match status_of(r.entries, id) {
        Some(s) => s,
        None => ForwardStatus::Disconnected,
    }
}

/// The runtime of `id`: live status and last error from the registry (or
/// disconnected), with the given stats snapshot (or empty stats).
pub fn runtime_or_default(registry: &TunnelRegistry, id: &str, stats: Option<TunnelStats>) -> (r:
    ForwardRuntime)
    requires
        registry_wf(registry@),
    ensures
        r.status == runtime_status(registry@, id@),
        has_id(registry@.entries, id@) ==> opt_view(r.last_error) == registry@.entries[index_of(
            registry@.entries,
            id@,
        )].last_error,
        !has_id(registry@.entries, id@) ==> r.last_error is None,
        match stats {
            Some(s) => r.stats == s,
            None => r.stats.active_connections == 0 && r.stats.total_bytes_up == 0
                && r.stats.total_bytes_down == 0 && r.stats.last_ping_latency_ms is None
                && r.stats.connected_since is None,
        },
{
    let status = match registry.current_status(id) {
        Some(s) => s,
        None => ForwardStatus::Disconnected,
    };
    let last_error = registry.last_error(id);
    let stats = match stats {
        Some(s) => s,
        None => TunnelStats::empty(),
    };
    ForwardRuntime { status, stats, last_error }
}

/// What the global Start All does to one tunnel.
#[derive(Debug, Clone, Copy, PartialEq, Eq, Structural)]
pub enum StartAction {
    /// Live and healthy or transitioning: leave it.
    Leave,
    /// Parked in `error`: retry on its supervisor.
    Retry,
    /// Disconnected or not live: start a fresh supervisor.
    Connect,
}

/// The Start All action for a tunnel in `live` status (`None`: not live).
pub open spec fn start_action_of(live: Option<ForwardStatus>) -> StartAction {
    match live {
        Some(ForwardStatus::Connected) => StartAction::Leave,
        Some(ForwardStatus::Connecting) => StartAction::Leave,
        Some(ForwardStatus::Disconnecting) => StartAction::Leave,
        Some(ForwardStatus::Error) => StartAction::Retry,
        Some(ForwardStatus::Disconnected) => StartAction::Connect,
        None => StartAction::Connect,
    }
}

/// The global bulk connect, planned: for each configuration in order, leave
/// a live tunnel, retry one parked in `error`, connect the others.
pub fn start_all_plan(configs: &[ForwardConfig], registry: &TunnelRegistry) -> (r: Vec<
    (String, StartAction),
>)
    requires
        registry_wf(registry@),
    ensures
        r@.len() == configs@.len(),
        forall|k: int|
            0 <= k < r@.len() ==> (#[trigger] r@[k]).0@ == configs@[k].id@ && r@[k].1
                == start_action_of(status_of(registry@.entries, configs@[k].id@)),
{
    let mut out: Vec<(String, StartAction)> = Vec::new();
    let mut i: usize = 0;
    while i < configs.len()
        invariant
            i <= configs.len(),
            registry_wf(registry@),
            out@.len() == i,
            forall|k: int|
                0 <= k < i ==> (#[trigger] out@[k]).0@ == configs@[k].id@ && out@[k].1
                    == start_action_of(status_of(registry@.entries, configs@[k].id@)),
        decreases configs.len() - i,
    {
        let id = &configs[i].id;
        let action = match registry.current_status(id.as_str()) {
            Some(ForwardStatus::Connected) | Some(ForwardStatus::Connecting) | Some(
                ForwardStatus::Disconnecting,
            ) => StartAction::Leave,
            Some(ForwardStatus::Error) => StartAction::Retry,
            Some(ForwardStatus::Disconnected) | None => StartAction::Connect,
        };
        out.push((id.clone(), action));
        i = i + 1;
    }
    out
}

/// Start All never touches a connected, connecting or disconnecting
/// tunnel, and always acts on a disconnected or errored one.
pub proof fn law_start_all_acts_on_startable(live: Option<ForwardStatus>)
    ensures
        start_action_of(live) == StartAction::Leave <==> (live == Some(ForwardStatus::Connected)
            || live == Some(ForwardStatus::Connecting) || live == Some(
            ForwardStatus::Disconnecting,
        )),
{
}

/// The error for an id with no configuration.
pub fn forward_not_found(id: &str) -> (r: AppError)
    ensures
        r == AppError::NotFound(r->NotFound_0),
        r->NotFound_0@ == "forward "@ + id@,
{
    AppError::NotFound("forward ".to_string().concat(id))
}

/// All configurations, in display order.
pub fn list_forwards(state: &AppState) -> (r: Vec<ForwardConfig>)
    ensures
        configs_view(r@) == state.configs(),
{
    state.configs_snapshot()
}

/// Append a new forward under a fresh random id, with no stored password
/// (a password is set separately), and queue the forwards for saving.
pub fn create_forward(state: &mut AppState, input: ForwardInput) -> (r: ForwardConfig)
    ensures
        r.id@.len() == 36,
        r@ == config_view_from_input(r.id@, input, false),
        final(state).configs() == upserted_config(old(state).configs(), r@),
        final(state).pending() == queued(
            old(state).persists(),
            old(state).pending(),
            PersistView::Forwards(final(state).configs()),
        ),
        final(state).registry == old(state).registry,
        final(state).groups() == old(state).groups(),
        final(state).settings() == old(state).settings(),
        final(state).fallback_secrets() == old(state).fallback_secrets(),
        final(state).persists() == old(state).persists(),
        final(state).wf() == old(state).wf(),
{
    let config = config_from_input(new_uuid(), input, false);
    state.upsert_config(config.clone_config());
    config
}

/// Replace forward `id` by the input, keeping its id and stored-password
/// flag, and queue the forwards for saving. A live tunnel is disconnected by
/// the caller first (it ran on the old settings). Unknown id:
/// `NotFound("forward <id>")` and nothing changes.
pub fn update_forward(state: &mut AppState, id: String, input: ForwardInput) -> (r: Result<
    ForwardConfig,
    AppError,
>)
    ensures
        find_config(old(state).configs(), id@) is None ==> r is Err && r->Err_0
            == AppError::NotFound(r->Err_0->NotFound_0) && r->Err_0->NotFound_0@ == "forward "@
            + id@ && final(state).configs() == old(state).configs() && final(state).pending()
            == old(state).pending(),
        find_config(old(state).configs(), id@) matches Some(i) ==> r is Ok && r->Ok_0@
            == config_view_from_input(id@, input, old(state).configs()[i].has_stored_password)
            && final(state).configs() == old(state).configs().update(i, r->Ok_0@)
            && final(state).pending() == queued(
            old(state).persists(),
            old(state).pending(),
            PersistView::Forwards(final(state).configs()),
        ),
        final(state).registry == old(state).registry,
        final(state).groups() == old(state).groups(),
        final(state).settings() == old(state).settings(),
        final(state).fallback_secrets() == old(state).fallback_secrets(),
        final(state).persists() == old(state).persists(),
        final(state).wf() == old(state).wf(),
{
    proof {
        lemma_find_config(state.configs(), id@);
    }
    let existing = match state.get_config(id.as_str()) {
        Some(c) => c,
        None => {
            return Err(forward_not_found(id.as_str()));
        },
    };
    let config = config_from_input(id, input, existing.has_stored_password);
    state.upsert_config(config.clone_config());
    Ok(config)
}

/// Delete forward `id`: its stored password is forgotten (best-effort) and
/// its configuration removed; the forwards are queued for saving when one
/// was removed. A live tunnel is torn down by the caller first.
pub fn delete_forward(state: &mut AppState, id: &str)
    requires
        old(state).wf(),
    ensures
        final(state).wf(),
        final(state).fallback_secrets() == old(state).fallback_secrets().remove(id@),
        final(state).configs() == old(state).configs().filter(config_id_differs(id@)),
        final(state).pending() == if find_config(old(state).configs(), id@) is Some {
            queued(
                old(state).persists(),
                old(state).pending(),
                PersistView::Forwards(final(state).configs()),
            )
        } else {
            old(state).pending()
        },
        final(state).registry == old(state).registry,
        final(state).groups() == old(state).groups(),
        final(state).settings() == old(state).settings(),
        final(state).persists() == old(state).persists(),
{
    state.delete_password(id);
    state.remove_config(id);
}

/// Copy forward `id` under a fresh id with a ` (copy)` name suffix and no
/// stored password, and queue the forwards for saving. Unknown id:
/// `NotFound("forward <id>")` and nothing changes.
pub fn duplicate_forward(state: &mut AppState, id: &str) -> (r: Result<ForwardConfig, AppError>)
    ensures
        find_config(old(state).configs(), id@) is None ==> r is Err && r->Err_0
            == AppError::NotFound(r->Err_0->NotFound_0) && r->Err_0->NotFound_0@ == "forward "@
            + id@ && final(state).configs() == old(state).configs() && final(state).pending()
            == old(state).pending(),
        find_config(old(state).configs(), id@) matches Some(i) ==> r is Ok && r->Ok_0@.id.len()
            == 36 && r->Ok_0@ == (ForwardConfigView {
            id: r->Ok_0@.id,
            name: old(state).configs()[i].name + " (copy)"@,
            has_stored_password: false,
            ..old(state).configs()[i]
        }) && final(state).configs() == upserted_config(old(state).configs(), r->Ok_0@)
            && final(state).pending() == queued(
            old(state).persists(),
            old(state).pending(),
            PersistView::Forwards(final(state).configs()),
        ),
        final(state).registry == old(state).registry,
        final(state).groups() == old(state).groups(),
        final(state).settings() == old(state).settings(),
        final(state).fallback_secrets() == old(state).fallback_secrets(),
        final(state).persists() == old(state).persists(),
        final(state).wf() == old(state).wf(),
{
    let source = match state.get_config(id) {
        Some(c) => c,
        None => {
            return Err(forward_not_found(id));
        },
    };
    let copy = duplicate_config(source);
    state.upsert_config(copy.clone_config());
    Ok(copy)
}

/// Set the display order: requested ids first (unknown ids ignored), then
/// every omitted forward in its current order; queue the forwards for saving.
pub fn reorder_forwards(state: &mut AppState, ordered_ids: &[String])
    ensures
        final(state).configs() == reordered(old(state).configs(), strings_view(ordered_ids@)),
        final(state).pending() == queued(
            old(state).persists(),
            old(state).pending(),
            PersistView::Forwards(final(state).configs()),
        ),
        final(state).registry == old(state).registry,
        final(state).groups() == old(state).groups(),
        final(state).settings() == old(state).settings(),
        final(state).fallback_secrets() == old(state).fallback_secrets(),
        final(state).persists() == old(state).persists(),
        final(state).wf() == old(state).wf(),
{
    let current = state.configs_snapshot();
    let next = reorder_configs(current, ordered_ids);
    state.replace_configs(next);
}

/// The runtime of forward `id` (status, stats, last error), or the
/// disconnected default when it is not live.
pub fn get_forward_runtime(state: &AppState, id: &str, stats: Option<TunnelStats>) -> (r:
    ForwardRuntime)
    requires
        registry_wf(state.registry@),
    ensures
        r.status == runtime_status(state.registry@, id@),
        has_id(state.registry@.entries, id@) ==> opt_view(r.last_error)
            == state.registry@.entries[index_of(state.registry@.entries, id@)].last_error,
        !has_id(state.registry@.entries, id@) ==> r.last_error is None,
        match stats {
            Some(s) => r.stats == s,
            None => r.stats.active_connections == 0 && r.stats.total_bytes_up == 0
                && r.stats.total_bytes_down == 0 && r.stats.last_ping_latency_ms is None
                && r.stats.connected_since is None,
        },
{
    runtime_or_default(&state.registry, id, stats)
}

/// The `ssh -N -L ...` line for forward `id` (never with a password).
/// Unknown id: `NotFound("forward <id>")`.
pub fn copy_ssh_command(state: &AppState, id: &str) -> (r: Result<String, AppError>)
    ensures
        find_config(state.configs(), id@) is None ==> r is Err && r->Err_0 == AppError::NotFound(
            r->Err_0->NotFound_0,
        ) && r->Err_0->NotFound_0@ == "forward "@ + id@,
        find_config(state.configs(), id@) matches Some(i) ==> r is Ok && r->Ok_0@ == ssh_command(
            state.configs()[i],
        ),
{
    match state.get_config(id) {
        Some(cfg) => Ok(build_ssh_command(&cfg)),
        None => Err(forward_not_found(id)),
    }
}

/// Store the password of forward `id` and mark it as having one (queueing
/// the forwards only when the flag flips). A keychain failure is reported
/// and the flag left alone. Unknown id: `NotFound("forward <id>")` and
/// nothing changes.
pub fn set_forward_password(state: &mut AppState, id: &str, password: &str) -> (r: Result<
    (),
    AppError,
>)
    requires
        old(state).wf(),
    ensures
        final(state).wf(),
        find_config(old(state).configs(), id@) is None ==> r is Err && r->Err_0
            == AppError::NotFound(r->Err_0->NotFound_0) && r->Err_0->NotFound_0@ == "forward "@
            + id@ && final(state).configs() == old(state).configs()
            && final(state).fallback_secrets() == old(state).fallback_secrets(),
        !old(state).keychain_on() ==> (find_config(old(state).configs(), id@) matches Some(i) ==> (
        r is Ok && final(state).fallback_secrets() == old(state).fallback_secrets().insert(
            id@,
            password@,
        ) && final(state).configs() == old(state).configs().update(
            i,
            ForwardConfigView { has_stored_password: true, ..old(state).configs()[i] },
        ))),
        r is Ok ==> (find_config(old(state).configs(), id@) matches Some(i) && final(state).configs() == old(state).configs().update(
            i,
            ForwardConfigView { has_stored_password: true, ..old(state).configs()[i] },
        )),
        r is Err ==> final(state).configs() == old(state).configs(),
        final(state).registry == old(state).registry,
        final(state).groups() == old(state).groups(),
        final(state).settings() == old(state).settings(),
        final(state).persists() == old(state).persists(),
        final(state).keychain_on() == old(state).keychain_on(),
{
    proof {
        lemma_find_config(state.configs(), id@);
    }
    let mut config = match state.get_config(id) {
        Some(c) => c,
        None => {
            return Err(forward_not_found(id));
        },
    };
    let ghost i = find_config(state.configs(), id@)->0;
    match state.set_password_checked(id, password) {
        Err(e) => {
            return Err(e);
        },
        Ok(()) => {},
    }
    if !config.has_stored_password {
        config.has_stored_password = true;
        proof {
            assert(find_config(state.configs(), config@.id) == Some(i));
        }
        state.upsert_config(config);
    } else {
        proof {
            assert(state.configs().update(
                i,
                ForwardConfigView { has_stored_password: true, ..state.configs()[i] },
            ) =~= state.configs());
        }
    }
    Ok(())
}

/// Forget the password of forward `id` and clear its flag (queueing the
/// forwards only when the flag flips). A keychain failure is reported and
/// the flag left alone. Unknown id: `NotFound("forward <id>")` and nothing
/// changes.
pub fn clear_forward_password(state: &mut AppState, id: &str) -> (r: Result<(), AppError>)
    requires
        old(state).wf(),
    ensures
        final(state).wf(),
        find_config(old(state).configs(), id@) is None ==> r is Err && r->Err_0
            == AppError::NotFound(r->Err_0->NotFound_0) && r->Err_0->NotFound_0@ == "forward "@
            + id@ && final(state).configs() == old(state).configs()
            && final(state).fallback_secrets() == old(state).fallback_secrets(),
        find_config(old(state).configs(), id@) is Some ==> final(state).fallback_secrets() == old(state).fallback_secrets().remove(id@),
        r is Ok ==> (find_config(old(state).configs(), id@) matches Some(i) && final(state).configs() == old(state).configs().update(
            i,
            ForwardConfigView { has_stored_password: false, ..old(state).configs()[i] },
        )),
        r is Err ==> final(state).configs() == old(state).configs(),
        final(state).registry == old(state).registry,
        final(state).groups() == old(state).groups(),
        final(state).settings() == old(state).settings(),
        final(state).persists() == old(state).persists(),
        final(state).keychain_on() == old(state).keychain_on(),
{
    proof {
        lemma_find_config(state.configs(), id@);
    }
    let mut config = match state.get_config(id) {
        Some(c) => c,
        None => {
            return Err(forward_not_found(id));
        },
    };
    let ghost i = find_config(state.configs(), id@)->0;
    match state.delete_password_checked(id) {
        Err(e) => {
            return Err(e);
        },
        Ok(()) => {},
    }
    if config.has_stored_password {
        config.has_stored_password = false;
        proof {
            assert(find_config(state.configs(), config@.id) == Some(i));
        }
        state.upsert_config(config);
    } else {
        proof {
            assert(state.configs().update(
                i,
                ForwardConfigView { has_stored_password: false, ..state.configs()[i] },
            ) =~= state.configs());
        }
    }
    Ok(())
}

/// The global Start All over the state: for each forward in display order,
/// leave a live one, retry one parked in `error`, connect the others.
pub fn run_start_all(state: &AppState) -> (r: Vec<(String, StartAction)>)
    requires
        registry_wf(state.registry@),
    ensures
        r@.len() == state.configs().len(),
        forall|k: int|
            0 <= k < r@.len() ==> (#[trigger] r@[k]).0@ == state.configs()[k].id && r@[k].1
                == start_action_of(status_of(state.registry@.entries, state.configs()[k].id)),
{
    let r = start_all_plan(&state.configs, &state.registry);
    proof {
        assert forall|k: int| 0 <= k < state.configs@.len() implies #[trigger] state.configs()[k]
            == state.configs@[k]@ by {}
    }
    r
}

/// The global Stop All over the state: every live tunnel's id, to
/// disconnect (user-initiated, silent).
pub fn run_stop_all(state: &AppState) -> (r: Vec<String>)
    ensures
        strings_view(r@) == crate::state::tunnel_registry::ids_of(state.registry@.entries),
{
    state.registry.all_ids()
}

} // verus!
