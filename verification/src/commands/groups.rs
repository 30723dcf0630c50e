//! Group and tag commands: CRUD, assignment, per-group start/stop plans and
//! the derived tag list. Per-group bulk acts only on the forwards in one
//! folder, unlike the global Start All / Stop All.
use vstd::prelude::*;
use crate::commands::forwards::{forward_not_found, new_uuid, start_action_of, StartAction};
use crate::error::AppError;
use crate::state::models::{
    clone_opt_string, configs_view, find_config, lemma_find_config, opt_view, strings_view,
    ForwardConfig, ForwardConfigView, ForwardStatus, GroupInput, TunnelGroup,
};
use crate::state::tunnel_registry::{has_id, registry_wf, status_of, RegistryView};
use crate::state::{
    find_group, group_id_differs, group_position, lemma_find_group, queued, upserted_group,
    AppState, PersistView,
};
use crate::text::{lemma_text_lt_order, str_eq, text_less, text_lt};

verus! {

/// The highest `order` among `gs`, if any.
pub open spec fn max_order(gs: Seq<TunnelGroup>) -> Option<u32>
    decreases gs.len(),
{
    if gs.len() == 0 {
        None
    } else {
        match max_order(gs.drop_last()) {
            Some(m) => Some(if gs.last().order > m { gs.last().order } else { m }),
            None => Some(gs.last().order),
        }
    }
}

/// The order a new group gets: one past the highest, or 0 when there is
/// none, so new folders sort last.
pub open spec fn next_order(gs: Seq<TunnelGroup>) -> int {
    match max_order(gs) {
        Some(m) => m + 1,
        None => 0,
    }
}

/// Whether a configuration sits in group `gid`.
pub open spec fn in_group(gid: Seq<char>) -> spec_fn(ForwardConfigView) -> bool {
    |c: ForwardConfigView| c.group_id == Some(gid)
}

/// A configuration taken out of group `gid` (unchanged when it is in
/// another folder or none).
pub open spec fn detached(gid: Seq<char>) -> spec_fn(ForwardConfigView) -> ForwardConfigView {
    |c: ForwardConfigView|
        if c.group_id == Some(gid) {
            ForwardConfigView { group_id: None, ..c }
        } else {
            c
        }
}

/// The error for an id with no group.
pub fn group_not_found(id: &str) -> (r: AppError)
    ensures
        r == AppError::NotFound(r->NotFound_0),
        r->NotFound_0@ == "group "@ + id@,
{
    AppError::NotFound("group ".to_string().concat(id))
}

/// All groups.
pub fn list_groups(state: &AppState) -> (r: Vec<TunnelGroup>)
    ensures
        r@ == state.groups(),
{
    state.groups_snapshot()
}

/// The order for a new group: one past the highest current order, 0 when
/// there are no groups.
pub fn next_group_order(groups: &[TunnelGroup]) -> (r: u32)
    requires
        max_order(groups@) matches Some(m) ==> m < u32::MAX,
    ensures
        r == next_order(groups@),
{
    let mut best: Option<u32> = None;
    let mut i: usize = 0;
    while i < groups.len()
        invariant
            i <= groups.len(),
            best == max_order(groups@.take(i as int)),
        decreases groups.len() - i,
    {
        proof {
            assert(groups@.take(i + 1).drop_last() =~= groups@.take(i as int));
        }
        let o = groups[i].order;
        best = match best {
            Some(m) => Some(if o > m { o } else { m }),
            None => Some(o),
        };
        i = i + 1;
    }
    proof {
        assert(groups@.take(i as int) =~= groups@);
    }
    match best {
        Some(m) => m + 1,
        None => 0,
    }
}

/// Create a group with a fresh random id, ordered after every existing
/// group, and queue the groups for saving.
pub fn create_group(state: &mut AppState, input: GroupInput) -> (r: TunnelGroup)
    requires
        max_order(old(state).groups()) matches Some(m) ==> m < u32::MAX,
    ensures
        r.id@.len() == 36,
        r.name == input.name,
        r.color == input.color,
        r.collapsed == input.collapsed,
        r.order == next_order(old(state).groups()),
        final(state).groups() == upserted_group(old(state).groups(), r),
        final(state).pending() == queued(
            old(state).persists(),
            old(state).pending(),
            PersistView::Groups(final(state).groups()),
        ),
        final(state).registry == old(state).registry,
        final(state).configs() == old(state).configs(),
        final(state).settings() == old(state).settings(),
        final(state).fallback_secrets() == old(state).fallback_secrets(),
        final(state).keychain_on() == old(state).keychain_on(),
        final(state).persists() == old(state).persists(),
        final(state).wf() == old(state).wf(),
{
    let order = next_group_order(&state.groups);
    let group = TunnelGroup {
        id: new_uuid(),
        name: input.name,
        color: input.color,
        order,
        collapsed: input.collapsed,
    };
    state.upsert_group(group.clone_group());
    state.persist_groups();
    group
}

/// Rename / recolor a group and record its `collapsed` flag; its `order` is
/// kept. Unknown id: `NotFound("group <id>")` and nothing changes.
pub fn update_group(state: &mut AppState, id: String, input: GroupInput) -> (r: Result<
    TunnelGroup,
    AppError,
>)
    ensures
        find_group(old(state).groups(), id@) is None ==> r is Err && r->Err_0 == AppError::NotFound(
            r->Err_0->NotFound_0,
        ) && r->Err_0->NotFound_0@ == "group "@ + id@ && final(state).groups() == old(
            state,
        ).groups() && final(state).pending() == old(state).pending(),
        find_group(old(state).groups(), id@) matches Some(i) ==> r is Ok && r->Ok_0 == (TunnelGroup {
            id,
            name: input.name,
            color: input.color,
            order: old(state).groups()[i].order,
            collapsed: input.collapsed,
        }) && final(state).groups() == old(state).groups().update(i, r->Ok_0)
            && final(state).pending() == queued(
            old(state).persists(),
            old(state).pending(),
            PersistView::Groups(final(state).groups()),
        ),
        final(state).registry == old(state).registry,
        final(state).configs() == old(state).configs(),
        final(state).settings() == old(state).settings(),
        final(state).fallback_secrets() == old(state).fallback_secrets(),
        final(state).keychain_on() == old(state).keychain_on(),
        final(state).persists() == old(state).persists(),
        final(state).wf() == old(state).wf(),
{
    proof {
        lemma_find_group(state.groups@, id@);
    }
    match group_position(&state.groups, id.as_str()) {
        None => Err(group_not_found(id.as_str())),
        Some(i) => {
            let order = state.groups[i].order;
            let group = TunnelGroup {
                id,
                name: input.name,
                color: input.color,
                order,
                collapsed: input.collapsed,
            };
            state.upsert_group(group.clone_group());
            state.persist_groups();
            Ok(group)
        },
    }
}

/// Whether `c` sits in group `gid`.
fn config_in_group(c: &ForwardConfig, gid: &str) -> (r: bool)
    ensures
        r == (c@.group_id == Some(gid@)),
{
    match &c.group_id {
        Some(g) => str_eq(g.as_str(), gid),
        None => false,
    }
}

/// Delete a group; every forward in it is moved out of the folder (tags
/// kept) so nothing points at a dead group. Groups are queued for saving,
/// and the forwards too when one was moved. Unknown id:
/// `NotFound("group <id>")` and nothing changes.
pub fn delete_group(state: &mut AppState, id: &str) -> (r: Result<(), AppError>)
    requires
        old(state).wf(),
    ensures
        final(state).wf(),
        r is Err <==> find_group(old(state).groups(), id@) is None,
        r is Err ==> r->Err_0 == AppError::NotFound(r->Err_0->NotFound_0)
            && r->Err_0->NotFound_0@ == "group "@ + id@ && final(state).groups() == old(
            state,
        ).groups() && final(state).configs() == old(state).configs() && final(state).pending()
            == old(state).pending(),
        r is Ok ==> final(state).groups() == old(state).groups().filter(group_id_differs(id@))
            && final(state).configs() == old(state).configs().map_values(detached(id@))
            && final(state).pending() == ({
            let q = queued(
                old(state).persists(),
                old(state).pending(),
                PersistView::Groups(final(state).groups()),
            );
            if exists|k: int|
                0 <= k < old(state).configs().len() && (#[trigger] old(
                    state,
                ).configs()[k]).group_id == Some(id@) {
                queued(old(state).persists(), q, PersistView::Forwards(final(state).configs()))
            } else {
                q
            }
        }),
        final(state).registry == old(state).registry,
        final(state).settings() == old(state).settings(),
        final(state).fallback_secrets() == old(state).fallback_secrets(),
        final(state).keychain_on() == old(state).keychain_on(),
        final(state).persists() == old(state).persists(),
{
    proof {
        lemma_find_group(state.groups@, id@);
    }
    if group_position(&state.groups, id).is_none() {
        return Err(group_not_found(id));
    }
    state.remove_group(id);
    state.persist_groups();
    let mut list: Vec<ForwardConfig> = Vec::new();
    std::mem::swap(&mut list, &mut state.configs);
    let ghost cs = configs_view(list@);
    let ghost f = detached(id@);
    let mut changed = false;
    let mut i: usize = 0;
    while i < list.len()
        invariant
            i <= list.len(),
            cs.len() == list@.len(),
            f == detached(id@),
            forall|k: int| 0 <= k < i ==> (#[trigger] configs_view(list@)[k]) == f(cs[k]),
            forall|k: int| i <= k < cs.len() ==> (#[trigger] configs_view(list@)[k]) == cs[k],
            changed == exists|k: int| 0 <= k < i && (#[trigger] cs[k]).group_id == Some(id@),
        decreases list.len() - i,
    {
        proof {
            assert(configs_view(list@)[i as int] == cs[i as int]);
            assert(list@[i as int]@ == cs[i as int]);
        }
        if config_in_group(&list[i], id) {
            let c = &list[i];
            let moved = ForwardConfig {
                id: c.id.clone(),
                name: c.name.clone(),
                ssh_host: c.ssh_host.clone(),
                ssh_port: c.ssh_port,
                ssh_username: c.ssh_username.clone(),
                identity_file_path: clone_opt_string(&c.identity_file_path),
                has_stored_password: c.has_stored_password,
                local_bind_address: c.local_bind_address.clone(),
                local_port: c.local_port,
                remote_host: c.remote_host.clone(),
                remote_port: c.remote_port,
                keep_alive_interval_sec: c.keep_alive_interval_sec,
                keep_alive_max_count: c.keep_alive_max_count,
                group_id: None,
                tags: crate::state::models::clone_strings(&c.tags),
            };
            proof {
                assert(cs[i as int].group_id == Some(id@));
                assert(f(cs[i as int]) == ForwardConfigView { group_id: None, ..cs[i as int] });
                assert(moved@ == f(cs[i as int]));
            }
            let ghost before = list@;
            list.set(i, moved);
            proof {
                assert forall|k: int| 0 <= k < list@.len() && k != i implies (#[trigger] configs_view(
                    list@,
                )[k]) == configs_view(before)[k] by {
                    assert(list@[k] == before[k]);
                }
            }
            changed = true;
        } else {
            proof {
                assert(cs[i as int].group_id != Some(id@));
                assert(f(cs[i as int]) == cs[i as int]);
            }
        }
        i = i + 1;
    }
    proof {
        assert(configs_view(list@) =~= cs.map_values(f));
    }
    std::mem::swap(&mut list, &mut state.configs);
    if changed {
        if state.persists {
            let snapshot = crate::state::models::clone_configs(&state.configs);
            let ghost before = crate::state::saves_view(state.pending@);
            state.pending.push(crate::state::PersistMsg::Forwards(snapshot));
            proof {
                assert(crate::state::saves_view(state.pending@) =~= before.push(
                    PersistView::Forwards(state.configs()),
                ));
            }
        }
    }
    Ok(())
}

/// Move a forward into a folder (`None`: ungrouped) and queue the forwards
/// for saving. Unknown forward: `NotFound("forward <id>")`; unknown target
/// group: `NotFound("group <id>")`, and nothing changes.
pub fn assign_forward_group(state: &mut AppState, forward_id: &str, group_id: Option<String>) -> (r:
    Result<(), AppError>)
    ensures
        find_config(old(state).configs(), forward_id@) is None ==> r is Err && r->Err_0
            == AppError::NotFound(r->Err_0->NotFound_0) && r->Err_0->NotFound_0@ == "forward "@
            + forward_id@,
        find_config(old(state).configs(), forward_id@) is Some ==> (group_id matches Some(g)
            ==> (find_group(old(state).groups(), g@) is None ==> r is Err && r->Err_0
            == AppError::NotFound(r->Err_0->NotFound_0) && r->Err_0->NotFound_0@ == "group "@ + g@)),
        r is Err ==> final(state).configs() == old(state).configs() && final(state).pending()
            == old(state).pending(),
        r is Ok <==> (find_config(old(state).configs(), forward_id@) is Some && (group_id matches Some(
            g,
        ) ==> find_group(old(state).groups(), g@) is Some)),
        r is Ok ==> ({
            let i = find_config(old(state).configs(), forward_id@)->0;
            &&& final(state).configs() == old(state).configs().update(
                i,
                ForwardConfigView { group_id: opt_view(group_id), ..old(state).configs()[i] },
            )
            &&& final(state).pending() == queued(
                old(state).persists(),
                old(state).pending(),
                PersistView::Forwards(final(state).configs()),
            )
        }),
        final(state).registry == old(state).registry,
        final(state).groups() == old(state).groups(),
        final(state).settings() == old(state).settings(),
        final(state).fallback_secrets() == old(state).fallback_secrets(),
        final(state).keychain_on() == old(state).keychain_on(),
        final(state).persists() == old(state).persists(),
        final(state).wf() == old(state).wf(),
{
    let ghost cs = state.configs();
    proof {
        lemma_find_config(cs, forward_id@);
    }
    let mut cfg = match state.get_config(forward_id) {
        Some(c) => c,
        None => {
            return Err(forward_not_found(forward_id));
        },
    };
    if let Some(gid) = &group_id {
        if group_position(&state.groups, gid.as_str()).is_none() {
            return Err(group_not_found(gid.as_str()));
        }
    }
    let ghost i = find_config(cs, forward_id@)->0;
    cfg.group_id = group_id;
    proof {
        assert(cfg@.id == cs[i].id);
        assert(find_config(cs, cfg@.id) == Some(i));
    }
    state.upsert_config(cfg);
    Ok(())
}

/// The per-group start plan entry for `c`: its id and what Start does to it.
pub open spec fn start_entry(reg: RegistryView) -> spec_fn(ForwardConfigView) -> (Seq<char>, StartAction) {
    |c: ForwardConfigView| (c.id, start_action_of(status_of(reg.entries, c.id)))
}

/// The views of a start plan.
pub open spec fn plan_view(p: Seq<(String, StartAction)>) -> Seq<(Seq<char>, StartAction)> {
    p.map_values(|e: (String, StartAction)| (e.0@, e.1))
}

/// Start every forward in one folder, planned: for each of its forwards in
/// display order, leave a live one, retry one parked in `error`, connect the
/// others (the same policy as Start All, scoped to the folder).
pub fn start_group(state: &AppState, group_id: &str) -> (r: Vec<(String, StartAction)>)
    requires
        registry_wf(state.registry@),
    ensures
        plan_view(r@) == state.configs().filter(in_group(group_id@)).map_values(
            start_entry(state.registry@),
        ),
{
    let ghost cs = state.configs();
    let ghost p = in_group(group_id@);
    let ghost f = start_entry(state.registry@);
    let mut out: Vec<(String, StartAction)> = Vec::new();
    let mut i: usize = 0;
    while i < state.configs.len()
        invariant
            i <= state.configs.len(),
            cs == state.configs(),
            registry_wf(state.registry@),
            p == in_group(group_id@),
            f == start_entry(state.registry@),
            plan_view(out@) == cs.take(i as int).filter(p).map_values(f),
        decreases state.configs.len() - i,
    {
        let ghost before = plan_view(out@);
        let ghost c = cs[i as int];
        proof {
            assert(cs.take(i + 1) =~= cs.take(i as int).push(c));
            cs.take(i as int).lemma_filter_push(c, p);
        }
        if config_in_group(&state.configs[i], group_id) {
            let id = &state.configs[i].id;
            let action = match state.registry.current_status(id.as_str()) {
                Some(ForwardStatus::Connected) | Some(ForwardStatus::Connecting) | Some(
                    ForwardStatus::Disconnecting,
                ) => StartAction::Leave,
                Some(ForwardStatus::Error) => StartAction::Retry,
                Some(ForwardStatus::Disconnected) | None => StartAction::Connect,
            };
            out.push((id.clone(), action));
            proof {
                assert(plan_view(out@) =~= before.push(f(c)));
                assert(cs.take(i as int).filter(p).push(c).map_values(f) =~= cs.take(
                    i as int,
                ).filter(p).map_values(f).push(f(c)));
            }
        }
        i = i + 1;
    }
    proof {
        assert(cs.take(i as int) =~= cs);
    }
    out
}

/// Whether `c` is in group `gid` and has a live tunnel.
pub open spec fn stoppable(reg: RegistryView, gid: Seq<char>) -> spec_fn(ForwardConfigView) -> bool {
    |c: ForwardConfigView| c.group_id == Some(gid) && has_id(reg.entries, c.id)
}

/// The ids of a list of configurations.
pub open spec fn config_ids(cs: Seq<ForwardConfigView>) -> Seq<Seq<char>> {
    cs.map_values(|c: ForwardConfigView| c.id)
}

/// Stop every live forward in one folder, planned: the ids to disconnect,
/// in display order.
pub fn stop_group(state: &AppState, group_id: &str) -> (r: Vec<String>)
    requires
        registry_wf(state.registry@),
    ensures
        strings_view(r@) == config_ids(state.configs().filter(stoppable(state.registry@, group_id@))),
{
    let ghost cs = state.configs();
    let ghost p = stoppable(state.registry@, group_id@);
    let mut out: Vec<String> = Vec::new();
    let mut i: usize = 0;
    while i < state.configs.len()
        invariant
            i <= state.configs.len(),
            cs == state.configs(),
            registry_wf(state.registry@),
            p == stoppable(state.registry@, group_id@),
            strings_view(out@) == config_ids(cs.take(i as int).filter(p)),
        decreases state.configs.len() - i,
    {
        let ghost before = strings_view(out@);
        let ghost c = cs[i as int];
        proof {
            assert(cs.take(i + 1) =~= cs.take(i as int).push(c));
            cs.take(i as int).lemma_filter_push(c, p);
        }
        if config_in_group(&state.configs[i], group_id) && state.registry.contains(
            state.configs[i].id.as_str(),
        ) {
            out.push(state.configs[i].id.clone());
            proof {
                assert(strings_view(out@) =~= before.push(c.id));
                assert(config_ids(cs.take(i as int).filter(p).push(c)) =~= config_ids(
                    cs.take(i as int).filter(p),
                ).push(c.id));
            }
        }
        i = i + 1;
    }
    proof {
        assert(cs.take(i as int) =~= cs);
    }
    out
}

/// Every tag of `cs`, configuration by configuration, in order.
pub open spec fn flat_tags(cs: Seq<ForwardConfigView>) -> Seq<Seq<char>>
    decreases cs.len(),
{
    if cs.len() == 0 {
        Seq::empty()
    } else {
        flat_tags(cs.drop_last()) + cs.last().tags
    }
}

/// Whether `s` is strictly increasing in text order (so sorted and free of
/// duplicates).
pub open spec fn strictly_sorted(s: Seq<Seq<char>>) -> bool {
    forall|i: int, j: int| 0 <= i < j < s.len() ==> text_lt(#[trigger] s[i], #[trigger] s[j])
}

/// Insert `t` into the strictly sorted `out`, unless it is already there.
fn insert_sorted(out: &mut Vec<String>, t: String)
    requires
        strictly_sorted(strings_view(old(out)@)),
    ensures
        strictly_sorted(strings_view(final(out)@)),
        forall|s: Seq<char>| #[trigger]
            strings_view(final(out)@).contains(s) <==> strings_view(old(out)@).contains(s) || s
                == t@,
{
    let ghost o = strings_view(out@);
    let mut p: usize = 0;
    while p < out.len() && text_less(out[p].as_str(), t.as_str())
        invariant
            p <= out.len(),
            o == strings_view(out@),
            forall|j: int| 0 <= j < p ==> text_lt(#[trigger] o[j], t@),
        decreases out.len() - p,
    {
        p = p + 1;
    }
    if p < out.len() && str_eq(out[p].as_str(), t.as_str()) {
        proof {
            assert(o[p as int] == t@);
            assert forall|s: Seq<char>| #[trigger]
                strings_view(out@).contains(s) <==> o.contains(s) || s == t@ by {
                if s == t@ {
                    assert(o[p as int] == s);
                }
            }
        }
        return;
    }
    proof {
        if p < o.len() {
            lemma_text_lt_order(o[p as int], t@, t@);
            assert(text_lt(t@, o[p as int]));
        }
    }
    out.insert(p, t);
    proof {
        let n = strings_view(out@);
        assert(n =~= o.insert(p as int, t@));
        assert forall|i: int, j: int| 0 <= i < j < n.len() implies text_lt(#[trigger] n[i], #[trigger] n[j]) by {
            if j < p {
                assert(n[i] == o[i] && n[j] == o[j]);
            } else if j == p {
                assert(n[i] == o[i]);
            } else if i == p {
                assert(n[j] == o[j - 1]);
                if j - 1 > p {
                    lemma_text_lt_order(t@, o[p as int], o[j - 1]);
                }
            } else if i < p {
                assert(n[i] == o[i] && n[j] == o[j - 1]);
                lemma_text_lt_order(o[i], t@, o[j - 1]);
            } else {
                assert(n[i] == o[i - 1] && n[j] == o[j - 1]);
            }
        }
        assert forall|s: Seq<char>| #[trigger] n.contains(s) <==> o.contains(s) || s == t@ by {
            if n.contains(s) {
                let k = choose|k: int| 0 <= k < n.len() && n[k] == s;
                if k < p {
                    assert(o[k] == s);
                } else if k > p {
                    assert(o[k - 1] == s);
                }
            }
            if o.contains(s) {
                let k = choose|k: int| 0 <= k < o.len() && o[k] == s;
                if k < p {
                    assert(n[k] == s);
                } else {
                    assert(n[k + 1] == s);
                }
            }
            if s == t@ {
                assert(n[p as int] == s);
            }
        }
    }
}

/// Every tag of every forward, one after another.
fn all_tags(configs: &Vec<ForwardConfig>) -> (r: Vec<String>)
    ensures
        strings_view(r@) == flat_tags(configs_view(configs@)),
{
    let ghost cs = configs_view(configs@);
    let mut out: Vec<String> = Vec::new();
    let mut i: usize = 0;
    while i < configs.len()
        invariant
            i <= configs.len(),
            cs == configs_view(configs@),
            strings_view(out@) == flat_tags(cs.take(i as int)),
        decreases configs.len() - i,
    {
        let tags = &configs[i].tags;
        let ghost base = strings_view(out@);
        let mut j: usize = 0;
        while j < tags.len()
            invariant
                j <= tags.len(),
                i < configs@.len(),
                tags@ == configs@[i as int].tags@,
                strings_view(out@) == base + strings_view(tags@).take(j as int),
            decreases tags.len() - j,
        {
            let ghost prev = strings_view(out@);
            out.push(tags[j].clone());
            proof {
                assert(strings_view(out@) =~= prev.push(tags@[j as int]@));
                assert(strings_view(tags@).take(j + 1) =~= strings_view(tags@).take(j as int).push(
                    tags@[j as int]@,
                ));
                assert(strings_view(out@) =~= base + strings_view(tags@).take(j + 1));
            }
            j = j + 1;
        }
        proof {
            assert(strings_view(tags@).take(j as int) =~= strings_view(tags@));
            assert(cs[i as int].tags == strings_view(tags@));
            assert(cs.take(i + 1).drop_last() =~= cs.take(i as int));
            assert(cs.take(i + 1).last() == cs[i as int]);
        }
        i = i + 1;
    }
    proof {
        assert(cs.take(i as int) =~= cs);
    }
    out
}

/// The derived tag list: the union of every forward's tags, sorted and
/// without duplicates.
pub fn list_tags(state: &AppState) -> (r: Vec<String>)
    ensures
        strictly_sorted(strings_view(r@)),
        forall|s: Seq<char>| #[trigger]
            strings_view(r@).contains(s) <==> flat_tags(state.configs()).contains(s),
{
    let mut all = all_tags(&state.configs);
    let ghost flat = strings_view(all@);
    let mut out: Vec<String> = Vec::new();
    let mut k: usize = 0;
    while k < all.len()
        invariant
            k <= all.len(),
            flat == strings_view(all@),
            flat == flat_tags(state.configs()),
            strictly_sorted(strings_view(out@)),
            forall|s: Seq<char>| #[trigger]
                strings_view(out@).contains(s) <==> flat.take(k as int).contains(s),
        decreases all.len() - k,
    {
        let t = all[k].clone();
        insert_sorted(&mut out, t);
        proof {
            assert(flat.take(k + 1) =~= flat.take(k as int).push(flat[k as int]));
            assert forall|s: Seq<char>| #[trigger]
                flat.take(k + 1).contains(s) <==> flat.take(k as int).contains(s) || s
                    == flat[k as int] by {
                let q = flat.take(k + 1);
                if q.contains(s) {
                    let x = choose|x: int| 0 <= x < q.len() && q[x] == s;
                    if x < k {
                        assert(flat.take(k as int)[x] == s);
                    }
                }
                if flat.take(k as int).contains(s) {
                    let x = choose|x: int| 0 <= x < k && flat.take(k as int)[x] == s;
                    assert(q[x] == s);
                }
                if s == flat[k as int] {
                    assert(q[k as int] == s);
                }
            }
        }
        k = k + 1;
    }
    proof {
        assert(flat.take(k as int) =~= flat);
    }
    out
}

/// After a group is deleted no forward is left in it, and every forward
/// keeps everything but its folder (tags included).
pub proof fn law_deleted_group_has_no_members(cs: Seq<ForwardConfigView>, gid: Seq<char>, k: int)
    requires
        0 <= k < cs.len(),
    ensures
        cs.map_values(detached(gid))[k].group_id != Some(gid),
        cs.map_values(detached(gid))[k] == (ForwardConfigView {
            group_id: cs.map_values(detached(gid))[k].group_id,
            ..cs[k]
        }),
        cs[k].group_id != Some(gid) ==> cs.map_values(detached(gid))[k] == cs[k],
{
}

/// The derived tag list never repeats a tag: strictly increasing text order
/// rules out duplicates.
pub proof fn law_sorted_tags_are_distinct(s: Seq<Seq<char>>)
    requires
        strictly_sorted(s),
    ensures
        s.no_duplicates(),
{
    assert forall|i: int, j: int| 0 <= i < s.len() && 0 <= j < s.len() && i != j implies s[i] != s[j] by {
        lemma_text_lt_order(s[i], s[j], s[j]);
        if i < j {
            assert(text_lt(s[i], s[j]));
        } else {
            assert(text_lt(s[j], s[i]));
            lemma_text_lt_order(s[j], s[i], s[i]);
        }
    }
}

} // verus!
