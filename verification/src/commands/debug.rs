//! Development commands: raw config writes, raw password writes, and the
//! runtime of a live tunnel only.
use vstd::prelude::*;
use crate::commands::forwards::runtime_or_default;
use crate::state::models::{opt_view, ForwardConfig, ForwardRuntime, TunnelStats};
use crate::state::tunnel_registry::{has_id, index_of, registry_wf, status_of};
use crate::state::{queued, upserted_config, AppState, PersistView};

verus! {

/// Insert or replace a configuration as given.
pub fn debug_upsert_config(state: &mut AppState, config: ForwardConfig)
    ensures
        final(state).configs() == upserted_config(old(state).configs(), config@),
        final(state).pending() == queued(
            old(state).persists(),
            old(state).pending(),
            PersistView::Forwards(final(state).configs()),
        ),
        final(state).wf() == old(state).wf(),
{
    state.upsert_config(config);
}

/// Store a password as given (a keychain failure is swallowed).
pub fn debug_set_password(state: &mut AppState, id: &str, password: String)
    requires
        old(state).wf(),
    ensures
        final(state).wf(),
        !old(state).keychain_on() ==> final(state).fallback_secrets() == old(
            state).fallback_secrets().insert(id@, password@),
        final(state).configs() == old(state).configs(),
{
    state.set_password(id, password);
}

/// The runtime of `id` when it is live; `None` otherwise.
pub fn debug_runtime(state: &AppState, id: &str, stats: Option<TunnelStats>) -> (r: Option<
    ForwardRuntime,
>)
    requires
        registry_wf(state.registry@),
    ensures
        r is Some <==> has_id(state.registry@.entries, id@),
        r matches Some(rt) ==> Some(rt.status) == status_of(state.registry@.entries, id@)
            && opt_view(rt.last_error) == state.registry@.entries[index_of(
            state.registry@.entries,
            id@,
        )].last_error,
{
    if !state.registry.contains(id) {
        return None;
    }
    Some(runtime_or_default(&state.registry, id, stats))
}

} // verus!
