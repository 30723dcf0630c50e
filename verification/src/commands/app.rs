//! App-level commands: the boot snapshot.
use vstd::prelude::*;
use crate::state::models::{configs_view, AppSnapshot, ForwardRuntime, UpdateStatus};
use crate::state::AppState;

verus! {

/// The boot / rehydrate snapshot, with no update known yet and the given
/// runtimes of the live tunnels.
pub fn app_hydrate(state: &AppState, runtimes: Vec<(String, ForwardRuntime)>) -> (r: AppSnapshot)
    ensures
        configs_view(r.forwards@) == state.configs(),
        r.groups@ == state.groups(),
        r.settings == state.settings(),
        r.logs@ == state.logs@,
        r.runtimes == runtimes,
        !r.update.available && r.update.version is None && r.update.notes is None
            && !r.update.skipped && r.update.error is None,
        r.keychain_available == state.keychain_on(),
{
    state.app_snapshot(UpdateStatus::default(), runtimes)
}

} // verus!
