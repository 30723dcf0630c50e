//! The shared stats sampler's decisions: exactly one sampler runs while any
//! tunnel is connected, and it stops itself once none is. The periodic tick
//! and the stats it reads run around these.
use vstd::prelude::*;
use crate::state::tunnel_registry::{ids_of, registry_wf, TunnelRegistry, TunnelEntryView};
use crate::state::models::{strings_view, ForwardStatus};

verus! {

/// Claim the sampler slot; true iff no sampler was running (the caller then
/// starts the one sampler). Calling it again is a no-op returning false.
pub fn ensure_sampler(registry: &mut TunnelRegistry) -> (r: bool)
    ensures
        r == !old(registry)@.sampler_running,
        final(registry)@.sampler_running,
        final(registry)@.entries == old(registry)@.entries,
        final(registry)@.starting == old(registry)@.starting,
{
    registry.try_start_sampler()
}

/// The tunnels one sample covers: those currently `connected`, in order.
/// Sampling never changes any status.
pub fn sample_ids(registry: &TunnelRegistry) -> (r: Vec<String>)
    ensures
        strings_view(r@) == ids_of(
            registry@.entries.filter(|e: TunnelEntryView| e.status == ForwardStatus::Connected),
        ),
{
    registry.connected_ids()
}

/// After a sample found nothing connected: release the slot, then look
/// again (`recheck_empty` is that second look). Still nothing: the sampler
/// stops (false). Something connected in between: it reclaims the slot and
/// goes on (true).
pub fn continue_after_empty_sample(registry: &mut TunnelRegistry, recheck_empty: bool) -> (r: bool)
    ensures
        r == !recheck_empty,
        final(registry)@.sampler_running == r,
        final(registry)@.entries == old(registry)@.entries,
        final(registry)@.starting == old(registry)@.starting,
{
    registry.stop_sampler();
    if recheck_empty {
        return false;
    }
    registry.try_start_sampler()
}

} // verus!
