//! Exponential reconnect backoff.
use std::time::Duration;
use vstd::prelude::*;

verus! {

/// `delay * 2^attempt`.
pub open spec fn scaled(delay: nat, attempt: nat) -> nat
    decreases attempt,
{
    if attempt == 0 {
        delay
    } else {
        2 * scaled(delay, (attempt - 1) as nat)
    }
}

/// `x` clamped to `[lo, hi]`.
pub open spec fn clamp(x: int, lo: int, hi: int) -> int {
    if x < lo {
        lo
    } else if x > hi {
        hi
    } else {
        x
    }
}

/// Backoff before reconnect `attempt` (0-based), in seconds:
/// `delay_sec * 2^attempt` clamped to `[1, 60]`.
pub open spec fn backoff_spec(delay_sec: nat, attempt: nat) -> int {
    clamp(scaled(delay_sec, attempt) as int, 1, 60)
}

/// The duration of `secs` whole seconds, as `Duration::from_secs` builds it.
pub uninterp spec fn seconds(secs: u64) -> Duration;

/// `Duration::from_secs`: the duration of `secs` whole seconds (a pure
/// function of `secs`, named [`seconds`]).
#[verifier::external_body]
pub(crate) fn duration_from_secs(secs: u64) -> (r: Duration)
    ensures
        r == seconds(secs),
{
    Duration::from_secs(secs)
}

/// `scaled` never decreases as the attempt grows.
pub proof fn lemma_scaled_monotone(delay: nat, a: nat, b: nat)
    requires
        a <= b,
    ensures
        scaled(delay, a) <= scaled(delay, b),
    decreases b,
{
    if a < b {
        lemma_scaled_monotone(delay, a, (b - 1) as nat);
    }
}

/// Backoff in whole seconds for reconnect `attempt` (0-based):
/// `delay_sec * 2^attempt` clamped to `[1, 60]`. For `delay_sec = 5` the
/// sequence is 5, 10, 20, 40, 60, 60, ...; a zero delay gives 1. Large
/// attempts saturate at 60 rather than overflowing.
pub fn backoff_secs(delay_sec: u32, attempt: u32) -> (r: u64)
    ensures
        r == backoff_spec(delay_sec as nat, attempt as nat),
        1 <= r <= 60,
{
    let mut v: u64 = delay_sec as u64;
    let mut i: u32 = 0;
    while i < attempt && v <= 60
        invariant
            i <= attempt,
            v == scaled(delay_sec as nat, i as nat),
            v <= u32::MAX,
        decreases attempt - i,
    {
        v = v * 2;
        i = i + 1;
    }
    proof {
        lemma_scaled_monotone(delay_sec as nat, i as nat, attempt as nat);
    }
    if v < 1 {
        1
    } else if v > 60 {
        60
    } else {
        v
    }
}

/// Backoff delay for reconnect `attempt` (0-based): `delay_sec * 2^attempt`
/// seconds, clamped to `[1, 60]` seconds.
pub fn backoff(delay_sec: u32, attempt: u32) -> (r: Duration)
    ensures
        r == seconds(backoff_spec(delay_sec as nat, attempt as nat) as u64),
{
    let secs = backoff_secs(delay_sec, attempt);
    duration_from_secs(secs)
}

/// Every backoff lies within `[1, 60]` seconds.
pub proof fn law_backoff_bounded(delay_sec: u32, attempt: u32)
    ensures
        1 <= backoff_spec(delay_sec as nat, attempt as nat) <= 60,
{
}

/// Backoff never shrinks as the attempt count grows.
pub proof fn law_backoff_monotone(delay_sec: u32, a: u32, b: u32)
    requires
        a <= b,
    ensures
        backoff_spec(delay_sec as nat, a as nat) <= backoff_spec(delay_sec as nat, b as nat),
{
    lemma_scaled_monotone(delay_sec as nat, a as nat, b as nat);
}

} // verus!
