//! Launch-at-login reconciliation: bring the OS login item in line with the
//! setting, touching it only when they differ.
use vstd::prelude::*;

verus! {

/// How the login item must change.
#[derive(Debug, Clone, Copy, PartialEq, Eq, Structural)]
pub enum AutostartChange {
    Enable,
    Disable,
    Keep,
}

/// The change that makes the login item (`currently_enabled`) match the
/// setting (`launch_at_login`).
pub open spec fn autostart_change(launch_at_login: bool, currently_enabled: bool) -> AutostartChange {
    if launch_at_login && !currently_enabled {
        AutostartChange::Enable
    } else if !launch_at_login && currently_enabled {
        AutostartChange::Disable
    } else {
        AutostartChange::Keep
    }
}

/// Reconcile: enable when wanted and off, disable when unwanted and on,
/// otherwise leave the login item alone.
pub fn reconcile(launch_at_login: bool, currently_enabled: bool) -> (r: AutostartChange)
    ensures
        r == autostart_change(launch_at_login, currently_enabled),
{
    if launch_at_login && !currently_enabled {
        AutostartChange::Enable
    } else if !launch_at_login && currently_enabled {
        AutostartChange::Disable
    } else {
        AutostartChange::Keep
    }
}

/// After applying the change, the login item matches the setting.
pub proof fn law_reconcile_converges(launch_at_login: bool, currently_enabled: bool)
    ensures
        ({
            let after = match autostart_change(launch_at_login, currently_enabled) {
                AutostartChange::Enable => true,
                AutostartChange::Disable => false,
                AutostartChange::Keep => currently_enabled,
            };
            after == launch_at_login
        }),
{
}

} // verus!
