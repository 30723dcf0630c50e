//! The self-updater's bookkeeping: the cached availability status, the
//! user's skip, and the once-per-version notice.
use crate::error::AppError;
use crate::state::models::{clone_opt_string, opt_view, AppSettings, UpdateStatus};
use crate::state::{queued, AppState, PersistView};
use crate::text::str_eq;
use vstd::prelude::*;

verus! {

/// Download progress of an update.
#[derive(Debug, Clone, Copy, PartialEq, Eq, Structural)]
pub struct UpdateProgress {
    pub downloaded: u64,
    pub total: Option<u64>,
}

/// What started an update check.
#[derive(Debug, Clone, Copy, PartialEq, Eq, Structural)]
pub enum CheckTrigger {
    /// The silent check at launch: failures are swallowed, an available
    /// update is notified once per version.
    Startup,
    /// The user asked: a failure surfaces in the status.
    UserRequested,
}

/// The updater's cached state.
#[derive(Debug)]
pub struct UpdaterState {
    /// The version last notified about (once-per-version notice).
    last_notified_version: Option<String>,
    /// The latest known availability.
    latest_status: UpdateStatus,
}

impl UpdaterState {
    /// Nothing known yet: no update, nothing notified.
    pub fn new() -> (r: UpdaterState)
        ensures
            !r.latest().available && r.latest().version is None && !r.latest().skipped
                && r.latest().notes is None && r.latest().error is None,
            r.notified() is None,
    {
        UpdaterState { last_notified_version: None, latest_status: UpdateStatus::default() }
    }

    /// The cached status.
    pub closed spec fn latest(&self) -> UpdateStatus {
        self.latest_status
    }

    /// The version last notified about.
    pub closed spec fn notified(&self) -> Option<Seq<char>> {
        opt_view(self.last_notified_version)
    }

    /// The latest known availability.
    pub fn latest_status(&self) -> (r: UpdateStatus)
        ensures
            r == self.latest(),
    {
        self.latest_status.clone_status()
    }

    /// Cache `status` as the latest known availability.
    pub fn set_latest_status(&mut self, status: UpdateStatus)
        ensures
            final(self).latest() == status,
            final(self).notified() == old(self).notified(),
    {
        self.latest_status = status;
    }

    /// Mark `version` skipped in the cached status, only when it is the
    /// version cached (a stale skip never hides the current offer); returns
    /// the refreshed status.
    pub fn mark_skipped(&mut self, version: &str) -> (r: UpdateStatus)
        ensures
            final(self).notified() == old(self).notified(),
            final(self).latest() == (if opt_view(old(self).latest().version) == Some(version@) {
                UpdateStatus { skipped: true, ..old(self).latest() }
            } else {
                old(self).latest()
            }),
            r == final(self).latest(),
    {
        let same = match &self.latest_status.version {
            Some(v) => str_eq(v.as_str(), version),
            None => false,
        };
        if same {
            self.latest_status.skipped = true;
        }
        self.latest_status.clone_status()
    }

    /// Whether to notify about `version` now, recording it: only for the
    /// startup check, only when not skipped, and once per version.
    pub fn take_notice(&mut self, trigger: CheckTrigger, version: &str, skipped: bool) -> (r: bool)
        ensures
            r == (trigger == CheckTrigger::Startup && !skipped && old(self).notified() != Some(
                version@,
            )),
            r ==> final(self).notified() == Some(version@),
            !r ==> final(self).notified() == old(self).notified(),
            final(self).latest() == old(self).latest(),
    {
        if trigger != CheckTrigger::Startup || skipped {
            return false;
        }
        let seen = match &self.last_notified_version {
            Some(v) => str_eq(v.as_str(), version),
            None => false,
        };
        if seen {
            return false;
        }
        self.last_notified_version = Some(version.to_string());
        true
    }

    /// A failed check: the startup check keeps the cached status (and the
    /// failure is only logged); a requested check reports the message in a
    /// fresh not-available status, which becomes the cached one.
    pub fn check_failed(&mut self, trigger: CheckTrigger, msg: String) -> (r: UpdateStatus)
        ensures
            trigger == CheckTrigger::Startup ==> r == old(self).latest() && final(self).latest()
                == old(self).latest(),
            trigger == CheckTrigger::UserRequested ==> !r.available && r.version is None
                && r.notes is None && !r.skipped && r.error == Some(msg) && final(self).latest()
                == r,
            final(self).notified() == old(self).notified(),
    {
        match trigger {
            CheckTrigger::Startup => self.latest_status.clone_status(),
            CheckTrigger::UserRequested => {
                let status = UpdateStatus {
                    available: false,
                    version: None,
                    notes: None,
                    skipped: false,
                    error: Some(msg),
                };
                self.latest_status = status.clone_status();
                status
            },
        }
    }
}

/// The status of a completed check: an update (version and notes) is
/// available, skipped iff its version is the one the user skipped; none
/// found is the not-available status.
pub fn status_for(found: Option<(String, Option<String>)>, last_skipped: &Option<String>) -> (r: UpdateStatus)
    ensures
        match found {
            Some((v, n)) => r.available && r.version == Some(v) && r.notes == n && r.skipped == (
            opt_view(*last_skipped) == Some(v@)) && r.error is None,
            None => !r.available && r.version is None && r.notes is None && !r.skipped
                && r.error is None,
        },
{
    match found {
        Some((version, notes)) => {
            let skipped = match last_skipped {
                Some(s) => str_eq(s.as_str(), version.as_str()),
                None => false,
            };
            UpdateStatus { available: true, version: Some(version), notes, skipped, error: None }
        },
        None => UpdateStatus::default(),
    }
}

/// The cached status after a skip of `version`: flagged skipped when it is
/// the version on offer (so the tray notice hides it at once), unchanged
/// otherwise. The caller announces it.
pub fn apply_skip(updater_state: &mut UpdaterState, version: &str) -> (r: UpdateStatus)
    ensures
        final(updater_state).notified() == old(updater_state).notified(),
        final(updater_state).latest() == (if opt_view(old(updater_state).latest().version) == Some(
            version@,
        ) {
            UpdateStatus { skipped: true, ..old(updater_state).latest() }
        } else {
            old(updater_state).latest()
        }),
        r == final(updater_state).latest(),
{
    updater_state.mark_skipped(version)
}

/// What a finished check leads to: the status to cache and announce, and
/// whether to show the "update available" notification.
#[derive(Debug)]
pub struct CheckOutcome {
    pub status: UpdateStatus,
    pub notify: bool,
}

/// Complete a check. `found` is the updater's answer: an update (version and
/// notes), none, or the failure message. A failure is handled per trigger
/// ([`UpdaterState::check_failed`]); otherwise the status comes from
/// [`status_for`], is cached, and a startup check notifies once per
/// non-skipped version.
pub fn run_check(
    updater_state: &mut UpdaterState,
    last_skipped: &Option<String>,
    trigger: CheckTrigger,
    found: Result<Option<(String, Option<String>)>, String>,
) -> (r: CheckOutcome)
    ensures
        found matches Err(msg) ==> !r.notify && final(updater_state).notified() == old(updater_state).notified()
            && (trigger == CheckTrigger::Startup ==> r.status == old(updater_state).latest()
            && final(updater_state).latest() == old(updater_state).latest())
            && (trigger == CheckTrigger::UserRequested ==> !r.status.available
            && r.status.version is None && r.status.error == Some(msg)
            && final(updater_state).latest() == r.status),
        found matches Ok(Some(u)) ==> r.status.available && r.status.version == Some(u.0)
            && r.status.notes == u.1 && r.status.skipped == (opt_view(*last_skipped) == Some(u.0@))
            && r.status.error is None && final(updater_state).latest() == r.status
            && r.notify == (trigger == CheckTrigger::Startup && !r.status.skipped
            && old(updater_state).notified() != Some(u.0@))
            && (r.notify ==> final(updater_state).notified() == Some(u.0@))
            && (!r.notify ==> final(updater_state).notified() == old(updater_state).notified()),
        found matches Ok(None) ==> !r.status.available && r.status.version is None
            && r.status.notes is None && !r.status.skipped && r.status.error is None
            && final(updater_state).latest() == r.status && !r.notify
            && final(updater_state).notified() == old(updater_state).notified(),
{
    match found {
        Err(msg) => {
            let status = updater_state.check_failed(trigger, msg);
            CheckOutcome { status, notify: false }
        },
        Ok(None) => {
            let status = status_for(None, last_skipped);
            updater_state.set_latest_status(status.clone_status());
            CheckOutcome { status, notify: false }
        },
        Ok(Some((version, notes))) => {
            let status = status_for(Some((version.clone(), notes)), last_skipped);
            let notify = updater_state.take_notice(trigger, version.as_str(), status.skipped);
            updater_state.set_latest_status(status.clone_status());
            CheckOutcome { status, notify }
        },
    }
}

/// The startup check runs only with automatic checks on.
pub fn auto_check_on_startup(auto_check_updates: bool) -> (r: bool)
    ensures
        r == auto_check_updates,
{
    auto_check_updates
}

/// The error for an install with no update found by a check first.
pub fn no_pending_update() -> (r: AppError)
    ensures
        r == AppError::Updater(r->Updater_0),
        r->Updater_0@ == "no pending update \u{2014} run check_update first"@,
{
    AppError::Updater("no pending update \u{2014} run check_update first".to_string())
}

/// The error for a failed download or install.
pub fn install_failed(reason: &str) -> (r: AppError)
    ensures
        r == AppError::Updater(r->Updater_0),
        r->Updater_0@ == "update install failed: "@ + reason@,
{
    AppError::Updater("update install failed: ".to_string().concat(reason))
}

impl UpdateProgress {
    /// Progress after another downloaded chunk of `chunk` bytes (the count
    /// saturates), with the total the server announced.
    pub fn advance(downloaded: u64, chunk: u64, total: Option<u64>) -> (r: UpdateProgress)
        ensures
            r.downloaded == (if downloaded + chunk > u64::MAX {
                u64::MAX as int
            } else {
                downloaded + chunk
            }),
            r.total == total,
    {
        UpdateProgress { downloaded: downloaded.saturating_add(chunk), total }
    }
}

/// Skip `version`: remember it in the settings (queued for saving) and
/// flag the cached status; returns the refreshed status.
pub fn skip_update(state: &mut AppState, updater_state: &mut UpdaterState, version: String) -> (r:
    UpdateStatus)
    ensures
        final(state).settings() == (AppSettings {
            last_skipped_version: Some(version),
            ..old(state).settings()
        }),
        final(state).pending() == queued(
            old(state).persists(),
            old(state).pending(),
            PersistView::Settings(final(state).settings()),
        ),
        final(updater_state).latest() == (if opt_view(old(updater_state).latest().version) == Some(
            version@,
        ) {
            UpdateStatus { skipped: true, ..old(updater_state).latest() }
        } else {
            old(updater_state).latest()
        }),
        r == final(updater_state).latest(),
        final(state).configs() == old(state).configs(),
        final(state).groups() == old(state).groups(),
        final(state).registry == old(state).registry,
        final(state).wf() == old(state).wf(),
{
    let mut settings = state.settings_snapshot();
    settings.last_skipped_version = Some(version.clone());
    state.set_settings(settings);
    apply_skip(updater_state, version.as_str())
}

} // verus!
