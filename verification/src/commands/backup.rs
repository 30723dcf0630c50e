//! Backup commands: the document to export, and applying a parsed backup.
//! Writing and reading the file happen outside.
use vstd::prelude::*;
use crate::state::models::configs_view;
use crate::state::{queued, AppState, PersistView};
use crate::storage::backup::{
    merge_skipped, merged_forwards, merged_groups, plan_import, without_password, BackupFile,
    ImportMode, ImportResult, BACKUP_VERSION,
};

verus! {

/// The backup of the current forwards (passwords never included: every
/// stored-password flag is cleared) and groups, stamped `now`.
pub fn export_backup(state: &AppState, now: String) -> (r: BackupFile)
    ensures
        r.version == BACKUP_VERSION,
        crate::state::models::opt_view(r.exported_at) == Some(now@),
        r.forwards@.len() == state.configs().len(),
        forall|k: int|
            0 <= k < r.forwards@.len() ==> (#[trigger] r.forwards@[k])@ == without_password(
                state.configs()[k],
            ),
        r.groups@ == state.groups(),
{
    let r = BackupFile::export(&state.configs, &state.groups, now);
    proof {
        assert forall|k: int| 0 <= k < state.configs@.len() implies #[trigger] state.configs()[k]
            == state.configs@[k]@ by {}
    }
    r
}

/// Apply a validated backup: `Replace` takes the backup's forwards and
/// groups (live tunnels are stopped by the caller first, since `replaced`
/// is then true); `Merge` appends what is not already present. Both
/// sections are queued for saving.
pub fn import_backup(state: &mut AppState, backup: BackupFile, mode: ImportMode) -> (r: ImportResult)
    ensures
        mode == ImportMode::Replace ==> final(state).configs() == configs_view(backup.forwards@)
            && final(state).groups() == backup.groups@ && r == (ImportResult {
            imported: backup.forwards.len(),
            skipped: 0,
            replaced: true,
        }),
        mode == ImportMode::Merge ==> final(state).configs() == merged_forwards(
            old(state).configs(),
            configs_view(backup.forwards@),
            backup.forwards.len() as nat,
        ) && final(state).groups() == merged_groups(
            old(state).groups(),
            backup.groups@,
            backup.groups.len() as nat,
        ) && r.skipped == merge_skipped(
            old(state).configs(),
            configs_view(backup.forwards@),
            backup.forwards.len() as nat,
        ) && !r.replaced,
        final(state).pending() == queued(
            old(state).persists(),
            queued(
                old(state).persists(),
                old(state).pending(),
                PersistView::Forwards(final(state).configs()),
            ),
            PersistView::Groups(final(state).groups()),
        ),
        final(state).registry == old(state).registry,
        final(state).settings() == old(state).settings(),
        final(state).wf() == old(state).wf(),
{
    let (forwards, groups, result) = plan_import(&state.configs, &state.groups, backup, mode);
    state.replace_configs(forwards);
    state.replace_groups(groups);
    result
}

} // verus!
