//! The backup document, its validation, and the import plan.
//!
//! A backup never carries a secret: every forward is exported and imported
//! with `has_stored_password` forced to false.
use crate::error::AppError;
use crate::state::models::{
    clone_configs, clone_groups, configs_view, ForwardConfig, ForwardConfigView, TunnelGroup,
};
use crate::text::{push_decimal, str_eq};
use vstd::prelude::*;

verus! {

/// Current backup format version.
pub const BACKUP_VERSION: u32 = 2;

/// How an import combines with the existing configuration.
#[derive(Debug, Clone, Copy, PartialEq, Eq, Structural)]
pub enum ImportMode {
    /// Clear existing forwards and groups, take the backup's.
    Replace,
    /// Append entries not already present; skip duplicates.
    Merge,
}

/// Outcome of an import: forwards added, forwards skipped as duplicates
/// (merge only), and whether everything was replaced.
#[derive(Debug, Clone, Copy, PartialEq, Eq, Structural)]
pub struct ImportResult {
    pub imported: usize,
    pub skipped: usize,
    pub replaced: bool,
}

/// The backup document.
#[derive(Debug, Clone)]
pub struct BackupFile {
    pub version: u32,
    pub exported_at: Option<String>,
    pub forwards: Vec<ForwardConfig>,
    /// Version 1 backups have no groups: empty.
    pub groups: Vec<TunnelGroup>,
}

/// The identity of a forward for merge dedupe: name, SSH host and port,
/// local port, remote host and port.
pub open spec fn natural_key_of(f: ForwardConfigView) -> (
    Seq<char>,
    Seq<char>,
    u16,
    u16,
    Seq<char>,
    u16,
) {
    (f.name, f.ssh_host, f.ssh_port, f.local_port, f.remote_host, f.remote_port)
}

/// The natural dedupe key of a forward on a merge.
pub fn natural_key(f: &ForwardConfig) -> (r: (String, String, u16, u16, String, u16))
    ensures
        (r.0@, r.1@, r.2, r.3, r.4@, r.5) == natural_key_of(f@),
{
    (f.name.clone(), f.ssh_host.clone(), f.ssh_port, f.local_port, f.remote_host.clone(), f.remote_port)
}

/// Whether `e` makes `f` a duplicate: same id or same natural key.
pub open spec fn duplicates(e: ForwardConfigView, f: ForwardConfigView) -> bool {
    e.id == f.id || natural_key_of(e) == natural_key_of(f)
}

/// Whether some forward of `acc` makes `f` a duplicate.
pub open spec fn has_duplicate(acc: Seq<ForwardConfigView>, f: ForwardConfigView) -> bool {
    exists|k: int| 0 <= k < acc.len() && duplicates(#[trigger] acc[k], f)
}

/// The forwards after merging the first `n` incoming ones into `current`:
/// each incoming forward is appended unless a duplicate is already there.
pub open spec fn merged_forwards(
    current: Seq<ForwardConfigView>,
    incoming: Seq<ForwardConfigView>,
    n: nat,
) -> Seq<ForwardConfigView>
    decreases n,
{
    if n == 0 {
        current
    } else {
        let acc = merged_forwards(current, incoming, (n - 1) as nat);
        let f = incoming[n - 1];
        if has_duplicate(acc, f) {
            acc
        } else {
            acc.push(f)
        }
    }
}

/// How many of the first `n` incoming forwards a merge skips.
pub open spec fn merge_skipped(
    current: Seq<ForwardConfigView>,
    incoming: Seq<ForwardConfigView>,
    n: nat,
) -> nat
    decreases n,
{
    if n == 0 {
        0
    } else {
        let acc = merged_forwards(current, incoming, (n - 1) as nat);
        merge_skipped(current, incoming, (n - 1) as nat) + if has_duplicate(acc, incoming[n - 1]) {
            1nat
        } else {
            0nat
        }
    }
}

/// Whether some group of `acc` has the id of `g`.
pub open spec fn has_group_id(acc: Seq<TunnelGroup>, g: TunnelGroup) -> bool {
    exists|k: int| 0 <= k < acc.len() && (#[trigger] acc[k]).id@ == g.id@
}

/// The groups after merging the first `n` incoming groups: each is appended
/// unless its id is already there.
pub open spec fn merged_groups(current: Seq<TunnelGroup>, incoming: Seq<TunnelGroup>, n: nat) -> Seq<
    TunnelGroup,
>
    decreases n,
{
    if n == 0 {
        current
    } else {
        let acc = merged_groups(current, incoming, (n - 1) as nat);
        let g = incoming[n - 1];
        if has_group_id(acc, g) {
            acc
        } else {
            acc.push(g)
        }
    }
}

/// Whether `f` has a duplicate in `existing`.
fn is_duplicate(existing: &Vec<ForwardConfig>, f: &ForwardConfig) -> (r: bool)
    ensures
        r == has_duplicate(configs_view(existing@), f@),
{
    let ghost acc = configs_view(existing@);
    let mut k: usize = 0;
    while k < existing.len()
        invariant
            k <= existing.len(),
            acc == configs_view(existing@),
            forall|j: int| 0 <= j < k ==> !duplicates(#[trigger] acc[j], f@),
        decreases existing.len() - k,
    {
        let e = &existing[k];
        let same_id = str_eq(e.id.as_str(), f.id.as_str());
        let same_key = str_eq(e.name.as_str(), f.name.as_str()) && str_eq(
            e.ssh_host.as_str(),
            f.ssh_host.as_str(),
        ) && e.ssh_port == f.ssh_port && e.local_port == f.local_port && str_eq(
            e.remote_host.as_str(),
            f.remote_host.as_str(),
        ) && e.remote_port == f.remote_port;
        assert(acc[k as int] == e@);
        if same_id || same_key {
            assert(duplicates(acc[k as int], f@));
            return true;
        }
        k = k + 1;
    }
    false
}

/// Whether a group with the id of `g` is in `existing`.
fn has_group(existing: &Vec<TunnelGroup>, g: &TunnelGroup) -> (r: bool)
    ensures
        r == has_group_id(existing@, *g),
{
    let mut k: usize = 0;
    while k < existing.len()
        invariant
            k <= existing.len(),
            forall|j: int| 0 <= j < k ==> (#[trigger] existing@[j]).id@ != g.id@,
        decreases existing.len() - k,
    {
        if str_eq(existing[k].id.as_str(), g.id.as_str()) {
            assert(existing@[k as int].id@ == g.id@);
            return true;
        }
        k = k + 1;
    }
    false
}

/// Compute the post-import forwards, groups and result from the current
/// state, the backup and the mode.
///
/// Replace: the result IS the backup; every backup forward counts as
/// imported. Merge: keep the current entries in order and append each backup
/// forward with no duplicate (same id or natural key) among what is already
/// there, counting the others as skipped; append each backup group whose id
/// is new.
pub fn plan_import(
    current_forwards: &[ForwardConfig],
    current_groups: &[TunnelGroup],
    backup: BackupFile,
    mode: ImportMode,
) -> (r: (Vec<ForwardConfig>, Vec<TunnelGroup>, ImportResult))
    ensures
        mode == ImportMode::Replace ==> configs_view(r.0@) == configs_view(backup.forwards@)
            && r.1@ == backup.groups@ && r.2 == (ImportResult {
            imported: backup.forwards.len(),
            skipped: 0,
            replaced: true,
        }),
        mode == ImportMode::Merge ==> configs_view(r.0@) == merged_forwards(
            configs_view(current_forwards@),
            configs_view(backup.forwards@),
            backup.forwards.len() as nat,
        ) && r.1@ == merged_groups(
            current_groups@,
            backup.groups@,
            backup.groups.len() as nat,
        ) && r.2.skipped == merge_skipped(
            configs_view(current_forwards@),
            configs_view(backup.forwards@),
            backup.forwards.len() as nat,
        ) && r.2.imported + r.2.skipped == backup.forwards.len() && !r.2.replaced,
{
    match mode {
        ImportMode::Replace => {
            let imported = backup.forwards.len();
            let result = ImportResult { imported, skipped: 0, replaced: true };
            (backup.forwards, backup.groups, result)
        },
        ImportMode::Merge => {
            let ghost cur = configs_view(current_forwards@);
            let ghost inc = configs_view(backup.forwards@);
            let mut forwards = clone_configs(current_forwards);
            let mut imported: usize = 0;
            let mut skipped: usize = 0;
            let mut i: usize = 0;
            while i < backup.forwards.len()
                invariant
                    i <= backup.forwards.len(),
                    cur == configs_view(current_forwards@),
                    inc == configs_view(backup.forwards@),
                    configs_view(forwards@) == merged_forwards(cur, inc, i as nat),
                    skipped == merge_skipped(cur, inc, i as nat),
                    imported + skipped == i,
                decreases backup.forwards.len() - i,
            {
                let f = &backup.forwards[i];
                assert(inc[i as int] == f@);
                let dup = is_duplicate(&forwards, f);
                if dup {
                    skipped = skipped + 1;
                } else {
                    let ghost before = configs_view(forwards@);
                    forwards.push(f.clone_config());
                    proof {
                        assert(configs_view(forwards@) =~= before.push(f@));
                    }
                    imported = imported + 1;
                }
                i = i + 1;
            }
            let mut groups = clone_groups(current_groups);
            let mut j: usize = 0;
            while j < backup.groups.len()
                invariant
                    j <= backup.groups.len(),
                    groups@ == merged_groups(current_groups@, backup.groups@, j as nat),
                decreases backup.groups.len() - j,
            {
                let g = &backup.groups[j];
                if !has_group(&groups, g) {
                    groups.push(g.clone_group());
                }
                j = j + 1;
            }
            let result = ImportResult { imported, skipped, replaced: false };
            (forwards, groups, result)
        },
    }
}

/// A forward as a backup carries it: no stored password.
pub open spec fn without_password(f: ForwardConfigView) -> ForwardConfigView {
    ForwardConfigView { has_stored_password: false, ..f }
}

/// Copies of `forwards` with the stored-password flag cleared.
fn strip_passwords(forwards: &[ForwardConfig]) -> (r: Vec<ForwardConfig>)
    ensures
        r@.len() == forwards@.len(),
        forall|k: int|
            0 <= k < r@.len() ==> (#[trigger] r@[k])@ == without_password(forwards@[k]@),
{
    let mut out: Vec<ForwardConfig> = Vec::new();
    let mut i: usize = 0;
    while i < forwards.len()
        invariant
            i <= forwards.len(),
            out@.len() == i,
            forall|k: int| 0 <= k < i ==> (#[trigger] out@[k])@ == without_password(forwards@[k]@),
        decreases forwards.len() - i,
    {
        let mut f = forwards[i].clone_config();
        f.has_stored_password = false;
        out.push(f);
        i = i + 1;
    }
    out
}

impl BackupFile {
    /// Build an export from the current forwards and groups, stamped `now`.
    /// Every `has_stored_password` is forced false.
    pub fn export(forwards: &[ForwardConfig], groups: &[TunnelGroup], now: String) -> (r:
        BackupFile)
        ensures
            r.version == BACKUP_VERSION,
            crate::state::models::opt_view(r.exported_at) == Some(now@),
            r.forwards@.len() == forwards@.len(),
            forall|k: int|
                0 <= k < r.forwards@.len() ==> (#[trigger] r.forwards@[k])@ == without_password(
                    forwards@[k]@,
                ),
            r.groups@ == groups@,
    {
        BackupFile {
            version: BACKUP_VERSION,
            exported_at: Some(now),
            forwards: strip_passwords(forwards),
            groups: clone_groups(groups),
        }
    }
}

/// Validate a parsed backup: reject a version newer than this app supports,
/// and clear the stored-password flag on every forward (the recipient
/// re-enters passwords).
pub fn validate_backup(backup: BackupFile) -> (r: Result<BackupFile, AppError>)
    ensures
        backup.version > BACKUP_VERSION <==> r is Err,
        r is Err ==> r->Err_0 is Backup && r->Err_0->Backup_0@ == "backup version "@
            + crate::text::decimal(backup.version as nat)
            + " is newer than this app supports (max v2). Please update Tunnel Pilot."@,
        r is Ok ==> r->Ok_0.version == backup.version && crate::state::models::opt_view(
            r->Ok_0.exported_at,
        ) == crate::state::models::opt_view(backup.exported_at) && r->Ok_0.groups@
            == backup.groups@ && r->Ok_0.forwards@.len() == backup.forwards@.len() && (forall|
            k: int,
        |
            0 <= k < backup.forwards@.len() ==> (#[trigger] r->Ok_0.forwards@[k])@
                == without_password(backup.forwards@[k]@)),
{
    if backup.version > BACKUP_VERSION {
        return Err(
            AppError::Backup(
                push_decimal("backup version ".to_string(), backup.version as u64).concat(
                    " is newer than this app supports (max v2). Please update Tunnel Pilot.",
                ),
            ),
        );
    }
    let forwards = strip_passwords(&backup.forwards);
    Ok(BackupFile { version: backup.version, exported_at: backup.exported_at, forwards, groups: backup.groups })
}

/// Merging keeps the current forwards, in order, at the front.
pub proof fn law_merge_keeps_current(
    current: Seq<ForwardConfigView>,
    incoming: Seq<ForwardConfigView>,
    n: nat,
)
    requires
        n <= incoming.len(),
    ensures
        merged_forwards(current, incoming, n).len() >= current.len(),
        merged_forwards(current, incoming, n).subrange(0, current.len() as int) == current,
    decreases n,
{
    if n > 0 {
        law_merge_keeps_current(current, incoming, (n - 1) as nat);
        let acc = merged_forwards(current, incoming, (n - 1) as nat);
        assert(acc.push(incoming[n - 1]).subrange(0, current.len() as int) =~= acc.subrange(
            0,
            current.len() as int,
        ));
    }
}

/// Every backup forward is either imported or skipped: the merged list grows
/// by exactly the forwards not skipped.
pub proof fn law_merge_counts(
    current: Seq<ForwardConfigView>,
    incoming: Seq<ForwardConfigView>,
    n: nat,
)
    requires
        n <= incoming.len(),
    ensures
        merged_forwards(current, incoming, n).len() + merge_skipped(current, incoming, n)
            == current.len() + n,
    decreases n,
{
    if n > 0 {
        law_merge_counts(current, incoming, (n - 1) as nat);
    }
}

/// Once `f` has a duplicate in the merge so far, it keeps one.
proof fn lemma_duplicate_persists(
    current: Seq<ForwardConfigView>,
    incoming: Seq<ForwardConfigView>,
    m: nat,
    n: nat,
    f: ForwardConfigView,
)
    requires
        m <= n <= incoming.len(),
        has_duplicate(merged_forwards(current, incoming, m), f),
    ensures
        has_duplicate(merged_forwards(current, incoming, n), f),
    decreases n - m,
{
    if m < n {
        let acc = merged_forwards(current, incoming, m);
        let next = merged_forwards(current, incoming, m + 1);
        let k = choose|k: int| 0 <= k < acc.len() && duplicates(#[trigger] acc[k], f);
        if !has_duplicate(acc, incoming[m as int]) {
            assert(next[k] == acc[k]);
        }
        assert(duplicates(next[k], f));
        lemma_duplicate_persists(current, incoming, m + 1, n, f);
    }
}

/// After merging the first `n` backup forwards, each of them has a duplicate
/// in the result.
proof fn lemma_merged_covers(
    current: Seq<ForwardConfigView>,
    incoming: Seq<ForwardConfigView>,
    n: nat,
)
    requires
        n <= incoming.len(),
    ensures
        forall|i: int|
            0 <= i < n ==> has_duplicate(merged_forwards(current, incoming, n), #[trigger] incoming[i]),
    decreases n,
{
    if n > 0 {
        lemma_merged_covers(current, incoming, (n - 1) as nat);
        let acc = merged_forwards(current, incoming, (n - 1) as nat);
        let f = incoming[n - 1];
        if !has_duplicate(acc, f) {
            let res = acc.push(f);
            assert(duplicates(res[acc.len() as int], f));
        }
        assert forall|i: int| 0 <= i < n implies has_duplicate(
            merged_forwards(current, incoming, n),
            #[trigger] incoming[i],
        ) by {
            if i < n - 1 {
                lemma_duplicate_persists(current, incoming, (n - 1) as nat, n, incoming[i]);
            }
        }
    }
}

/// Re-importing a backup in merge mode right after a merge of the same
/// backup adds nothing: every forward is skipped and the list is unchanged.
pub proof fn law_merge_reimport_adds_nothing(
    current: Seq<ForwardConfigView>,
    incoming: Seq<ForwardConfigView>,
)
    ensures
        merged_forwards(
            merged_forwards(current, incoming, incoming.len()),
            incoming,
            incoming.len(),
        ) == merged_forwards(current, incoming, incoming.len()),
        merge_skipped(
            merged_forwards(current, incoming, incoming.len()),
            incoming,
            incoming.len(),
        ) == incoming.len(),
{
    let once = merged_forwards(current, incoming, incoming.len());
    lemma_merged_covers(current, incoming, incoming.len());
    lemma_reimport_fixed(once, incoming, incoming.len());
}

/// Merging forwards that all already have a duplicate leaves the list as it
/// is and skips them all.
proof fn lemma_reimport_fixed(acc: Seq<ForwardConfigView>, incoming: Seq<ForwardConfigView>, n: nat)
    requires
        n <= incoming.len(),
        forall|i: int| 0 <= i < incoming.len() ==> has_duplicate(acc, #[trigger] incoming[i]),
    ensures
        merged_forwards(acc, incoming, n) == acc,
        merge_skipped(acc, incoming, n) == n,
    decreases n,
{
    if n > 0 {
        lemma_reimport_fixed(acc, incoming, (n - 1) as nat);
        assert(has_duplicate(acc, incoming[n - 1]));
    }
}

/// Whether the forwards of `s` have pairwise distinct ids.
pub open spec fn ids_distinct(s: Seq<ForwardConfigView>) -> bool {
    forall|i: int, j: int| 0 <= i < j < s.len() ==> #[trigger] s[i].id != #[trigger] s[j].id
}

/// Whether some forward of `s` has the id `id`.
pub open spec fn has_id_in(s: Seq<ForwardConfigView>, id: Seq<char>) -> bool {
    exists|k: int| 0 <= k < s.len() && (#[trigger] s[k]).id == id
}

/// A merge never creates two forwards with one id: when the current
/// forwards have distinct ids, so does the merged list, however many
/// backup forwards are merged (even a backup that repeats an id).
pub proof fn law_merge_keeps_ids_distinct(
    current: Seq<ForwardConfigView>,
    incoming: Seq<ForwardConfigView>,
    n: nat,
)
    requires
        n <= incoming.len(),
        ids_distinct(current),
    ensures
        ids_distinct(merged_forwards(current, incoming, n)),
    decreases n,
{
    if n > 0 {
        law_merge_keeps_ids_distinct(current, incoming, (n - 1) as nat);
        let acc = merged_forwards(current, incoming, (n - 1) as nat);
        let f = incoming[n - 1];
        if !has_duplicate(acc, f) {
            let res = acc.push(f);
            assert forall|i: int, j: int| 0 <= i < j < res.len() implies #[trigger] res[i].id
                != #[trigger] res[j].id by {
                if j == acc.len() {
                    assert(!duplicates(acc[i], f));
                } else {
                    assert(res[i] == acc[i] && res[j] == acc[j]);
                }
            }
        }
    }
}

/// A backup forward whose id is already among the current forwards is
/// skipped by a merge: the list does not grow at that step and the skip
/// count rises by one, whatever else the forward holds (another name,
/// another port).
pub proof fn law_merge_skips_known_ids(
    current: Seq<ForwardConfigView>,
    incoming: Seq<ForwardConfigView>,
    i: nat,
)
    requires
        i < incoming.len(),
        has_id_in(current, incoming[i as int].id),
    ensures
        merged_forwards(current, incoming, i + 1) == merged_forwards(current, incoming, i),
        merge_skipped(current, incoming, i + 1) == merge_skipped(current, incoming, i) + 1,
{
    law_merge_keeps_current(current, incoming, i);
    let acc = merged_forwards(current, incoming, i);
    let f = incoming[i as int];
    let k = choose|k: int| 0 <= k < current.len() && (#[trigger] current[k]).id == f.id;
    assert(acc.subrange(0, current.len() as int)[k] == current[k]);
    assert(acc[k] == current[k]);
    assert(duplicates(acc[k], f));
    assert(has_duplicate(acc, f));
}

/// A backup forward that opens the same forward as a current one (same
/// name, SSH host and port, local port, remote host and port) is skipped by a
/// merge even under another id: the list does not grow at that step and the
/// skip count rises by one.
pub proof fn law_merge_skips_same_endpoint(
    current: Seq<ForwardConfigView>,
    incoming: Seq<ForwardConfigView>,
    i: nat,
    k: int,
)
    requires
        i < incoming.len(),
        0 <= k < current.len(),
        current[k].name == incoming[i as int].name,
        current[k].ssh_host == incoming[i as int].ssh_host,
        current[k].ssh_port == incoming[i as int].ssh_port,
        current[k].local_port == incoming[i as int].local_port,
        current[k].remote_host == incoming[i as int].remote_host,
        current[k].remote_port == incoming[i as int].remote_port,
    ensures
        merged_forwards(current, incoming, i + 1) == merged_forwards(current, incoming, i),
        merge_skipped(current, incoming, i + 1) == merge_skipped(current, incoming, i) + 1,
{
    law_merge_keeps_current(current, incoming, i);
    let acc = merged_forwards(current, incoming, i);
    let f = incoming[i as int];
    assert(acc.subrange(0, current.len() as int)[k] == current[k]);
    assert(acc[k] == current[k]);
    assert(duplicates(acc[k], f));
    assert(has_duplicate(acc, f));
}

} // verus!
