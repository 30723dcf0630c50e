//! Per-tunnel status bookkeeping: the guarded status writer, the retry flag,
//! start reservations and the shared-sampler slot.
//!
//! Status changes ONLY through [`TunnelRegistry::set_status`] and
//! [`TunnelRegistry::begin_terminal_error`], which enforce the transition table
//! ([`transition_allowed`]) and leave every illegal `(current, new)` pair
//! untouched.
use vstd::prelude::*;
use crate::state::models::ForwardStatus;
use crate::text::str_eq;

verus! {

/// The allowed status transitions.
pub open spec fn allowed(from: ForwardStatus, to: ForwardStatus) -> bool {
    match (from, to) {
        (ForwardStatus::Disconnected, ForwardStatus::Connecting) => true,
        (ForwardStatus::Connecting, ForwardStatus::Connected) => true,
        (ForwardStatus::Connecting, ForwardStatus::Error) => true,
        (ForwardStatus::Connecting, ForwardStatus::Disconnecting) => true,
        (ForwardStatus::Connected, ForwardStatus::Error) => true,
        (ForwardStatus::Connected, ForwardStatus::Disconnecting) => true,
        (ForwardStatus::Disconnecting, ForwardStatus::Disconnected) => true,
        (ForwardStatus::Error, ForwardStatus::Connecting) => true,
        (ForwardStatus::Error, ForwardStatus::Disconnecting) => true,
        _ => false,
    }
}

/// Whether `(from -> to)` is an allowed status transition. Any pair not in
/// the table is illegal: `disconnecting` only ever moves to `disconnected`,
/// and `connecting -> disconnecting` is allowed so a user disconnecting a
/// still-connecting tunnel is never stranded.
pub fn transition_allowed(from: ForwardStatus, to: ForwardStatus) -> (r: bool)
    ensures
        r == allowed(from, to),
{
    match (from, to) {
        (ForwardStatus::Disconnected, ForwardStatus::Connecting) => true,
        (ForwardStatus::Connecting, ForwardStatus::Connected) => true,
        (ForwardStatus::Connecting, ForwardStatus::Error) => true,
        (ForwardStatus::Connecting, ForwardStatus::Disconnecting) => true,
        (ForwardStatus::Connected, ForwardStatus::Error) => true,
        (ForwardStatus::Connected, ForwardStatus::Disconnecting) => true,
        (ForwardStatus::Disconnecting, ForwardStatus::Disconnected) => true,
        (ForwardStatus::Error, ForwardStatus::Connecting) => true,
        (ForwardStatus::Error, ForwardStatus::Disconnecting) => true,
        _ => false,
    }
}

/// Outcome of a guarded status write; the caller announces the change iff
/// `applied`.
#[derive(Debug, Clone, Copy)]
pub struct StatusOutcome {
    pub applied: bool,
    pub new: ForwardStatus,
}

/// Outcome of entering terminal `error` while check-and-clearing the retry
/// flag in the same step.
#[derive(Debug, Clone, Copy)]
pub struct TerminalErrorOutcome {
    pub applied: bool,
    pub retry_already_requested: bool,
}

/// The bookkeeping of one live tunnel.
#[derive(Debug)]
pub struct TunnelEntry {
    pub id: String,
    pub status: ForwardStatus,
    /// Last error surfaced (set on `error`, cleared on `connected`).
    pub last_error: Option<String>,
    /// Pending-retry source of truth.
    pub retry_requested: bool,
}

/// The mathematical content of a [`TunnelEntry`].
pub struct TunnelEntryView {
    pub id: Seq<char>,
    pub status: ForwardStatus,
    pub last_error: Option<Seq<char>>,
    pub retry_requested: bool,
}

impl View for TunnelEntry {
    type V = TunnelEntryView;

    open spec fn view(&self) -> TunnelEntryView {
        TunnelEntryView {
            id: self.id@,
            status: self.status,
            last_error: crate::state::models::opt_view(self.last_error),
            retry_requested: self.retry_requested,
        }
    }
}

impl TunnelEntry {
    /// A fresh entry for `id` in `status`, no error, no pending retry.
    pub fn new(id: String, status: ForwardStatus) -> (r: TunnelEntry)
        ensures
            r@ == (TunnelEntryView {
                id: id@,
                status,
                last_error: None,
                retry_requested: false,
            }),
    {
        TunnelEntry { id, status, last_error: None, retry_requested: false }
    }
}

/// The entry after a status write of `new` (with `err` as the error text):
/// the error is recorded on `error`, cleared on `connected`, kept otherwise.
pub open spec fn with_status(
    e: TunnelEntryView,
    new: ForwardStatus,
    err: Option<Seq<char>>,
) -> TunnelEntryView {
    TunnelEntryView {
        status: new,
        last_error: if new == ForwardStatus::Error {
            err
        } else if new == ForwardStatus::Connected {
            None
        } else {
            e.last_error
        },
        ..e
    }
}

/// The mathematical content of the registry.
#[verifier::ext_equal]
pub struct RegistryView {
    pub entries: Seq<TunnelEntryView>,
    pub starting: Seq<Seq<char>>,
    pub sampler_running: bool,
}

/// Whether a live entry carries `id`.
pub open spec fn has_id(es: Seq<TunnelEntryView>, id: Seq<char>) -> bool {
    exists|i: int| 0 <= i < es.len() && (#[trigger] es[i]).id == id
}

/// The position of the entry carrying `id` (meaningful when [`has_id`]).
pub open spec fn index_of(es: Seq<TunnelEntryView>, id: Seq<char>) -> int {
    choose|i: int| 0 <= i < es.len() && (#[trigger] es[i]).id == id
}

/// The status of `id`, if it is live.
pub open spec fn status_of(es: Seq<TunnelEntryView>, id: Seq<char>) -> Option<ForwardStatus> {
    if has_id(es, id) {
        Some(es[index_of(es, id)].status)
    } else {
        None
    }
}

/// No two entries share an id.
pub open spec fn distinct_ids(es: Seq<TunnelEntryView>) -> bool {
    forall|i: int, j: int|
        0 <= i < es.len() && 0 <= j < es.len() && i != j ==> (#[trigger] es[i]).id != (
        #[trigger] es[j]).id
}

/// The registry's ids, in insertion order.
pub open spec fn ids_of(es: Seq<TunnelEntryView>) -> Seq<Seq<char>> {
    es.map_values(|e: TunnelEntryView| e.id)
}

/// The per-tunnel bookkeeping map plus start reservations and the sampler
/// slot.
pub struct TunnelRegistry {
    entries: Vec<TunnelEntry>,
    starting: Vec<String>,
    sampler_running: bool,
}

impl View for TunnelRegistry {
    type V = RegistryView;

    closed spec fn view(&self) -> RegistryView {
        RegistryView {
            entries: self.entries@.map_values(|e: TunnelEntry| e@),
            starting: self.starting@.map_values(|s: String| s@),
            sampler_running: self.sampler_running,
        }
    }
}

/// Registry well-formedness: ids are unique, reservations are unique, and a
/// reserved id is never live at the same time.
pub open spec fn registry_wf(r: RegistryView) -> bool {
    &&& distinct_ids(r.entries)
    &&& r.starting.no_duplicates()
    &&& forall|k: int| 0 <= k < r.starting.len() ==> !has_id(r.entries, #[trigger] r.starting[k])
}

/// Whether a guarded write of `new` to `id` takes effect: `id` is live and
/// the move from its current status is in the table.
pub open spec fn write_applies(r: RegistryView, id: Seq<char>, new: ForwardStatus) -> bool {
    has_id(r.entries, id) && allowed(r.entries[index_of(r.entries, id)].status, new)
}

/// The registry after a guarded status write of `new` (error text `err`).
pub open spec fn after_status_write(
    r: RegistryView,
    id: Seq<char>,
    new: ForwardStatus,
    err: Option<Seq<char>>,
) -> RegistryView {
    if write_applies(r, id, new) {
        let i = index_of(r.entries, id);
        RegistryView { entries: r.entries.update(i, with_status(r.entries[i], new, err)), ..r }
    } else {
        r
    }
}

/// The registry after entering terminal `error` for `id`: the status write
/// (when allowed) and the retry flag cleared in the same step.
pub open spec fn after_terminal_error(
    r: RegistryView,
    id: Seq<char>,
    err: Option<Seq<char>>,
) -> RegistryView {
    if has_id(r.entries, id) {
        let i = index_of(r.entries, id);
        let e = r.entries[i];
        let after = if allowed(e.status, ForwardStatus::Error) {
            with_status(e, ForwardStatus::Error, err)
        } else {
            e
        };
        RegistryView {
            entries: r.entries.update(i, TunnelEntryView { retry_requested: false, ..after }),
            ..r
        }
    } else {
        r
    }
}

/// The registry with the retry flag of `id` set to `val` (unchanged when
/// `id` is not live).
pub open spec fn with_retry_flag(r: RegistryView, id: Seq<char>, val: bool) -> RegistryView {
    if has_id(r.entries, id) {
        let i = index_of(r.entries, id);
        RegistryView {
            entries: r.entries.update(i, TunnelEntryView { retry_requested: val, ..r.entries[i] }),
            ..r
        }
    } else {
        r
    }
}

/// The retry flag of `id` (false when not live).
pub open spec fn retry_flag(r: RegistryView, id: Seq<char>) -> bool {
    has_id(r.entries, id) && r.entries[index_of(r.entries, id)].retry_requested
}

/// `s` without the occurrences of `x`.
pub open spec fn without(s: Seq<Seq<char>>, x: Seq<char>) -> Seq<Seq<char>> {
    s.filter(differs_from(x))
}

/// The predicate "is not `x`".
pub open spec fn differs_from(x: Seq<char>) -> spec_fn(Seq<char>) -> bool {
    |y: Seq<char>| y != x
}

impl TunnelRegistry {
    /// An empty registry (no tunnels, no reservations, no sampler).
    pub fn new() -> (r: TunnelRegistry)
        ensures
            r@.entries.len() == 0,
            r@.starting.len() == 0,
            !r@.sampler_running,
            registry_wf(r@),
    {
        TunnelRegistry { entries: Vec::new(), starting: Vec::new(), sampler_running: false }
    }

    /// Position of `id` in the live entries, if any.
    fn find(&self, id: &str) -> (r: Option<usize>)
        requires
            registry_wf(self@),
        ensures
            r is None <==> !has_id(self@.entries, id@),
            r matches Some(i) ==> i < self@.entries.len() && i == index_of(self@.entries, id@)
                && self@.entries[i as int].id == id@,
    {
        let mut i: usize = 0;
        while i < self.entries.len()
            invariant
                i <= self.entries.len(),
                registry_wf(self@),
                forall|j: int| 0 <= j < i ==> (#[trigger] self@.entries[j]).id != id@,
            decreases self.entries.len() - i,
        {
            if str_eq(self.entries[i].id.as_str(), id) {
                proof {
                    assert(self@.entries[i as int].id == id@);
                    let k = index_of(self@.entries, id@);
                    assert(0 <= k < self@.entries.len() && self@.entries[k].id == id@);
                    if k != i {
                        assert(self@.entries[k].id != self@.entries[i as int].id);
                    }
                }
                return Some(i);
            }
            i = i + 1;
        }
        proof {
            if has_id(self@.entries, id@) {
                let k = choose|k: int|
                    0 <= k < self@.entries.len() && (#[trigger] self@.entries[k]).id == id@;
                assert(self@.entries[k].id != id@);
            }
        }
        None
    }

    /// Position of `id` in the start reservations, if any.
    fn find_starting(&self, id: &str) -> (r: Option<usize>)
        ensures
            r is None <==> !self@.starting.contains(id@),
            r matches Some(i) ==> i < self@.starting.len() && self@.starting[i as int] == id@,
    {
        let mut i: usize = 0;
        while i < self.starting.len()
            invariant
                i <= self.starting.len(),
                forall|j: int| 0 <= j < i ==> (#[trigger] self@.starting[j]) != id@,
            decreases self.starting.len() - i,
        {
            if str_eq(self.starting[i].as_str(), id) {
                proof {
                    assert(self@.starting[i as int] == id@);
                }
                return Some(i);
            }
            i = i + 1;
        }
        None
    }

    /// Whether `id` is live.
    pub fn contains(&self, id: &str) -> (r: bool)
        requires
            registry_wf(self@),
        ensures
            r == has_id(self@.entries, id@),
    {
        self.find(id).is_some()
    }

    /// The live status of `id`, if it is live.
    pub fn current_status(&self, id: &str) -> (r: Option<ForwardStatus>)
        requires
            registry_wf(self@),
        ensures
            r == status_of(self@.entries, id@),
    {
        match self.find(id) {
            Some(i) => Some(self.entries[i].status),
            None => None,
        }
    }

    /// The last error recorded for `id`, if it is live and has one.
    pub fn last_error(&self, id: &str) -> (r: Option<String>)
        requires
            registry_wf(self@),
        ensures
            has_id(self@.entries, id@) ==> crate::state::models::opt_view(r) == self@.entries[index_of(
                self@.entries,
                id@,
            )].last_error,
            !has_id(self@.entries, id@) ==> r is None,
    {
        match self.find(id) {
            Some(i) => crate::state::models::clone_opt_string(&self.entries[i].last_error),
            None => None,
        }
    }

    /// Atomically reserve `id` for a starting supervisor. True iff `id` is
    /// neither live nor already reserved; then it becomes reserved.
    pub fn try_begin_start(&mut self, id: &str) -> (r: bool)
        requires
            registry_wf(old(self)@),
        ensures
            registry_wf(final(self)@),
            r == (!has_id(old(self)@.entries, id@) && !old(self)@.starting.contains(id@)),
            r ==> final(self)@.starting == old(self)@.starting.push(id@),
            !r ==> final(self)@.starting == old(self)@.starting,
            final(self)@.entries == old(self)@.entries,
            final(self)@.sampler_running == old(self)@.sampler_running,
    {
        if self.find(id).is_some() {
            return false;
        }
        if self.find_starting(id).is_some() {
            return false;
        }
        self.starting.push(id.to_string());
        proof {
            let s = self@.starting;
            assert(s =~= old(self)@.starting.push(id@));
            assert forall|k: int| 0 <= k < s.len() implies !has_id(self@.entries, #[trigger] s[k]) by {
                if k < s.len() - 1 {
                    assert(s[k] == old(self)@.starting[k]);
                }
            }
            assert(s.no_duplicates()) by {
                assert forall|a: int, b: int| 0 <= a < s.len() && 0 <= b < s.len() && a != b implies s[a] != s[b] by {
                    if a == s.len() - 1 {
                        assert(s[b] == old(self)@.starting[b]);
                    } else if b == s.len() - 1 {
                        assert(s[a] == old(self)@.starting[a]);
                    }
                }
            }
        }
        true
    }

    /// Clear a start reservation without inserting an entry.
    pub fn finish_start(&mut self, id: &str)
        requires
            registry_wf(old(self)@),
        ensures
            registry_wf(final(self)@),
            !final(self)@.starting.contains(id@),
            final(self)@.starting == without(old(self)@.starting, id@),
            final(self)@.entries == old(self)@.entries,
            final(self)@.sampler_running == old(self)@.sampler_running,
    {
        self.remove_reservation(id);
    }

    fn remove_reservation(&mut self, id: &str)
        requires
            registry_wf(old(self)@),
        ensures
            !final(self)@.starting.contains(id@),
            final(self)@.starting == without(old(self)@.starting, id@),
            final(self)@.entries == old(self)@.entries,
            final(self)@.sampler_running == old(self)@.sampler_running,
            final(self)@.starting.no_duplicates(),
            forall|k: int| 0 <= k < final(self)@.starting.len() ==> old(self)@.starting.contains(
                #[trigger] final(self)@.starting[k]),
    {
        let ghost s0 = old(self)@.starting;
        match self.find_starting(id) {
            None => {
                proof {
                    assert(without(s0, id@) =~= s0) by {
                        assert forall|k: int| 0 <= k < s0.len() implies differs_from(id@)(#[trigger] s0[k]) by {
                            assert(s0.contains(s0[k]));
                        }
                        lemma_filter_all_true(s0, differs_from(id@));
                    }
                }
            },
            Some(i) => {
                self.starting.remove(i);
                proof {
                    let s1 = self@.starting;
                    assert(s1 =~= s0.remove(i as int));
                    lemma_remove_unique(s0, i as int, id@);
                    assert forall|k: int| 0 <= k < s1.len() implies s0.contains(#[trigger] s1[k]) by {
                        if k < i {
                            assert(s1[k] == s0[k]);
                        } else {
                            assert(s1[k] == s0[k + 1]);
                        }
                    }
                }
            },
        }
    }

    /// Insert (or replace) the live entry for its id and clear any start
    /// reservation of that id.
    pub fn insert(&mut self, entry: TunnelEntry)
        requires
            registry_wf(old(self)@),
        ensures
            registry_wf(final(self)@),
            has_id(old(self)@.entries, entry@.id) ==> final(self)@.entries == old(
                self,
            )@.entries.update(index_of(old(self)@.entries, entry@.id), entry@),
            !has_id(old(self)@.entries, entry@.id) ==> final(self)@.entries == old(
                self,
            )@.entries.push(entry@),
            final(self)@.starting == without(old(self)@.starting, entry@.id),
            final(self)@.sampler_running == old(self)@.sampler_running,
    {
        let ghost ev = entry@;
        let ghost e0 = self@.entries;
        let id = entry.id.clone();
        self.remove_reservation(id.as_str());
        let ghost s1 = self@.starting;
        match self.find(id.as_str()) {
            Some(i) => {
                self.entries.set(i, entry);
                proof {
                    let e1 = self@.entries;
                    assert(e1 =~= e0.update(i as int, ev));
                    assert(distinct_ids(e1)) by {
                        assert forall|a: int, b: int| 0 <= a < e1.len() && 0 <= b < e1.len() && a != b implies (#[trigger] e1[a]).id != (#[trigger] e1[b]).id by {
                            if a != i && b != i {
                                assert(e1[a] == e0[a] && e1[b] == e0[b]);
                            } else if a == i {
                                assert(e1[b] == e0[b]);
                                assert(e0[i as int].id == ev.id);
                            } else {
                                assert(e1[a] == e0[a]);
                                assert(e0[i as int].id == ev.id);
                            }
                        }
                    }
                    assert forall|k: int| 0 <= k < s1.len() implies !has_id(e1, #[trigger] s1[k]) by {
                        assert(old(self)@.starting.contains(s1[k]));
                        let k0 = choose|k0: int| 0 <= k0 < old(self)@.starting.len() && old(self)@.starting[k0] == s1[k];
                        assert(!has_id(e0, old(self)@.starting[k0]));
                        if has_id(e1, s1[k]) {
                            let j = choose|j: int| 0 <= j < e1.len() && (#[trigger] e1[j]).id == s1[k];
                            if j == i {
                                assert(s1[k] == ev.id);
                                assert(!s1.contains(ev.id));
                            } else {
                                assert(e0[j] == e1[j]);
                            }
                        }
                    }
                }
            },
            None => {
                self.entries.push(entry);
                proof {
                    let e1 = self@.entries;
                    assert(e1 =~= e0.push(ev));
                    assert(distinct_ids(e1)) by {
                        assert forall|a: int, b: int| 0 <= a < e1.len() && 0 <= b < e1.len() && a != b implies (#[trigger] e1[a]).id != (#[trigger] e1[b]).id by {
                            if a < e0.len() && b < e0.len() {
                                assert(e1[a] == e0[a] && e1[b] == e0[b]);
                            } else if a == e0.len() {
                                assert(e1[b] == e0[b]);
                            } else {
                                assert(e1[a] == e0[a]);
                            }
                        }
                    }
                    assert forall|k: int| 0 <= k < s1.len() implies !has_id(e1, #[trigger] s1[k]) by {
                        assert(old(self)@.starting.contains(s1[k]));
                        let k0 = choose|k0: int| 0 <= k0 < old(self)@.starting.len() && old(self)@.starting[k0] == s1[k];
                        assert(!has_id(e0, old(self)@.starting[k0]));
                        if has_id(e1, s1[k]) {
                            let j = choose|j: int| 0 <= j < e1.len() && (#[trigger] e1[j]).id == s1[k];
                            if j == e0.len() {
                                assert(s1[k] == ev.id);
                                assert(!s1.contains(ev.id));
                            } else {
                                assert(e0[j] == e1[j]);
                            }
                        }
                    }
                }
            },
        }
    }

    /// Remove and return the live entry of `id`.
    pub fn remove(&mut self, id: &str) -> (r: Option<TunnelEntry>)
        requires
            registry_wf(old(self)@),
        ensures
            registry_wf(final(self)@),
            has_id(old(self)@.entries, id@) ==> (r matches Some(e) && e@ == old(
                self,
            )@.entries[index_of(old(self)@.entries, id@)] && final(self)@.entries == old(
                self,
            )@.entries.remove(index_of(old(self)@.entries, id@))),
            !has_id(old(self)@.entries, id@) ==> r is None && final(self)@.entries == old(
                self,
            )@.entries,
            !has_id(final(self)@.entries, id@),
            final(self)@.starting == old(self)@.starting,
            final(self)@.sampler_running == old(self)@.sampler_running,
    {
        let ghost e0 = self@.entries;
        match self.find(id) {
            None => None,
            Some(i) => {
                let e = self.entries.remove(i);
                proof {
                    let e1 = self@.entries;
                    assert(e1 =~= e0.remove(i as int));
                    assert(forall|k: int| 0 <= k < e1.len() ==> (#[trigger] e1[k]) == (if k < i { e0[k] } else { e0[k + 1] }));
                    assert(distinct_ids(e1)) by {
                        assert forall|a: int, b: int| 0 <= a < e1.len() && 0 <= b < e1.len() && a != b implies (#[trigger] e1[a]).id != (#[trigger] e1[b]).id by {
                            let a0 = if a < i { a } else { a + 1 };
                            let b0 = if b < i { b } else { b + 1 };
                            assert(e1[a] == e0[a0] && e1[b] == e0[b0]);
                        }
                    }
                    if has_id(e1, id@) {
                        let j = choose|j: int| 0 <= j < e1.len() && (#[trigger] e1[j]).id == id@;
                        let j0 = if j < i { j } else { j + 1 };
                        assert(e1[j] == e0[j0]);
                    }
                    assert forall|k: int| 0 <= k < self@.starting.len() implies !has_id(e1, #[trigger] self@.starting[k]) by {
                        let x = self@.starting[k];
                        assert(!has_id(e0, x));
                        if has_id(e1, x) {
                            let j = choose|j: int| 0 <= j < e1.len() && (#[trigger] e1[j]).id == x;
                            let j0 = if j < i { j } else { j + 1 };
                            assert(e1[j] == e0[j0]);
                        }
                    }
                }
                Some(e)
            },
        }
    }

    /// The single guarded status writer. Applies ONLY transitions in
    /// [`transition_allowed`]; every other `(current, new)` pair is a no-op.
    /// Records `last_error` on `error` and clears it on `connected`.
    pub fn set_status(&mut self, id: &str, new: ForwardStatus, last_error: Option<String>) -> (r:
        StatusOutcome)
        requires
            registry_wf(old(self)@),
        ensures
            registry_wf(final(self)@),
            final(self)@ == after_status_write(
                old(self)@,
                id@,
                new,
                crate::state::models::opt_view(last_error),
            ),
            r.applied == write_applies(old(self)@, id@, new),
            final(self)@.starting == old(self)@.starting,
            final(self)@.sampler_running == old(self)@.sampler_running,
            !has_id(old(self)@.entries, id@) ==> !r.applied && r.new == new && final(self)@.entries
                == old(self)@.entries,
            has_id(old(self)@.entries, id@) ==> ({
                let i = index_of(old(self)@.entries, id@);
                let cur = old(self)@.entries[i].status;
                &&& r.applied == allowed(cur, new)
                &&& r.applied ==> r.new == new && final(self)@.entries == old(
                    self,
                )@.entries.update(
                    i,
                    with_status(
                        old(self)@.entries[i],
                        new,
                        crate::state::models::opt_view(last_error),
                    ),
                )
                &&& !r.applied ==> r.new == cur && final(self)@.entries == old(self)@.entries
            }),
    {
        let ghost e0 = self@.entries;
        match self.find(id) {
            None => StatusOutcome { applied: false, new },
            Some(i) => {
                let current = self.entries[i].status;
                if !transition_allowed(current, new) {
                    return StatusOutcome { applied: false, new: current };
                }
                let old_err = crate::state::models::clone_opt_string(&self.entries[i].last_error);
                let err = match new {
                    ForwardStatus::Error => last_error,
                    ForwardStatus::Connected => None,
                    _ => old_err,
                };
                let entry = TunnelEntry {
                    id: self.entries[i].id.clone(),
                    status: new,
                    last_error: err,
                    retry_requested: self.entries[i].retry_requested,
                };
                self.entries.set(i, entry);
                proof {
                    let e1 = self@.entries;
                    assert(e1 =~= e0.update(
                        i as int,
                        with_status(e0[i as int], new, crate::state::models::opt_view(last_error)),
                    ));
                    lemma_update_same_id_keeps_wf(old(self)@, i as int, e1[i as int]);
                }
                StatusOutcome { applied: true, new }
            },
        }
    }

    /// Enter terminal `error` (when the transition is allowed) AND
    /// check-and-clear the retry flag in the same step.
    pub fn begin_terminal_error(&mut self, id: &str, last_error: Option<String>) -> (r:
        TerminalErrorOutcome)
        requires
            registry_wf(old(self)@),
        ensures
            registry_wf(final(self)@),
            final(self)@ == after_terminal_error(
                old(self)@,
                id@,
                crate::state::models::opt_view(last_error),
            ),
            r.applied == write_applies(old(self)@, id@, ForwardStatus::Error),
            r.retry_already_requested == retry_flag(old(self)@, id@),
            final(self)@.starting == old(self)@.starting,
            final(self)@.sampler_running == old(self)@.sampler_running,
            !has_id(old(self)@.entries, id@) ==> !r.applied && !r.retry_already_requested
                && final(self)@.entries == old(self)@.entries,
            has_id(old(self)@.entries, id@) ==> ({
                let i = index_of(old(self)@.entries, id@);
                let e = old(self)@.entries[i];
                let after = if allowed(e.status, ForwardStatus::Error) {
                    with_status(
                        e,
                        ForwardStatus::Error,
                        crate::state::models::opt_view(last_error),
                    )
                } else {
                    e
                };
                &&& r.applied == allowed(e.status, ForwardStatus::Error)
                &&& r.retry_already_requested == e.retry_requested
                &&& final(self)@.entries == old(self)@.entries.update(
                    i,
                    TunnelEntryView { retry_requested: false, ..after },
                )
            }),
    {
        let ghost e0 = self@.entries;
        match self.find(id) {
            None => TerminalErrorOutcome { applied: false, retry_already_requested: false },
            Some(i) => {
                let current = self.entries[i].status;
                let applied = transition_allowed(current, ForwardStatus::Error);
                let retry = self.entries[i].retry_requested;
                let err = if applied {
                    last_error
                } else {
                    crate::state::models::clone_opt_string(&self.entries[i].last_error)
                };
                let status = if applied {
                    ForwardStatus::Error
                } else {
                    current
                };
                let entry = TunnelEntry {
                    id: self.entries[i].id.clone(),
                    status,
                    last_error: err,
                    retry_requested: false,
                };
                self.entries.set(i, entry);
                proof {
                    let e1 = self@.entries;
                    assert(e1 =~= e0.update(i as int, e1[i as int]));
                    lemma_update_same_id_keeps_wf(old(self)@, i as int, e1[i as int]);
                }
                TerminalErrorOutcome { applied, retry_already_requested: retry }
            },
        }
    }

    /// Accept a retry ONLY when `id` is parked in `error`: sets the retry flag
    /// and returns true; otherwise a no-op returning false.
    pub fn request_retry(&mut self, id: &str) -> (r: bool)
        requires
            registry_wf(old(self)@),
        ensures
            registry_wf(final(self)@),
            final(self)@.starting == old(self)@.starting,
            final(self)@.sampler_running == old(self)@.sampler_running,
            r == (status_of(old(self)@.entries, id@) == Some(ForwardStatus::Error)),
            r ==> final(self)@ == with_retry_flag(old(self)@, id@, true),
            !r ==> final(self)@ == old(self)@,
            r ==> final(self)@.entries == old(self)@.entries.update(
                index_of(old(self)@.entries, id@),
                TunnelEntryView {
                    retry_requested: true,
                    ..old(self)@.entries[index_of(old(self)@.entries, id@)]
                },
            ),
            !r ==> final(self)@.entries == old(self)@.entries,
    {
        match self.find(id) {
            None => false,
            Some(i) => {
                if self.entries[i].status != ForwardStatus::Error {
                    return false;
                }
                self.set_retry_at(i, true);
                true
            },
        }
    }

    fn set_retry_at(&mut self, i: usize, val: bool)
        requires
            registry_wf(old(self)@),
            i < old(self)@.entries.len(),
        ensures
            registry_wf(final(self)@),
            final(self)@.starting == old(self)@.starting,
            final(self)@.sampler_running == old(self)@.sampler_running,
            final(self)@.entries == old(self)@.entries.update(
                i as int,
                TunnelEntryView { retry_requested: val, ..old(self)@.entries[i as int] },
            ),
    {
        let ghost e0 = self@.entries;
        let entry = TunnelEntry {
            id: self.entries[i].id.clone(),
            status: self.entries[i].status,
            last_error: crate::state::models::clone_opt_string(&self.entries[i].last_error),
            retry_requested: val,
        };
        self.entries.set(i, entry);
        proof {
            let e1 = self@.entries;
            assert(e1 =~= e0.update(
                i as int,
                TunnelEntryView { retry_requested: val, ..e0[i as int] },
            ));
            lemma_update_same_id_keeps_wf(old(self)@, i as int, e1[i as int]);
        }
    }

    /// Set the retry flag of `id` (no-op when not live).
    pub fn set_retry_requested(&mut self, id: &str, val: bool)
        requires
            registry_wf(old(self)@),
        ensures
            registry_wf(final(self)@),
            final(self)@ == with_retry_flag(old(self)@, id@, val),
            final(self)@.starting == old(self)@.starting,
            final(self)@.sampler_running == old(self)@.sampler_running,
            has_id(old(self)@.entries, id@) ==> final(self)@.entries == old(self)@.entries.update(
                index_of(old(self)@.entries, id@),
                TunnelEntryView {
                    retry_requested: val,
                    ..old(self)@.entries[index_of(old(self)@.entries, id@)]
                },
            ),
            !has_id(old(self)@.entries, id@) ==> final(self)@.entries == old(self)@.entries,
    {
        if let Some(i) = self.find(id) {
            self.set_retry_at(i, val);
        }
    }

    /// Check-and-clear the retry flag of `id` in one step: returns the flag
    /// and leaves it cleared.
    pub fn take_retry_requested(&mut self, id: &str) -> (r: bool)
        requires
            registry_wf(old(self)@),
        ensures
            registry_wf(final(self)@),
            r == retry_flag(old(self)@, id@),
            final(self)@ == with_retry_flag(old(self)@, id@, false),
            final(self)@.starting == old(self)@.starting,
            final(self)@.sampler_running == old(self)@.sampler_running,
            has_id(old(self)@.entries, id@) ==> r == old(self)@.entries[index_of(
                old(self)@.entries,
                id@,
            )].retry_requested && final(self)@.entries == old(self)@.entries.update(
                index_of(old(self)@.entries, id@),
                TunnelEntryView {
                    retry_requested: false,
                    ..old(self)@.entries[index_of(old(self)@.entries, id@)]
                },
            ),
            !has_id(old(self)@.entries, id@) ==> !r && final(self)@.entries == old(self)@.entries,
    {
        match self.find(id) {
            None => false,
            Some(i) => {
                let flag = self.entries[i].retry_requested;
                self.set_retry_at(i, false);
                flag
            },
        }
    }

    /// All live ids, in insertion order.
    pub fn all_ids(&self) -> (r: Vec<String>)
        ensures
            r@.map_values(|s: String| s@) == ids_of(self@.entries),
    {
        let mut out: Vec<String> = Vec::new();
        let mut i: usize = 0;
        while i < self.entries.len()
            invariant
                i <= self.entries.len(),
                out@.len() == i,
                forall|j: int| 0 <= j < i ==> (#[trigger] out@[j])@ == self@.entries[j].id,
            decreases self.entries.len() - i,
        {
            out.push(self.entries[i].id.clone());
            i = i + 1;
        }
        proof {
            assert(out@.map_values(|s: String| s@) =~= ids_of(self@.entries));
        }
        out
    }

    /// Ids of the tunnels currently `connected`, in insertion order.
    pub fn connected_ids(&self) -> (r: Vec<String>)
        ensures
            r@.map_values(|s: String| s@) == ids_of(
                self@.entries.filter(|e: TunnelEntryView| e.status == ForwardStatus::Connected),
            ),
    {
        let ghost pred = |e: TunnelEntryView| e.status == ForwardStatus::Connected;
        let mut out: Vec<String> = Vec::new();
        let mut i: usize = 0;
        while i < self.entries.len()
            invariant
                i <= self.entries.len(),
                pred == (|e: TunnelEntryView| e.status == ForwardStatus::Connected),
                out@.map_values(|s: String| s@) == ids_of(
                    self@.entries.subrange(0, i as int).filter(pred),
                ),
            decreases self.entries.len() - i,
        {
            let ghost before = out@.map_values(|s: String| s@);
            let ghost s = self@.entries.subrange(0, i as int);
            let ghost e = self@.entries[i as int];
            proof {
                assert(self@.entries.subrange(0, i + 1) =~= s.push(e));
                s.lemma_filter_push(e, pred);
            }
            if self.entries[i].status == ForwardStatus::Connected {
                out.push(self.entries[i].id.clone());
                proof {
                    assert(out@.map_values(|s: String| s@) =~= before.push(e.id));
                    assert(ids_of(s.filter(pred).push(e)) =~= ids_of(s.filter(pred)).push(e.id));
                }
            }
            i = i + 1;
        }
        proof {
            assert(self@.entries.subrange(0, i as int) =~= self@.entries);
        }
        out
    }

    /// Claim the shared-sampler slot: true iff it was free (the caller must
    /// then start the sampler); the slot is claimed either way.
    pub fn try_start_sampler(&mut self) -> (r: bool)
        ensures
            r == !old(self)@.sampler_running,
            final(self)@.sampler_running,
            final(self)@.entries == old(self)@.entries,
            final(self)@.starting == old(self)@.starting,
    {
        let was = self.sampler_running;
        self.sampler_running = true;
        !was
    }

    /// Release the shared-sampler slot.
    pub fn stop_sampler(&mut self)
        ensures
            !final(self)@.sampler_running,
            final(self)@.entries == old(self)@.entries,
            final(self)@.starting == old(self)@.starting,
    {
        self.sampler_running = false;
    }

    /// Whether the shared sampler slot is claimed.
    pub fn is_sampler_running(&self) -> (r: bool)
        ensures
            r == self@.sampler_running,
    {
        self.sampler_running
    }
}

/// No status ever moves to itself: writing the current status is a no-op.
pub proof fn law_same_status_never_allowed(s: ForwardStatus)
    ensures
        !allowed(s, s),
{
}

/// A tunnel that is `disconnecting` can only become `disconnected`: a late
/// error, connect or connected signal never overrides a user disconnect.
pub proof fn law_disconnecting_only_to_disconnected(to: ForwardStatus)
    ensures
        allowed(ForwardStatus::Disconnecting, to) <==> to == ForwardStatus::Disconnected,
{
}

/// Every live status other than `disconnected` can move to `disconnecting`
/// in one step, so a disconnect is never stranded (a still-connecting tunnel
/// included).
pub proof fn law_disconnect_never_stranded(s: ForwardStatus)
    requires
        s != ForwardStatus::Disconnected,
        s != ForwardStatus::Disconnecting,
    ensures
        allowed(s, ForwardStatus::Disconnecting),
{
}

/// In a well-formed registry the entry found for `id` is the one at the
/// position that carries it.
pub proof fn lemma_index_of_unique(es: Seq<TunnelEntryView>, i: int, id: Seq<char>)
    requires
        distinct_ids(es),
        0 <= i < es.len(),
        es[i].id == id,
    ensures
        has_id(es, id),
        index_of(es, id) == i,
{
    assert(has_id(es, id));
    let j = index_of(es, id);
    assert(es[j].id == id);
}

/// Replacing entries by ones with the same ids keeps where each id is found.
proof fn lemma_same_ids_same_index(es: Seq<TunnelEntryView>, k: int, e: TunnelEntryView, id: Seq<char>)
    requires
        distinct_ids(es),
        0 <= k < es.len(),
        e.id == es[k].id,
    ensures
        has_id(es.update(k, e), id) == has_id(es, id),
        has_id(es, id) ==> index_of(es.update(k, e), id) == index_of(es, id),
{
    let u = es.update(k, e);
    assert(distinct_ids(u)) by {
        assert forall|a: int, b: int| 0 <= a < u.len() && 0 <= b < u.len() && a != b implies (#[trigger] u[a]).id != (#[trigger] u[b]).id by {
            assert(u[a].id == es[a].id && u[b].id == es[b].id);
        }
    }
    if has_id(es, id) {
        let i = index_of(es, id);
        assert(u[i].id == es[i].id);
        lemma_index_of_unique(u, i, id);
    }
    if has_id(u, id) {
        let j = choose|j: int| 0 <= j < u.len() && (#[trigger] u[j]).id == id;
        assert(u[j].id == es[j].id);
    }
}

/// A guarded status write to `id` leaves the status of every other tunnel
/// unchanged.
pub proof fn law_write_touches_only_its_tunnel(
    r: RegistryView,
    id: Seq<char>,
    other: Seq<char>,
    new: ForwardStatus,
    err: Option<Seq<char>>,
)
    requires
        registry_wf(r),
        other != id,
    ensures
        status_of(after_status_write(r, id, new, err).entries, other) == status_of(
            r.entries,
            other,
        ),
{
    if write_applies(r, id, new) {
        let i = index_of(r.entries, id);
        let e = with_status(r.entries[i], new, err);
        lemma_same_ids_same_index(r.entries, i, e, other);
        if has_id(r.entries, other) {
            assert(index_of(r.entries, other) != i);
        }
    }
}

/// A pending retry is consumed exactly once: after the check-and-clear no
/// retry is pending for that tunnel.
pub proof fn law_retry_consumed_once(r: RegistryView, id: Seq<char>)
    requires
        registry_wf(r),
    ensures
        !retry_flag(with_retry_flag(r, id, false), id),
{
    if has_id(r.entries, id) {
        let i = index_of(r.entries, id);
        let e = TunnelEntryView { retry_requested: false, ..r.entries[i] };
        lemma_same_ids_same_index(r.entries, i, e, id);
    }
}

/// Entering terminal `error` always leaves no retry pending for the tunnel:
/// a retry that raced the failure is reported to the caller instead.
pub proof fn law_terminal_error_clears_retry(r: RegistryView, id: Seq<char>, err: Option<Seq<char>>)
    requires
        registry_wf(r),
    ensures
        !retry_flag(after_terminal_error(r, id, err), id),
{
    if has_id(r.entries, id) {
        let i = index_of(r.entries, id);
        let e = r.entries[i];
        let after = if allowed(e.status, ForwardStatus::Error) {
            with_status(e, ForwardStatus::Error, err)
        } else {
            e
        };
        lemma_same_ids_same_index(r.entries, i, TunnelEntryView { retry_requested: false, ..after }, id);
    }
}

/// Replacing one entry by one with the same id keeps the registry
/// well-formed.
proof fn lemma_update_same_id_keeps_wf(r: RegistryView, i: int, e: TunnelEntryView)
    requires
        registry_wf(r),
        0 <= i < r.entries.len(),
        e.id == r.entries[i].id,
    ensures
        registry_wf(RegistryView { entries: r.entries.update(i, e), ..r }),
{
    let e0 = r.entries;
    let e1 = e0.update(i, e);
    assert forall|a: int, b: int| 0 <= a < e1.len() && 0 <= b < e1.len() && a != b implies (#[trigger] e1[a]).id != (#[trigger] e1[b]).id by {
        assert(e1[a].id == e0[a].id && e1[b].id == e0[b].id);
    }
    assert forall|k: int| 0 <= k < r.starting.len() implies !has_id(e1, #[trigger] r.starting[k]) by {
        let x = r.starting[k];
        assert(!has_id(e0, x));
        if has_id(e1, x) {
            let j = choose|j: int| 0 <= j < e1.len() && (#[trigger] e1[j]).id == x;
            assert(e1[j].id == e0[j].id);
        }
    }
}

/// Filtering with a predicate true on every element keeps the sequence.
proof fn lemma_filter_all_true(s: Seq<Seq<char>>, p: spec_fn(Seq<char>) -> bool)
    requires
        forall|k: int| 0 <= k < s.len() ==> p(#[trigger] s[k]),
    ensures
        s.filter(p) == s,
    decreases s.len(),
{
    reveal(Seq::filter);
    if s.len() > 0 {
        lemma_filter_all_true(s.drop_last(), p);
        assert(s.drop_last().push(s.last()) =~= s);
    } else {
        assert(s.filter(p) =~= s);
    }
}

/// Removing the only occurrence of `x` from a duplicate-free sequence is
/// filtering `x` out.
proof fn lemma_remove_unique(s: Seq<Seq<char>>, i: int, x: Seq<char>)
    requires
        s.no_duplicates(),
        0 <= i < s.len(),
        s[i] == x,
    ensures
        s.remove(i) == without(s, x),
        !s.remove(i).contains(x),
        s.remove(i).no_duplicates(),
{
    let t = s.remove(i);
    assert forall|k: int| 0 <= k < t.len() implies (#[trigger] t[k]) != x by {
        if k < i {
            assert(t[k] == s[k]);
        } else {
            assert(t[k] == s[k + 1]);
        }
    }
    assert forall|a: int, b: int| 0 <= a < t.len() && 0 <= b < t.len() && a != b implies t[a] != t[b] by {
        let a0 = if a < i { a } else { a + 1 };
        let b0 = if b < i { b } else { b + 1 };
        assert(t[a] == s[a0] && t[b] == s[b0]);
    }
    assert forall|k: int| 0 <= k < s.len() && k != i implies (#[trigger] s[k]) != x by {
        assert(s[k] != s[i]);
    }
    lemma_filter_remove(s, i, x);
}

proof fn lemma_filter_remove(s: Seq<Seq<char>>, i: int, x: Seq<char>)
    requires
        0 <= i < s.len(),
        s[i] == x,
        forall|k: int| 0 <= k < s.len() && k != i ==> (#[trigger] s[k]) != x,
    ensures
        s.remove(i) == without(s, x),
    decreases s.len(),
{
    let p = differs_from(x);
    let init = s.drop_last();
    assert(init.push(s.last()) =~= s);
    init.lemma_filter_push(s.last(), p);
    if i == s.len() - 1 {
        assert(s.remove(i) =~= init);
        assert forall|k: int| 0 <= k < init.len() implies p(#[trigger] init[k]) by {
            assert(init[k] == s[k]);
        }
        lemma_filter_all_true(init, p);
    } else {
        assert forall|k: int| 0 <= k < init.len() && k != i implies (#[trigger] init[k]) != x by {
            assert(init[k] == s[k]);
        }
        lemma_filter_remove(init, i, x);
        assert(s.remove(i) =~= init.remove(i).push(s.last()));
    }
}

} // verus!
