//! Application state: the tunnel registry plus the in-memory mirrors of the
//! persisted config (forwards, groups, settings) and the credential store.
//!
//! Every mutation of a persisted section queues the full new snapshot of
//! that section; the single ordered writer drains the queue, coalesces it to
//! the newest snapshot per section ([`coalesce`]) and writes those.
pub mod log_buffer;
pub mod models;
pub mod tunnel_registry;

use vstd::prelude::*;
use crate::credentials::{
    after_forget, after_store, contents_known, lookup, CredentialStore, KeychainKind,
};
use crate::credentials::fallback::SecretsFile;
use crate::error::AppError;
use crate::state::log_buffer::LogBuffer;
use crate::state::models::{
    AppSettings, AppSnapshot, ForwardConfig, ForwardRuntime, LogEntry, UpdateStatus, ForwardConfigView, ForwardStatus, TunnelGroup, TunnelStats,
    clone_configs, clone_groups, config_position, configs_view, default_settings, find_config,
    lemma_find_config, opt_view,
};
use crate::state::tunnel_registry::{TunnelRegistry, registry_wf};
use crate::storage::config_file::ConfigDocument;

verus! {

/// Payload announcing a tunnel's status change.
#[derive(Debug, Clone)]
pub struct StatusPayload {
    pub id: String,
    pub status: ForwardStatus,
    pub last_error: Option<String>,
}

impl StatusPayload {
    /// The payload for `id` entering `status` (with its error text, if any).
    pub fn new(id: &str, status: ForwardStatus, last_error: Option<String>) -> (r: StatusPayload)
        ensures
            r.id@ == id@,
            r.status == status,
            r.last_error == last_error,
    {
        StatusPayload { id: id.to_string(), status, last_error }
    }
}

/// Payload carrying a tunnel's latest stats.
#[derive(Debug, Clone)]
pub struct StatsPayload {
    pub id: String,
    pub stats: TunnelStats,
}

impl StatsPayload {
    /// The payload for `id` with `stats`.
    pub fn new(id: &str, stats: TunnelStats) -> (r: StatsPayload)
        ensures
            r.id@ == id@,
            r.stats == stats,
    {
        StatsPayload { id: id.to_string(), stats }
    }
}

/// Read-only startup snapshot for the UI; `keychain_available == false`
/// drives the "passwords stored in plaintext" warning.
#[derive(Debug, Clone)]
pub struct HydrateSnapshot {
    pub forwards: Vec<ForwardConfig>,
    pub groups: Vec<TunnelGroup>,
    pub settings: AppSettings,
    pub keychain_available: bool,
}

/// A queued whole-section save: the full latest snapshot of one section.
#[derive(Debug)]
pub enum PersistMsg {
    Forwards(Vec<ForwardConfig>),
    Groups(Vec<TunnelGroup>),
    Settings(AppSettings),
}

/// The mathematical content of a [`PersistMsg`].
pub enum PersistView {
    Forwards(Seq<ForwardConfigView>),
    Groups(Seq<TunnelGroup>),
    Settings(AppSettings),
}

impl View for PersistMsg {
    type V = PersistView;

    open spec fn view(&self) -> PersistView {
        match self {
            PersistMsg::Forwards(v) => PersistView::Forwards(configs_view(v@)),
            PersistMsg::Groups(v) => PersistView::Groups(v@),
            PersistMsg::Settings(s) => PersistView::Settings(*s),
        }
    }
}

/// The views of a queue of saves.
pub open spec fn saves_view(s: Seq<PersistMsg>) -> Seq<PersistView> {
    s.map_values(|m: PersistMsg| m@)
}

/// The newest forwards snapshot in `s`, if any.
pub open spec fn latest_forwards(s: Seq<PersistView>) -> Option<Seq<ForwardConfigView>>
    decreases s.len(),
{
    if s.len() == 0 {
        None
    } else {
        match s.last() {
            PersistView::Forwards(f) => Some(f),
            _ => latest_forwards(s.drop_last()),
        }
    }
}

/// The newest groups snapshot in `s`, if any.
pub open spec fn latest_groups(s: Seq<PersistView>) -> Option<Seq<TunnelGroup>>
    decreases s.len(),
{
    if s.len() == 0 {
        None
    } else {
        match s.last() {
            PersistView::Groups(g) => Some(g),
            _ => latest_groups(s.drop_last()),
        }
    }
}

/// The newest settings snapshot in `s`, if any.
pub open spec fn latest_settings(s: Seq<PersistView>) -> Option<AppSettings>
    decreases s.len(),
{
    if s.len() == 0 {
        None
    } else {
        match s.last() {
            PersistView::Settings(v) => Some(v),
            _ => latest_settings(s.drop_last()),
        }
    }
}

/// What one writer wake-up writes: the newest snapshot of each section that
/// has one queued.
#[derive(Debug)]
pub struct CoalescedSaves {
    pub forwards: Option<Vec<ForwardConfig>>,
    pub groups: Option<Vec<TunnelGroup>>,
    pub settings: Option<AppSettings>,
}

/// The views of an optional forwards list.
pub open spec fn opt_configs_view(o: Option<Vec<ForwardConfig>>) -> Option<Seq<ForwardConfigView>> {
    match o {
        Some(v) => Some(configs_view(v@)),
        None => None,
    }
}

/// The views of an optional groups list.
pub open spec fn opt_groups_view(o: Option<Vec<TunnelGroup>>) -> Option<Seq<TunnelGroup>> {
    match o {
        Some(v) => Some(v@),
        None => None,
    }
}

/// Coalesce a burst of queued saves to the newest snapshot per section, so
/// the last enqueued value of each section is what lands on disk.
pub fn coalesce(saves: Vec<PersistMsg>) -> (r: CoalescedSaves)
    ensures
        opt_configs_view(r.forwards) == latest_forwards(saves_view(saves@)),
        opt_groups_view(r.groups) == latest_groups(saves_view(saves@)),
        r.settings == latest_settings(saves_view(saves@)),
{
    let ghost all = saves_view(saves@);
    let mut rest = saves;
    let mut forwards: Option<Vec<ForwardConfig>> = None;
    let mut groups: Option<Vec<TunnelGroup>> = None;
    let mut settings: Option<AppSettings> = None;
    let ghost mut k: int = 0;
    while rest.len() > 0
        invariant
            0 <= k <= all.len(),
            saves_view(rest@) == all.skip(k),
            opt_configs_view(forwards) == latest_forwards(all.take(k)),
            opt_groups_view(groups) == latest_groups(all.take(k)),
            settings == latest_settings(all.take(k)),
        decreases rest.len(),
    {
        let ghost before = rest@;
        let msg = rest.remove(0);
        proof {
            assert(saves_view(before) == all.skip(k));
            assert(saves_view(before).len() > 0);
            assert(k < all.len());
            assert(all.skip(k)[0] == all[k]);
            assert(saves_view(before)[0] == before[0]@);
            assert(all[k] == msg@);
            assert(all.take(k + 1).drop_last() =~= all.take(k));
            assert(all.take(k + 1).last() == all[k]);
            assert(rest@ =~= before.subrange(1, before.len() as int));
            assert forall|j: int| 0 <= j < rest@.len() implies saves_view(rest@)[j] == all.skip(
                k + 1,
            )[j] by {
                assert(rest@[j] == before[j + 1]);
                assert(saves_view(before)[j + 1] == all.skip(k)[j + 1]);
            }
            assert(saves_view(rest@) =~= all.skip(k + 1));
            k = k + 1;
        }
        match msg {
            PersistMsg::Forwards(v) => {
                forwards = Some(v);
            },
            PersistMsg::Groups(v) => {
                groups = Some(v);
            },
            PersistMsg::Settings(v) => {
                settings = Some(v);
            },
        }
    }
    proof {
        assert(all.skip(k).len() == 0);
        assert(all.take(k) =~= all);
    }
    CoalescedSaves { forwards, groups, settings }
}

/// Whatever was queued before, a save queued last is the one written for its
/// section.
pub proof fn law_last_save_wins(s: Seq<PersistView>, f: Seq<ForwardConfigView>, a: AppSettings)
    ensures
        latest_forwards(s.push(PersistView::Forwards(f))) == Some(f),
        latest_settings(s.push(PersistView::Settings(a))) == Some(a),
        latest_forwards(s.push(PersistView::Settings(a))) == latest_forwards(s),
        latest_settings(s.push(PersistView::Forwards(f))) == latest_settings(s),
{
    assert(s.push(PersistView::Forwards(f)).drop_last() =~= s);
    assert(s.push(PersistView::Settings(a)).drop_last() =~= s);
}

/// `cs` with `c` in place of the first configuration carrying its id, or
/// appended when none does (display position is kept on replace).
pub open spec fn upserted_config(cs: Seq<ForwardConfigView>, c: ForwardConfigView) -> Seq<
    ForwardConfigView,
> {
    match find_config(cs, c.id) {
        Some(i) => cs.update(i, c),
        None => cs.push(c),
    }
}

/// The predicate "does not carry `id`".
pub open spec fn config_id_differs(id: Seq<char>) -> spec_fn(ForwardConfigView) -> bool {
    |c: ForwardConfigView| c.id != id
}

/// The first group carrying `id`, if any.
pub open spec fn find_group(gs: Seq<TunnelGroup>, id: Seq<char>) -> Option<int>
    decreases gs.len(),
{
    if gs.len() == 0 {
        None
    } else if gs[0].id@ == id {
        Some(0)
    } else {
        match find_group(gs.drop_first(), id) {
            Some(k) => Some(k + 1),
            None => None,
        }
    }
}

/// `find_group` answers with the first position that holds `id`; `None`
/// means no position does.
pub proof fn lemma_find_group(gs: Seq<TunnelGroup>, id: Seq<char>)
    ensures
        find_group(gs, id) matches Some(k) ==> 0 <= k < gs.len() && gs[k].id@ == id && forall|
            j: int,
        | 0 <= j < k ==> (#[trigger] gs[j]).id@ != id,
        find_group(gs, id) is None ==> forall|j: int| 0 <= j < gs.len() ==> (#[trigger] gs[j]).id@
            != id,
    decreases gs.len(),
{
    if gs.len() > 0 {
        lemma_find_group(gs.drop_first(), id);
        assert forall|j: int| 1 <= j < gs.len() implies gs[j] == #[trigger] gs.drop_first()[j - 1] by {}
        if gs[0].id@ != id {
            if let Some(k) = find_group(gs.drop_first(), id) {
                assert forall|j: int| 0 <= j < k + 1 implies (#[trigger] gs[j]).id@ != id by {
                    if j > 0 {
                        assert(gs[j] == gs.drop_first()[j - 1]);
                    }
                }
            } else {
                assert forall|j: int| 0 <= j < gs.len() implies (#[trigger] gs[j]).id@ != id by {
                    if j > 0 {
                        assert(gs[j] == gs.drop_first()[j - 1]);
                    }
                }
            }
        }
    }
}

/// Position of the first group carrying `id`.
pub fn group_position(groups: &[TunnelGroup], id: &str) -> (r: Option<usize>)
    ensures
        r matches Some(k) ==> find_group(groups@, id@) == Some(k as int),
        r is None ==> find_group(groups@, id@) is None,
{
    proof {
        lemma_find_group(groups@, id@);
    }
    let mut i: usize = 0;
    while i < groups.len()
        invariant
            i <= groups.len(),
            forall|j: int| 0 <= j < i ==> (#[trigger] groups@[j]).id@ != id@,
            find_group(groups@, id@) matches Some(k) ==> 0 <= k < groups@.len() && groups@[k].id@
                == id@ && forall|j: int| 0 <= j < k ==> (#[trigger] groups@[j]).id@ != id@,
            find_group(groups@, id@) is None ==> forall|j: int|
                0 <= j < groups@.len() ==> (#[trigger] groups@[j]).id@ != id@,
        decreases groups.len() - i,
    {
        if crate::text::str_eq(groups[i].id.as_str(), id) {
            proof {
                if let Some(k) = find_group(groups@, id@) {
                    if k > i {
                        assert(groups@[i as int].id@ != id@);
                    }
                }
            }
            return Some(i);
        }
        i = i + 1;
    }
    proof {
        if let Some(k) = find_group(groups@, id@) {
            assert(groups@[k].id@ != id@);
        }
    }
    None
}

/// `gs` with `g` in place of the first group carrying its id, or appended.
pub open spec fn upserted_group(gs: Seq<TunnelGroup>, g: TunnelGroup) -> Seq<TunnelGroup> {
    match find_group(gs, g.id@) {
        Some(i) => gs.update(i, g),
        None => gs.push(g),
    }
}

/// The predicate "group does not carry `id`".
pub open spec fn group_id_differs(id: Seq<char>) -> spec_fn(TunnelGroup) -> bool {
    |g: TunnelGroup| g.id@ != id
}

/// `q` with `m` appended when the state persists, else unchanged.
pub open spec fn queued(persists: bool, q: Seq<PersistView>, m: PersistView) -> Seq<PersistView> {
    if persists {
        q.push(m)
    } else {
        q
    }
}

/// The shared application state.
pub struct AppState {
    /// Live tunnels: status, retry flags, start reservations, sampler slot.
    pub registry: TunnelRegistry,
    /// The forwards, in display order.
    pub configs: Vec<ForwardConfig>,
    pub groups: Vec<TunnelGroup>,
    pub settings: AppSettings,
    pub credentials: CredentialStore,
    /// The fallback secrets file's content (used when the keychain is off).
    pub secrets: SecretsFile,
    /// Whether mutations are written back (false for headless use).
    pub persists: bool,
    /// Saves queued for the ordered writer, oldest first.
    pub pending: Vec<PersistMsg>,
    /// The in-memory log lines.
    pub logs: LogBuffer,
}

impl AppState {
    /// Well-formedness: a well-formed registry and secrets map.
    pub open spec fn wf(&self) -> bool {
        registry_wf(self.registry@) && self.secrets.secrets.wf()
    }

    /// The forwards, in display order.
    pub open spec fn configs(&self) -> Seq<ForwardConfigView> {
        configs_view(self.configs@)
    }

    /// The groups.
    pub open spec fn groups(&self) -> Seq<TunnelGroup> {
        self.groups@
    }

    /// The settings.
    pub open spec fn settings(&self) -> AppSettings {
        self.settings
    }

    /// Whether the keychain is in use.
    pub open spec fn keychain_on(&self) -> bool {
        self.credentials.keychain_on()
    }

    /// Which keychain the credential store uses.
    pub open spec fn keychain_kind(&self) -> KeychainKind {
        self.credentials.keychain_kind()
    }

    /// The in-memory keychain's secrets (`None` for the OS keychain or no
    /// keychain).
    pub open spec fn keychain_memory(&self) -> Option<Map<Seq<char>, Seq<char>>> {
        self.credentials.memory()
    }

    /// The fallback secrets, by forward id.
    pub open spec fn fallback_secrets(&self) -> Map<Seq<char>, Seq<char>> {
        self.secrets.secrets@
    }

    /// Whether mutations are written back.
    pub open spec fn persists(&self) -> bool {
        self.persists
    }

    /// The queued saves, oldest first.
    pub open spec fn pending(&self) -> Seq<PersistView> {
        saves_view(self.pending@)
    }

    /// Build from a loaded config document, the credential store and the
    /// fallback file's content; mutations are written back.
    pub fn new_hydrated(credentials: CredentialStore, secrets: SecretsFile, doc: ConfigDocument) -> (r:
        AppState)
        requires
            secrets.secrets.wf(),
        ensures
            r.wf(),
            r.registry@.entries.len() == 0,
            r.configs() == configs_view(doc.forwards@),
            r.groups() == doc.groups@,
            r.settings() == doc.settings,
            r.keychain_on() == credentials.keychain_on(),
            r.fallback_secrets() == secrets.secrets@,
            r.persists(),
            r.pending().len() == 0,
            r.logs@.len() == 0,
    {
        let registry = TunnelRegistry::new();
        let r = AppState {
            registry,
            configs: doc.forwards,
            groups: doc.groups,
            settings: doc.settings,
            credentials,
            secrets,
            persists: true,
            pending: Vec::new(),
            logs: LogBuffer::new(),
        };
        proof {
            assert(saves_view(r.pending@) =~= Seq::<PersistView>::empty());
        }
        r
    }

    /// Headless state: no persistence, an in-memory keychain, no forwards or
    /// groups, default settings.
    pub fn new_headless() -> (r: AppState)
        ensures
            r.wf(),
            r.registry@.entries.len() == 0,
            r.configs().len() == 0,
            r.groups().len() == 0,
            default_settings(r.settings()),
            r.keychain_on(),
            r.keychain_memory() == Some(Map::<Seq<char>, Seq<char>>::empty()),
            r.fallback_secrets() == Map::<Seq<char>, Seq<char>>::empty(),
            !r.persists(),
            r.pending().len() == 0,
            r.logs@.len() == 0,
    {
        let r = AppState {
            registry: TunnelRegistry::new(),
            configs: Vec::new(),
            groups: Vec::new(),
            settings: AppSettings::default(),
            credentials: CredentialStore::in_memory(),
            secrets: SecretsFile::new(),
            persists: false,
            pending: Vec::new(),
            logs: LogBuffer::new(),
        };
        proof {
            assert(configs_view(r.configs@) =~= Seq::<ForwardConfigView>::empty());
            assert(saves_view(r.pending@) =~= Seq::<PersistView>::empty());
        }
        r
    }

    /// The status payload for `id` (the caller announces it).
    pub fn emit_status(&self, id: &str, status: ForwardStatus, last_error: Option<String>) -> (r:
        StatusPayload)
        ensures
            r.id@ == id@,
            r.status == status,
            r.last_error == last_error,
    {
        StatusPayload::new(id, status, last_error)
    }

    /// The stats payload for `id` (the caller announces it).
    pub fn emit_stats(&self, id: &str, stats: TunnelStats) -> (r: StatsPayload)
        ensures
            r.id@ == id@,
            r.stats == stats,
    {
        StatsPayload::new(id, stats)
    }

    /// The configuration carrying `id`, if any.
    pub fn get_config(&self, id: &str) -> (r: Option<ForwardConfig>)
        ensures
            r is None <==> find_config(self.configs(), id@) is None,
            r matches Some(c) ==> c@ == self.configs()[find_config(self.configs(), id@)->0],
    {
        proof {
            lemma_find_config(configs_view(self.configs@), id@);
        }
        match config_position(&self.configs, id) {
            Some(i) => Some(self.configs[i].clone_config()),
            None => None,
        }
    }

    fn persist_forwards(&mut self)
        ensures
            final(self).pending() == queued(
                old(self).persists(),
                old(self).pending(),
                PersistView::Forwards(old(self).configs()),
            ),
            final(self).registry == old(self).registry,
            final(self).configs == old(self).configs,
            final(self).groups == old(self).groups,
            final(self).settings == old(self).settings,
            final(self).credentials == old(self).credentials,
            final(self).secrets == old(self).secrets,
            final(self).persists == old(self).persists,
    {
        if self.persists {
            let snapshot = clone_configs(&self.configs);
            self.pending.push(PersistMsg::Forwards(snapshot));
            proof {
                assert(saves_view(self.pending@) =~= saves_view(old(self).pending@).push(
                    PersistView::Forwards(old(self).configs()),
                ));
            }
        }
    }

    /// Queue the latest full groups snapshot for the ordered writer (no-op
    /// when headless).
    pub fn persist_groups(&mut self)
        ensures
            final(self).pending() == queued(
                old(self).persists(),
                old(self).pending(),
                PersistView::Groups(old(self).groups()),
            ),
            final(self).registry == old(self).registry,
            final(self).configs() == old(self).configs(),
            final(self).groups() == old(self).groups(),
            final(self).settings() == old(self).settings(),
            final(self).keychain_on() == old(self).keychain_on(),
            final(self).fallback_secrets() == old(self).fallback_secrets(),
            final(self).persists() == old(self).persists(),
            final(self).wf() == old(self).wf(),
    {
        if self.persists {
            let snapshot = clone_groups(&self.groups);
            self.pending.push(PersistMsg::Groups(snapshot));
            proof {
                assert(saves_view(self.pending@) =~= saves_view(old(self).pending@).push(
                    PersistView::Groups(old(self).groups()),
                ));
            }
        }
    }

    fn persist_settings(&mut self)
        ensures
            final(self).pending() == queued(
                old(self).persists(),
                old(self).pending(),
                PersistView::Settings(old(self).settings()),
            ),
            final(self).registry == old(self).registry,
            final(self).configs == old(self).configs,
            final(self).groups == old(self).groups,
            final(self).settings == old(self).settings,
            final(self).credentials == old(self).credentials,
            final(self).secrets == old(self).secrets,
            final(self).persists == old(self).persists,
    {
        if self.persists {
            let snapshot = self.settings.clone_settings();
            self.pending.push(PersistMsg::Settings(snapshot));
            proof {
                assert(saves_view(self.pending@) =~= saves_view(old(self).pending@).push(
                    PersistView::Settings(old(self).settings()),
                ));
            }
        }
    }

    /// Insert or replace a configuration (keeping its display position on
    /// replace) and queue the forwards for saving.
    pub fn upsert_config(&mut self, config: ForwardConfig)
        ensures
            final(self).configs() == upserted_config(old(self).configs(), config@),
            final(self).keychain_memory() == old(self).keychain_memory(),
            final(self).pending() == queued(
                old(self).persists(),
                old(self).pending(),
                PersistView::Forwards(final(self).configs()),
            ),
            final(self).registry == old(self).registry,
            final(self).groups() == old(self).groups(),
            final(self).settings() == old(self).settings(),
            final(self).keychain_on() == old(self).keychain_on(),
            final(self).fallback_secrets() == old(self).fallback_secrets(),
            final(self).persists() == old(self).persists(),
            final(self).wf() == old(self).wf(),
    {
        let ghost cs = configs_view(self.configs@);
        proof {
            lemma_find_config(cs, config@.id);
        }
        match config_position(&self.configs, config.id.as_str()) {
            Some(i) => {
                self.configs.set(i, config);
                proof {
                    assert(configs_view(self.configs@) =~= cs.update(i as int, config@));
                }
            },
            None => {
                self.configs.push(config);
                proof {
                    assert(configs_view(self.configs@) =~= cs.push(config@));
                }
            },
        }
        self.persist_forwards();
    }

    /// Remove the configurations carrying `id`; returns whether one existed.
    /// The forwards are queued for saving only when something was removed.
    pub fn remove_config(&mut self, id: &str) -> (r: bool)
        ensures
            r == (find_config(old(self).configs(), id@) is Some),
            final(self).configs() == old(self).configs().filter(config_id_differs(id@)),
            final(self).pending() == if r {
                queued(
                    old(self).persists(),
                    old(self).pending(),
                    PersistView::Forwards(final(self).configs()),
                )
            } else {
                old(self).pending()
            },
            final(self).registry == old(self).registry,
            final(self).groups() == old(self).groups(),
            final(self).settings() == old(self).settings(),
            final(self).keychain_on() == old(self).keychain_on(),
            final(self).fallback_secrets() == old(self).fallback_secrets(),
            final(self).persists() == old(self).persists(),
            final(self).wf() == old(self).wf(),
    {
        let ghost cs = configs_view(self.configs@);
        let ghost p = config_id_differs(id@);
        proof {
            lemma_find_config(cs, id@);
        }
        let mut kept: Vec<ForwardConfig> = Vec::new();
        let mut old_list: Vec<ForwardConfig> = Vec::new();
        std::mem::swap(&mut old_list, &mut self.configs);
        let mut removed = false;
        let mut i: usize = 0;
        while i < old_list.len()
            invariant
                i <= old_list.len(),
                cs == configs_view(old_list@),
                p == config_id_differs(id@),
                configs_view(kept@) == cs.take(i as int).filter(p),
                removed == exists|j: int| 0 <= j < i && (#[trigger] cs[j]).id == id@,
            decreases old_list.len() - i,
        {
            let ghost before = configs_view(kept@);
            proof {
                assert(cs.take(i + 1) =~= cs.take(i as int).push(cs[i as int]));
                cs.take(i as int).lemma_filter_push(cs[i as int], p);
            }
            if crate::text::str_eq(old_list[i].id.as_str(), id) {
                removed = true;
            } else {
                kept.push(old_list[i].clone_config());
                proof {
                    assert(configs_view(kept@) =~= before.push(cs[i as int]));
                }
            }
            i = i + 1;
        }
        proof {
            assert(cs.take(i as int) =~= cs);
            if removed {
                let j = choose|j: int| 0 <= j < cs.len() && (#[trigger] cs[j]).id == id@;
                assert(cs[j].id == id@);
            } else {
                if let Some(k) = find_config(cs, id@) {
                    assert(cs[k].id == id@);
                }
            }
        }
        self.configs = kept;
        if removed {
            self.persist_forwards();
        }
        removed
    }

    /// All configurations, in display order.
    pub fn configs_snapshot(&self) -> (r: Vec<ForwardConfig>)
        ensures
            configs_view(r@) == self.configs(),
    {
        clone_configs(&self.configs)
    }

    /// All groups.
    pub fn groups_snapshot(&self) -> (r: Vec<TunnelGroup>)
        ensures
            r@ == self.groups(),
    {
        clone_groups(&self.groups)
    }

    /// The current settings.
    pub fn settings_snapshot(&self) -> (r: AppSettings)
        ensures
            r == self.settings(),
    {
        self.settings.clone_settings()
    }

    /// Replace the settings and queue them for saving.
    pub fn set_settings(&mut self, settings: AppSettings)
        ensures
            final(self).settings() == settings,
            final(self).pending() == queued(
                old(self).persists(),
                old(self).pending(),
                PersistView::Settings(settings),
            ),
            final(self).registry == old(self).registry,
            final(self).configs() == old(self).configs(),
            final(self).groups() == old(self).groups(),
            final(self).keychain_on() == old(self).keychain_on(),
            final(self).fallback_secrets() == old(self).fallback_secrets(),
            final(self).persists() == old(self).persists(),
            final(self).wf() == old(self).wf(),
    {
        self.settings = settings;
        self.persist_settings();
    }

    /// Insert or replace a group by id (groups are saved with
    /// [`persist_groups`](Self::persist_groups)).
    pub fn upsert_group(&mut self, group: TunnelGroup)
        ensures
            final(self).groups() == upserted_group(old(self).groups(), group),
            final(self).registry == old(self).registry,
            final(self).configs() == old(self).configs(),
            final(self).settings() == old(self).settings(),
            final(self).keychain_on() == old(self).keychain_on(),
            final(self).fallback_secrets() == old(self).fallback_secrets(),
            final(self).persists() == old(self).persists(),
            final(self).pending() == old(self).pending(),
            final(self).wf() == old(self).wf(),
    {
        proof {
            lemma_find_group(self.groups@, group.id@);
        }
        match group_position(&self.groups, group.id.as_str()) {
            Some(i) => {
                self.groups.set(i, group);
            },
            None => {
                self.groups.push(group);
            },
        }
    }

    /// Remove the groups carrying `id`; returns whether one existed.
    pub fn remove_group(&mut self, id: &str) -> (r: bool)
        ensures
            r == (find_group(old(self).groups(), id@) is Some),
            final(self).groups() == old(self).groups().filter(group_id_differs(id@)),
            final(self).registry == old(self).registry,
            final(self).configs() == old(self).configs(),
            final(self).settings() == old(self).settings(),
            final(self).keychain_on() == old(self).keychain_on(),
            final(self).fallback_secrets() == old(self).fallback_secrets(),
            final(self).persists() == old(self).persists(),
            final(self).pending() == old(self).pending(),
            final(self).wf() == old(self).wf(),
    {
        let ghost gs = self.groups@;
        let ghost p = group_id_differs(id@);
        proof {
            lemma_find_group(gs, id@);
        }
        let mut kept: Vec<TunnelGroup> = Vec::new();
        let mut removed = false;
        let mut i: usize = 0;
        while i < self.groups.len()
            invariant
                i <= self.groups.len(),
                gs == self.groups@,
                p == group_id_differs(id@),
                kept@ == gs.take(i as int).filter(p),
                removed == exists|j: int| 0 <= j < i && (#[trigger] gs[j]).id@ == id@,
            decreases self.groups.len() - i,
        {
            proof {
                assert(gs.take(i + 1) =~= gs.take(i as int).push(gs[i as int]));
                gs.take(i as int).lemma_filter_push(gs[i as int], p);
            }
            if crate::text::str_eq(self.groups[i].id.as_str(), id) {
                removed = true;
            } else {
                kept.push(self.groups[i].clone_group());
            }
            i = i + 1;
        }
        proof {
            assert(gs.take(i as int) =~= gs);
            if removed {
                let j = choose|j: int| 0 <= j < gs.len() && (#[trigger] gs[j]).id@ == id@;
                assert(gs[j].id@ == id@);
            } else {
                if let Some(k) = find_group(gs, id@) {
                    assert(gs[k].id@ == id@);
                }
            }
        }
        self.groups = kept;
        removed
    }

    /// Whether the OS keychain is in use (false: plaintext fallback, and the
    /// UI warns).
    pub fn keychain_available(&self) -> (r: bool)
        ensures
            r == self.keychain_on(),
    {
        self.credentials.keychain_available()
    }

    /// The read-only startup snapshot.
    pub fn hydrate_snapshot(&self) -> (r: HydrateSnapshot)
        ensures
            configs_view(r.forwards@) == self.configs(),
            r.groups@ == self.groups(),
            r.settings == self.settings(),
            r.keychain_available == self.keychain_on(),
    {
        HydrateSnapshot {
            forwards: self.configs_snapshot(),
            groups: self.groups_snapshot(),
            settings: self.settings_snapshot(),
            keychain_available: self.keychain_available(),
        }
    }

    /// The fallback secrets file's content, for writing it back.
    pub fn secrets_file(&self) -> (r: &SecretsFile)
        ensures
            r.secrets@ == self.fallback_secrets(),
    {
        &self.secrets
    }

    /// Store the password of forward `id`. A keychain failure is swallowed
    /// (the accessor stays infallible); without a keychain the fallback
    /// content gets it.
    pub fn set_password(&mut self, id: &str, pw: String)
        requires
            old(self).wf(),
        ensures
            final(self).wf(),
            (final(self).keychain_memory(), final(self).fallback_secrets()) == after_store(
                old(self).keychain_on(),
                old(self).keychain_memory(),
                old(self).fallback_secrets(),
                id@,
                pw@,
            ),
            final(self).keychain_on() == old(self).keychain_on(),
            final(self).registry == old(self).registry,
            final(self).configs() == old(self).configs(),
            final(self).groups() == old(self).groups(),
            final(self).settings() == old(self).settings(),
            final(self).persists() == old(self).persists(),
            final(self).pending() == old(self).pending(),
    {
        let _ = self.credentials.set_password(id, pw.as_str(), &mut self.secrets);
    }

    /// The password of forward `id`; `None` when absent or on a keychain
    /// error. Without a keychain it is the fallback content's.
    pub fn get_password(&mut self, id: &str) -> (r: Option<String>)
        requires
            old(self).wf(),
        ensures
            final(self).wf(),
            contents_known(old(self).keychain_on(), old(self).keychain_memory()) ==> match r {
                Some(v) => lookup(
                    old(self).keychain_on(),
                    old(self).keychain_memory(),
                    old(self).fallback_secrets(),
                    id@,
                ) == Some(v@),
                None => lookup(
                    old(self).keychain_on(),
                    old(self).keychain_memory(),
                    old(self).fallback_secrets(),
                    id@,
                ) is None,
            },
            final(self).keychain_on() == old(self).keychain_on(),
            final(self).keychain_memory() == old(self).keychain_memory(),
            final(self).fallback_secrets() == old(self).fallback_secrets(),
            final(self).registry == old(self).registry,
            final(self).configs() == old(self).configs(),
            final(self).groups() == old(self).groups(),
            final(self).settings() == old(self).settings(),
            final(self).persists() == old(self).persists(),
            final(self).pending() == old(self).pending(),
    {
        match self.credentials.get_password(id, &self.secrets) {
            Ok(pw) => pw,
            Err(_) => None,
        }
    }

    /// Forget the password of forward `id` everywhere (best-effort).
    pub fn delete_password(&mut self, id: &str)
        requires
            old(self).wf(),
        ensures
            final(self).wf(),
            final(self).fallback_secrets() == old(self).fallback_secrets().remove(id@),
            (final(self).keychain_memory(), final(self).fallback_secrets()) == after_forget(
                old(self).keychain_memory(),
                old(self).fallback_secrets(),
                id@,
            ),
            final(self).keychain_on() == old(self).keychain_on(),
            final(self).registry == old(self).registry,
            final(self).configs() == old(self).configs(),
            final(self).groups() == old(self).groups(),
            final(self).settings() == old(self).settings(),
            final(self).persists() == old(self).persists(),
            final(self).pending() == old(self).pending(),
    {
        let _ = self.credentials.delete_password(id, &mut self.secrets);
    }

    /// Replace the whole forwards list (a reorder) and queue it for saving.
    pub fn replace_configs(&mut self, configs: Vec<ForwardConfig>)
        ensures
            final(self).configs() == configs_view(configs@),
            final(self).pending() == queued(
                old(self).persists(),
                old(self).pending(),
                PersistView::Forwards(configs_view(configs@)),
            ),
            final(self).registry == old(self).registry,
            final(self).groups() == old(self).groups(),
            final(self).settings() == old(self).settings(),
            final(self).keychain_on() == old(self).keychain_on(),
            final(self).fallback_secrets() == old(self).fallback_secrets(),
            final(self).persists() == old(self).persists(),
            final(self).wf() == old(self).wf(),
    {
        self.configs = configs;
        self.persist_forwards();
    }

    /// Store the password of forward `id`, reporting a keychain failure.
    /// Without a keychain the fallback content gets it and the store succeeds.
    pub fn set_password_checked(&mut self, id: &str, pw: &str) -> (r: Result<(), AppError>)
        requires
            old(self).wf(),
        ensures
            final(self).wf(),
            (final(self).keychain_memory(), final(self).fallback_secrets()) == after_store(
                old(self).keychain_on(),
                old(self).keychain_memory(),
                old(self).fallback_secrets(),
                id@,
                pw@,
            ),
            contents_known(old(self).keychain_on(), old(self).keychain_memory()) ==> r is Ok,
            final(self).keychain_on() == old(self).keychain_on(),
            final(self).registry == old(self).registry,
            final(self).configs() == old(self).configs(),
            final(self).groups() == old(self).groups(),
            final(self).settings() == old(self).settings(),
            final(self).persists() == old(self).persists(),
            final(self).pending() == old(self).pending(),
    {
        self.credentials.set_password(id, pw, &mut self.secrets)
    }

    /// Forget the password of forward `id` everywhere, reporting a keychain
    /// failure; the fallback content loses the id either way.
    pub fn delete_password_checked(&mut self, id: &str) -> (r: Result<(), AppError>)
        requires
            old(self).wf(),
        ensures
            old(self).keychain_kind() == KeychainKind::Null ==> r is Ok,
            final(self).wf(),
            final(self).fallback_secrets() == old(self).fallback_secrets().remove(id@),
            (final(self).keychain_memory(), final(self).fallback_secrets()) == after_forget(
                old(self).keychain_memory(),
                old(self).fallback_secrets(),
                id@,
            ),
            old(self).keychain_memory() is Some ==> r is Ok,
            final(self).keychain_on() == old(self).keychain_on(),
            final(self).registry == old(self).registry,
            final(self).configs() == old(self).configs(),
            final(self).groups() == old(self).groups(),
            final(self).settings() == old(self).settings(),
            final(self).persists() == old(self).persists(),
            final(self).pending() == old(self).pending(),
    {
        self.credentials.delete_password(id, &mut self.secrets)
    }

    /// Replace the whole groups list (an import) and queue it for saving.
    pub fn replace_groups(&mut self, groups: Vec<TunnelGroup>)
        ensures
            final(self).groups() == groups@,
            final(self).pending() == queued(
                old(self).persists(),
                old(self).pending(),
                PersistView::Groups(groups@),
            ),
            final(self).registry == old(self).registry,
            final(self).configs() == old(self).configs(),
            final(self).settings() == old(self).settings(),
            final(self).keychain_on() == old(self).keychain_on(),
            final(self).fallback_secrets() == old(self).fallback_secrets(),
            final(self).persists() == old(self).persists(),
            final(self).wf() == old(self).wf(),
    {
        self.groups = groups;
        self.persist_groups();
    }

    /// The log buffer.
    pub fn log_buffer(&self) -> (r: &LogBuffer)
        ensures
            r@ == self.logs@,
    {
        &self.logs
    }

    /// The one-shot boot snapshot: forwards, groups, settings, log lines,
    /// the given runtimes of the live tunnels and update status, and whether
    /// the keychain is in use.
    pub fn app_snapshot(&self, update: UpdateStatus, runtimes: Vec<(String, ForwardRuntime)>) -> (r:
        AppSnapshot)
        ensures
            configs_view(r.forwards@) == self.configs(),
            r.groups@ == self.groups(),
            r.settings == self.settings(),
            r.logs@ == self.logs@,
            r.runtimes == runtimes,
            r.update == update,
            r.keychain_available == self.keychain_on(),
    {
        AppSnapshot {
            forwards: self.configs_snapshot(),
            groups: self.groups_snapshot(),
            settings: self.settings_snapshot(),
            logs: self.logs.snapshot(),
            runtimes,
            update,
            keychain_available: self.keychain_available(),
        }
    }

    /// Hand the queued saves to the writer, oldest first, leaving none.
    pub fn take_pending_saves(&mut self) -> (r: Vec<PersistMsg>)
        ensures
            saves_view(r@) == old(self).pending(),
            final(self).pending().len() == 0,
            final(self).registry == old(self).registry,
            final(self).configs() == old(self).configs(),
            final(self).groups() == old(self).groups(),
            final(self).settings() == old(self).settings(),
            final(self).keychain_on() == old(self).keychain_on(),
            final(self).fallback_secrets() == old(self).fallback_secrets(),
            final(self).persists() == old(self).persists(),
            final(self).wf() == old(self).wf(),
    {
        let mut out: Vec<PersistMsg> = Vec::new();
        std::mem::swap(&mut out, &mut self.pending);
        proof {
            assert(saves_view(self.pending@) =~= Seq::<PersistView>::empty());
        }
        out
    }
}

} // verus!
