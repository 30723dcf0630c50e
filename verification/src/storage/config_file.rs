//! The on-disk config document and its per-section read-merge-write rules.
//!
//! `forwards`, `groups` and `settings` are saved independently: a save takes
//! the current document, replaces exactly one section and stamps the current
//! schema, so saving settings never drops forwards and vice versa. Passwords
//! never appear in this document.
use vstd::prelude::*;
use crate::cli::shim::{join, join_path};
use crate::state::models::{
    AppSettings, ForwardConfig, TunnelGroup, clone_configs, configs_view, clone_groups, default_settings,
};

verus! {

/// File name of the config document inside the app config directory.
pub const CONFIG_FILE_NAME: &'static str = "tunnel_pilot_config.json";

/// Current on-disk schema version.
pub const SCHEMA_VERSION: u32 = 2;

/// The full on-disk config document.
#[derive(Debug, Clone)]
pub struct ConfigDocument {
    pub schema_version: u32,
    pub forwards: Vec<ForwardConfig>,
    pub groups: Vec<TunnelGroup>,
    pub settings: AppSettings,
}

/// Whether `d` is the fresh document: current schema, no forwards, no
/// groups, default settings.
pub open spec fn fresh_document(d: ConfigDocument) -> bool {
    &&& d.schema_version == SCHEMA_VERSION
    &&& d.forwards@.len() == 0
    &&& d.groups@.len() == 0
    &&& default_settings(d.settings)
}

impl Default for ConfigDocument {
    /// A fresh document: empty lists, default settings, current schema.
    fn default() -> (r: ConfigDocument)
        ensures
            fresh_document(r),
    {
        ConfigDocument {
            schema_version: SCHEMA_VERSION,
            forwards: Vec::new(),
            groups: Vec::new(),
            settings: AppSettings::default(),
        }
    }
}

/// `d` with its `forwards` section replaced, stamped with the current schema.
pub open spec fn with_forwards(d: ConfigDocument, forwards: Vec<ForwardConfig>) -> ConfigDocument {
    ConfigDocument { schema_version: SCHEMA_VERSION, forwards, ..d }
}

/// `d` with its `groups` section replaced, stamped with the current schema.
pub open spec fn with_groups(d: ConfigDocument, groups: Vec<TunnelGroup>) -> ConfigDocument {
    ConfigDocument { schema_version: SCHEMA_VERSION, groups, ..d }
}

/// `d` with its `settings` section replaced, stamped with the current schema.
pub open spec fn with_settings(d: ConfigDocument, settings: AppSettings) -> ConfigDocument {
    ConfigDocument { schema_version: SCHEMA_VERSION, settings, ..d }
}

impl ConfigDocument {
    /// The document with its `forwards` section replaced (current schema);
    /// groups and settings are kept.
    pub fn replace_forwards(self, forwards: Vec<ForwardConfig>) -> (r: ConfigDocument)
        ensures
            r == with_forwards(self, forwards),
            r.schema_version == SCHEMA_VERSION,
            r.forwards@ == forwards@,
            r.groups@ == self.groups@,
            r.settings == self.settings,
    {
        ConfigDocument { schema_version: SCHEMA_VERSION, forwards, ..self }
    }

    /// The document with its `groups` section replaced (current schema);
    /// forwards and settings are kept.
    pub fn replace_groups(self, groups: Vec<TunnelGroup>) -> (r: ConfigDocument)
        ensures
            r == with_groups(self, groups),
            r.schema_version == SCHEMA_VERSION,
            r.groups@ == groups@,
            r.forwards@ == self.forwards@,
            r.settings == self.settings,
    {
        ConfigDocument { schema_version: SCHEMA_VERSION, groups, ..self }
    }

    /// The document with its `settings` section replaced (current schema);
    /// forwards and groups are kept.
    pub fn replace_settings(self, settings: AppSettings) -> (r: ConfigDocument)
        ensures
            r == with_settings(self, settings),
            r.schema_version == SCHEMA_VERSION,
            r.settings == settings,
            r.forwards@ == self.forwards@,
            r.groups@ == self.groups@,
    {
        ConfigDocument { schema_version: SCHEMA_VERSION, settings, ..self }
    }

    /// An owned copy of the document.
    pub fn clone_document(&self) -> (r: ConfigDocument)
        ensures
            r.schema_version == self.schema_version,
            configs_view(r.forwards@) == configs_view(self.forwards@),
            r.groups@ == self.groups@,
            r.settings == self.settings,
    {
        ConfigDocument {
            schema_version: self.schema_version,
            forwards: clone_configs(&self.forwards),
            groups: clone_groups(&self.groups),
            settings: self.settings.clone_settings(),
        }
    }
}

/// What reading the config file gave.
pub enum ConfigRead {
    /// The file does not exist.
    Missing,
    /// The file exists but is empty.
    Empty,
    /// The file holds a document that parsed.
    Parsed(ConfigDocument),
    /// The file holds bytes that are not a valid document.
    Corrupt,
}

/// What loading makes of a read: the document to start with, and whether the
/// bad file must be copied aside to a `.corrupted-*` sidecar first.
pub struct LoadOutcome {
    pub document: ConfigDocument,
    pub quarantine: bool,
}

/// Load policy: a missing or empty file is a fresh document; a parsed one is
/// used as is; a corrupt one is quarantined and replaced by a fresh document
/// (bad config never stops the app).
pub fn load_outcome(read: ConfigRead) -> (r: LoadOutcome)
    ensures
        r.quarantine <==> read is Corrupt,
        read matches ConfigRead::Parsed(d) ==> (r.document.schema_version == d.schema_version
            && r.document.forwards@ == d.forwards@ && r.document.groups@ == d.groups@
            && r.document.settings == d.settings),
        !(read is Parsed) ==> fresh_document(r.document),
{
    match read {
        ConfigRead::Parsed(d) => LoadOutcome { document: d, quarantine: false },
        ConfigRead::Corrupt => LoadOutcome { document: ConfigDocument::default(), quarantine: true },
        _ => LoadOutcome { document: ConfigDocument::default(), quarantine: false },
    }
}

/// The base a section save merges into: the parsed document when the file
/// read and parsed, else a fresh document (unreadable content is discarded,
/// not quarantined again).
pub fn merge_base(read: ConfigRead) -> (r: ConfigDocument)
    ensures
        read matches ConfigRead::Parsed(d) ==> (r.schema_version == d.schema_version
            && r.forwards@ == d.forwards@ && r.groups@ == d.groups@ && r.settings == d.settings),
        !(read is Parsed) ==> fresh_document(r),
{
    match read {
        ConfigRead::Parsed(d) => d,
        _ => ConfigDocument::default(),
    }
}

/// Where the config document lives.
pub struct ConfigStore {
    path: String,
}

impl ConfigStore {
    /// Point the store at an explicit config file path.
    pub fn new(path: String) -> (r: ConfigStore)
        ensures
            r.path_view() == path@,
    {
        ConfigStore { path }
    }

    /// The backing file's path.
    pub closed spec fn path_view(&self) -> Seq<char> {
        self.path@
    }

    /// The store for the canonical config directory: `<dir>/tunnel_pilot_config.json`.
    pub fn from_config_dir(config_dir: &str) -> (r: ConfigStore)
        ensures
            r.path_view() == join_path(config_dir@, CONFIG_FILE_NAME@),
    {
        ConfigStore { path: join(config_dir, CONFIG_FILE_NAME) }
    }

    /// Path of the backing config file.
    pub fn path(&self) -> (r: &str)
        ensures
            r@ == self.path_view(),
    {
        self.path.as_str()
    }

    /// The sibling a write goes to before it is renamed over the file:
    /// `<path>.tmp`.
    pub fn tmp_path(&self) -> (r: String)
        ensures
            r@ == self.path_view() + ".tmp"@,
    {
        self.path.clone().concat(".tmp")
    }

    /// Where a corrupt file is copied aside: `<path>.corrupted-<stamp>`.
    pub fn quarantine_path(&self, stamp: &str) -> (r: String)
        ensures
            r@ == self.path_view() + ".corrupted-"@ + stamp@,
    {
        self.path.clone().concat(".corrupted-").concat(stamp)
    }
}

/// Saving one section never changes the other two, so saves of different
/// sections in a row all land: after saving settings `s` then forwards `f`
/// (in either order), the document holds `s`, `f` and the original groups.
pub proof fn law_section_saves_keep_siblings(
    d: ConfigDocument,
    forwards: Vec<ForwardConfig>,
    groups: Vec<TunnelGroup>,
    settings: AppSettings,
)
    ensures
        with_forwards(with_settings(d, settings), forwards) == with_settings(
            with_forwards(d, forwards),
            settings,
        ),
        with_forwards(with_settings(d, settings), forwards).settings == settings,
        with_forwards(with_settings(d, settings), forwards).forwards == forwards,
        with_forwards(with_settings(d, settings), forwards).groups == d.groups,
        with_groups(with_settings(d, settings), groups).forwards == d.forwards,
        with_groups(with_settings(d, settings), groups).settings == settings,
        with_groups(with_forwards(d, forwards), groups).forwards == forwards,
        with_groups(with_forwards(d, forwards), groups).groups == groups,
        with_settings(d, settings).schema_version == SCHEMA_VERSION,
{
}

} // verus!
