//! The plaintext fallback secrets file, used only where the OS keychain is
//! unavailable: its content model and its location. Reading, writing and
//! the owner-only permissions happen around it.
use crate::credentials::secret_map::SecretMap;
use vstd::prelude::*;

verus! {

/// The secrets file's schema version.
pub const SECRETS_SCHEMA_VERSION: u32 = 1;

/// The content of the secrets file: a schema version and the secrets by
/// forward id.
#[derive(Debug, Clone)]
pub struct SecretsFile {
    pub schema_version: u32,
    pub secrets: SecretMap,
}

impl SecretsFile {
    /// A fresh file: current schema, no secrets.
    pub fn new() -> (r: SecretsFile)
        ensures
            r.schema_version == SECRETS_SCHEMA_VERSION,
            r.secrets.wf(),
            r.secrets@ == Map::<Seq<char>, Seq<char>>::empty(),
    {
        SecretsFile { schema_version: SECRETS_SCHEMA_VERSION, secrets: SecretMap::new() }
    }
}

/// Where the fallback file lives.
#[derive(Debug, Clone)]
pub struct FallbackStore {
    path: String,
}

impl FallbackStore {
    /// The store at `path`.
    pub fn new(path: String) -> (r: FallbackStore)
        ensures
            r.path_view() == path@,
    {
        FallbackStore { path }
    }

    /// The file's path, as characters.
    pub closed spec fn path_view(&self) -> Seq<char> {
        self.path@
    }

    /// The file's path.
    pub fn path(&self) -> (r: &str)
        ensures
            r@ == self.path_view(),
    {
        self.path.as_str()
    }
}

} // verus!
