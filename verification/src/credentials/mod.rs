//! Credential storage: the OS keychain when it works, otherwise a plaintext
//! fallback file (owner-only). Passwords never travel anywhere else.
pub mod backend;
pub mod fallback;
pub mod secret_map;

use crate::credentials::backend::{
    keychain_step_failure, InMemoryBackend, KeychainBackend, KeyringBackend, NullBackend,
};
use crate::credentials::fallback::{FallbackStore, SecretsFile};
use crate::error::AppError;
use vstd::prelude::*;

verus! {

/// The fallback file's name inside the app support directory.
pub const SECRETS_FILE_NAME: &'static str = "tunnel_pilot_secrets.json";

/// Whether the OS keychain works on this machine (a write-read-delete
/// probe).
pub fn keychain_available() -> bool {
    let mut k = KeyringBackend;
    k.probe()
}

/// The keychain a credential store uses.
#[derive(Debug)]
pub enum Keychain {
    Os(KeyringBackend),
    Memory(InMemoryBackend),
    Null(NullBackend),
}

/// Which keychain a store uses.
#[derive(Debug, Clone, Copy, PartialEq, Eq, Structural)]
pub enum KeychainKind {
    /// The OS keychain through `keyring`.
    Os,
    /// The process-local keychain.
    Memory,
    /// No keychain: nothing is stored there.
    Null,
}

impl Keychain {
    /// Which keychain this is.
    pub open spec fn kind(&self) -> KeychainKind {
        match self {
            Keychain::Os(_) => KeychainKind::Os,
            Keychain::Memory(_) => KeychainKind::Memory,
            Keychain::Null(_) => KeychainKind::Null,
        }
    }

    /// The secrets of the in-memory keychain; `None` for the others (whose
    /// content lives outside this process or nowhere).
    pub closed spec fn memory(&self) -> Option<Map<Seq<char>, Seq<char>>> {
        match self {
            Keychain::Memory(k) => Some(k.contents()),
            _ => None,
        }
    }

    fn set(&mut self, account: &str, secret: &str) -> (r: Result<(), AppError>)
        ensures
            old(self).memory() matches Some(m) ==> r is Ok && final(self).memory() == Some(
                m.insert(account@, secret@),
            ),
            old(self).memory() is None ==> final(self).memory() is None,
            r matches Err(e) ==> keychain_step_failure(e, "keychain write failed: "@),
            final(self).kind() == old(self).kind(),
    {
        match self {
            Keychain::Os(k) => k.set(account, secret),
            Keychain::Memory(k) => {
                k.put(account, secret);
                Ok(())
            },
            Keychain::Null(k) => k.set(account, secret),
        }
    }

    fn get(&mut self, account: &str) -> (r: Result<Option<String>, AppError>)
        ensures
            final(self).memory() == old(self).memory(),
            old(self).memory() matches Some(m) ==> match r {
                Ok(Some(v)) => m.contains_key(account@) && m[account@] == v@,
                Ok(None) => !m.contains_key(account@),
                Err(_) => false,
            },
            r matches Err(e) ==> keychain_step_failure(e, "keychain read failed: "@),
            final(self).kind() == old(self).kind(),
    {
        match self {
            Keychain::Os(k) => k.get(account),
            Keychain::Memory(k) => Ok(k.fetch(account)),
            Keychain::Null(k) => k.get(account),
        }
    }

    fn delete(&mut self, account: &str) -> (r: Result<(), AppError>)
        ensures
            old(self).memory() matches Some(m) ==> r is Ok && final(self).memory() == Some(
                m.remove(account@),
            ),
            old(self).memory() is None ==> final(self).memory() is None,
            r matches Err(e) ==> keychain_step_failure(e, "keychain delete failed: "@),
            old(self).kind() == KeychainKind::Null ==> r is Ok,
            final(self).kind() == old(self).kind(),
    {
        match self {
            Keychain::Os(k) => k.delete(account),
            Keychain::Memory(k) => {
                k.forget(account);
                Ok(())
            },
            Keychain::Null(k) => k.delete(account),
        }
    }

    fn probe(&mut self) -> (r: bool)
        ensures
            final(self).memory() == old(self).memory(),
            old(self).memory() is Some ==> r,
            *old(self) is Null ==> !r,
            final(self).kind() == old(self).kind(),
    {
        match self {
            Keychain::Os(k) => k.probe(),
            Keychain::Memory(k) => true,
            Keychain::Null(k) => k.probe(),
        }
    }
}

/// The password a store finds for `id`: the in-memory keychain's entry when
/// the keychain is in use and has one, else the fallback content's.
pub open spec fn lookup(
    on: bool,
    memory: Option<Map<Seq<char>, Seq<char>>>,
    file: Map<Seq<char>, Seq<char>>,
    id: Seq<char>,
) -> Option<Seq<char>> {
    if on && memory is Some && memory->0.contains_key(id) {
        Some(memory->0[id])
    } else if file.contains_key(id) {
        Some(file[id])
    } else {
        None
    }
}

/// What a read returns given the keychain's answer `kc` and the fallback
/// content's secret `file_secret`: the keychain's password when it has one,
/// its error when it failed, and on a miss the fallback's (which may be
/// none).
pub open spec fn lookup_result(
    kc: Result<Option<String>, AppError>,
    file_secret: Option<String>,
) -> Result<Option<String>, AppError> {
    match kc {
        Ok(Some(pw)) => Ok(Some(pw)),
        Ok(None) => Ok(file_secret),
        Err(e) => Err(e),
    }
}

/// Combine the keychain's answer with the fallback content's secret: a
/// keychain password wins, a keychain error is reported, and a keychain miss
/// falls through to the fallback (a store that only became available after
/// secrets were written to the file still finds them).
pub fn lookup_outcome(kc: Result<Option<String>, AppError>, file_secret: Option<String>) -> (r: Result<
    Option<String>,
    AppError,
>)
    ensures
        r == lookup_result(kc, file_secret),
{
    match kc {
        Ok(Some(pw)) => Ok(Some(pw)),
        Ok(None) => Ok(file_secret),
        Err(e) => Err(e),
    }
}

/// Whether what a read finds is known from the contents alone: no keychain
/// in use, or the in-memory one (the OS keychain's content lives outside).
pub open spec fn contents_known(on: bool, memory: Option<Map<Seq<char>, Seq<char>>>) -> bool {
    !on || memory is Some
}

/// The (keychain, fallback) contents after storing `secret` for `id`: into
/// the keychain when it is in use, else into the fallback content.
pub open spec fn after_store(
    on: bool,
    memory: Option<Map<Seq<char>, Seq<char>>>,
    file: Map<Seq<char>, Seq<char>>,
    id: Seq<char>,
    secret: Seq<char>,
) -> (Option<Map<Seq<char>, Seq<char>>>, Map<Seq<char>, Seq<char>>) {
    if on {
        (
            match memory {
                Some(m) => Some(m.insert(id, secret)),
                None => None,
            },
            file,
        )
    } else {
        (memory, file.insert(id, secret))
    }
}

/// The (keychain, fallback) contents after forgetting `id` everywhere.
pub open spec fn after_forget(
    memory: Option<Map<Seq<char>, Seq<char>>>,
    file: Map<Seq<char>, Seq<char>>,
    id: Seq<char>,
) -> (Option<Map<Seq<char>, Seq<char>>>, Map<Seq<char>, Seq<char>>) {
    (
        match memory {
            Some(m) => Some(m.remove(id)),
            None => None,
        },
        file.remove(id),
    )
}

/// Password storage for forwards: the keychain when it answered the probe,
/// else the fallback file (whose content the caller loads and saves).
#[derive(Debug)]
pub struct CredentialStore {
    keychain: Keychain,
    fallback: FallbackStore,
    keychain_available: bool,
}

impl CredentialStore {
    /// Probe `keychain` once and remember the answer; the fallback file is
    /// `secrets_file`.
    pub fn with_backend(keychain: Keychain, secrets_file: String) -> (r: CredentialStore)
        ensures
            r.fallback_view() == secrets_file@,
            r.keychain_kind() == keychain.kind(),
            r.memory() == keychain.memory(),
            keychain.kind() == KeychainKind::Memory ==> r.keychain_on(),
            keychain.kind() == KeychainKind::Null ==> !r.keychain_on(),
    {
        let mut keychain = keychain;
        let keychain_available = keychain.probe();
        CredentialStore { keychain, fallback: FallbackStore::new(secrets_file), keychain_available }
    }

    /// The OS keychain, with `secrets_file` as the fallback.
    pub fn new(secrets_file: String) -> (r: CredentialStore)
        ensures
            r.fallback_view() == secrets_file@,
            r.keychain_kind() == KeychainKind::Os,
            r.memory() is None,
    {
        CredentialStore::with_backend(Keychain::Os(KeyringBackend), secrets_file)
    }

    /// The OS keychain, with the fallback file in `app_support_dir`.
    pub fn from_app_dir(app_support_dir: &str) -> (r: CredentialStore)
        ensures
            r.fallback_view() == crate::cli::shim::join_path(app_support_dir@, SECRETS_FILE_NAME@),
            r.keychain_kind() == KeychainKind::Os,
            r.memory() is None,
    {
        CredentialStore::new(crate::cli::shim::join(app_support_dir, SECRETS_FILE_NAME))
    }

    /// A process-local keychain that always works (tests, headless runs).
    pub fn in_memory() -> (r: CredentialStore)
        ensures
            r.keychain_on(),
            r.keychain_kind() == KeychainKind::Memory,
            r.memory() == Some(Map::<Seq<char>, Seq<char>>::empty()),
            r.fallback_view() == Seq::<char>::empty(),
    {
        CredentialStore {
            keychain: Keychain::Memory(InMemoryBackend::new()),
            fallback: FallbackStore::new(String::new()),
            keychain_available: true,
        }
    }

    /// No keychain at all: every secret goes to `secrets_file`.
    pub fn fallback_only(secrets_file: String) -> (r: CredentialStore)
        ensures
            !r.keychain_on(),
            r.keychain_kind() == KeychainKind::Null,
            r.memory() is None,
            r.fallback_view() == secrets_file@,
    {
        CredentialStore {
            keychain: Keychain::Null(NullBackend),
            fallback: FallbackStore::new(secrets_file),
            keychain_available: false,
        }
    }

    /// Which keychain the store uses.
    pub closed spec fn keychain_kind(&self) -> KeychainKind {
        self.keychain.kind()
    }

    /// Whether the keychain answered the probe.
    pub closed spec fn keychain_on(&self) -> bool {
        self.keychain_available
    }

    /// The in-memory keychain's secrets (`None` for the OS keychain or no
    /// keychain).
    pub closed spec fn memory(&self) -> Option<Map<Seq<char>, Seq<char>>> {
        self.keychain.memory()
    }

    /// The fallback file's path, as characters.
    pub closed spec fn fallback_view(&self) -> Seq<char> {
        self.fallback.path_view()
    }

    /// Whether the keychain answered the probe.
    pub fn keychain_available(&self) -> (r: bool)
        ensures
            r == self.keychain_on(),
    {
        self.keychain_available
    }

    /// The fallback file's path.
    pub fn fallback_path(&self) -> (r: &str)
        ensures
            r@ == self.fallback_view(),
    {
        self.fallback.path()
    }

    /// Store the password of forward `id`: in the keychain when available
    /// (the fallback content untouched), else in the fallback content.
    pub fn set_password(&mut self, id: &str, secret: &str, file: &mut SecretsFile) -> (r: Result<
        (),
        AppError,
    >)
        requires
            old(file).secrets.wf(),
        ensures
            final(self).keychain_kind() == old(self).keychain_kind(),
            final(file).secrets.wf(),
            final(self).keychain_on() == old(self).keychain_on(),
            final(self).fallback_view() == old(self).fallback_view(),
            (final(self).memory(), final(file).secrets@) == after_store(
                old(self).keychain_on(),
                old(self).memory(),
                old(file).secrets@,
                id@,
                secret@,
            ),
            contents_known(old(self).keychain_on(), old(self).memory()) ==> r is Ok,
            r matches Err(e) ==> keychain_step_failure(e, "keychain write failed: "@),
    {
        if self.keychain_available {
            self.keychain.set(id, secret)
        } else {
            file.secrets.insert(id, secret);
            Ok(())
        }
    }

    /// The password of forward `id`: the keychain's when available and it has
    /// one (a keychain error is reported), else the fallback content's.
    pub fn get_password(&mut self, id: &str, file: &SecretsFile) -> (r: Result<Option<String>, AppError>)
        requires
            file.secrets.wf(),
        ensures
            final(self).keychain_kind() == old(self).keychain_kind(),
            final(self).keychain_on() == old(self).keychain_on(),
            final(self).fallback_view() == old(self).fallback_view(),
            final(self).memory() == old(self).memory(),
            contents_known(old(self).keychain_on(), old(self).memory()) ==> match r {
                Ok(Some(v)) => lookup(old(self).keychain_on(), old(self).memory(), file.secrets@, id@)
                    == Some(v@),
                Ok(None) => lookup(old(self).keychain_on(), old(self).memory(), file.secrets@, id@)
                    is None,
                Err(_) => false,
            },
            r matches Ok(None) ==> !file.secrets@.contains_key(id@),
            r matches Err(e) ==> old(self).keychain_on() && keychain_step_failure(
                e,
                "keychain read failed: "@,
            ),
    {
        let file_secret = file.secrets.get(id);
        if self.keychain_available {
            let kc = self.keychain.get(id);
            lookup_outcome(kc, file_secret)
        } else {
            Ok(file_secret)
        }
    }

    /// Forget the password of forward `id` everywhere: the keychain's
    /// outcome is returned, and the fallback content loses the id.
    pub fn delete_password(&mut self, id: &str, file: &mut SecretsFile) -> (r: Result<(), AppError>)
        requires
            old(file).secrets.wf(),
        ensures
            old(self).keychain_kind() == KeychainKind::Null ==> r is Ok,
            final(self).keychain_kind() == old(self).keychain_kind(),
            final(file).secrets.wf(),
            final(self).keychain_on() == old(self).keychain_on(),
            final(self).fallback_view() == old(self).fallback_view(),
            final(file).secrets@ == old(file).secrets@.remove(id@),
            (final(self).memory(), final(file).secrets@) == after_forget(
                old(self).memory(),
                old(file).secrets@,
                id@,
            ),
            old(self).memory() is Some ==> r is Ok,
            r matches Err(e) ==> keychain_step_failure(e, "keychain delete failed: "@),
    {
        let keychain_result = self.keychain.delete(id);
        file.secrets.remove(id);
        keychain_result
    }
}

/// A password read right after it was stored is the stored one, and after
/// a delete there is none, wherever the store keeps it (in-memory keychain
/// or fallback content).
pub proof fn law_read_after_write(
    on: bool,
    memory: Option<Map<Seq<char>, Seq<char>>>,
    file: Map<Seq<char>, Seq<char>>,
    id: Seq<char>,
    secret: Seq<char>,
)
    requires
        contents_known(on, memory),
    ensures
        ({
            let (m, f) = after_store(on, memory, file, id, secret);
            lookup(on, m, f, id) == Some(secret)
        }),
        ({
            let (m, f) = after_store(on, memory, file, id, secret);
            let (m2, f2) = after_forget(m, f, id);
            lookup(on, m2, f2, id) is None
        }),
{
}

} // verus!
