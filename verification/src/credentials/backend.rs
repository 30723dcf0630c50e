//! Keychain backends: the OS keychain through the `keyring` crate, an
//! in-memory store, and a backend that never stores anything.
use crate::credentials::secret_map::SecretMap;
use crate::error::AppError;
use crate::text::{has_prefix, str_eq};
use vstd::prelude::*;

verus! {

/// The keychain service every entry is stored under.
pub const KC_SERVICE: &'static str = "tunnel-pilot";

/// The account the availability probe writes, reads back and deletes.
pub const PROBE_ACCOUNT: &'static str = "__probe__.keychain_available";

/// Why a `keyring` call failed: whether the entry simply does not exist,
/// and the error's display text.
#[derive(Debug, Clone, PartialEq, Eq)]
pub struct KeyringFailure {
    pub no_entry: bool,
    pub text: String,
}

#[verifier::external_type_specification]
#[verifier::external_body]
pub struct ExKeyringEntry(keyring::Entry);

/// `keyring::Entry::new(service, account)`. What the platform store answers
/// is outside this program, so nothing is stated of it.
#[verifier::external_body]
fn keyring_entry(service: &str, account: &str) -> Result<keyring::Entry, KeyringFailure> {
    keyring::Entry::new(service, account).map_err(
        |e| KeyringFailure { no_entry: matches!(e, keyring::Error::NoEntry), text: e.to_string() },
    )
}

/// `keyring::Entry::set_password`. The outcome depends on the platform
/// store, so nothing is stated of it.
#[verifier::external_body]
fn keyring_set(entry: &keyring::Entry, secret: &str) -> Result<(), KeyringFailure> {
    entry.set_password(secret).map_err(
        |e| KeyringFailure { no_entry: matches!(e, keyring::Error::NoEntry), text: e.to_string() },
    )
}

/// `keyring::Entry::get_password`. The outcome depends on the platform
/// store, so nothing is stated of it.
#[verifier::external_body]
fn keyring_get(entry: &keyring::Entry) -> Result<String, KeyringFailure> {
    entry.get_password().map_err(
        |e| KeyringFailure { no_entry: matches!(e, keyring::Error::NoEntry), text: e.to_string() },
    )
}

/// `keyring::Entry::delete_credential`. The outcome depends on the platform
/// store, so nothing is stated of it.
#[verifier::external_body]
fn keyring_delete(entry: &keyring::Entry) -> Result<(), KeyringFailure> {
    entry.delete_credential().map_err(
        |e| KeyringFailure { no_entry: matches!(e, keyring::Error::NoEntry), text: e.to_string() },
    )
}

/// A keychain failure as the app reports it: a credential error with
/// `<prefix><detail>`.
pub open spec fn keychain_error(e: AppError, prefix: Seq<char>, f: KeyringFailure) -> bool {
    e is Credential && e->Credential_0@ == prefix + f.text@
}

/// A keychain failure reported with one of the two messages of a step:
/// opening the entry (`keychain open failed: ...`) or the step itself
/// (`<step_prefix>...`).
pub open spec fn keychain_step_failure(e: AppError, step_prefix: Seq<char>) -> bool {
    e is Credential && (has_prefix(e->Credential_0@, "keychain open failed: "@) || has_prefix(
        e->Credential_0@,
        step_prefix,
    ))
}

/// A text starts with any of its own prefixes.
proof fn lemma_concat_has_prefix(a: Seq<char>, b: Seq<char>)
    ensures
        has_prefix(a + b, a),
{
    assert((a + b).subrange(0, a.len() as int) =~= a);
}

/// The failure to open an entry.
pub fn open_failure(f: KeyringFailure) -> (r: AppError)
    ensures
        keychain_error(r, "keychain open failed: "@, f),
{
    AppError::Credential("keychain open failed: ".to_string().concat(f.text.as_str()))
}

/// The outcome of a keychain write.
pub fn write_outcome(r: Result<(), KeyringFailure>) -> (out: Result<(), AppError>)
    ensures
        r is Ok ==> out is Ok,
        r is Err ==> (out matches Err(e) && keychain_error(e, "keychain write failed: "@, r->Err_0)),
{
    match r {
        Ok(()) => Ok(()),
        Err(f) => Err(AppError::Credential("keychain write failed: ".to_string().concat(f.text.as_str()))),
    }
}

/// The outcome of a keychain read: a missing entry is no password, not an
/// error.
pub fn read_outcome(r: Result<String, KeyringFailure>) -> (out: Result<Option<String>, AppError>)
    ensures
        r is Ok ==> (out matches Ok(Some(pw)) && pw@ == r->Ok_0@),
        r is Err && r->Err_0.no_entry ==> (out matches Ok(None)),
        r is Err && !r->Err_0.no_entry ==> (out matches Err(e) && keychain_error(
            e,
            "keychain read failed: "@,
            r->Err_0,
        )),
{
    match r {
        Ok(pw) => Ok(Some(pw)),
        Err(f) => {
            if f.no_entry {
                Ok(None)
            } else {
                Err(AppError::Credential("keychain read failed: ".to_string().concat(f.text.as_str())))
            }
        },
    }
}

/// The outcome of a keychain delete: deleting a missing entry succeeds.
pub fn delete_outcome(r: Result<(), KeyringFailure>) -> (out: Result<(), AppError>)
    ensures
        r is Ok ==> out is Ok,
        r is Err && r->Err_0.no_entry ==> out is Ok,
        r is Err && !r->Err_0.no_entry ==> (out matches Err(e) && keychain_error(
            e,
            "keychain delete failed: "@,
            r->Err_0,
        )),
{
    match r {
        Ok(()) => Ok(()),
        Err(f) => {
            if f.no_entry {
                Ok(())
            } else {
                Err(AppError::Credential("keychain delete failed: ".to_string().concat(f.text.as_str())))
            }
        },
    }
}

/// Whether the probe's write-read-delete round trip worked: the write
/// succeeded and the read gave the sentinel back.
pub fn probe_outcome(write: Result<(), AppError>, read: Result<Option<String>, AppError>) -> (r: bool)
    ensures
        r == (write is Ok && (read matches Ok(Some(v)) && v@ == "1"@)),
{
    match write {
        Err(_) => false,
        Ok(()) => match read {
            Ok(Some(v)) => str_eq(v.as_str(), "1"),
            _ => false,
        },
    }
}

/// A secret store addressed by account.
pub trait KeychainBackend {
    fn set(&mut self, account: &str, secret: &str) -> Result<(), AppError>;

    fn get(&mut self, account: &str) -> Result<Option<String>, AppError>;

    fn delete(&mut self, account: &str) -> Result<(), AppError>;

    /// Whether the store works at all.
    fn probe(&mut self) -> bool;
}

/// The OS keychain through `keyring`'s native store of the platform (macOS
/// Keychain, Windows Credential Manager, the Secret Service on Linux), under
/// service [`KC_SERVICE`].
#[derive(Debug, Default, Clone, Copy)]
pub struct KeyringBackend;

impl KeychainBackend for KeyringBackend {
    /// Store `secret` under `account`; a failure is a credential error
    /// naming the step that failed (opening the entry, or the write).
    fn set(&mut self, account: &str, secret: &str) -> (r: Result<(), AppError>)
        ensures
            r matches Err(e) ==> keychain_step_failure(e, "keychain write failed: "@),
    {
        match keyring_entry(KC_SERVICE, account) {
            Err(f) => {
                let e = open_failure(f);
                proof {
                    lemma_concat_has_prefix("keychain open failed: "@, f.text@);
                }
                Err(e)
            },
            Ok(entry) => {
                let step = keyring_set(&entry, secret);
                let ghost step_seen = step;
                let out = write_outcome(step);
                proof {
                    if step_seen is Err {
                        lemma_concat_has_prefix("keychain write failed: "@, step_seen->Err_0.text@);
                    }
                }
                out
            },
        }
    }

    /// The secret of `account`: a missing entry is `Ok(None)`; a failure is
    /// a credential error naming the step that failed (opening the entry,
    /// or the read).
    fn get(&mut self, account: &str) -> (r: Result<Option<String>, AppError>)
        ensures
            r matches Err(e) ==> keychain_step_failure(e, "keychain read failed: "@),
    {
        match keyring_entry(KC_SERVICE, account) {
            Err(f) => {
                let e = open_failure(f);
                proof {
                    lemma_concat_has_prefix("keychain open failed: "@, f.text@);
                }
                Err(e)
            },
            Ok(entry) => {
                let step = keyring_get(&entry);
                let ghost step_seen = step;
                let out = read_outcome(step);
                proof {
                    if step_seen is Err {
                        lemma_concat_has_prefix("keychain read failed: "@, step_seen->Err_0.text@);
                    }
                }
                out
            },
        }
    }

    /// Forget the secret of `account` (a missing entry is success); a
    /// failure is a credential error naming the step that failed (opening
    /// the entry, or the delete).
    fn delete(&mut self, account: &str) -> (r: Result<(), AppError>)
        ensures
            r matches Err(e) ==> keychain_step_failure(e, "keychain delete failed: "@),
    {
        match keyring_entry(KC_SERVICE, account) {
            Err(f) => {
                let e = open_failure(f);
                proof {
                    lemma_concat_has_prefix("keychain open failed: "@, f.text@);
                }
                Err(e)
            },
            Ok(entry) => {
                let step = keyring_delete(&entry);
                let ghost step_seen = step;
                let out = delete_outcome(step);
                proof {
                    if step_seen is Err {
                        lemma_concat_has_prefix("keychain delete failed: "@, step_seen->Err_0.text@);
                    }
                }
                out
            },
        }
    }

    /// Write a sentinel, read it back, delete it: available iff the round
    /// trip returns the sentinel.
    fn probe(&mut self) -> (r: bool) {
        let write = self.set(PROBE_ACCOUNT, "1");
        if write.is_err() {
            return false;
        }
        let read = self.get(PROBE_ACCOUNT);
        let ok = probe_outcome(write, read);
        let _ = self.delete(PROBE_ACCOUNT);
        ok
    }
}

/// A process-local store (tests and headless runs).
#[derive(Debug)]
pub struct InMemoryBackend {
    store: SecretMap,
}

impl InMemoryBackend {
    #[verifier::type_invariant]
    spec fn store_wf(self) -> bool {
        self.store.wf()
    }

    /// An empty store.
    pub fn new() -> (r: InMemoryBackend)
        ensures
            r.contents() == Map::<Seq<char>, Seq<char>>::empty(),
    {
        InMemoryBackend { store: SecretMap::new() }
    }

    /// The secrets held, by account.
    pub closed spec fn contents(self) -> Map<Seq<char>, Seq<char>> {
        self.store@
    }

    /// Store `secret` for `account`.
    pub fn put(&mut self, account: &str, secret: &str)
        ensures
            final(self).contents() == old(self).contents().insert(account@, secret@),
    {
        proof {
            use_type_invariant(&*self);
        }
        let mut store = SecretMap::new();
        std::mem::swap(&mut store, &mut self.store);
        store.insert(account, secret);
        self.store = store;
    }

    /// The secret of `account`, if any.
    pub fn fetch(&self, account: &str) -> (r: Option<String>)
        ensures
            match r {
                Some(v) => self.contents().contains_key(account@) && self.contents()[account@] == v@,
                None => !self.contents().contains_key(account@),
            },
    {
        proof {
            use_type_invariant(self);
        }
        self.store.get(account)
    }

    /// Forget the secret of `account`.
    pub fn forget(&mut self, account: &str)
        ensures
            final(self).contents() == old(self).contents().remove(account@),
    {
        proof {
            use_type_invariant(&*self);
        }
        let mut store = SecretMap::new();
        std::mem::swap(&mut store, &mut self.store);
        store.remove(account);
        self.store = store;
    }
}

impl KeychainBackend for InMemoryBackend {
    fn set(&mut self, account: &str, secret: &str) -> (r: Result<(), AppError>)
        ensures
            r is Ok,
            final(self).contents() == old(self).contents().insert(account@, secret@),
    {
        self.put(account, secret);
        Ok(())
    }

    fn get(&mut self, account: &str) -> (r: Result<Option<String>, AppError>)
        ensures
            final(self).contents() == old(self).contents(),
            match r {
                Ok(Some(v)) => old(self).contents().contains_key(account@) && old(self).contents()[account@] == v@,
                Ok(None) => !old(self).contents().contains_key(account@),
                Err(_) => false,
            },
    {
        Ok(self.fetch(account))
    }

    fn delete(&mut self, account: &str) -> (r: Result<(), AppError>)
        ensures
            r is Ok,
            final(self).contents() == old(self).contents().remove(account@),
    {
        self.forget(account);
        Ok(())
    }

    fn probe(&mut self) -> (r: bool)
        ensures
            r,
            final(self).contents() == old(self).contents(),
    {
        true
    }
}

/// A backend that stores nothing and always reports unavailable, so every
/// secret goes to the fallback file.
#[derive(Debug, Default, Clone, Copy)]
pub struct NullBackend;

impl KeychainBackend for NullBackend {
    fn set(&mut self, account: &str, secret: &str) -> (r: Result<(), AppError>)
        ensures
            r is Ok,
    {
        Ok(())
    }

    fn get(&mut self, account: &str) -> (r: Result<Option<String>, AppError>)
        ensures
            r == Ok::<Option<String>, AppError>(None),
    {
        Ok(None)
    }

    fn delete(&mut self, account: &str) -> (r: Result<(), AppError>)
        ensures
            r is Ok,
    {
        Ok(())
    }

    fn probe(&mut self) -> (r: bool)
        ensures
            !r,
    {
        false
    }
}

} // verus!
