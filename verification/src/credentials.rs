//! Where the login cookie is kept between runs.

use vstd::prelude::*;
use crate::models::text_view;

verus! {

pub const BILIBILI_ACCOUNT: &'static str = "bilibili";

#[derive(Debug, Clone, Copy, PartialEq, Eq, Structural)]
pub enum CredentialStoreError {
    Unavailable,
}

/// A place that keeps at most one login cookie.
///
/// A store implemented in verified code may give a model of what it holds
/// (`modeled`, `stored`) and may promise that its operations never fail
/// (`reliable`). A store implemented outside (the system keyring, in the
/// host application) keeps the defaults: no model, no promise, and then the
/// contracts below state nothing of it beyond what holds of every outcome.
pub trait CredentialStore {
    /// Whether `stored` describes what the store holds.
    closed spec fn modeled(&self) -> bool {
        false
    }

    /// Whether every load, save and clear of the store succeeds.
    closed spec fn reliable(&self) -> bool {
        false
    }

    /// The credential the store holds, where it is `modeled`.
    closed spec fn stored(&self) -> Option<Seq<char>> {
        None
    }

    /// The credential held, where the store can be read.
    fn load(&self) -> (r: Result<Option<String>, CredentialStoreError>)
        ensures
            self.modeled() ==> (r matches Ok(v) ==> text_view(v) == self.stored()),
            self.reliable() ==> r is Ok,
    ;

    /// Keeps `value` as the credential, where the store can be written.
    fn save(&mut self, value: &str) -> (r: Result<(), CredentialStoreError>)
        ensures
            final(self).modeled() == old(self).modeled(),
            final(self).reliable() == old(self).reliable(),
            old(self).modeled() ==> (r is Ok ==> final(self).stored() == Some(value@)),
            old(self).reliable() ==> r is Ok,
    ;

    /// Forgets the credential, where the store can be written.
    fn clear(&mut self) -> (r: Result<(), CredentialStoreError>)
        ensures
            final(self).modeled() == old(self).modeled(),
            final(self).reliable() == old(self).reliable(),
            old(self).modeled() ==> (r is Ok ==> final(self).stored() is None),
            old(self).reliable() ==> r is Ok,
    ;
}

/// The operating system's keyring entry for `service` and the Bilibili
/// account; the host application reaches the keyring itself.
pub struct KeyringCredentialStore {
    service: String,
}

impl KeyringCredentialStore {
    pub fn new(service: String) -> (r: Self)
        ensures
            r.service() == service,
    {
        KeyringCredentialStore { service }
    }

    pub closed spec fn service(&self) -> String {
        self.service
    }

    pub fn service_name(&self) -> (r: &String)
        ensures
            *r == self.service(),
    {
        &self.service
    }
}

/// How a keyring read ended, as the keyring reports it.
pub enum KeyringRead {
    Found(String),
    NoEntry,
    Failed,
}

/// A keyring read as a credential: a missing entry is no credential.
pub fn keyring_load_result(read: KeyringRead) -> (r: Result<Option<String>, CredentialStoreError>)
    ensures
        match read {
            KeyringRead::Found(v) => r == Ok::<Option<String>, CredentialStoreError>(Some(v)),
            KeyringRead::NoEntry => r == Ok::<Option<String>, CredentialStoreError>(None),
            KeyringRead::Failed => r == Err::<Option<String>, CredentialStoreError>(
                CredentialStoreError::Unavailable,
            ),
        },
{
    match read {
        KeyringRead::Found(v) => Ok(Some(v)),
        KeyringRead::NoEntry => Ok(None),
        KeyringRead::Failed => Err(CredentialStoreError::Unavailable),
    }
}

/// A keyring deletion as a credential clear: deleting a missing entry
/// succeeds.
pub fn keyring_clear_result(deleted: bool, no_entry: bool) -> (r: Result<(), CredentialStoreError>)
    ensures
        r is Ok <==> (deleted || no_entry),
{
    if deleted || no_entry {
        Ok(())
    } else {
        Err(CredentialStoreError::Unavailable)
    }
}

/// A credential store that lives in memory only.
pub struct MemoryCredentialStore {
    value: Option<String>,
}

impl MemoryCredentialStore {
    /// An empty store.
    pub fn new() -> (r: Self)
        ensures
            r.modeled(),
            r.reliable(),
            r.stored() is None,
    {
        MemoryCredentialStore { value: None }
    }
}

impl CredentialStore for MemoryCredentialStore {
    closed spec fn modeled(&self) -> bool {
        true
    }

    closed spec fn reliable(&self) -> bool {
        true
    }

    closed spec fn stored(&self) -> Option<Seq<char>> {
        text_view(self.value)
    }

    fn load(&self) -> (r: Result<Option<String>, CredentialStoreError>)
        ensures
            r is Ok,
    {
        match &self.value {
            Some(v) => Ok(Some(v.clone())),
            None => Ok(None),
        }
    }

    fn save(&mut self, value: &str) -> (r: Result<(), CredentialStoreError>)
        ensures
            r is Ok,
            final(self).stored() == Some(value@),
    {
        self.value = Some(value.to_owned());
        Ok(())
    }

    fn clear(&mut self) -> (r: Result<(), CredentialStoreError>)
        ensures
            r is Ok,
            final(self).stored() is None,
    {
        self.value = None;
        Ok(())
    }
}

} // verus!
