//! The speech provider's API key in the OS credential vault (through the `keyring`
//! crate). The key is never written to the config file or logs. One key slot is shared
//! by whichever provider is selected.
//!
//! What the vault answers depends on the machine, so the functions that call it state
//! only which errors can come back; the functions that interpret an answer
//! ([`read_outcome`], [`save_outcome`], [`delete_outcome`], [`key_present`]) state it
//! exactly.

use vstd::prelude::*;

use keyring::Entry;

verus! {

/// The vault service name.
pub const SERVICE: &'static str = "VoiceForge";

/// The vault account name.
pub const ACCOUNT: &'static str = "stt-api-key";

#[verifier::external_type_specification]
#[verifier::external_body]
pub struct ExEntry(Entry);

/// A vault failure as plain values: whether it was "no such entry", and its text.
#[derive(Debug, Clone)]
pub struct VaultError {
    pub no_entry: bool,
    pub detail: String,
}

/// Why an API-key operation failed: the step, and the vault's own description.
#[derive(Debug, Clone)]
pub enum SecretsError {
    /// The vault entry could not be opened.
    OpenEntry(String),
    /// The key could not be saved.
    Save(String),
    /// The key could not be read.
    Read(String),
    /// The key could not be deleted.
    Delete(String),
}

pub enum SecretsErrorView {
    OpenEntry(Seq<char>),
    Save(Seq<char>),
    Read(Seq<char>),
    Delete(Seq<char>),
}

impl View for SecretsError {
    type V = SecretsErrorView;

    open spec fn view(&self) -> SecretsErrorView {
        match self {
            SecretsError::OpenEntry(d) => SecretsErrorView::OpenEntry(d@),
            SecretsError::Save(d) => SecretsErrorView::Save(d@),
            SecretsError::Read(d) => SecretsErrorView::Read(d@),
            SecretsError::Delete(d) => SecretsErrorView::Delete(d@),
        }
    }
}

/// The user-facing description of each failure.
pub open spec fn secrets_error_text(e: SecretsErrorView) -> Seq<char> {
    match e {
        SecretsErrorView::OpenEntry(_) => "opening credential vault entry"@,
        SecretsErrorView::Save(_) => "saving API key to credential vault"@,
        SecretsErrorView::Read(_) => "reading API key from credential vault"@,
        SecretsErrorView::Delete(_) => "deleting API key from credential vault"@,
    }
}

impl SecretsError {
    /// The user-facing description: which step failed.
    pub fn message(&self) -> (r: String)
        ensures
            r@ == secrets_error_text(self@),
    {
        match self {
            SecretsError::OpenEntry(_) => "opening credential vault entry".to_owned(),
            SecretsError::Save(_) => "saving API key to credential vault".to_owned(),
            SecretsError::Read(_) => "reading API key from credential vault".to_owned(),
            SecretsError::Delete(_) => "deleting API key from credential vault".to_owned(),
        }
    }
}

/// Calls `keyring::Entry::new`. Nothing is claimed of the result: it depends on the
/// platform's credential store. A failure is reported with its text and whether it was
/// `keyring::Error::NoEntry`.
#[verifier::external_body]
fn open_entry(service: &str, account: &str) -> (r: Result<Entry, VaultError>) {
    match Entry::new(service, account) {
        Ok(e) => Ok(e),
        Err(e) => Err(VaultError { no_entry: matches!(e, keyring::Error::NoEntry), detail: e.to_string() }),
    }
}

/// Calls `keyring::Entry::set_password`. Nothing is claimed of the result: it depends on
/// the credential store.
#[verifier::external_body]
fn entry_set_password(entry: &Entry, password: &str) -> (r: Result<(), VaultError>) {
    match entry.set_password(password) {
        Ok(()) => Ok(()),
        Err(e) => Err(VaultError { no_entry: matches!(e, keyring::Error::NoEntry), detail: e.to_string() }),
    }
}

/// Calls `keyring::Entry::get_password`. Nothing is claimed of the result: it depends on
/// what the credential store holds.
#[verifier::external_body]
fn entry_get_password(entry: &Entry) -> (r: Result<String, VaultError>) {
    match entry.get_password() {
        Ok(k) => Ok(k),
        Err(e) => Err(VaultError { no_entry: matches!(e, keyring::Error::NoEntry), detail: e.to_string() }),
    }
}

/// Calls `keyring::Entry::delete_credential`. Nothing is claimed of the result: it
/// depends on what the credential store holds.
#[verifier::external_body]
fn entry_delete_credential(entry: &Entry) -> (r: Result<(), VaultError>) {
    match entry.delete_credential() {
        Ok(()) => Ok(()),
        Err(e) => Err(VaultError { no_entry: matches!(e, keyring::Error::NoEntry), detail: e.to_string() }),
    }
}

/// Where the API key is kept in the credential vault: the service name and the account
/// name handed to the vault.
pub fn vault_target() -> (r: (&'static str, &'static str))
    ensures
        r.0@ == "VoiceForge"@,
        r.1@ == "stt-api-key"@,
{
    (SERVICE, ACCOUNT)
}

fn entry() -> (r: Result<Entry, SecretsError>)
    ensures
        r matches Err(e) ==> e is OpenEntry,
{
    let (service, account) = vault_target();
    match open_entry(service, account) {
        Ok(e) => Ok(e),
        Err(e) => Err(SecretsError::OpenEntry(e.detail)),
    }
}

/// What a read of the vault means: a stored key, no key ("no entry" is not an error), or
/// a read failure.
pub fn read_outcome(r: Result<String, VaultError>) -> (out: Result<Option<String>, SecretsError>)
    ensures
        match r {
            Ok(k) => out matches Ok(Some(k2)) && k2@ == k@,
            Err(e) => if e.no_entry {
                out matches Ok(None)
            } else {
                out matches Err(SecretsError::Read(d)) && d@ == e.detail@
            },
        },
{
    match r {
        Ok(k) => Ok(Some(k)),
        Err(e) => if e.no_entry {
            Ok(None)
        } else {
            Err(SecretsError::Read(e.detail))
        },
    }
}

/// What a save to the vault means.
pub fn save_outcome(r: Result<(), VaultError>) -> (out: Result<(), SecretsError>)
    ensures
        match r {
            Ok(()) => out is Ok,
            Err(e) => out matches Err(SecretsError::Save(d)) && d@ == e.detail@,
        },
{
    match r {
        Ok(()) => Ok(()),
        Err(e) => Err(SecretsError::Save(e.detail)),
    }
}

/// What a delete from the vault means: deleting a key that is not there succeeds.
pub fn delete_outcome(r: Result<(), VaultError>) -> (out: Result<(), SecretsError>)
    ensures
        match r {
            Ok(()) => out is Ok,
            Err(e) => if e.no_entry {
                out is Ok
            } else {
                out matches Err(SecretsError::Delete(d)) && d@ == e.detail@
            },
        },
{
    match r {
        Ok(()) => Ok(()),
        Err(e) => if e.no_entry {
            Ok(())
        } else {
            Err(SecretsError::Delete(e.detail))
        },
    }
}

/// Whether a read found a key.
pub fn key_present(r: &Result<Option<String>, SecretsError>) -> (b: bool)
    ensures
        b == (r matches Ok(Some(_))),
{
    match r {
        Ok(Some(_)) => true,
        _ => false,
    }
}

/// Stores (or overwrites) the API key in the OS credential vault.
pub fn set_api_key(key: &str) -> (r: Result<(), SecretsError>)
    ensures
        r matches Err(e) ==> (e is OpenEntry || e is Save),
{
    let e = entry()?;
    save_outcome(entry_set_password(&e, key))
}

/// Retrieves the API key, or `None` if none has been stored yet.
pub fn get_api_key() -> (r: Result<Option<String>, SecretsError>)
    ensures
        r matches Err(e) ==> (e is OpenEntry || e is Read),
{
    let e = entry()?;
    read_outcome(entry_get_password(&e))
}

/// Removes the stored API key, if present.
pub fn delete_api_key() -> (r: Result<(), SecretsError>)
    ensures
        r matches Err(e) ==> (e is OpenEntry || e is Delete),
{
    let e = entry()?;
    delete_outcome(entry_delete_credential(&e))
}

/// Whether an API key is currently stored.
pub fn has_api_key() -> bool {
    let r = get_api_key();
    key_present(&r)
}

} // verus!
