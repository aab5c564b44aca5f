//! Registry credentials and where they are kept in the OS keyring.

use vstd::prelude::*;

use crate::error::cat2;
use crate::text::owned;

verus! {

/// Credentials for a registry.
#[derive(Debug)]
pub struct Credentials {
    /// Username for authentication.
    pub username: String,
    /// Password or token for authentication.
    pub password: String,
}

/// Store for registry credentials in the OS keyring: each registry has a
/// username entry and a password entry under the service "fabricks".
pub struct CredentialStore;

impl CredentialStore {
    /// The keyring service the entries belong to.
    pub fn service_name() -> (r: String)
        ensures
            r@ == "fabricks"@,
    {
        owned("fabricks")
    }

    /// The keyring entry of a registry's username.
    pub fn username_key(registry: &str) -> (r: String)
        ensures
            r@ == registry@ + ":username"@,
    {
        cat2(registry, ":username")
    }

    /// The keyring entry of a registry's password.
    pub fn password_key(registry: &str) -> (r: String)
        ensures
            r@ == registry@ + ":password"@,
    {
        cat2(registry, ":password")
    }
}

/// What reading or deleting one keyring entry gave.
#[derive(Debug)]
pub enum EntryOutcome<T> {
    /// The entry was there: what was read, or `()` for a deletion.
    Done(T),
    /// The entry does not exist.
    NoEntry,
    /// The keyring failed, with its message.
    Failed(String),
}

/// A keyring failure: what was being done, and the keyring's message.
#[derive(Debug)]
pub struct CredentialError {
    /// What was being done, e.g. "failed to read username from keyring".
    pub context: String,
    /// The keyring's message.
    pub cause: String,
}

/// The next step of looking up a registry's credentials.
#[derive(Debug)]
pub enum LookupStep {
    /// The username was read: read the password next.
    ReadPassword { username: String },
    /// The lookup is over.
    Finished(Result<Option<Credentials>, CredentialError>),
}

impl CredentialStore {
    /// After reading the username entry: a missing entry means no
    /// credentials, a failure ends the lookup with an error, a username
    /// leads on to the password.
    pub fn after_username_read(read: EntryOutcome<String>) -> (r: LookupStep)
        ensures
            read matches EntryOutcome::Done(u) ==> (r matches LookupStep::ReadPassword { username } && username == u),
            read is NoEntry ==> (r matches LookupStep::Finished(Ok(None))),
            read matches EntryOutcome::Failed(m) ==> (r matches LookupStep::Finished(Err(e))
                && e.context@ == "failed to read username from keyring"@ && e.cause == m),
    {
        match read {
            EntryOutcome::Done(username) => LookupStep::ReadPassword { username },
            EntryOutcome::NoEntry => LookupStep::Finished(Ok(None)),
            EntryOutcome::Failed(cause) => LookupStep::Finished(Err(CredentialError {
                context: owned("failed to read username from keyring"),
                cause,
            })),
        }
    }

    /// After reading the password entry: the credentials, none when the
    /// entry is missing, or an error.
    pub fn after_password_read(username: String, read: EntryOutcome<String>) -> (r: Result<Option<Credentials>, CredentialError>)
        ensures
            read matches EntryOutcome::Done(p) ==> (r matches Ok(Some(c)) && c.username == username && c.password == p),
            read is NoEntry ==> (r matches Ok(None)),
            read matches EntryOutcome::Failed(m) ==> (r matches Err(e)
                && e.context@ == "failed to read password from keyring"@ && e.cause == m),
    {
        match read {
            EntryOutcome::Done(password) => Ok(Some(Credentials { username, password })),
            EntryOutcome::NoEntry => Ok(None),
            EntryOutcome::Failed(cause) => Err(CredentialError {
                context: owned("failed to read password from keyring"),
                cause,
            }),
        }
    }

    /// Whether deleting one entry removed it: `false` when it did not
    /// exist, an error when the keyring failed.
    pub fn entry_removed(what: &str, deleted: EntryOutcome<()>) -> (r: Result<bool, CredentialError>)
        ensures
            deleted is Done ==> r == Ok::<bool, CredentialError>(true),
            deleted is NoEntry ==> r == Ok::<bool, CredentialError>(false),
            deleted matches EntryOutcome::Failed(m) ==> (r matches Err(e)
                && e.context@ == "failed to delete "@ + what@ + " from keyring"@ && e.cause == m),
    {
        match deleted {
            EntryOutcome::Done(()) => Ok(true),
            EntryOutcome::NoEntry => Ok(false),
            EntryOutcome::Failed(cause) => {
                let mut context = owned("failed to delete ");
                crate::text::push_str(&mut context, what);
                crate::text::push_str(&mut context, " from keyring");
                Err(CredentialError { context, cause })
            },
        }
    }
}

} // verus!
