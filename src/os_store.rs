//! The operating system's credential vault, reached through the keyring crate.
use vstd::prelude::*;

use crate::credential::{CredentialName, Credentials, NAMESPACE};
use crate::report::{after_deletions, forget_message_spec};
use crate::resolve::{
    after_lookup, after_store, check_input, prompt_for, Lookup, Prompter, ResolveError, Step,
};

verus! {

#[verifier::external_type_specification]
#[verifier::external_body]
pub struct ExKeyringError(keyring::Error);

#[verifier::external_type_specification]
#[verifier::external_body]
pub struct ExKeyringEntry(keyring::Entry);

/// Relies on keyring::Entry::new: the vault entry of `user` under `service`.
#[verifier::external_body]
fn entry_for(service: &str, user: &str) -> Result<keyring::Entry, keyring::Error> {
    keyring::Entry::new(service, user)
}

/// Relies on keyring::Entry::get_password: the stored value, with the
/// `NoEntry` error told apart as a miss.
#[verifier::external_body]
fn read_entry(entry: &keyring::Entry) -> Lookup {
    match entry.get_password() {
        Ok(v) => Lookup::Found(v),
        Err(keyring::Error::NoEntry) => Lookup::Missing,
        Err(e) => Lookup::Failed(e),
    }
}

/// Relies on keyring::Entry::set_password: stores `value` in the entry.
#[verifier::external_body]
fn write_entry(entry: &keyring::Entry, value: &str) -> Result<(), keyring::Error> {
    entry.set_password(value)
}

/// Relies on keyring::Entry::delete_credential: `Ok(true)` when a credential
/// was deleted, `Ok(false)` on the `NoEntry` error.
#[verifier::external_body]
fn erase_entry(entry: &keyring::Entry) -> Result<bool, keyring::Error> {
    match entry.delete_credential() {
        Ok(()) => Ok(true),
        Err(keyring::Error::NoEntry) => Ok(false),
        Err(e) => Err(e),
    }
}

/// The secret store of the keyring crate's default credential builder, under
/// one namespace. Which vault that is depends on keyring's platform features;
/// without one it is keyring's mock store, which keeps nothing between entries.
pub struct OsStore {
    namespace: String,
}

impl OsStore {
    /// The namespace under which this store keeps its entries.
    pub closed spec fn namespace(&self) -> Seq<char> {
        self.namespace@
    }

    /// The store under the tool's own namespace.
    pub fn new() -> (r: OsStore)
        ensures
            r.namespace() == NAMESPACE@,
    {
        OsStore { namespace: String::from_str(NAMESPACE) }
    }

    /// The store under another namespace, apart from the tool's entries.
    pub fn with_namespace(namespace: &str) -> (r: OsStore)
        ensures
            r.namespace() == namespace@,
    {
        OsStore { namespace: String::from_str(namespace) }
    }

    /// Asks the vault for `name`.
    pub fn get(&self, name: CredentialName) -> Lookup {
        match entry_for(self.namespace.as_str(), name.key()) {
            Ok(entry) => read_entry(&entry),
            Err(e) => Lookup::Failed(e),
        }
    }

    /// The first move of resolving `name`: use what the vault holds, ask when
    /// it holds nothing, or fail.
    pub fn begin_resolve(&self, name: CredentialName) -> (r: Step)
        ensures
            r is Fail ==> r->Fail_0 is Store,
    {
        after_lookup(self.get(name))
    }

    /// The last move of resolving `name`, with what the prompt gave: an empty
    /// value is refused before the vault is touched; another is stored and is
    /// the answer unless storing fails.
    pub fn finish_resolve(&self, name: CredentialName, entered: Result<String, String>) -> (r:
        Result<String, ResolveError>)
        ensures
            match entered {
                Ok(v) => if v@.len() == 0 {
                    r is Err && r->Err_0 is EmptyInput
                } else {
                    r == Ok::<String, ResolveError>(v) || (r is Err && r->Err_0 is Store)
                },
                Err(m) => r == Err::<String, ResolveError>(ResolveError::Prompt(m)),
            },
    {
        match check_input(entered) {
            Ok(v) => {
                match entry_for(self.namespace.as_str(), name.key()) {
                    Ok(entry) => {
                        let stored = write_entry(&entry, v.as_str());
                        after_store(v, stored)
                    },
                    Err(e) => Err(ResolveError::Store(e)),
                }
            },
            Err(e) => Err(e),
        }
    }

    /// Deletes `name` from the vault: `Ok(true)` when it was there,
    /// `Ok(false)` when there was nothing to delete.
    pub fn delete(&self, name: CredentialName) -> Result<bool, keyring::Error> {
        match entry_for(self.namespace.as_str(), name.key()) {
            Ok(entry) => erase_entry(&entry),
            Err(e) => Err(e),
        }
    }

    /// Resolves `name`: the vault's value if it holds one; else the value the
    /// prompter gives, which is stored unless it is empty.
    pub fn resolve<P: Prompter>(&self, prompter: &mut P, name: CredentialName) -> Result<
        String,
        ResolveError,
    > {
        match self.begin_resolve(name) {
            Step::Use(v) => Ok(v),
            Step::Fail(e) => Err(e),
            Step::Ask => {
                let entered = prompt_for(prompter, name);
                self.finish_resolve(name, entered)
            },
        }
    }

    /// Resolves the user name, then the password.
    pub fn resolve_credentials<P: Prompter>(&self, prompter: &mut P) -> Result<
        Credentials,
        ResolveError,
    > {
        let username = match self.resolve(prompter, CredentialName::Username) {
            Ok(v) => v,
            Err(e) => return Err(e),
        };
        let password = match self.resolve(prompter, CredentialName::Password) {
            Ok(v) => v,
            Err(e) => return Err(e),
        };
        Ok(Credentials { username, password })
    }

    /// Deletes both credentials from the vault, the user name first; one line
    /// for each says whether it was there, and the first failure ends Forget.
    pub fn forget(&self) -> (r: Result<Vec<String>, keyring::Error>)
        ensures
            r is Ok ==> {
                &&& r->Ok_0@.len() == 2
                &&& (r->Ok_0@[0]@ == forget_message_spec(CredentialName::Username, true)
                    || r->Ok_0@[0]@ == forget_message_spec(CredentialName::Username, false))
                &&& (r->Ok_0@[1]@ == forget_message_spec(CredentialName::Password, true)
                    || r->Ok_0@[1]@ == forget_message_spec(CredentialName::Password, false))
            },
    {
        let user = self.delete(CredentialName::Username);
        let pass = self.delete(CredentialName::Password);
        after_deletions(user, pass)
    }
}

} // verus!
