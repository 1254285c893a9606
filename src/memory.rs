//! A secret store held in memory, with the same answers as the vault.
use vstd::prelude::*;

use crate::credential::{CredentialName, Credentials};
use crate::report::{forget_message, forget_message_spec};
use crate::resolve::{after_lookup, check_input, prompt_for, Lookup, Prompter, ResolveError, Step};

verus! {

/// The value stored for `name` in `m`, if any.
pub open spec fn lookup_spec(m: Map<CredentialName, Seq<char>>, name: CredentialName) -> Option<
    Seq<char>,
> {
    if m.contains_key(name) {
        Some(m[name])
    } else {
        None
    }
}

/// The entries after a value `entered` at the prompt for `name` is accepted or refused.
pub open spec fn after_entry(
    m: Map<CredentialName, Seq<char>>,
    name: CredentialName,
    entered: Seq<char>,
) -> Map<CredentialName, Seq<char>> {
    if entered.len() == 0 {
        m
    } else {
        m.insert(name, entered)
    }
}

impl Lookup {
    /// The value found, if any.
    pub open spec fn found(self) -> Option<Seq<char>> {
        match self {
            Lookup::Found(v) => Some(v@),
            _ => None,
        }
    }
}

/// Credential values kept in memory, one slot per name.
pub struct MemoryStore {
    username: Option<String>,
    password: Option<String>,
}

impl View for MemoryStore {
    type V = Map<CredentialName, Seq<char>>;

    closed spec fn view(&self) -> Map<CredentialName, Seq<char>> {
        let user = match self.username {
            Some(v) => Map::empty().insert(CredentialName::Username, v@),
            None => Map::empty(),
        };
        match self.password {
            Some(v) => user.insert(CredentialName::Password, v@),
            None => user,
        }
    }
}

impl MemoryStore {
    /// A store with no entries.
    pub fn new() -> (r: MemoryStore)
        ensures
            r@ == Map::<CredentialName, Seq<char>>::empty(),
    {
        let r = MemoryStore { username: None, password: None };
        assert(r@ =~= Map::<CredentialName, Seq<char>>::empty());
        r
    }

    /// The value stored for `name`; a store in memory never fails.
    pub fn get(&self, name: CredentialName) -> (r: Lookup)
        ensures
            r.found() == lookup_spec(self@, name),
            !(r is Failed),
    {
        let slot = match name {
            CredentialName::Username => &self.username,
            CredentialName::Password => &self.password,
        };
        match slot {
            Some(v) => Lookup::Found(v.clone()),
            None => Lookup::Missing,
        }
    }

    /// Stores `value` for `name`, over any earlier value.
    pub fn set(&mut self, name: CredentialName, value: String)
        ensures
            final(self)@ == old(self)@.insert(name, value@),
    {
        match name {
            CredentialName::Username => self.username = Some(value),
            CredentialName::Password => self.password = Some(value),
        }
        assert(self@ =~= old(self)@.insert(name, value@));
    }

    /// Removes `name`; the result says whether it was stored.
    pub fn delete(&mut self, name: CredentialName) -> (r: bool)
        ensures
            r == old(self)@.contains_key(name),
            final(self)@ == old(self)@.remove(name),
    {
        let r = match name {
            CredentialName::Username => {
                let was = self.username.is_some();
                self.username = None;
                was
            },
            CredentialName::Password => {
                let was = self.password.is_some();
                self.password = None;
                was
            },
        };
        assert(self@ =~= old(self)@.remove(name));
        r
    }

    /// The first move of resolving `name`: use the stored value, or ask.
    pub fn begin_resolve(&self, name: CredentialName) -> (r: Step)
        ensures
            match lookup_spec(self@, name) {
                Some(v) => r is Use && r->Use_0@ == v,
                None => r is Ask,
            },
    {
        after_lookup(self.get(name))
    }

    /// The last move of resolving `name`, with what the prompt gave: an empty
    /// value is refused and nothing is stored; another is stored and returned.
    pub fn finish_resolve(&mut self, name: CredentialName, entered: Result<String, String>) -> (r:
        Result<String, ResolveError>)
        ensures
            match entered {
                Ok(v) => {
                    &&& final(self)@ == after_entry(old(self)@, name, v@)
                    &&& if v@.len() == 0 {
                        r is Err && r->Err_0 is EmptyInput
                    } else {
                        r == Ok::<String, ResolveError>(v)
                    }
                },
                Err(m) => {
                    &&& final(self)@ == old(self)@
                    &&& r == Err::<String, ResolveError>(ResolveError::Prompt(m))
                },
            },
    {
        match check_input(entered) {
            Ok(v) => {
                self.set(name, v.clone());
                Ok(v)
            },
            Err(e) => Err(e),
        }
    }

    /// Resolves `name`: the stored value if there is one; else the value the
    /// prompter gives, which is stored unless it is empty.
    pub fn resolve<P: Prompter>(&mut self, prompter: &mut P, name: CredentialName) -> (r: Result<
        String,
        ResolveError,
    >)
        ensures
            match lookup_spec(old(self)@, name) {
                Some(v) => r is Ok && r->Ok_0@ == v && final(self)@ == old(self)@,
                None => match r {
                    Ok(v) => v@.len() > 0 && final(self)@ == old(self)@.insert(name, v@),
                    Err(e) => (e is EmptyInput || e is Prompt) && final(self)@ == old(self)@,
                },
            },
    {
        match self.begin_resolve(name) {
            Step::Use(v) => Ok(v),
            Step::Fail(e) => Err(e),
            Step::Ask => {
                let entered = prompt_for(prompter, name);
                self.finish_resolve(name, entered)
            },
        }
    }

    /// Resolves the user name, then the password.
    pub fn resolve_credentials<P: Prompter>(&mut self, prompter: &mut P) -> (r: Result<
        Credentials,
        ResolveError,
    >)
        ensures
            r is Ok ==> {
                &&& lookup_spec(final(self)@, CredentialName::Username) == Some(r->Ok_0.username@)
                &&& lookup_spec(final(self)@, CredentialName::Password) == Some(r->Ok_0.password@)
            },
            lookup_spec(old(self)@, CredentialName::Username) is Some && lookup_spec(
                old(self)@,
                CredentialName::Password,
            ) is Some ==> {
                &&& r is Ok
                &&& r->Ok_0.username@ == old(self)@[CredentialName::Username]
                &&& r->Ok_0.password@ == old(self)@[CredentialName::Password]
                &&& final(self)@ == old(self)@
            },
            r is Err ==> r->Err_0 is EmptyInput || r->Err_0 is Prompt,
            lookup_spec(old(self)@, CredentialName::Username) is Some ==> lookup_spec(
                final(self)@,
                CredentialName::Username,
            ) == lookup_spec(old(self)@, CredentialName::Username),
            lookup_spec(old(self)@, CredentialName::Password) is Some ==> lookup_spec(
                final(self)@,
                CredentialName::Password,
            ) == lookup_spec(old(self)@, CredentialName::Password),
    {
        let username = match self.resolve(prompter, CredentialName::Username) {
            Ok(v) => v,
            Err(e) => return Err(e),
        };
        let password = match self.resolve(prompter, CredentialName::Password) {
            Ok(v) => v,
            Err(e) => return Err(e),
        };
        Ok(Credentials { username, password })
    }

    /// Deletes both credentials; one line for each says whether it was there.
    pub fn forget(&mut self) -> (r: Vec<String>)
        ensures
            final(self)@ == Map::<CredentialName, Seq<char>>::empty(),
            r@.len() == 2,
            r@[0]@ == forget_message_spec(
                CredentialName::Username,
                old(self)@.contains_key(CredentialName::Username),
            ),
            r@[1]@ == forget_message_spec(
                CredentialName::Password,
                old(self)@.contains_key(CredentialName::Password),
            ),
    {
        let user_deleted = self.delete(CredentialName::Username);
        let pass_deleted = self.delete(CredentialName::Password);
        assert(self@ =~= Map::<CredentialName, Seq<char>>::empty());
        vec![
            forget_message(CredentialName::Username, user_deleted),
            forget_message(CredentialName::Password, pass_deleted),
        ]
    }
}

/// A value entered at the prompt for a name the store lacks is, after it is
/// accepted, what the store answers for that name.
pub proof fn lemma_resolve_persists(
    m: Map<CredentialName, Seq<char>>,
    name: CredentialName,
    entered: Seq<char>,
)
    requires
        !m.contains_key(name),
        entered.len() > 0,
    ensures
        lookup_spec(after_entry(m, name, entered), name) == Some(entered),
{
}

/// An empty value entered at the prompt leaves the store as it was.
pub proof fn lemma_empty_input_not_stored(m: Map<CredentialName, Seq<char>>, name: CredentialName)
    ensures
        after_entry(m, name, Seq::<char>::empty()) == m,
{
}

} // verus!
