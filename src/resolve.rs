//! The resolve-or-prompt-and-persist policy, as decisions on plain values.
use vstd::prelude::*;

use crate::credential::CredentialName;

verus! {

/// What a secret store answered when asked for a credential.
pub enum Lookup {
    /// A value was stored.
    Found(String),
    /// Nothing was ever stored, or it was deleted.
    Missing,
    /// The store could not be read.
    Failed(keyring::Error),
}

/// Why a credential could not be resolved.
pub enum ResolveError {
    /// The value entered at the prompt was empty.
    EmptyInput,
    /// The prompt could not be read; the text says why.
    Prompt(String),
    /// The secret store failed.
    Store(keyring::Error),
}

/// The next move of a resolution after the store was asked.
pub enum Step {
    /// The stored value is the answer.
    Use(String),
    /// Nothing is stored: prompt for the value.
    Ask,
    /// Resolution fails.
    Fail(ResolveError),
}

/// Interactive input of a credential value.
pub trait Prompter {
    /// Reads a value for `label`, without echo where `masked`; an `Err` carries
    /// the reason the input could not be read.
    fn prompt(&mut self, label: &str, masked: bool) -> Result<String, String>;
}

/// A stored value is used as it is; a miss leads to a prompt; a store failure
/// ends the resolution.
pub fn after_lookup(lookup: Lookup) -> (r: Step)
    ensures
        match lookup {
            Lookup::Found(v) => r == Step::Use(v),
            Lookup::Missing => r is Ask,
            Lookup::Failed(e) => r == Step::Fail(ResolveError::Store(e)),
        },
{
    match lookup {
        Lookup::Found(v) => Step::Use(v),
        Lookup::Missing => Step::Ask,
        Lookup::Failed(e) => Step::Fail(ResolveError::Store(e)),
    }
}

/// What was entered at the prompt is accepted only when it is not empty.
pub fn check_input(entered: Result<String, String>) -> (r: Result<String, ResolveError>)
    ensures
        match entered {
            Ok(v) => if v@.len() == 0 {
                r is Err && r->Err_0 is EmptyInput
            } else {
                r == Ok::<String, ResolveError>(v)
            },
            Err(m) => r == Err::<String, ResolveError>(ResolveError::Prompt(m)),
        },
{
    match entered {
        Ok(v) => {
            if v.unicode_len() == 0 {
                Err(ResolveError::EmptyInput)
            } else {
                Ok(v)
            }
        },
        Err(m) => Err(ResolveError::Prompt(m)),
    }
}

/// An accepted value is the answer once the store took it; a failure to
/// store it is reported.
pub fn after_store(value: String, stored: Result<(), keyring::Error>) -> (r: Result<
    String,
    ResolveError,
>)
    ensures
        match stored {
            Ok(_) => r == Ok::<String, ResolveError>(value),
            Err(e) => r == Err::<String, ResolveError>(ResolveError::Store(e)),
        },
{
    match stored {
        Ok(_) => Ok(value),
        Err(e) => Err(ResolveError::Store(e)),
    }
}

/// The prompt label of a credential and whether its input is masked.
pub fn prompt_for<P: Prompter>(prompter: &mut P, name: CredentialName) -> Result<String, String> {
    prompter.prompt(name.key(), name.masked())
}

} // verus!
