//! The two managed credentials, their placeholder tokens and store keys.
use vstd::prelude::*;

verus! {

/// Namespace under which every credential of this tool is stored.
pub const NAMESPACE: &'static str = "nucr";

/// Placeholder that stands for the user name in a checked-in file.
pub const USERNAME_TOKEN: &'static str = "#CI_USER#";

/// Placeholder that stands for the password in a checked-in file.
pub const PASSWORD_TOKEN: &'static str = "#CI_USER_PASSWORD#";

/// Store key of the user name.
pub const USERNAME_KEY: &'static str = "CI_USER";

/// Store key of the password.
pub const PASSWORD_KEY: &'static str = "CI_USER_PASSWORD";

/// One of the two secrets this tool manages.
#[derive(Clone, Copy, Debug, PartialEq, Eq, Structural)]
pub enum CredentialName {
    Username,
    Password,
}

impl CredentialName {
    pub open spec fn token_spec(self) -> Seq<char> {
        match self {
            CredentialName::Username => USERNAME_TOKEN@,
            CredentialName::Password => PASSWORD_TOKEN@,
        }
    }

    pub open spec fn key_spec(self) -> Seq<char> {
        match self {
            CredentialName::Username => USERNAME_KEY@,
            CredentialName::Password => PASSWORD_KEY@,
        }
    }

    /// The password is entered without echo; the user name is not.
    pub open spec fn masked_spec(self) -> bool {
        self == CredentialName::Password
    }

    /// The placeholder token of this credential.
    pub fn token(self) -> (r: &'static str)
        ensures
            r@ == self.token_spec(),
    {
        match self {
            CredentialName::Username => USERNAME_TOKEN,
            CredentialName::Password => PASSWORD_TOKEN,
        }
    }

    /// The key under which this credential is stored, also its prompt label.
    pub fn key(self) -> (r: &'static str)
        ensures
            r@ == self.key_spec(),
    {
        match self {
            CredentialName::Username => USERNAME_KEY,
            CredentialName::Password => PASSWORD_KEY,
        }
    }

    /// Whether input for this credential must not be echoed.
    pub fn masked(self) -> (r: bool)
        ensures
            r == self.masked_spec(),
    {
        match self {
            CredentialName::Username => false,
            CredentialName::Password => true,
        }
    }
}

/// A resolved pair of credential values.
pub struct Credentials {
    pub username: String,
    pub password: String,
}

impl Credentials {
    /// The value held for `name`.
    pub open spec fn value_spec(&self, name: CredentialName) -> Seq<char> {
        match name {
            CredentialName::Username => self.username@,
            CredentialName::Password => self.password@,
        }
    }
}

} // verus!
