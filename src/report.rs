//! The lines the tool reports to its user.
use vstd::prelude::*;

use crate::credential::CredentialName;

verus! {

/// `a` followed by `b`.
pub fn joined(a: &str, b: &str) -> (r: String)
    ensures
        r@ == a@ + b@,
{
    let mut r = String::from_str(a);
    r.append(b);
    r
}

pub open spec fn forget_message_spec(name: CredentialName, deleted: bool) -> Seq<char> {
    name.key_spec() + if deleted {
        " deleted"@
    } else {
        " not found"@
    }
}

/// What forgetting `name` reports: whether a stored value was deleted.
pub fn forget_message(name: CredentialName, deleted: bool) -> (r: String)
    ensures
        r@ == forget_message_spec(name, deleted),
{
    if deleted {
        joined(name.key(), " deleted")
    } else {
        joined(name.key(), " not found")
    }
}

/// The outcome of Forget from the two deletions, the user name's first: a
/// failed deletion ends it with that error; else one line for each name.
pub fn after_deletions(
    user: Result<bool, keyring::Error>,
    pass: Result<bool, keyring::Error>,
) -> (r: Result<Vec<String>, keyring::Error>)
    ensures
        match user {
            Err(e) => r == Err::<Vec<String>, keyring::Error>(e),
            Ok(du) => match pass {
                Err(e) => r == Err::<Vec<String>, keyring::Error>(e),
                Ok(dp) => {
                    &&& r is Ok
                    &&& r->Ok_0@.len() == 2
                    &&& r->Ok_0@[0]@ == forget_message_spec(CredentialName::Username, du)
                    &&& r->Ok_0@[1]@ == forget_message_spec(CredentialName::Password, dp)
                },
            },
        },
{
    match user {
        Err(e) => Err(e),
        Ok(du) => match pass {
            Err(e) => Err(e),
            Ok(dp) => Ok(
                vec![
                    forget_message(CredentialName::Username, du),
                    forget_message(CredentialName::Password, dp),
                ],
            ),
        },
    }
}

} // verus!
