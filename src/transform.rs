//! Forward (placeholder to value) and inverse (value to placeholder) transforms
//! of a configuration file's text.
use vstd::prelude::*;

use crate::credential::{Credentials, PASSWORD_TOKEN, USERNAME_TOKEN};
use crate::text::{
    contains, count_char, lemma_marked_absent, lemma_replaced_absent, lemma_replaced_count,
    lemma_replaced_keeps_out, lemma_replaced_round_trip, marks, replace_all, replaced,
};

verus! {

/// The text after placeholders are replaced by the values `user` and `pass`.
pub open spec fn forward(c: Seq<char>, user: Seq<char>, pass: Seq<char>) -> Seq<char> {
    replaced(replaced(c, USERNAME_TOKEN@, user), PASSWORD_TOKEN@, pass)
}

/// The text after the values `user` and `pass` are replaced by placeholders.
pub open spec fn inverse(c: Seq<char>, user: Seq<char>, pass: Seq<char>) -> Seq<char> {
    replaced(replaced(c, user, USERNAME_TOKEN@), pass, PASSWORD_TOKEN@)
}

/// Either placeholder occurs in `c`.
pub open spec fn has_token(c: Seq<char>) -> bool {
    contains(c, USERNAME_TOKEN@) || contains(c, PASSWORD_TOKEN@)
}

/// The result of a transform: the new text, and whether it differs from the old.
pub struct Transformed {
    pub content: String,
    pub changed: bool,
}

/// Replaces each placeholder by its credential value.
pub fn apply_forward(content: &str, credentials: &Credentials) -> (r: Transformed)
    ensures
        r.content@ == forward(content@, credentials.username@, credentials.password@),
        r.changed == (r.content@ != content@),
{
    let step = replace_all(content, USERNAME_TOKEN, credentials.username.as_str());
    let done = replace_all(step.as_str(), PASSWORD_TOKEN, credentials.password.as_str());
    let original = String::from_str(content);
    let changed = !(done == original);
    Transformed { content: done, changed }
}

/// Replaces each credential value by its placeholder.
pub fn apply_inverse(content: &str, credentials: &Credentials) -> (r: Transformed)
    ensures
        r.content@ == inverse(content@, credentials.username@, credentials.password@),
        r.changed == (r.content@ != content@),
{
    let step = replace_all(content, credentials.username.as_str(), USERNAME_TOKEN);
    let done = replace_all(step.as_str(), credentials.password.as_str(), PASSWORD_TOKEN);
    let original = String::from_str(content);
    let changed = !(done == original);
    Transformed { content: done, changed }
}

proof fn lemma_tokens_hold_hash()
    ensures
        USERNAME_TOKEN@.contains('#'),
        PASSWORD_TOKEN@.contains('#'),
{
    reveal_strlit("#CI_USER#");
    reveal_strlit("#CI_USER_PASSWORD#");
    assert(USERNAME_TOKEN@[0] == '#');
    assert(PASSWORD_TOKEN@[0] == '#');
}

/// Text without placeholders passes through the forward transform unchanged.
pub proof fn lemma_forward_without_tokens(c: Seq<char>, user: Seq<char>, pass: Seq<char>)
    requires
        !has_token(c),
    ensures
        forward(c, user, pass) == c,
{
    lemma_replaced_absent(c, USERNAME_TOKEN@, user);
    lemma_replaced_absent(c, PASSWORD_TOKEN@, pass);
}

/// Text that holds neither value passes through the inverse transform unchanged.
pub proof fn lemma_inverse_without_values(c: Seq<char>, user: Seq<char>, pass: Seq<char>)
    requires
        !contains(c, user),
        !contains(c, pass),
    ensures
        inverse(c, user, pass) == c,
{
    lemma_replaced_absent(c, user, USERNAME_TOKEN@);
    lemma_replaced_absent(c, pass, PASSWORD_TOKEN@);
}

/// The forward transform leaves the text unchanged exactly when it holds no
/// placeholder, for values that do not hold the placeholders' delimiter `#`.
pub proof fn lemma_forward_change_detection(c: Seq<char>, user: Seq<char>, pass: Seq<char>)
    requires
        !user.contains('#'),
        !pass.contains('#'),
    ensures
        (forward(c, user, pass) == c) <==> !has_token(c),
{
    if has_token(c) {
        lemma_tokens_hold_hash();
        let step = replaced(c, USERNAME_TOKEN@, user);
        lemma_replaced_count(c, USERNAME_TOKEN@, user, '#');
        lemma_replaced_count(step, PASSWORD_TOKEN@, pass, '#');
        if !contains(c, USERNAME_TOKEN@) {
            lemma_replaced_absent(c, USERNAME_TOKEN@, user);
        }
        assert(count_char(forward(c, user, pass), '#') < count_char(c, '#'));
    } else {
        lemma_forward_without_tokens(c, user, pass);
    }
}

/// Once the forward transform has left no placeholder behind, applying it a
/// second time with the same values changes nothing.
pub proof fn lemma_forward_idempotent(c: Seq<char>, user: Seq<char>, pass: Seq<char>)
    requires
        !has_token(forward(c, user, pass)),
    ensures
        forward(forward(c, user, pass), user, pass) == forward(c, user, pass),
{
    lemma_forward_without_tokens(forward(c, user, pass), user, pass);
}

/// Round trip where the text holds only user placeholders: when each value
/// carries a character found once in it and nowhere in the text, and the user
/// pass leaves no password placeholder, the inverse transform restores the
/// text that the forward transform was given.
pub proof fn lemma_round_trip_user_placeholders(
    c: Seq<char>,
    user: Seq<char>,
    pass: Seq<char>,
    x: char,
    i: int,
    y: char,
    j: int,
)
    requires
        marks(user, x, i),
        marks(pass, y, j),
        !c.contains(x),
        !c.contains(y),
        !contains(replaced(c, USERNAME_TOKEN@, user), PASSWORD_TOKEN@),
    ensures
        inverse(forward(c, user, pass), user, pass) == c,
{
    reveal_strlit("#CI_USER#");
    assert(USERNAME_TOKEN@.len() > 0);
    let step = replaced(c, USERNAME_TOKEN@, user);
    lemma_replaced_absent(step, PASSWORD_TOKEN@, pass);
    lemma_replaced_round_trip(c, USERNAME_TOKEN@, user, x, i);
    lemma_marked_absent(c, pass, y, j);
    lemma_replaced_absent(c, pass, PASSWORD_TOKEN@);
}

/// Round trip where the text holds no user placeholder: when each value
/// carries a character found once in it and nowhere in the text, and the
/// password does not hold the user name's character, the inverse transform
/// restores the text that the forward transform was given.
pub proof fn lemma_round_trip_password_placeholders(
    c: Seq<char>,
    user: Seq<char>,
    pass: Seq<char>,
    x: char,
    i: int,
    y: char,
    j: int,
)
    requires
        marks(user, x, i),
        marks(pass, y, j),
        !c.contains(x),
        !c.contains(y),
        !pass.contains(x),
        !contains(c, USERNAME_TOKEN@),
    ensures
        inverse(forward(c, user, pass), user, pass) == c,
{
    reveal_strlit("#CI_USER_PASSWORD#");
    assert(PASSWORD_TOKEN@.len() > 0);
    lemma_replaced_absent(c, USERNAME_TOKEN@, user);
    let d = replaced(c, PASSWORD_TOKEN@, pass);
    lemma_replaced_keeps_out(c, PASSWORD_TOKEN@, pass, x);
    lemma_marked_absent(d, user, x, i);
    lemma_replaced_absent(d, user, USERNAME_TOKEN@);
    lemma_replaced_round_trip(c, PASSWORD_TOKEN@, pass, y, j);
}

} // verus!
