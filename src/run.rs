//! What one run of the tool does with the candidate files it finds.
use vstd::prelude::*;

use crate::credential::Credentials;
use crate::report::joined;
use crate::transform::{apply_forward, apply_inverse, forward, inverse};

verus! {

/// The configuration file tried first.
pub const MAIN_CONFIG: &'static str = "./NuGet.Config";

/// The configuration file tried second.
pub const DEBUG_CONFIG: &'static str = "./NuGet.Config.Debug";

/// What the run was asked to do.
#[derive(Clone, Copy, Debug, PartialEq, Eq, Structural)]
pub enum Mode {
    /// Put the credential values in place of the placeholders.
    Replace,
    /// Put the placeholders back in place of the values.
    Undo,
    /// Delete the stored credentials.
    Forget,
}

pub open spec fn mode_or_default_spec(requested: Option<Mode>) -> Mode {
    match requested {
        Some(m) => m,
        None => Mode::Replace,
    }
}

/// Replace is what a run does when no mode is named.
pub fn mode_or_default(requested: Option<Mode>) -> (r: Mode)
    ensures
        r == mode_or_default_spec(requested),
{
    match requested {
        Some(m) => m,
        None => Mode::Replace,
    }
}

/// The candidate files, in the order in which they are processed.
pub fn candidate_paths() -> (r: Vec<&'static str>)
    ensures
        r@.len() == 2,
        r@[0]@ == MAIN_CONFIG@,
        r@[1]@ == DEBUG_CONFIG@,
{
    vec![MAIN_CONFIG, DEBUG_CONFIG]
}

/// What a run reports when no candidate file exists.
pub fn no_target_message() -> (r: &'static str)
    ensures
        r@ == "NuGet.Config or NuGet.Config.Debug are not found in current directory"@,
{
    "NuGet.Config or NuGet.Config.Debug are not found in current directory"
}

/// The work of one run, given which candidates exist.
pub enum Plan {
    /// No candidate exists: report it and stop, successfully.
    NoTarget,
    /// Delete both credentials and clear the version-control flag of every
    /// candidate, once.
    ForgetAll,
    /// Transform the candidates at these indices, in this order.
    Files(Mode, Vec<usize>),
}

/// The indices `i < n` with `present[i]`, in increasing order.
pub open spec fn present_indices(present: Seq<bool>, n: int) -> Seq<usize>
    decreases n,
{
    if n <= 0 {
        Seq::empty()
    } else if present[n - 1] {
        present_indices(present, n - 1).push((n - 1) as usize)
    } else {
        present_indices(present, n - 1)
    }
}

/// Decides the run: nothing when no candidate exists; Forget once, whatever
/// exists; else the requested transform on each existing candidate.
pub fn plan(requested: Option<Mode>, present: &Vec<bool>) -> (r: Plan)
    ensures
        !present@.contains(true) ==> r is NoTarget,
        present@.contains(true) && requested == Some(Mode::Forget) ==> r is ForgetAll,
        present@.contains(true) && requested != Some(Mode::Forget) ==> r is Files && r->Files_0
            == mode_or_default_spec(requested) && r->Files_1@ == present_indices(
            present@,
            present@.len() as int,
        ),
{
    let mut found: Vec<usize> = Vec::new();
    let mut i: usize = 0;
    while i < present.len()
        invariant
            i <= present@.len(),
            found@ == present_indices(present@, i as int),
            found@.len() == 0 <==> forall|j: int| 0 <= j < i ==> !present@[j],
        decreases present@.len() - i,
    {
        if present[i] {
            found.push(i);
        }
        i = i + 1;
    }
    if found.len() == 0 {
        assert(!present@.contains(true));
        return Plan::NoTarget;
    }
    assert(present@.contains(true)) by {
        let j = choose|j: int| 0 <= j < present@.len() && present@[j];
    }
    match requested {
        Some(Mode::Forget) => Plan::ForgetAll,
        _ => Plan::Files(mode_or_default(requested), found),
    }
}

/// Why a candidate file could not be used.
pub enum LoadError {
    /// The file exists and is empty; the path is given.
    Empty(String),
}

/// Accepts the text read from `path` unless it is empty.
pub fn check_loaded(path: &str, content: String) -> (r: Result<String, LoadError>)
    ensures
        content@.len() == 0 ==> r is Err && r->Err_0->Empty_0@ == path@,
        content@.len() > 0 ==> r == Ok::<String, LoadError>(content),
{
    if content.unicode_len() == 0 {
        Err(LoadError::Empty(String::from_str(path)))
    } else {
        Ok(content)
    }
}

/// What to do with one candidate file after its transform.
pub struct FileUpdate {
    /// The new text to write, when it differs from the old.
    pub write: Option<String>,
    /// The version-control "assume unchanged" flag to set after writing:
    /// set after Replace, cleared after Undo.
    pub assume_unchanged: bool,
    /// The line reported for the file.
    pub message: String,
}

pub open spec fn update_message_spec(mode: Mode, path: Seq<char>, changed: bool) -> Seq<char> {
    if mode == Mode::Undo {
        if changed {
            "Credentials are removed from "@ + path
        } else {
            "No credentials to remove from "@ + path
        }
    } else {
        if changed {
            "Credentials are set to "@ + path
        } else {
            "Credentials are already set to "@ + path
        }
    }
}

/// The line reported for `path` after a transform in `mode`.
pub fn update_message(mode: Mode, path: &str, changed: bool) -> (r: String)
    ensures
        r@ == update_message_spec(mode, path@, changed),
{
    match mode {
        Mode::Undo => if changed {
            joined("Credentials are removed from ", path)
        } else {
            joined("No credentials to remove from ", path)
        },
        _ => if changed {
            joined("Credentials are set to ", path)
        } else {
            joined("Credentials are already set to ", path)
        },
    }
}

/// Transforms the text of `path`: forward for Replace, inverse for Undo. The
/// file is to be written, and its flag toggled, only when the text changed.
pub fn update_for(mode: Mode, path: &str, content: &str, credentials: &Credentials) -> (r:
    FileUpdate)
    requires
        mode != Mode::Forget,
    ensures
        ({
            let new_text = if mode == Mode::Undo {
                inverse(content@, credentials.username@, credentials.password@)
            } else {
                forward(content@, credentials.username@, credentials.password@)
            };
            let changed = new_text != content@;
            &&& changed ==> r.write is Some && r.write->Some_0@ == new_text
            &&& !changed ==> r.write is None
            &&& r.assume_unchanged == (mode == Mode::Replace)
            &&& r.message@ == update_message_spec(mode, path@, changed)
        }),
{
    let t = if mode == Mode::Undo {
        apply_inverse(content, credentials)
    } else {
        apply_forward(content, credentials)
    };
    let message = update_message(mode, path, t.changed);
    let write = if t.changed {
        Some(t.content)
    } else {
        None
    };
    FileUpdate { write, assume_unchanged: mode == Mode::Replace, message }
}

} // verus!
