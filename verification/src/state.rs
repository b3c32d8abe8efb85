//! The state file: a single-line dotfile holding the selected profile, read
//! by an external shell hook to export `AWS_PROFILE`. Choosing `default` is
//! recorded as an empty file.

use crate::default_name;
use crate::text::str_eq;
use vstd::prelude::*;

verus! {

/// What the state file holds for a chosen profile: the empty string stands
/// for `default`, any other name is written as it is.
pub open spec fn state_content(p: Seq<char>) -> Seq<char> {
    if p == default_name() {
        Seq::empty()
    } else {
        p
    }
}

/// The profile a reader of the state file comes back with: an empty file
/// means `default`.
pub open spec fn profile_of_state(content: Seq<char>) -> Seq<char> {
    if content.len() == 0 {
        default_name()
    } else {
        content
    }
}

/// Derives the exact content written to the state file for a chosen profile:
/// empty for `default`, otherwise the name with nothing added.
pub fn state_file_content(profile_choice: &str) -> (r: String)
    ensures
        r@ == state_content(profile_choice@),
{
    if str_eq(profile_choice, "default") {
        String::new()
    } else {
        profile_choice.to_owned()
    }
}

/// Writing a profile with a non-empty name and reading the state file back
/// yields that profile again.
pub proof fn lemma_state_round_trip(p: Seq<char>)
    requires
        p.len() > 0,
    ensures
        profile_of_state(state_content(p)) == p,
{
}

/// Re-writing whatever profile the state file reads back reproduces the file
/// content exactly, so repeated writes of one selection are idempotent.
pub proof fn lemma_state_write_idempotent(p: Seq<char>)
    ensures
        state_content(profile_of_state(state_content(p))) == state_content(p),
{
}

} // verus!
