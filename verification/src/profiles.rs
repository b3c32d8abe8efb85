//! Validating a requested profile name against the enumerated list, and
//! locating the entry the interactive chooser starts on.

use crate::default_name;
use crate::text::seq_views;
use crate::text::str_eq;
use vstd::prelude::*;

verus! {

/// A requested name is valid when it is `default` — always accepted, whatever
/// the list holds — or when it appears in the list.
pub open spec fn is_valid_profile(profiles: Seq<Seq<char>>, choice: Seq<char>) -> bool {
    choice == default_name() || exists|i: int| 0 <= i < profiles.len() && profiles[i] == choice
}

/// The single-line message shown for a name that is not configured; it echoes
/// the requested name.
pub open spec fn not_found_message(choice: Seq<char>) -> Seq<char> {
    "Profile "@ + choice + " not found"@
}

/// Checks a requested profile name against the configured list. `default`
/// succeeds regardless of the list; any other name succeeds exactly when it is
/// present, and otherwise the error carries the requested name.
pub fn verify_profile(profile_config: &Vec<String>, profile_choice: &str) -> (r: Result<
    (),
    String,
>)
    ensures
        r.is_ok() == is_valid_profile(seq_views(profile_config@), profile_choice@),
        r matches Err(m) ==> m@ == not_found_message(profile_choice@),
{
    if str_eq(profile_choice, "default") {
        return Ok(());
    }
    let mut i: usize = 0;
    while i < profile_config.len()
        invariant
            i <= profile_config@.len(),
            forall|j: int| 0 <= j < i ==> profile_config@[j]@ != profile_choice@,
        decreases profile_config@.len() - i,
    {
        if str_eq(profile_config[i].as_str(), profile_choice) {
            proof {
                assert(seq_views(profile_config@)[i as int] == profile_choice@);
            }
            return Ok(());
        }
        i += 1;
    }
    proof {
        assert(forall|j: int|
            0 <= j < seq_views(profile_config@).len() ==> seq_views(profile_config@)[j]
                != profile_choice@);
    }
    Err(String::from_str("Profile ").concat(profile_choice).concat(" not found"))
}

/// `default` is a valid choice whatever the configured list holds.
pub proof fn lemma_default_always_valid(profiles: Seq<Seq<char>>)
    ensures
        is_valid_profile(profiles, default_name()),
{
}

/// A name that stands in the list is a valid choice.
pub proof fn lemma_listed_name_valid(profiles: Seq<Seq<char>>, i: int)
    requires
        0 <= i < profiles.len(),
    ensures
        is_valid_profile(profiles, profiles[i]),
{
}

/// The hint for pre-selection, from the environment's active profile: an
/// unset or empty value means `default`.
pub open spec fn normalized_hint(h: Seq<char>) -> Seq<char> {
    if h.len() == 0 {
        default_name()
    } else {
        h
    }
}

/// Normalizes the environment's `AWS_PROFILE` value into the profile name the
/// chooser should start on.
pub fn normalize_profile_hint(hint: &str) -> (r: String)
    ensures
        r@ == normalized_hint(hint@),
{
    if hint.unicode_len() == 0 {
        String::from_str("default")
    } else {
        hint.to_owned()
    }
}

/// The index the interactive chooser starts on: the first entry equal to the
/// hinted profile, or nothing when the hint is absent from the list.
pub fn find_profile_index(profiles: &Vec<String>, name: &str) -> (r: Option<usize>)
    ensures
        match r {
            Some(i) => i < profiles@.len() && profiles@[i as int]@ == name@ && forall|j: int|
                0 <= j < i ==> profiles@[j]@ != name@,
            None => forall|j: int| 0 <= j < profiles@.len() ==> profiles@[j]@ != name@,
        },
{
    let mut i: usize = 0;
    while i < profiles.len()
        invariant
            i <= profiles@.len(),
            forall|j: int| 0 <= j < i ==> profiles@[j]@ != name@,
        decreases profiles@.len() - i,
    {
        if str_eq(profiles[i].as_str(), name) {
            return Some(i);
        }
        i += 1;
    }
    None
}

} // verus!
