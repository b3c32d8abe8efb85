//! Core logic of an AWS profile switcher: enumerating profiles from the AWS
//! config file, validating a requested profile, deriving the state-file
//! content that records the active selection, pre-selecting an entry for the
//! interactive chooser, and assembling the token list for a one-shot `aws`
//! invocation under a chosen profile.
//!
//! All file reading and writing, terminal prompting and process spawning live
//! outside this crate; these modules work on plain strings and lists and carry
//! the contracts.

use vstd::prelude::*;

pub mod command;
pub mod config;
pub mod dispatch;
pub mod profiles;
pub mod state;
pub mod text;

verus! {

/// The name of the implicit profile that exists whether or not the config
/// file declares any section.
pub open spec fn default_name() -> Seq<char> {
    "default"@
}

} // verus!
