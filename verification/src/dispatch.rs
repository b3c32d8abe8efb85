//! Dispatch over the two optional positional arguments, and the exit statuses
//! through which the shell hook learns what happened.

use vstd::prelude::*;

verus! {

/// How one invocation runs, decided by which positional arguments are present.
#[derive(Clone, Copy, Debug, PartialEq, Eq, Structural)]
pub enum Mode {
    /// No arguments: prompt interactively, then persist the choice.
    Interactive,
    /// A profile alone: validate it and persist it.
    SwitchProfile,
    /// A profile and a command: validate the profile, then run the command
    /// under it without persisting anything.
    OneShot,
}

/// How an invocation ended; each outcome maps to one exit status.
#[derive(Clone, Copy, Debug, PartialEq, Eq, Structural)]
pub enum Outcome {
    /// One-shot mode ran the command; no shell switch was performed.
    CommandExecuted,
    /// A profile was selected or switched and persisted.
    ProfileSwitched,
    /// The requested profile is not configured.
    ProfileNotFound,
    /// The interactive selection failed or was cancelled.
    SelectionFailed,
    /// The selection could not be written to the state file.
    PersistFailed,
}

pub open spec fn mode_of(has_profile: bool, has_command: bool) -> Mode {
    if !has_profile {
        Mode::Interactive
    } else if has_command {
        Mode::OneShot
    } else {
        Mode::SwitchProfile
    }
}

/// Chooses the dispatch mode: no profile argument means interactive selection,
/// a profile alone switches to it, a profile with a trailing command runs that
/// command one-shot.
pub fn select_mode(has_profile: bool, has_command: bool) -> (m: Mode)
    ensures
        m == mode_of(has_profile, has_command),
{
    if !has_profile {
        Mode::Interactive
    } else if has_command {
        Mode::OneShot
    } else {
        Mode::SwitchProfile
    }
}

pub open spec fn exit_code_of(o: Outcome) -> i32 {
    match o {
        Outcome::CommandExecuted => 0,
        Outcome::ProfileSwitched => 1,
        Outcome::ProfileNotFound => 5,
        Outcome::SelectionFailed => 5,
        Outcome::PersistFailed => 6,
    }
}

/// The process exit status for an outcome: 0 after a one-shot command (no
/// shell switch), 1 after a persisted switch, 5 when the profile was not found
/// or selection failed, 6 when persisting failed.
pub fn exit_code(o: Outcome) -> (c: i32)
    ensures
        c == exit_code_of(o),
{
    match o {
        Outcome::CommandExecuted => 0,
        Outcome::ProfileSwitched => 1,
        Outcome::ProfileNotFound => 5,
        Outcome::SelectionFailed => 5,
        Outcome::PersistFailed => 6,
    }
}

} // verus!
