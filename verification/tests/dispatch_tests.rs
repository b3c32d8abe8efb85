use raph::dispatch::exit_code;
use raph::dispatch::select_mode;
use raph::dispatch::Mode;
use raph::dispatch::Outcome;

#[test]
fn no_arguments_means_interactive_selection() {
    assert_eq!(select_mode(false, false), Mode::Interactive);
}

#[test]
fn a_profile_alone_switches() {
    assert_eq!(select_mode(true, false), Mode::SwitchProfile);
}

#[test]
fn a_profile_with_a_command_runs_one_shot() {
    assert_eq!(select_mode(true, true), Mode::OneShot);
}

#[test]
fn each_outcome_has_its_exit_status() {
    assert_eq!(exit_code(Outcome::CommandExecuted), 0);
    assert_eq!(exit_code(Outcome::ProfileSwitched), 1);
    assert_eq!(exit_code(Outcome::ProfileNotFound), 5);
    assert_eq!(exit_code(Outcome::SelectionFailed), 5);
    assert_eq!(exit_code(Outcome::PersistFailed), 6);
}
