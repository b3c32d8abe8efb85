use raph::profiles::find_profile_index;
use raph::profiles::normalize_profile_hint;

fn sample_list() -> Vec<String> {
    vec!["dev".to_string(), "prod".to_string(), "default".to_string()]
}

#[test]
fn active_profile_is_preselected() {
    let list = sample_list();
    let hint = normalize_profile_hint("prod");
    assert_eq!(find_profile_index(&list, &hint), Some(1));
}

#[test]
fn unset_environment_preselects_default() {
    let list = sample_list();
    let hint = normalize_profile_hint("");
    assert_eq!(hint, "default");
    assert_eq!(find_profile_index(&list, &hint), Some(2));
}

#[test]
fn absent_hint_finds_no_index() {
    let list = sample_list();
    assert_eq!(find_profile_index(&list, "staging"), None);
}

#[test]
fn first_matching_entry_wins() {
    let list = vec!["dev".to_string(), "dev".to_string()];
    assert_eq!(find_profile_index(&list, "dev"), Some(0));
}
