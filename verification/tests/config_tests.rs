use raph::config::aws_profiles_from_config;
use raph::config::parse_profile_names;
use raph::config::ConfigError;

fn names(content: &str) -> Vec<String> {
    parse_profile_names(content)
}

#[test]
fn two_profiles_in_order_then_default() {
    let r = aws_profiles_from_config("[profile dev]\n[profile prod]\n").unwrap();
    assert_eq!(r, vec!["dev".to_string(), "prod".to_string(), "default".to_string()]);
}

#[test]
fn list_has_one_entry_per_header_plus_default_last() {
    let r = aws_profiles_from_config("[profile a]\n[profile b]\n[profile c]\n").unwrap();
    assert_eq!(r.len(), 4);
    assert_eq!(r.last().unwrap(), "default");
    assert_eq!(r.iter().filter(|n| n.as_str() == "default").count(), 1);
}

#[test]
fn no_headers_is_an_error() {
    assert_eq!(
        aws_profiles_from_config("[default]\nregion = eu-west-1\n"),
        Err(ConfigError::NoProfilesFound)
    );
}

#[test]
fn empty_content_is_an_error() {
    assert_eq!(aws_profiles_from_config(""), Err(ConfigError::NoProfilesFound));
}

#[test]
fn final_line_without_break_counts() {
    let r = aws_profiles_from_config("[profile dev]").unwrap();
    assert_eq!(r, vec!["dev".to_string(), "default".to_string()]);
}

#[test]
fn name_is_everything_between_prefix_and_closing_bracket() {
    assert_eq!(names("[profile my team]\n"), vec!["my team".to_string()]);
    assert_eq!(names("[profile ]\n"), vec!["".to_string()]);
    assert_eq!(names("[profile a] b]\n"), vec!["a] b".to_string()]);
}

#[test]
fn lines_of_other_forms_declare_nothing() {
    assert!(names(" [profile dev]\n").is_empty());
    assert!(names("[profile dev\n").is_empty());
    assert!(names("[default]\n").is_empty());
    assert!(names("region = eu-west-1\n\n").is_empty());
}

#[test]
fn duplicates_and_order_are_preserved() {
    assert_eq!(
        names("[profile a]\n[profile b]\n[profile a]\n"),
        vec!["a".to_string(), "b".to_string(), "a".to_string()]
    );
}

#[test]
fn surrounding_config_content_is_ignored() {
    let content = "[default]\nregion = us-east-1\n\n[profile dev]\noutput = json\n[profile prod]\n";
    assert_eq!(names(content), vec!["dev".to_string(), "prod".to_string()]);
}
