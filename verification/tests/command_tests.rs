use raph::command::build_aws_invocation;

#[test]
fn tokens_are_prefixed_with_aws() {
    let args = vec!["s3".to_string(), "ls".to_string()];
    assert_eq!(
        build_aws_invocation(&args),
        vec!["aws".to_string(), "s3".to_string(), "ls".to_string()]
    );
}

#[test]
fn tokens_already_starting_with_aws_are_not_double_prefixed() {
    let args = vec!["aws".to_string(), "s3".to_string(), "ls".to_string()];
    assert_eq!(build_aws_invocation(&args), args);
}

#[test]
fn a_lone_aws_token_stays_as_it_is() {
    let args = vec!["aws".to_string()];
    assert_eq!(build_aws_invocation(&args), vec!["aws".to_string()]);
}

#[test]
fn a_token_that_merely_starts_with_aws_is_still_prefixed() {
    let args = vec!["awscli".to_string()];
    assert_eq!(build_aws_invocation(&args), vec!["aws".to_string(), "awscli".to_string()]);
}
