use oauth_refresh::scopes::{effective_scopes, split_scopes, DEFAULT_SCOPES};

#[test]
fn empty_input_is_one_empty_scope() {
    assert_eq!(split_scopes(""), vec!["".to_string()]);
}

#[test]
fn input_without_commas_is_one_scope() {
    assert_eq!(split_scopes("only-one"), vec!["only-one".to_string()]);
}

#[test]
fn commas_delimit_without_trimming() {
    assert_eq!(
        split_scopes("a,b c, d"),
        vec!["a".to_string(), "b c".to_string(), " d".to_string()]
    );
}

#[test]
fn default_policy_splits_the_default_list() {
    assert_eq!(effective_scopes(None), split_scopes(DEFAULT_SCOPES));
}

#[test]
fn supplied_policy_splits_the_supplied_list() {
    let supplied = "x,y".to_string();
    assert_eq!(
        effective_scopes(Some(&supplied)),
        vec!["x".to_string(), "y".to_string()]
    );
}
