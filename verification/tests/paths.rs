use todoist_rest_api::request::paths::{
    create_path, filtered_path, is_bare_segment, is_key_segment, is_literal_segment, item_path,
    try_create_path,
};

#[test]
fn path_no_params() {
    assert_eq!(create_path(&["/test", "/test2"]), "/test/test2");
}

#[test]
fn path_no_slash_no_params() {
    assert_eq!(create_path(&["test", "test2"]), "/test/test2");
}

#[test]
fn path_with_params() {
    assert_eq!(
        create_path(&["/test", "test2=", "test3"]),
        "/test?test2=test3"
    );
}

#[test]
fn path_with_multiple_params() {
    assert_eq!(
        create_path(&["/test", "test2=", "test3", "test4=", "test5"]),
        "/test?test2=test3&test4=test5"
    );
}

#[test]
fn complex_path() {
    assert_eq!(
        create_path(&["/test", "test2", "/test3", "test4=", "test5", "test6=", "test7"]),
        "/test/test2/test3?test4=test5&test6=test7"
    )
}

#[test]
#[should_panic]
fn invalid_path_with_slash_after_param_key() {
    create_path(&["/test", "test2=", "/test3"]);
}

#[test]
#[should_panic]
fn invalid_path_with_slash_after_param_value() {
    create_path(&["/test", "test2=", "test4", "/test5"]);
}

#[test]
#[should_panic]
fn invalid_path_with_skipped_param_value() {
    create_path(&["/test", "test2=", "test3="]);
}

#[test]
#[should_panic]
fn invalid_path_with_no_param_value() {
    create_path(&["/test", "test2="]);
}

#[test]
fn slash_after_param_key_is_refused() {
    assert_eq!(try_create_path(&["/test", "test2=", "/test3"]), None);
}

#[test]
fn slash_after_param_value_is_refused() {
    assert_eq!(try_create_path(&["/test", "test2=", "test4", "/test5"]), None);
}

#[test]
fn skipped_param_value_is_refused() {
    assert_eq!(try_create_path(&["/test", "test2=", "test3="]), None);
}

#[test]
fn missing_param_value_is_refused() {
    assert_eq!(try_create_path(&["/test", "test2="]), None);
}

#[test]
fn bare_token_after_value_is_refused() {
    assert_eq!(try_create_path(&["/test", "a=", "b", "c"]), None);
}

#[test]
fn tasks_of_a_project() {
    assert_eq!(
        try_create_path(&["/tasks", "project_id=", "123"]),
        Some("/tasks?project_id=123".to_string())
    );
    assert_eq!(try_create_path(&["/tasks", "project_id="]), None);
}

#[test]
fn valid_paths_are_built_by_both_builders() {
    let cases: [&[&str]; 5] = [
        &[],
        &["/a"],
        &["a", "/b", "c"],
        &["/a", "k=", "v"],
        &["k=", "v", "l=", ""],
    ];
    let expected = ["", "/a", "/a/b/c", "/a?k=v", "?k=v&l="];
    for (case, want) in cases.iter().zip(expected.iter()) {
        assert_eq!(try_create_path(case), Some(want.to_string()));
        assert_eq!(create_path(case), *want);
    }
}

#[test]
fn empty_segment_is_a_bare_token() {
    assert_eq!(create_path(&["/a", ""]), "/a/");
    assert_eq!(create_path(&["", ""]), "//");
    assert_eq!(create_path(&["/a", "k=", ""]), "/a?k=");
}

#[test]
fn a_literal_that_ends_in_equals_is_no_key() {
    assert_eq!(create_path(&["/a="]), "/a=");
    assert_eq!(create_path(&["/a=", "/b"]), "/a=/b");
    assert_eq!(try_create_path(&["/a", "k=", "/v="]), None);
}

#[test]
fn separators_are_not_doubled() {
    let path = create_path(&["/a", "b", "k1=", "v1", "k2=", "v2", "k3=", "v3"]);
    assert_eq!(path, "/a/b?k1=v1&k2=v2&k3=v3");
    assert_eq!(path.matches('?').count(), 1);
    assert_eq!(path.matches('&').count(), 2);
    assert!(!path.contains("//"));
}

#[test]
fn segments_are_told_apart() {
    assert!(is_literal_segment("/tasks"));
    assert!(is_literal_segment("/"));
    assert!(is_literal_segment("/a="));
    assert!(!is_literal_segment("tasks"));
    assert!(!is_literal_segment(""));
    assert!(is_key_segment("project_id="));
    assert!(is_key_segment("="));
    assert!(!is_key_segment("/a="));
    assert!(!is_key_segment("a=b"));
    assert!(!is_key_segment(""));
    assert!(is_bare_segment("123"));
    assert!(is_bare_segment(""));
    assert!(is_bare_segment("a=b"));
    assert!(!is_bare_segment("a="));
    assert!(!is_bare_segment("/a"));
    assert!(is_key_segment("é="));
    assert!(is_bare_segment("=é"));
}

#[test]
fn path_of_an_item() {
    assert_eq!(item_path("/tasks", "42"), "/tasks/42");
    assert_eq!(item_path("/tasks", "/42"), "/tasks/42");
    assert_eq!(item_path("/tasks", ""), "/tasks/");
}

#[test]
fn path_with_one_filter() {
    assert_eq!(
        filtered_path("/sections", "project_id=", "7"),
        "/sections?project_id=7"
    );
}
