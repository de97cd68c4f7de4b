use todoist_rest_api::api::tasks::validate_task_args;
use todoist_rest_api::model::task::TaskDurationUnit;
use todoist_rest_api::request::TodoistAPIError;

fn text(value: &str) -> Option<String> {
    Some(value.to_string())
}

fn message(result: Result<(), TodoistAPIError>) -> String {
    match result {
        Err(TodoistAPIError::APIParametersError(error)) => error.message().to_string(),
        other => panic!("expected a refusal of the arguments, got {:?}", other),
    }
}

#[test]
fn no_arguments_pass() {
    assert!(validate_task_args(&None, &None, &None, &None, &None, &None, &None).is_ok());
}

#[test]
fn arguments_that_keep_every_rule_pass() {
    assert!(validate_task_args(
        &None,
        &text("2024-03-15"),
        &None,
        &Some(2),
        &text("en"),
        &Some(30),
        &Some(TaskDurationUnit::Minute),
    )
    .is_ok());
    assert!(validate_task_args(
        &None,
        &None,
        &text("2024-03-15T10:30:00Z"),
        &Some(4),
        &None,
        &Some(1),
        &Some(TaskDurationUnit::Day),
    )
    .is_ok());
    assert!(
        validate_task_args(&text("next Monday"), &None, &None, &None, &None, &None, &None)
            .is_ok()
    );
}

#[test]
fn two_due_values_are_refused() {
    assert_eq!(
        message(validate_task_args(
            &text("tomorrow"),
            &text("2024-03-15"),
            &None,
            &None,
            &None,
            &None,
            &None
        )),
        "Only one of the due_* fields can be used at the same time, but 2 were used: tomorrow, 2024-03-15"
    );
    assert_eq!(
        message(validate_task_args(
            &None,
            &text("2024-03-15"),
            &text("2024-03-15T10:30:00Z"),
            &None,
            &None,
            &None,
            &None
        )),
        "Only one of the due_* fields can be used at the same time, but 2 were used: 2024-03-15, 2024-03-15T10:30:00Z"
    );
}

#[test]
fn three_due_values_are_refused() {
    assert_eq!(
        message(validate_task_args(
            &text("a"),
            &text("b"),
            &text("c"),
            &None,
            &None,
            &None,
            &None
        )),
        "Only one of the due_* fields can be used at the same time, but 3 were used: a, b, c"
    );
}

#[test]
fn the_number_of_due_values_is_looked_at_first() {
    assert_eq!(
        message(validate_task_args(
            &text("a"),
            &text("not a date"),
            &None,
            &Some(9),
            &text("english"),
            &Some(0),
            &None
        )),
        "Only one of the due_* fields can be used at the same time, but 2 were used: a, not a date"
    );
}

#[test]
fn a_due_value_that_is_given_counts_though_it_is_empty() {
    assert_eq!(
        message(validate_task_args(
            &text(""),
            &text("2024-03-15"),
            &None,
            &None,
            &None,
            &None,
            &None
        )),
        "Only one of the due_* fields can be used at the same time, but 2 were used: , 2024-03-15"
    );
}

#[test]
fn a_priority_out_of_range_is_refused() {
    for priority in [0u8, 5, 6, 100, 255] {
        assert_eq!(
            message(validate_task_args(
                &None,
                &None,
                &None,
                &Some(priority),
                &None,
                &None,
                &None
            )),
            format!("The priority must be between 1 and 4 (was {})", priority)
        );
    }
}

#[test]
fn a_priority_in_range_passes() {
    for priority in 1u8..=4 {
        assert!(
            validate_task_args(&None, &None, &None, &Some(priority), &None, &None, &None).is_ok()
        );
    }
}

#[test]
fn the_due_date_is_checked() {
    assert!(
        validate_task_args(&None, &text("2024-03-15"), &None, &None, &None, &None, &None).is_ok()
    );
    assert_eq!(
        message(validate_task_args(
            &None,
            &text("2024-13-01"),
            &None,
            &None,
            &None,
            &None,
            &None
        )),
        "The due_date must be in format YYYY-MM-DD (invalid month, was 2024-13-01)"
    );
    assert_eq!(
        message(validate_task_args(
            &None,
            &text("2024-03-32"),
            &None,
            &None,
            &None,
            &None,
            &None
        )),
        "The due_date must be in format YYYY-MM-DD (invalid day, was 2024-03-32)"
    );
    assert_eq!(
        message(validate_task_args(
            &None,
            &text("tomorrow"),
            &None,
            &None,
            &None,
            &None,
            &None
        )),
        "The due_date must be in format YYYY-MM-DD (length was not 10, was tomorrow)"
    );
}

#[test]
fn the_due_time_is_checked() {
    assert_eq!(
        message(validate_task_args(
            &None,
            &None,
            &text("2024-03-15T25:00:00Z"),
            &None,
            &None,
            &None,
            &None
        )),
        "The due_datetime must be in format RFC3339 (invalid hour, was 2024-03-15T25:00:00Z)"
    );
    assert_eq!(
        message(validate_task_args(
            &None,
            &None,
            &text("2024-02-30"),
            &None,
            &None,
            &None,
            &None
        )),
        "The due_datetime must be in format RFC3339 (length was less than 20, was 2024-02-30)"
    );
    assert_eq!(
        message(validate_task_args(
            &None,
            &None,
            &text("2024-00-15T10:00:00Z"),
            &None,
            &None,
            &None,
            &None
        )),
        "The due_datetime must be in format RFC3339 (invalid date: invalid month, was 2024-00-15T10:00:00Z)"
    );
}

#[test]
fn the_language_code_has_two_characters() {
    assert!(validate_task_args(&None, &None, &None, &None, &text("en"), &None, &None).is_ok());
    assert!(validate_task_args(&None, &None, &None, &None, &text("zé"), &None, &None).is_ok());
    assert_eq!(
        message(validate_task_args(
            &None,
            &None,
            &None,
            &None,
            &text("eng"),
            &None,
            &None
        )),
        "The due_lang must be a 2-letter code (was eng)"
    );
    assert_eq!(
        message(validate_task_args(&None, &None, &None, &None, &text(""), &None, &None)),
        "The due_lang must be a 2-letter code (was )"
    );
}

#[test]
fn a_duration_needs_its_unit() {
    assert_eq!(
        message(validate_task_args(&None, &None, &None, &None, &None, &Some(30), &None)),
        "The duration_unit must be defined if duration is defined"
    );
    assert_eq!(
        message(validate_task_args(&None, &None, &None, &None, &None, &Some(0), &None)),
        "The duration_unit must be defined if duration is defined"
    );
}

#[test]
fn a_unit_needs_its_duration() {
    for unit in [TaskDurationUnit::Minute, TaskDurationUnit::Day] {
        assert_eq!(
            message(validate_task_args(
                &None,
                &None,
                &None,
                &None,
                &None,
                &None,
                &Some(unit)
            )),
            "The duration must be defined if duration_unit is defined"
        );
    }
}

#[test]
fn a_duration_of_zero_is_refused() {
    for unit in [TaskDurationUnit::Minute, TaskDurationUnit::Day] {
        assert_eq!(
            message(validate_task_args(
                &None,
                &None,
                &None,
                &None,
                &None,
                &Some(0),
                &Some(unit)
            )),
            "The duration must be greater than 0 (was 0)"
        );
    }
}

#[test]
fn a_duration_with_its_unit_passes() {
    assert!(validate_task_args(
        &None,
        &None,
        &None,
        &None,
        &None,
        &Some(30),
        &Some(TaskDurationUnit::Minute)
    )
    .is_ok());
    assert!(validate_task_args(
        &None,
        &None,
        &None,
        &None,
        &None,
        &Some(u64::MAX),
        &Some(TaskDurationUnit::Day)
    )
    .is_ok());
}

#[test]
fn the_rules_are_looked_at_in_order() {
    assert_eq!(
        message(validate_task_args(
            &None,
            &text("bad"),
            &None,
            &Some(0),
            &text("x"),
            &Some(0),
            &None
        )),
        "The priority must be between 1 and 4 (was 0)"
    );
    assert_eq!(
        message(validate_task_args(
            &None,
            &text("bad"),
            &None,
            &Some(1),
            &text("x"),
            &Some(0),
            &None
        )),
        "The due_date must be in format YYYY-MM-DD (length was not 10, was bad)"
    );
    assert_eq!(
        message(validate_task_args(
            &None,
            &None,
            &text("bad"),
            &Some(1),
            &text("x"),
            &Some(0),
            &None
        )),
        "The due_datetime must be in format RFC3339 (length was less than 20, was bad)"
    );
    assert_eq!(
        message(validate_task_args(
            &None,
            &None,
            &None,
            &Some(1),
            &text("x"),
            &Some(0),
            &None
        )),
        "The due_lang must be a 2-letter code (was x)"
    );
}
