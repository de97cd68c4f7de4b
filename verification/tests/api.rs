use todoist_rest_api::api::comments::{
    create_new_comment, delete_comment, get_all_comments, get_comment, get_comment_path,
    update_comment, TaskOrProjectID,
};
use todoist_rest_api::api::labels::{
    create_new_personal_label, delete_personal_label, get_all_personal_labels,
    get_all_shared_labels, get_label_path, get_personal_label, remove_shared_labels,
    rename_shared_labels, update_personal_label,
};
use todoist_rest_api::api::projects::{
    create_new_project, delete_project, get_all_collaborators, get_all_projects, get_project,
    get_project_path, update_project,
};
use todoist_rest_api::api::sections::{
    create_new_section, delete_section, get_all_sections, get_section, get_section_path,
    update_section,
};
use todoist_rest_api::api::tasks::{
    close_task, create_new_task, delete_task, get_active_task, get_active_tasks, get_task_path,
    reopen_task, update_task,
};
use todoist_rest_api::model::color::Color;
use todoist_rest_api::model::comment::CommentAttachment;
use todoist_rest_api::model::project::ProjectViewStyle;
use todoist_rest_api::model::task::TaskDurationUnit;
use todoist_rest_api::request::{Request, RequestMethod, TodoistAPIError};

fn text(value: &str) -> Option<String> {
    Some(value.to_string())
}

fn plain<B>(request: &Request<B>, method: RequestMethod, path: &str) {
    assert_eq!(request.method, method);
    assert_eq!(request.path, path);
    assert!(request.body.is_none());
    assert!(!request.include_request_id);
}

#[test]
fn ids_of_tasks_and_projects() {
    let task = TaskOrProjectID::Task("1".to_string());
    let project = TaskOrProjectID::Project("2".to_string());
    assert_eq!(task.get_id(), "1");
    assert_eq!(task.get_key(), "task_id");
    assert_eq!(project.get_id(), "2");
    assert_eq!(project.get_key(), "project_id");
}

#[test]
fn requests_for_comments() {
    plain(
        &get_all_comments(&TaskOrProjectID::Task("1".to_string())),
        RequestMethod::Get,
        "/comments?task_id=1",
    );
    plain(
        &get_all_comments(&TaskOrProjectID::Project("2".to_string())),
        RequestMethod::Get,
        "/comments?project_id=2",
    );
    plain(&get_comment("9".to_string()), RequestMethod::Get, "/comments/9");
    plain(
        &delete_comment("9".to_string()),
        RequestMethod::Delete,
        "/comments/9",
    );
    assert_eq!(get_comment_path("9".to_string()), "/comments/9");
}

#[test]
fn requests_that_write_comments() {
    let attachment = CommentAttachment {
        file_name: "a.pdf".to_string(),
        file_type: "application/pdf".to_string(),
        file_url: "https://example.com/a.pdf".to_string(),
        resource_type: "file".to_string(),
    };
    let request = create_new_comment(
        &TaskOrProjectID::Task("1".to_string()),
        "hello".to_string(),
        Some(attachment),
    );
    assert_eq!(request.method, RequestMethod::Post);
    assert_eq!(request.path, "/comments");
    assert!(request.include_request_id);
    let body = request.body.expect("a body");
    assert_eq!(body.task_id, text("1"));
    assert_eq!(body.project_id, None);
    assert_eq!(body.content, "hello");
    assert_eq!(body.attachment.expect("an attachment").file_name, "a.pdf");

    let request = create_new_comment(
        &TaskOrProjectID::Project("2".to_string()),
        "hello".to_string(),
        None,
    );
    let body = request.body.expect("a body");
    assert_eq!(body.task_id, None);
    assert_eq!(body.project_id, text("2"));

    let request = update_comment("9".to_string(), "changed".to_string());
    assert_eq!(request.method, RequestMethod::Post);
    assert_eq!(request.path, "/comments/9");
    assert!(request.include_request_id);
    assert_eq!(request.body.expect("a body").content, "changed");
}

#[test]
fn requests_for_labels() {
    plain(&get_all_personal_labels(), RequestMethod::Get, "/labels");
    plain(
        &get_personal_label("3".to_string()),
        RequestMethod::Get,
        "/labels/3",
    );
    plain(
        &delete_personal_label("3".to_string()),
        RequestMethod::Delete,
        "/labels/3",
    );
    plain(
        &get_all_shared_labels(None),
        RequestMethod::Get,
        "/labels/shared",
    );
    plain(
        &get_all_shared_labels(Some(true)),
        RequestMethod::Get,
        "/labels/shared?omit_personal=true",
    );
    plain(
        &get_all_shared_labels(Some(false)),
        RequestMethod::Get,
        "/labels/shared?omit_personal=false",
    );
    assert_eq!(get_label_path("3".to_string()), "/labels/3");
}

#[test]
fn requests_that_write_labels() {
    let request = create_new_personal_label("home".to_string(), Some(1), Some(Color::Red), None);
    assert_eq!(request.method, RequestMethod::Post);
    assert_eq!(request.path, "/labels");
    assert!(request.include_request_id);
    let body = request.body.expect("a body");
    assert_eq!(body.name, "home");
    assert_eq!(body.order, Some(1));
    assert_eq!(body.color, Some(Color::Red));
    assert_eq!(body.is_favorite, None);

    let request = update_personal_label("3".to_string(), text("work"), None, None, Some(true));
    assert_eq!(request.method, RequestMethod::Post);
    assert_eq!(request.path, "/labels/3");
    assert!(request.include_request_id);
    let body = request.body.expect("a body");
    assert_eq!(body.name, text("work"));
    assert_eq!(body.order, None);
    assert_eq!(body.color, None);
    assert_eq!(body.is_favorite, Some(true));

    let request = rename_shared_labels("old".to_string(), "new".to_string());
    assert_eq!(request.method, RequestMethod::Post);
    assert_eq!(request.path, "/labels/shared/rename");
    assert!(request.include_request_id);
    let body = request.body.expect("a body");
    assert_eq!(body.name, "old");
    assert_eq!(body.new_name, "new");

    let request = remove_shared_labels("old".to_string());
    assert_eq!(request.method, RequestMethod::Post);
    assert_eq!(request.path, "/labels/shared/remove");
    assert!(request.include_request_id);
    assert_eq!(request.body.expect("a body").name, "old");
}

#[test]
fn requests_for_projects() {
    plain(&get_all_projects(), RequestMethod::Get, "/projects");
    plain(&get_project("5".to_string()), RequestMethod::Get, "/projects/5");
    plain(
        &delete_project("5".to_string()),
        RequestMethod::Delete,
        "/projects/5",
    );
    plain(
        &get_all_collaborators("5".to_string()),
        RequestMethod::Get,
        "/projects/5/collaborators",
    );
    assert_eq!(get_project_path("5".to_string()), "/projects/5");
}

#[test]
fn requests_that_write_projects() {
    let request = create_new_project(
        "work".to_string(),
        text("1"),
        Some(Color::Blue),
        Some(true),
        Some(ProjectViewStyle::List),
    );
    assert_eq!(request.method, RequestMethod::Post);
    assert_eq!(request.path, "/projects");
    assert!(request.include_request_id);
    let body = request.body.expect("a body");
    assert_eq!(body.name, "work");
    assert_eq!(body.parent_id, text("1"));
    assert_eq!(body.color, Some(Color::Blue));
    assert_eq!(body.is_favorite, Some(true));
    assert_eq!(body.view_style, Some(ProjectViewStyle::List));

    let request = update_project("5".to_string(), None, None, Some(false), None);
    assert_eq!(request.method, RequestMethod::Post);
    assert_eq!(request.path, "/projects/5");
    assert!(request.include_request_id);
    let body = request.body.expect("a body");
    assert_eq!(body.name, None);
    assert_eq!(body.color, None);
    assert_eq!(body.is_favorite, Some(false));
    assert_eq!(body.view_style, None);
}

#[test]
fn requests_for_sections() {
    plain(&get_all_sections(None), RequestMethod::Get, "/sections");
    plain(
        &get_all_sections(text("5")),
        RequestMethod::Get,
        "/sections?project_id=5",
    );
    plain(
        &get_section("11".to_string()),
        RequestMethod::Get,
        "/sections/11",
    );
    plain(
        &delete_section("11".to_string()),
        RequestMethod::Delete,
        "/sections/11",
    );
    assert_eq!(get_section_path("11".to_string()), "/sections/11");
}

#[test]
fn requests_that_write_sections() {
    let request = create_new_section("5".to_string(), "later".to_string(), Some(2));
    assert_eq!(request.method, RequestMethod::Post);
    assert_eq!(request.path, "/sections");
    assert!(!request.include_request_id);
    let body = request.body.expect("a body");
    assert_eq!(body.project_id, "5");
    assert_eq!(body.name, "later");
    assert_eq!(body.order, Some(2));

    let request = update_section("11".to_string(), "sooner".to_string());
    assert_eq!(request.method, RequestMethod::Post);
    assert_eq!(request.path, "/sections/11");
    assert!(!request.include_request_id);
    assert_eq!(request.body.expect("a body").name, "sooner");
}

#[test]
fn requests_for_tasks() {
    plain(
        &get_active_task("42".to_string()),
        RequestMethod::Get,
        "/tasks/42",
    );
    plain(
        &delete_task("42".to_string()),
        RequestMethod::Delete,
        "/tasks/42",
    );
    plain(
        &close_task("42".to_string()),
        RequestMethod::Delete,
        "/tasks/42/close",
    );
    plain(
        &reopen_task("42".to_string()),
        RequestMethod::Post,
        "/tasks/42/reopen",
    );
    assert_eq!(get_task_path("42".to_string()), "/tasks/42");
}

#[test]
fn requests_for_active_tasks() {
    plain(
        &get_active_tasks(None, None, None, None, None, None),
        RequestMethod::Get,
        "/tasks",
    );
    plain(
        &get_active_tasks(text("123"), None, None, None, None, None),
        RequestMethod::Get,
        "/tasks?project_id=123",
    );
    let ids = ["1".to_string(), "2".to_string(), "3".to_string()];
    plain(
        &get_active_tasks(
            text("5"),
            text("11"),
            text("home"),
            text("today"),
            text("en"),
            Some(&ids),
        ),
        RequestMethod::Get,
        "/tasks?project_id=5&section_id=11&label=home&filter=today&lang=en&ids=1,2,3",
    );
    plain(
        &get_active_tasks(None, None, text("home"), None, None, Some(&ids[..1])),
        RequestMethod::Get,
        "/tasks?label=home&ids=1",
    );
    plain(
        &get_active_tasks(None, text("11"), None, None, None, Some(&[])),
        RequestMethod::Get,
        "/tasks?section_id=11",
    );
    plain(
        &get_active_tasks(None, None, None, text(""), None, None),
        RequestMethod::Get,
        "/tasks?filter=",
    );
}

#[test]
fn a_task_is_created_from_valid_arguments() {
    let request = create_new_task(
        "buy milk".to_string(),
        text("two litres"),
        text("5"),
        text("11"),
        None,
        Some(1),
        Some(vec!["home".to_string()]),
        Some(4),
        None,
        text("2024-03-15"),
        None,
        None,
        text("77"),
        Some(30),
        Some(TaskDurationUnit::Minute),
    )
    .expect("a request");
    assert_eq!(request.method, RequestMethod::Post);
    assert_eq!(request.path, "/tasks");
    assert!(request.include_request_id);
    let body = request.body.expect("a body");
    assert_eq!(body.content, "buy milk");
    assert_eq!(body.description, text("two litres"));
    assert_eq!(body.project_id, text("5"));
    assert_eq!(body.section_id, text("11"));
    assert_eq!(body.parent_id, None);
    assert_eq!(body.order, Some(1));
    assert_eq!(body.labels, Some(vec!["home".to_string()]));
    assert_eq!(body.priority, Some(4));
    assert_eq!(body.due_string, None);
    assert_eq!(body.due_date, text("2024-03-15"));
    assert_eq!(body.due_datetime, None);
    assert_eq!(body.due_lang, None);
    assert_eq!(body.assignee_id, text("77"));
    assert_eq!(body.duration, Some(30));
    assert_eq!(body.duration_unit, Some(TaskDurationUnit::Minute));
}

#[test]
fn a_task_is_not_created_from_invalid_arguments() {
    let result = create_new_task(
        "buy milk".to_string(),
        None,
        None,
        None,
        None,
        None,
        None,
        Some(7),
        None,
        None,
        None,
        None,
        None,
        None,
        None,
    );
    match result {
        Err(TodoistAPIError::APIParametersError(error)) => assert_eq!(
            error.message(),
            "The priority must be between 1 and 4 (was 7)"
        ),
        other => panic!("expected a refusal of the arguments, got {:?}", other.map(|_| ())),
    }
}

#[test]
fn a_task_is_changed_from_valid_arguments() {
    let request = update_task(
        "42".to_string(),
        text("buy bread"),
        None,
        None,
        Some(1),
        text("no date"),
        None,
        None,
        text("en"),
        None,
        Some(2),
        Some(TaskDurationUnit::Day),
    )
    .expect("a request");
    assert_eq!(request.method, RequestMethod::Post);
    assert_eq!(request.path, "/tasks/42");
    assert!(request.include_request_id);
    let body = request.body.expect("a body");
    assert_eq!(body.content, text("buy bread"));
    assert_eq!(body.description, None);
    assert_eq!(body.labels, None);
    assert_eq!(body.priority, Some(1));
    assert_eq!(body.due_string, text("no date"));
    assert_eq!(body.due_date, None);
    assert_eq!(body.due_datetime, None);
    assert_eq!(body.due_lang, text("en"));
    assert_eq!(body.assignee_id, None);
    assert_eq!(body.duration, Some(2));
    assert_eq!(body.duration_unit, Some(TaskDurationUnit::Day));
}

#[test]
fn a_task_is_not_changed_from_invalid_arguments() {
    let result = update_task(
        "42".to_string(),
        None,
        None,
        None,
        None,
        None,
        text("2024-13-01"),
        None,
        None,
        None,
        None,
        None,
    );
    match result {
        Err(TodoistAPIError::APIParametersError(error)) => assert_eq!(
            error.message(),
            "The due_date must be in format YYYY-MM-DD (invalid month, was 2024-13-01)"
        ),
        other => panic!("expected a refusal of the arguments, got {:?}", other.map(|_| ())),
    }
}

#[test]
fn the_arguments_of_a_task_are_looked_at_before_its_id() {
    let result = update_task(
        "x=".to_string(),
        None,
        None,
        None,
        Some(9),
        None,
        None,
        None,
        None,
        None,
        None,
        None,
    );
    match result {
        Err(TodoistAPIError::APIParametersError(error)) => assert_eq!(
            error.message(),
            "The priority must be between 1 and 4 (was 9)"
        ),
        other => panic!("expected a refusal of the arguments, got {:?}", other.map(|_| ())),
    }
}
