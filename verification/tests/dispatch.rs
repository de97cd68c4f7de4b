use todoist_rest_api::request::{
    classify_status, finish_response, APIParametersError, Request, RequestMethod, ResponseAction,
    TodoistAPIError, REQUEST_ID_HEADER, TODOIST_API_URL,
};
use todoist_rest_api::api::tasks::validate_task_args;

fn json_error() -> serde_json::Error {
    serde_json::from_str::<u32>("not json").unwrap_err()
}

fn send_error() -> reqwest::Error {
    reqwest::Client::new().get("not a url").build().unwrap_err()
}

fn parameters_error() -> APIParametersError {
    match validate_task_args(&None, &None, &None, &Some(9), &None, &None, &None) {
        Err(TodoistAPIError::APIParametersError(error)) => error,
        other => panic!("expected a refusal of the arguments, got {:?}", other),
    }
}

#[test]
fn no_content_ends_the_call() {
    assert!(matches!(classify_status(204), Ok(ResponseAction::Finish)));
}

#[test]
fn not_found_is_an_invalid_request() {
    match classify_status(404) {
        Err(TodoistAPIError::InvalidRequest(error)) => {
            assert_eq!(error.status_code(), 404);
            assert_eq!(error.to_string(), "Invalid request - Status code: 404");
        }
        other => panic!("expected an invalid request, got {:?}", other),
    }
}

#[test]
fn bad_gateway_is_a_server_error() {
    match classify_status(502) {
        Err(TodoistAPIError::ServerError(error)) => {
            assert_eq!(error.status_code(), 502);
            assert_eq!(error.to_string(), "Server error - Status code: 502");
        }
        other => panic!("expected a server error, got {:?}", other),
    }
}

#[test]
fn every_status_has_its_class() {
    for status in 0u16..=1000 {
        match classify_status(status) {
            Ok(ResponseAction::Finish) => assert_eq!(status, 204),
            Ok(ResponseAction::Decode) => {
                assert!(status != 204 && !(400..=599).contains(&status))
            }
            Err(TodoistAPIError::InvalidRequest(error)) => {
                assert!((400..=499).contains(&status));
                assert_eq!(error.status_code(), status);
            }
            Err(TodoistAPIError::ServerError(error)) => {
                assert!((500..=599).contains(&status));
                assert_eq!(error.status_code(), status);
            }
            Err(other) => panic!("status {} gave {:?}", status, other),
        }
    }
}

#[test]
fn the_edges_of_the_classes() {
    assert!(matches!(classify_status(200), Ok(ResponseAction::Decode)));
    assert!(matches!(classify_status(399), Ok(ResponseAction::Decode)));
    assert!(matches!(
        classify_status(400),
        Err(TodoistAPIError::InvalidRequest(_))
    ));
    assert!(matches!(
        classify_status(499),
        Err(TodoistAPIError::InvalidRequest(_))
    ));
    assert!(matches!(
        classify_status(500),
        Err(TodoistAPIError::ServerError(_))
    ));
    assert!(matches!(
        classify_status(599),
        Err(TodoistAPIError::ServerError(_))
    ));
    assert!(matches!(classify_status(600), Ok(ResponseAction::Decode)));
}

#[test]
fn a_decoded_body_is_the_result() {
    match finish_response::<u32>(Ok(7)) {
        Ok(Some(value)) => assert_eq!(value, 7),
        other => panic!("expected the decoded value, got {:?}", other),
    }
}

#[test]
fn a_body_that_cannot_be_decoded_is_reported() {
    let expected = json_error().to_string();
    match finish_response::<u32>(Err(json_error())) {
        Err(TodoistAPIError::ResponseJSONParseError(error)) => {
            assert_eq!(error.to_string(), expected)
        }
        other => panic!("expected a decode failure, got {:?}", other),
    }
}

#[test]
fn request_ids_are_fresh() {
    let first = Request::<()>::post("/tasks".to_string(), None, true).prepare();
    let second = Request::<()>::post("/tasks".to_string(), None, true).prepare();
    let first = first.request_id.expect("a request id");
    let second = second.request_id.expect("a request id");
    assert_ne!(first, second);
}

#[test]
fn a_request_id_is_32_hex_digits() {
    for _ in 0..50 {
        let prepared = Request::<()>::post("/tasks".to_string(), None, true).prepare();
        let token = prepared.request_id.expect("a request id");
        assert_eq!(token.chars().count(), 32);
        assert!(token
            .chars()
            .all(|c| c.is_ascii_digit() || ('a'..='f').contains(&c)));
    }
}

#[test]
fn a_request_without_request_id_gets_none() {
    let prepared = Request::get("/tasks".to_string()).prepare();
    assert_eq!(prepared.request_id, None);
    assert_eq!(prepared.method, RequestMethod::Get);
    assert_eq!(prepared.url, "https://api.todoist.com/rest/v2/tasks");
    assert_eq!(prepared.body, None);
}

#[test]
fn a_request_is_prepared_with_the_given_id() {
    let request = Request::post("/labels".to_string(), Some(5u8), true);
    let prepared = request.prepare_with(Some("abc".to_string()));
    assert_eq!(prepared.method, RequestMethod::Post);
    assert_eq!(prepared.url, "https://api.todoist.com/rest/v2/labels");
    assert_eq!(prepared.body, Some(5u8));
    assert_eq!(prepared.request_id, Some("abc".to_string()));
}

#[test]
fn requests_are_made_of_their_parts() {
    let get = Request::get("/a".to_string());
    assert_eq!(get.method, RequestMethod::Get);
    assert_eq!(get.path, "/a");
    assert_eq!(get.body, None);
    assert!(!get.include_request_id);
    let delete = Request::delete("/b".to_string());
    assert_eq!(delete.method, RequestMethod::Delete);
    assert_eq!(delete.path, "/b");
    assert_eq!(delete.body, None);
    assert!(!delete.include_request_id);
    let post = Request::post("/c".to_string(), Some("x"), true);
    assert_eq!(post.method, RequestMethod::Post);
    assert_eq!(post.path, "/c");
    assert_eq!(post.body, Some("x"));
    assert!(post.include_request_id);
}

#[test]
fn the_verbs_have_their_names() {
    assert_eq!(RequestMethod::Get.as_str(), "GET");
    assert_eq!(RequestMethod::Post.as_str(), "POST");
    assert_eq!(RequestMethod::Delete.as_str(), "DELETE");
}

#[test]
fn the_constants_of_the_service() {
    assert_eq!(TODOIST_API_URL, "https://api.todoist.com/rest/v2");
    assert_eq!(REQUEST_ID_HEADER, "X-Request-Id");
}

#[test]
fn errors_describe_themselves() {
    let error = parameters_error();
    assert_eq!(error.message(), "The priority must be between 1 and 4 (was 9)");
    assert_eq!(
        error.to_string(),
        "API parameters error - The priority must be between 1 and 4 (was 9)"
    );
    assert_eq!(
        TodoistAPIError::from(error).to_string(),
        "API parameters error - The priority must be between 1 and 4 (was 9)"
    );
    assert_eq!(
        classify_status(418).unwrap_err().to_string(),
        "Invalid request - Status code: 418"
    );
    assert_eq!(
        classify_status(503).unwrap_err().to_string(),
        "Server error - Status code: 503"
    );
}

#[test]
fn outside_errors_describe_themselves() {
    let text = json_error().to_string();
    assert!(!text.is_empty());
    assert_eq!(TodoistAPIError::from(json_error()).to_string(), text);
    let text = send_error().to_string();
    assert!(!text.is_empty());
    assert_eq!(TodoistAPIError::from(send_error()).to_string(), text);
}

#[test]
fn errors_are_wrapped_by_kind() {
    assert!(matches!(
        TodoistAPIError::from(json_error()),
        TodoistAPIError::ResponseJSONParseError(_)
    ));
    assert!(matches!(
        TodoistAPIError::from(send_error()),
        TodoistAPIError::RequestSendError(_)
    ));
    assert!(matches!(
        TodoistAPIError::from(parameters_error()),
        TodoistAPIError::APIParametersError(_)
    ));
    match classify_status(404) {
        Err(TodoistAPIError::InvalidRequest(error)) => assert!(matches!(
            TodoistAPIError::from(error),
            TodoistAPIError::InvalidRequest(_)
        )),
        other => panic!("expected an invalid request, got {:?}", other),
    }
    match classify_status(500) {
        Err(TodoistAPIError::ServerError(error)) => assert!(matches!(
            TodoistAPIError::from(error),
            TodoistAPIError::ServerError(_)
        )),
        other => panic!("expected a server error, got {:?}", other),
    }
}
