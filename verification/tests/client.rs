use distributed_cicd::client::{make_task, pretty_response, task_type_str, CustomError, TaskType};

#[test]
fn task_type_names() {
    assert_eq!(task_type_str(TaskType::Build), "rust-build");
    assert_eq!(task_type_str(TaskType::Test), "rust-test");
    assert_eq!(task_type_str(TaskType::Lint), "python-lint2");
    assert_eq!(task_type_str(TaskType::Review), "code-review");
}

#[test]
fn submitted_task() {
    let t = make_task(TaskType::Lint);
    assert_eq!(t.id, 1);
    assert_eq!(t.task, "python-lint2");
    assert_eq!(t.repository, "/python/app.py");
}

#[test]
fn pretty_prints_json() {
    let text = r#"{"id":1,"status":"completed","result":"Processed payload: 1"}"#;
    let pretty = pretty_response(text).unwrap();
    assert_eq!(
        pretty,
        "{\n  \"id\": 1,\n  \"result\": \"Processed payload: 1\",\n  \"status\": \"completed\"\n}"
    );
}

#[test]
fn rejects_non_json() {
    match pretty_response("Worker failed with status: 502 Bad Gateway") {
        Err(CustomError::SerdeJson(_)) => {}
        other => panic!("unexpected: {other:?}"),
    }
}

#[test]
fn json_error_converts() {
    let e = serde_json::from_str::<serde_json::Value>("{").unwrap_err();
    assert!(matches!(CustomError::from(e), CustomError::SerdeJson(_)));
}

#[test]
fn json_error_message() {
    let e = serde_json::from_str::<serde_json::Value>("x").unwrap_err();
    let err = CustomError::from(e);
    assert_eq!(err.message(), "JSON error: expected value at line 1 column 1");
}
