use vstd::prelude::*;

verus! {

/// `serde_json`'s error type.
#[verifier::external_type_specification]
#[verifier::external_body]
pub struct ExJsonError(serde_json::Error);

/// `reqwest`'s error type.
#[verifier::external_type_specification]
#[verifier::external_body]
pub struct ExReqwestError(reqwest::Error);

/// The kinds of task a user can submit.
#[derive(Debug, Clone, Copy, PartialEq, Eq, Structural)]
pub enum TaskType {
    Build,
    Test,
    Lint,
    Review,
}

/// The name under which each kind of task is submitted.
pub open spec fn task_type_name(t: TaskType) -> Seq<char> {
    match t {
        TaskType::Build => "rust-build"@,
        TaskType::Test => "rust-test"@,
        TaskType::Lint => "python-lint2"@,
        TaskType::Review => "code-review"@,
    }
}

/// The name under which a kind of task is submitted.
pub fn task_type_str(t: TaskType) -> (s: &'static str)
    ensures
        s@ == task_type_name(t),
{
    match t {
        TaskType::Build => "rust-build",
        TaskType::Test => "rust-test",
        TaskType::Lint => "python-lint2",
        TaskType::Review => "code-review",
    }
}

/// A task as the client submits it to the coordinator.
#[derive(Debug)]
pub struct Task {
    pub id: u32,
    pub task: String,
    pub repository: String,
}

/// The task the client submits for a kind of task: id 1, the kind's name,
/// and the repository `/python/app.py`.
pub fn make_task(t: TaskType) -> (task: Task)
    ensures
        task.id == 1,
        task.task@ == task_type_name(t),
        task.repository@ == "/python/app.py"@,
{
    Task {
        id: 1,
        task: String::from_str(task_type_str(t)),
        repository: String::from_str("/python/app.py"),
    }
}

/// The errors the client reports.
#[derive(Debug)]
pub enum CustomError {
    /// The request to the coordinator failed.
    Reqwest(reqwest::Error),
    /// The coordinator's answer was not JSON.
    SerdeJson(serde_json::Error),
}

/// The text of a client error: `Request error: ` or `JSON error: `, followed
/// by the text the underlying error displays.
pub open spec fn custom_error_text(err: CustomError, text: Seq<char>) -> bool {
    match err {
        CustomError::Reqwest(e) => exists|inner: String|
            vstd::string::to_string_from_display_ensures::<reqwest::Error>(&e, inner) && text
                == "Request error: "@ + inner@,
        CustomError::SerdeJson(e) => exists|inner: String|
            vstd::string::to_string_from_display_ensures::<serde_json::Error>(&e, inner) && text
                == "JSON error: "@ + inner@,
    }
}

impl CustomError {
    /// The message the client prints for this error.
    pub fn message(&self) -> (text: String)
        ensures
            custom_error_text(*self, text@),
    {
        match self {
            CustomError::Reqwest(e) => {
                let inner = e.to_string();
                String::from_str("Request error: ").concat(inner.as_str())
            },
            CustomError::SerdeJson(e) => {
                let inner = e.to_string();
                String::from_str("JSON error: ").concat(inner.as_str())
            },
        }
    }
}

impl From<reqwest::Error> for CustomError {
    fn from(err: reqwest::Error) -> (r: CustomError) {
        CustomError::Reqwest(err)
    }
}

impl vstd::std_specs::convert::FromSpecImpl<reqwest::Error> for CustomError {
    open spec fn obeys_from_spec() -> bool {
        true
    }

    open spec fn from_spec(err: reqwest::Error) -> CustomError {
        CustomError::Reqwest(err)
    }
}

impl From<serde_json::Error> for CustomError {
    fn from(err: serde_json::Error) -> (r: CustomError) {
        CustomError::SerdeJson(err)
    }
}

impl vstd::std_specs::convert::FromSpecImpl<serde_json::Error> for CustomError {
    open spec fn obeys_from_spec() -> bool {
        true
    }

    open spec fn from_spec(err: serde_json::Error) -> CustomError {
        CustomError::SerdeJson(err)
    }
}

/// Whether `serde_json` reads the text as a JSON value.
pub uninterp spec fn json_text_is_valid(text: Seq<char>) -> bool;

/// The indented rendering that `serde_json` gives of the JSON value a text
/// holds.
pub uninterp spec fn pretty_json_text(text: Seq<char>) -> Seq<char>;

/// Reads `text` with `serde_json::from_str` as a `serde_json::Value` and
/// renders that value with `serde_json::to_string_pretty`. The reading
/// succeeds exactly on the texts that `serde_json` accepts as JSON, a
/// property of the text alone; the rendering of a `Value` cannot fail (its
/// map keys are strings and it writes into memory), and its output depends
/// on the value, hence on the text, alone.
#[verifier::external_body]
fn render_pretty(text: &str) -> (r: Result<String, serde_json::Error>)
    ensures
        r is Ok <==> json_text_is_valid(text@),
        r is Ok ==> r->Ok_0@ == pretty_json_text(text@),
{
    let value: serde_json::Value = serde_json::from_str(text)?;
    serde_json::to_string_pretty(&value)
}

/// Re-renders the coordinator's answer as indented JSON. Text that is not
/// JSON is refused with `CustomError::SerdeJson`.
pub fn pretty_response(text: &str) -> (r: Result<String, CustomError>)
    ensures
        r is Ok <==> json_text_is_valid(text@),
        r is Ok ==> r->Ok_0@ == pretty_json_text(text@),
        r is Err ==> r->Err_0 is SerdeJson,
{
    match render_pretty(text) {
        Ok(s) => Ok(s),
        Err(e) => Err(CustomError::from(e)),
    }
}

} // verus!
