use vstd::prelude::*;
use crate::models::Task;

verus! {

/// HTTP status `200 OK`.
pub const STATUS_OK: u16 = 200;

/// HTTP status `502 Bad Gateway`.
pub const STATUS_BAD_GATEWAY: u16 = 502;

/// Whether an HTTP status code is in the success class `2xx`.
pub open spec fn is_success_code(code: u16) -> bool {
    200 <= code && code < 300
}

/// Whether an HTTP status code is in the success class `2xx`.
pub fn is_success(code: u16) -> (r: bool)
    ensures
        r == (200 <= code && code < 300),
{
    200 <= code && code < 300
}

/// What came back when the coordinator handed a task to a worker.
#[derive(Debug, Clone, Copy, PartialEq, Eq, Structural)]
pub enum WorkerReply {
    /// The worker answered with this HTTP status code.
    Responded { status: u16 },
    /// The worker could not be reached.
    Unreachable,
}

/// How the coordinator answers its own caller after a worker's reply.
#[derive(Debug, Clone, Copy, PartialEq, Eq, Structural)]
pub enum BuildTaskReply {
    /// The worker succeeded: relay its task result with `200 OK`.
    Forward,
    /// The worker answered with a status outside `2xx`: `502 Bad Gateway`.
    WorkerFailed { status: u16 },
    /// The worker could not be reached: `502 Bad Gateway`.
    ConnectFailed,
}

/// The coordinator's answer for each kind of worker reply.
pub open spec fn build_task_reply_spec(reply: WorkerReply) -> BuildTaskReply {
    match reply {
        WorkerReply::Responded { status } => if 200 <= status && status < 300 {
            BuildTaskReply::Forward
        } else {
            BuildTaskReply::WorkerFailed { status }
        },
        WorkerReply::Unreachable => BuildTaskReply::ConnectFailed,
    }
}

/// Decides how to answer the caller once the worker has replied.
pub fn judge_worker_reply(reply: WorkerReply) -> (r: BuildTaskReply)
    ensures
        r == build_task_reply_spec(reply),
        r is ConnectFailed <==> reply is Unreachable,
        r is Forward <==> (reply matches WorkerReply::Responded { status } && is_success_code(
            status,
        )),
        r matches BuildTaskReply::WorkerFailed { status } ==> reply == (WorkerReply::Responded {
            status,
        }),
{
    match reply {
        WorkerReply::Responded { status } => {
            if is_success(status) {
                BuildTaskReply::Forward
            } else {
                BuildTaskReply::WorkerFailed { status }
            }
        },
        WorkerReply::Unreachable => BuildTaskReply::ConnectFailed,
    }
}

/// The HTTP status code of each kind of answer.
pub open spec fn reply_status(r: BuildTaskReply) -> u16 {
    if r is Forward {
        200
    } else {
        502
    }
}

impl BuildTaskReply {
    /// The HTTP status code of the answer: `200` when the worker's result is
    /// relayed, `502` otherwise.
    pub fn status_code(&self) -> (code: u16)
        ensures
            code == reply_status(*self),
    {
        match self {
            BuildTaskReply::Forward => STATUS_OK,
            _ => STATUS_BAD_GATEWAY,
        }
    }
}

/// The text the caller gets with each kind of answer: none when the worker's
/// result is relayed; otherwise `Worker failed with status: ` or
/// `Failed to connect to worker: ` followed by `detail`, the worker's status
/// as text or the connection error as text.
pub open spec fn reply_body_text(r: BuildTaskReply, detail: Seq<char>) -> Option<Seq<char>> {
    match r {
        BuildTaskReply::Forward => None,
        BuildTaskReply::WorkerFailed { .. } => Some("Worker failed with status: "@ + detail),
        BuildTaskReply::ConnectFailed => Some("Failed to connect to worker: "@ + detail),
    }
}

impl BuildTaskReply {
    /// The text body of the answer, built from `detail`: the worker's status
    /// as text when it failed, the connection error as text when it could
    /// not be reached. `None` when the worker's result is relayed instead.
    pub fn body(&self, detail: &str) -> (body: Option<String>)
        ensures
            body is None <==> reply_body_text(*self, detail@) is None,
            body is Some ==> body->0@ == reply_body_text(*self, detail@)->0,
    {
        match self {
            BuildTaskReply::Forward => None,
            BuildTaskReply::WorkerFailed { .. } => Some(
                String::from_str("Worker failed with status: ").concat(detail),
            ),
            BuildTaskReply::ConnectFailed => Some(
                String::from_str("Failed to connect to worker: ").concat(detail),
            ),
        }
    }
}

/// The caller gets `200 OK` exactly when the worker answered with a `2xx`
/// status; every other outcome, an error status or an unreachable worker,
/// becomes `502 Bad Gateway`.
pub proof fn lemma_reply_status(reply: WorkerReply)
    ensures
        reply_status(build_task_reply_spec(reply)) == 200 <==> (reply matches WorkerReply::Responded {
            status,
        } && 200 <= status && status < 300),
        reply_status(build_task_reply_spec(reply)) == 200 || reply_status(
            build_task_reply_spec(reply),
        ) == 502,
{
}

/// What the coordinator concludes from a worker's reply: a worker that
/// answered is never taken for an unreachable one; an answer outside `2xx`
/// is a worker failure that carries the very status the worker sent; an
/// answer in `2xx` is relayed; and only a worker that could not be reached
/// counts as a connection failure.
pub proof fn lemma_judgement_follows_reply(status: u16)
    ensures
        !(200 <= status && status < 300) ==> build_task_reply_spec(WorkerReply::Responded { status })
            == (BuildTaskReply::WorkerFailed { status }),
        (200 <= status && status < 300) ==> build_task_reply_spec(WorkerReply::Responded { status })
            == BuildTaskReply::Forward,
        !(build_task_reply_spec(WorkerReply::Responded { status }) is ConnectFailed),
        build_task_reply_spec(WorkerReply::Unreachable) == BuildTaskReply::ConnectFailed,
{
}

/// The fixed task that the round-robin handler sends to the chosen worker.
pub fn build_task2_payload() -> (t: Task)
    ensures
        t.id == 1,
        t.repository@ == "Build this project"@,
        t.task@ == "test"@,
{
    Task { id: 1, repository: String::from_str("Build this project"), task: String::from_str("test") }
}

} // verus!
