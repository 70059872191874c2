use distributed_cicd::handlers::{
    build_task2_payload, is_success, judge_worker_reply, BuildTaskReply, WorkerReply,
    STATUS_BAD_GATEWAY, STATUS_OK,
};

#[test]
fn success_class_bounds() {
    assert!(!is_success(199));
    assert!(is_success(200));
    assert!(is_success(201));
    assert!(is_success(299));
    assert!(!is_success(300));
    assert!(!is_success(404));
    assert!(!is_success(502));
}

#[test]
fn successful_worker_is_forwarded() {
    let r = judge_worker_reply(WorkerReply::Responded { status: 200 });
    assert_eq!(r, BuildTaskReply::Forward);
    assert_eq!(r.status_code(), STATUS_OK);
    assert_eq!(r.status_code(), 200);
}

#[test]
fn failing_worker_is_bad_gateway() {
    let r = judge_worker_reply(WorkerReply::Responded { status: 500 });
    assert_eq!(r, BuildTaskReply::WorkerFailed { status: 500 });
    assert_eq!(r.status_code(), STATUS_BAD_GATEWAY);
    assert_eq!(r.status_code(), 502);
    let r = judge_worker_reply(WorkerReply::Responded { status: 302 });
    assert_eq!(r, BuildTaskReply::WorkerFailed { status: 302 });
}

#[test]
fn unreachable_worker_is_bad_gateway() {
    let r = judge_worker_reply(WorkerReply::Unreachable);
    assert_eq!(r, BuildTaskReply::ConnectFailed);
    assert_eq!(r.status_code(), 502);
}

#[test]
fn round_robin_payload() {
    let t = build_task2_payload();
    assert_eq!(t.id, 1);
    assert_eq!(t.repository, "Build this project");
    assert_eq!(t.task, "test");
}

#[test]
fn failure_bodies() {
    let r = judge_worker_reply(WorkerReply::Responded { status: 500 });
    assert_eq!(
        r.body("500 Internal Server Error").as_deref(),
        Some("Worker failed with status: 500 Internal Server Error")
    );
    let r = judge_worker_reply(WorkerReply::Unreachable);
    assert_eq!(
        r.body("error sending request").as_deref(),
        Some("Failed to connect to worker: error sending request")
    );
    let r = judge_worker_reply(WorkerReply::Responded { status: 200 });
    assert_eq!(r.body("200 OK"), None);
}
