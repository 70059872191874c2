use distributed_cicd::worker::{handle_task, simulate_workload, Task};

#[test]
fn workload_sums_below_limit() {
    assert_eq!(simulate_workload(0), 0);
    assert_eq!(simulate_workload(1), 0);
    assert_eq!(simulate_workload(10), 45);
    assert_eq!(simulate_workload(100_000), 4_999_950_000);
}

#[test]
fn handled_task_reports_completion() {
    let task = Task { id: 3, repository: "repo".to_string(), branch: "main".to_string() };
    let r = handle_task(&task);
    assert_eq!(r.id, 3);
    assert_eq!(r.status, "completed");
    assert_eq!(r.result, "Processed payload: 3");
}

#[test]
fn handled_task_large_id() {
    let task = Task { id: 4_000_000_123, repository: String::new(), branch: String::new() };
    let r = handle_task(&task);
    assert_eq!(r.id, 4_000_000_123);
    assert_eq!(r.result, "Processed payload: 4000000123");
}
