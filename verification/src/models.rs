use vstd::prelude::*;

verus! {

/// A build task as the coordinator receives it and passes it on to a worker.
#[derive(Debug)]
pub struct Task {
    pub id: u32,
    pub repository: String,
    pub task: String,
}

/// A worker's report on a task, as the coordinator relays it.
#[derive(Debug)]
pub struct TaskResult {
    pub id: u32,
    pub status: String,
    pub result: String,
}

} // verus!
