use vstd::prelude::*;
use crate::text::{decimal, push_decimal};

verus! {

/// A build task as a worker receives it.
#[derive(Debug)]
pub struct Task {
    pub id: u32,
    pub repository: String,
    pub branch: String,
}

/// What a worker reports back for a task.
#[derive(Debug)]
pub struct TaskResult {
    pub id: u32,
    pub status: String,
    pub result: String,
}

/// The work a worker simulates for each task: the sum of all integers below
/// `iterations`, accumulated one at a time.
pub fn simulate_workload(iterations: u32) -> (total: i128)
    ensures
        2 * total == iterations * (iterations - 1),
{
    let mut x: i128 = 0;
    let mut i: u32 = 0;
    while i < iterations
        invariant
            i <= iterations,
            2 * x == i * (i - 1),
        decreases iterations - i,
    {
        assert(2 * (x + i) == (i + 1) * i) by (nonlinear_arith)
            requires
                2 * x == i * (i - 1),
        ;
        assert(x + i < 0x1_0000_0000_0000_0000) by (nonlinear_arith)
            requires
                2 * x == i * (i - 1),
                i < 0x1_0000_0000,
        ;
        x = x + i as i128;
        i = i + 1;
    }
    x
}

/// The result a worker reports once it has processed `task`: the task's id,
/// the status `completed`, and `Processed payload: ` followed by the id in
/// decimal.
pub fn handle_task(task: &Task) -> (r: TaskResult)
    ensures
        r.id == task.id,
        r.status@ == "completed"@,
        r.result@ == "Processed payload: "@ + decimal(task.id as nat),
{
    let mut result = String::from_str("Processed payload: ");
    push_decimal(&mut result, task.id);
    TaskResult { id: task.id, status: String::from_str("completed"), result }
}

} // verus!
