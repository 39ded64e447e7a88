//! Response records that the client's logic reads.
use vstd::prelude::*;
use vstd::string::StringExecFns;
use crate::enums::{DoclingComponentType, TaskType};
use crate::task::PollEvent;

verus! {

/// An error that a conversion reported.
#[derive(Debug, Clone)]
pub struct ErrorItem {
    pub component_type: DoclingComponentType,
    pub module_name: String,
    pub error_message: String,
}

/// Progress of an asynchronous task.
#[derive(Debug, Clone)]
pub struct TaskProcessingMeta {
    pub num_docs: i64,
    pub num_processed: i64,
    pub num_succeeded: i64,
    pub num_failed: i64,
}

/// The state of an asynchronous task, as submission and polling return it.
#[derive(Debug, Clone)]
pub struct TaskStatusResponse {
    /// The task's identifier.
    pub task_id: String,
    /// The kind of task.
    pub task_type: TaskType,
    /// The status text (`PENDING`, `STARTED`, `SUCCESS`, `FAILURE`, ...).
    pub task_status: String,
    /// Position in the queue, while waiting.
    pub task_position: Option<i64>,
    /// Processing progress.
    pub task_meta: Option<TaskProcessingMeta>,
}

impl TaskStatusResponse {
    /// The event of a poll that returned this status.
    pub fn into_event(self) -> (r: PollEvent)
        ensures
            r matches PollEvent::Status { task_status } && task_status@ == self.task_status@,
    {
        PollEvent::Status { task_status: self.task_status }
    }
}

/// The answer of the health check.
#[derive(Debug, Clone)]
pub struct HealthCheckResponse {
    pub status: String,
}

/// The health status assumed when the answer names none: `ok`.
pub fn default_health_status() -> (r: String)
    ensures
        r@ == "ok"@,
{
    String::from_str("ok")
}

impl Default for HealthCheckResponse {
    /// A healthy answer.
    fn default() -> (r: Self)
        ensures
            r.status@ == "ok"@,
    {
        HealthCheckResponse { status: default_health_status() }
    }
}

} // verus!
