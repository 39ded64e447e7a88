use docling_rs::enums::TaskType;
use docling_rs::responses::default_health_status;
use docling_rs::{HealthCheckResponse, PollEvent, TaskStatusResponse};

#[test]
fn health_response_empty_json_uses_default() {
    assert_eq!(default_health_status(), "ok");
    assert_eq!(HealthCheckResponse::default().status, "ok");
}

#[test]
fn task_status_becomes_poll_event() {
    let status = TaskStatusResponse {
        task_id: "abc-123".to_string(),
        task_type: TaskType::Convert,
        task_status: "PENDING".to_string(),
        task_position: Some(2),
        task_meta: None,
    };
    match status.into_event() {
        PollEvent::Status { task_status } => assert_eq!(task_status, "PENDING"),
        PollEvent::Tick { .. } => panic!("Expected a status event"),
    }
}
