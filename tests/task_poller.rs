use docling_rs::task::DEFAULT_POLL_WAIT_MILLIS;
use docling_rs::{DoclingError, PollAction, PollEvent, PollPhase, TaskPoller};

const SECOND: u128 = 1_000_000_000;

fn tick(secs: u128) -> PollEvent {
    PollEvent::Tick { elapsed_nanos: secs * SECOND }
}

fn status(s: &str) -> PollEvent {
    PollEvent::Status { task_status: s.to_string() }
}

#[test]
fn wait_for_conversion_happy_path() {
    let mut poller = TaskPoller::new("task-005", 30 * SECOND, Some(1000));
    let mut fetches = 0;
    match poller.step(tick(0)) {
        PollAction::Poll { task_id, wait_millis } => {
            assert_eq!(task_id, "task-005");
            assert_eq!(wait_millis, 1000);
        }
        other => panic!("Expected Poll, got: {:?}", other),
    }
    match poller.step(status("SUCCESS")) {
        PollAction::FetchResult { task_id } => {
            assert_eq!(task_id, "task-005");
            fetches += 1;
        }
        other => panic!("Expected FetchResult, got: {:?}", other),
    }
    assert_eq!(poller.phase(), PollPhase::Finished);
    for ev in [tick(1), status("SUCCESS"), tick(100)] {
        match poller.step(ev) {
            PollAction::Ignored => {}
            other => panic!("Expected Ignored, got: {:?}", other),
        }
    }
    assert_eq!(fetches, 1);
}

#[test]
fn wait_for_conversion_task_failure() {
    let mut poller = TaskPoller::new("task-fail", 30 * SECOND, Some(1000));
    assert!(matches!(poller.step(tick(0)), PollAction::Poll { .. }));
    match poller.step(status("FAILURE")) {
        PollAction::Fail(DoclingError::TaskFailed { task_id, status }) => {
            assert_eq!(task_id, "task-fail");
            assert_eq!(status, "FAILURE");
        }
        other => panic!("Expected TaskFailed, got: {:?}", other),
    }
    assert!(matches!(poller.step(tick(1)), PollAction::Ignored));
    assert!(matches!(poller.step(status("SUCCESS")), PollAction::Ignored));
}

#[test]
fn timeout_before_terminal_status() {
    let mut poller = TaskPoller::new("task-slow", 2 * SECOND, None);
    for elapsed in [0, 1, 2] {
        match poller.step(tick(elapsed)) {
            PollAction::Poll { task_id, wait_millis } => {
                assert_eq!(task_id, "task-slow");
                assert_eq!(wait_millis, DEFAULT_POLL_WAIT_MILLIS);
            }
            other => panic!("Expected Poll, got: {:?}", other),
        }
        assert!(matches!(poller.step(status("PENDING")), PollAction::Continue));
    }
    let late = 2 * SECOND + 1;
    match poller.step(PollEvent::Tick { elapsed_nanos: late }) {
        PollAction::Fail(DoclingError::Timeout { task_id, elapsed_nanos }) => {
            assert_eq!(task_id, "task-slow");
            assert_eq!(elapsed_nanos, late);
            assert!(elapsed_nanos >= 2 * SECOND);
        }
        other => panic!("Expected Timeout, got: {:?}", other),
    }
    assert_eq!(poller.phase(), PollPhase::Finished);
}

#[test]
fn default_wait_is_five_seconds() {
    assert_eq!(DEFAULT_POLL_WAIT_MILLIS, 5000);
}

#[test]
fn unknown_and_lowercase_statuses_keep_polling() {
    let mut poller = TaskPoller::new("t", 60 * SECOND, Some(250));
    for s in ["PENDING", "STARTED", "success", "failure", "RETRY", ""] {
        assert!(matches!(poller.step(tick(0)), PollAction::Poll { .. }));
        assert!(matches!(poller.step(status(s)), PollAction::Continue));
        assert_eq!(poller.phase(), PollPhase::Ready);
    }
}

#[test]
fn events_out_of_order_are_ignored() {
    let mut poller = TaskPoller::new("t", 60 * SECOND, None);
    assert!(matches!(poller.step(status("SUCCESS")), PollAction::Ignored));
    assert_eq!(poller.phase(), PollPhase::Ready);
    assert!(matches!(poller.step(tick(0)), PollAction::Poll { .. }));
    assert!(matches!(poller.step(tick(0)), PollAction::Ignored));
    assert_eq!(poller.phase(), PollPhase::AwaitingStatus);
}
