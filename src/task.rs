//! The state machine that drives an asynchronous conversion task from
//! submission to a result: before each status poll it checks the deadline,
//! and each polled status either ends the task or sends it round again.
//!
//! The machine makes no calls itself. Its caller performs each action it
//! returns (a poll, the fetch of the result) and hands back what happened.
use vstd::prelude::*;
use vstd::string::StringExecFns;
use crate::error::DoclingError;
use crate::text::text_eq;

verus! {

/// The long-poll wait of each status request, in milliseconds, when the
/// caller names none.
pub const DEFAULT_POLL_WAIT_MILLIS: u64 = 5000;

/// Where the machine stands.
#[derive(Debug, Clone, Copy, PartialEq, Eq, Structural)]
pub enum PollPhase {
    /// The deadline is to be checked before the next poll.
    Ready,
    /// A poll was sent; its status is awaited.
    AwaitingStatus,
    /// The task succeeded, failed or timed out; nothing more is done.
    Finished,
}

/// What happened since the last step.
pub enum PollEvent {
    /// The caller is about to poll; this much time has passed since the
    /// task was submitted.
    Tick { elapsed_nanos: u128 },
    /// The status that a poll returned.
    Status { task_status: String },
}

/// What the caller is to do next.
#[derive(Debug)]
pub enum PollAction {
    /// Poll the task's status, asking the service to wait up to
    /// `wait_millis` for a change.
    Poll { task_id: String, wait_millis: u64 },
    /// Fetch the task's result and return it.
    FetchResult { task_id: String },
    /// Stop with this error.
    Fail(DoclingError),
    /// The task is still running: check the deadline again.
    Continue,
    /// The event does not fit the current phase; nothing changed.
    Ignored,
}

/// An event as the model sees it.
pub ghost enum EventModel {
    Tick(u128),
    Status(Seq<char>),
}

/// An action as the model sees it.
pub ghost enum ActionKind {
    Poll,
    FetchResult,
    TaskFailed,
    TimedOut(u128),
    Continue,
    Ignored,
}

impl PollEvent {
    /// The event as the model sees it.
    pub open spec fn model(&self) -> EventModel {
        match self {
            PollEvent::Tick { elapsed_nanos } => EventModel::Tick(*elapsed_nanos),
            PollEvent::Status { task_status } => EventModel::Status(task_status@),
        }
    }
}

impl PollAction {
    /// The action as the model sees it.
    pub open spec fn kind(&self) -> ActionKind {
        match self {
            PollAction::Poll { .. } => ActionKind::Poll,
            PollAction::FetchResult { .. } => ActionKind::FetchResult,
            PollAction::Fail(DoclingError::TaskFailed { .. }) => ActionKind::TaskFailed,
            PollAction::Fail(DoclingError::Timeout { elapsed_nanos, .. }) => ActionKind::TimedOut(*elapsed_nanos),
            PollAction::Fail(_) => ActionKind::Ignored,
            PollAction::Continue => ActionKind::Continue,
            PollAction::Ignored => ActionKind::Ignored,
        }
    }
}

/// The status that ends a task with its result.
pub open spec fn success_status() -> Seq<char> {
    "SUCCESS"@
}

/// The status that ends a task in failure.
pub open spec fn failure_status() -> Seq<char> {
    "FAILURE"@
}

/// One step of the machine: the next phase and the action.
pub open spec fn next(phase: PollPhase, timeout_nanos: u128, ev: EventModel) -> (PollPhase, ActionKind) {
    match (phase, ev) {
        (PollPhase::Ready, EventModel::Tick(elapsed)) => {
            if elapsed > timeout_nanos {
                (PollPhase::Finished, ActionKind::TimedOut(elapsed))
            } else {
                (PollPhase::AwaitingStatus, ActionKind::Poll)
            }
        }
        (PollPhase::AwaitingStatus, EventModel::Status(s)) => {
            if s == success_status() {
                (PollPhase::Finished, ActionKind::FetchResult)
            } else if s == failure_status() {
                (PollPhase::Finished, ActionKind::TaskFailed)
            } else {
                (PollPhase::Ready, ActionKind::Continue)
            }
        }
        _ => (phase, ActionKind::Ignored),
    }
}

/// The actions of the machine on a sequence of events.
pub open spec fn run(phase: PollPhase, timeout_nanos: u128, evs: Seq<EventModel>) -> Seq<ActionKind>
    decreases evs.len(),
{
    if evs.len() == 0 {
        Seq::empty()
    } else {
        let (p, a) = next(phase, timeout_nanos, evs[0]);
        seq![a] + run(p, timeout_nanos, evs.drop_first())
    }
}

/// Whether an action ends the task.
pub open spec fn is_terminal(a: ActionKind) -> bool {
    match a {
        ActionKind::FetchResult | ActionKind::TaskFailed | ActionKind::TimedOut(_) => true,
        _ => false,
    }
}

/// The number of actions that end the task.
pub open spec fn terminal_count(acts: Seq<ActionKind>) -> nat
    decreases acts.len(),
{
    if acts.len() == 0 {
        0
    } else {
        (if is_terminal(acts[0]) { 1nat } else { 0nat }) + terminal_count(acts.drop_first())
    }
}

/// The coordinator of one asynchronous task.
pub struct TaskPoller {
    task_id: String,
    timeout_nanos: u128,
    wait_millis: u64,
    phase: PollPhase,
}

impl TaskPoller {
    /// The task's identifier.
    pub closed spec fn spec_task_id(&self) -> Seq<char> {
        self.task_id@
    }

    /// The time after which the task is given up.
    pub closed spec fn spec_timeout_nanos(&self) -> u128 {
        self.timeout_nanos
    }

    /// The long-poll wait of each status request.
    pub closed spec fn spec_wait_millis(&self) -> u64 {
        self.wait_millis
    }

    /// Where the machine stands.
    pub closed spec fn spec_phase(&self) -> PollPhase {
        self.phase
    }

    /// A coordinator for the task `task_id`, just submitted. It gives up once
    /// more than `timeout_nanos` have passed; each poll asks the service to
    /// wait `poll_wait_millis`, or five seconds when that is absent.
    pub fn new(task_id: &str, timeout_nanos: u128, poll_wait_millis: Option<u64>) -> (r: Self)
        ensures
            r.spec_task_id() == task_id@,
            r.spec_timeout_nanos() == timeout_nanos,
            r.spec_wait_millis() == match poll_wait_millis {
                Some(w) => w,
                None => DEFAULT_POLL_WAIT_MILLIS,
            },
            r.spec_phase() == PollPhase::Ready,
    {
        let wait_millis = match poll_wait_millis {
            Some(w) => w,
            None => DEFAULT_POLL_WAIT_MILLIS,
        };
        TaskPoller { task_id: String::from_str(task_id), timeout_nanos, wait_millis, phase: PollPhase::Ready }
    }

    /// The current phase.
    pub fn phase(&self) -> (r: PollPhase)
        ensures
            r == self.spec_phase(),
    {
        self.phase
    }

    /// Takes one event and says what to do next.
    pub fn step(&mut self, ev: PollEvent) -> (r: PollAction)
        ensures
            final(self).spec_task_id() == old(self).spec_task_id(),
            final(self).spec_timeout_nanos() == old(self).spec_timeout_nanos(),
            final(self).spec_wait_millis() == old(self).spec_wait_millis(),
            (final(self).spec_phase(), r.kind()) == next(old(self).spec_phase(), old(self).spec_timeout_nanos(), ev.model()),
            r matches PollAction::Poll { task_id, wait_millis }
                ==> task_id@ == old(self).spec_task_id() && wait_millis == old(self).spec_wait_millis(),
            r matches PollAction::FetchResult { task_id } ==> task_id@ == old(self).spec_task_id(),
            r matches PollAction::Fail(e) ==> match e {
                DoclingError::TaskFailed { task_id, status } => task_id@ == old(self).spec_task_id() && status@ == failure_status(),
                DoclingError::Timeout { task_id, .. } => task_id@ == old(self).spec_task_id(),
                _ => false,
            },
    {
        match (self.phase, ev) {
            (PollPhase::Ready, PollEvent::Tick { elapsed_nanos }) => {
                if elapsed_nanos > self.timeout_nanos {
                    self.phase = PollPhase::Finished;
                    PollAction::Fail(DoclingError::Timeout { task_id: self.task_id.clone(), elapsed_nanos })
                } else {
                    self.phase = PollPhase::AwaitingStatus;
                    PollAction::Poll { task_id: self.task_id.clone(), wait_millis: self.wait_millis }
                }
            }
            (PollPhase::AwaitingStatus, PollEvent::Status { task_status }) => {
                if text_eq(task_status.as_str(), "SUCCESS") {
                    self.phase = PollPhase::Finished;
                    PollAction::FetchResult { task_id: self.task_id.clone() }
                } else if text_eq(task_status.as_str(), "FAILURE") {
                    self.phase = PollPhase::Finished;
                    PollAction::Fail(DoclingError::TaskFailed {
                        task_id: self.task_id.clone(),
                        status: String::from_str("FAILURE"),
                    })
                } else {
                    self.phase = PollPhase::Ready;
                    PollAction::Continue
                }
            }
            _ => PollAction::Ignored,
        }
    }
}

/// Once the task has ended, no event makes the machine act again.
pub proof fn lemma_finished_ignores_all(timeout_nanos: u128, evs: Seq<EventModel>)
    ensures
        forall|i: int| 0 <= i < evs.len() ==> #[trigger] run(PollPhase::Finished, timeout_nanos, evs)[i] == ActionKind::Ignored,
        run(PollPhase::Finished, timeout_nanos, evs).len() == evs.len(),
    decreases evs.len(),
{
    if evs.len() > 0 {
        lemma_finished_ignores_all(timeout_nanos, evs.drop_first());
        let rest = run(PollPhase::Finished, timeout_nanos, evs.drop_first());
        assert forall|i: int| 0 <= i < evs.len() implies #[trigger] run(PollPhase::Finished, timeout_nanos, evs)[i] == ActionKind::Ignored by {
            if i > 0 {
                assert(run(PollPhase::Finished, timeout_nanos, evs)[i] == rest[i - 1]);
            }
        }
    }
}

/// Whatever the events, a task ends at most once: one result fetch, or one
/// failure, or one timeout, and nothing of the three after that.
pub proof fn lemma_at_most_one_ending(phase: PollPhase, timeout_nanos: u128, evs: Seq<EventModel>)
    ensures
        terminal_count(run(phase, timeout_nanos, evs)) <= 1,
        phase == PollPhase::Finished ==> terminal_count(run(phase, timeout_nanos, evs)) == 0,
    decreases evs.len(),
{
    if evs.len() > 0 {
        let (p, a) = next(phase, timeout_nanos, evs[0]);
        lemma_at_most_one_ending(p, timeout_nanos, evs.drop_first());
        let acts = run(phase, timeout_nanos, evs);
        assert(acts[0] == a);
        assert(acts.drop_first() =~= run(p, timeout_nanos, evs.drop_first()));
    }
}

/// Each action answers the event at the same place: a poll only after a
/// deadline check that passed, a timeout only after one that failed (with
/// the elapsed time, above the timeout), a result fetch only after a
/// `SUCCESS` status, a task failure only after a `FAILURE` status.
pub proof fn lemma_actions_follow_events(phase: PollPhase, timeout_nanos: u128, evs: Seq<EventModel>)
    ensures
        run(phase, timeout_nanos, evs).len() == evs.len(),
        forall|i: int| 0 <= i < evs.len() ==> match #[trigger] run(phase, timeout_nanos, evs)[i] {
            ActionKind::Poll => evs[i] matches EventModel::Tick(e) && e <= timeout_nanos,
            ActionKind::TimedOut(e) => evs[i] == EventModel::Tick(e) && e > timeout_nanos,
            ActionKind::FetchResult => evs[i] == EventModel::Status(success_status()),
            ActionKind::TaskFailed => evs[i] == EventModel::Status(failure_status()),
            _ => true,
        },
    decreases evs.len(),
{
    if evs.len() > 0 {
        let (p, a) = next(phase, timeout_nanos, evs[0]);
        lemma_actions_follow_events(p, timeout_nanos, evs.drop_first());
        let acts = run(phase, timeout_nanos, evs);
        let rest = run(p, timeout_nanos, evs.drop_first());
        assert forall|i: int| 0 <= i < evs.len() implies match #[trigger] run(phase, timeout_nanos, evs)[i] {
            ActionKind::Poll => evs[i] matches EventModel::Tick(e) && e <= timeout_nanos,
            ActionKind::TimedOut(e) => evs[i] == EventModel::Tick(e) && e > timeout_nanos,
            ActionKind::FetchResult => evs[i] == EventModel::Status(success_status()),
            ActionKind::TaskFailed => evs[i] == EventModel::Status(failure_status()),
            _ => true,
        } by {
            if i > 0 {
                assert(acts[i] == rest[i - 1]);
                assert(evs[i] == evs.drop_first()[i - 1]);
            }
        }
    }
}

} // verus!
