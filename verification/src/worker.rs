//! The dispatch worker: the single consumer of the backlog.
//!
//! The worker is a two-state machine — idle, waiting on the backlog, or
//! publishing one message. Its decisions are pure: given the state and the
//! last outside event (a task became available, a publish succeeded, a
//! publish failed) it returns the next state and the action the surrounding
//! loop must perform. The loop performs the waiting, the broker write and
//! the error reporting, and hands the outcome back as the next event.

use vstd::prelude::*;

use crate::notification::NotificationTask;
use crate::notification::TaskView;
use crate::wire::encode_task;
use crate::wire::spec_wire_body;

verus! {

/// What one published message hands the broker: the body bytes, the
/// content-type marking and the delivery-persistence marking. Routing
/// (exchange and queue names) is configuration, not computed here.
pub struct PublishRequest {
    /// The message body.
    pub body: Vec<u8>,
    /// Content type of the body.
    pub content_type: String,
    /// Whether the broker must store the message durably until a consumer
    /// acknowledges it.
    pub persistent: bool,
}

/// Mathematical image of a [`PublishRequest`].
pub struct PublishView {
    pub body: Seq<u8>,
    pub content_type: Seq<char>,
    pub persistent: bool,
}

impl View for PublishRequest {
    type V = PublishView;

    open spec fn view(&self) -> PublishView {
        PublishView {
            body: self.body@,
            content_type: self.content_type@,
            persistent: self.persistent,
        }
    }
}

/// The publish owed for a task: its exact wire body, marked as structured
/// data and as persistent delivery.
pub open spec fn spec_publish_of(t: TaskView) -> PublishView {
    PublishView {
        body: spec_wire_body(t),
        content_type: "application/json"@,
        persistent: true,
    }
}

/// Builds the broker publish for one task.
pub fn prepare_publish(task: &NotificationTask) -> (r: PublishRequest)
    ensures
        r@ == spec_publish_of(task@),
        r.body@ == spec_wire_body(task@),
        r.content_type@ == "application/json"@,
        r.persistent,
{
    PublishRequest {
        body: encode_task(task),
        content_type: "application/json".to_owned(),
        persistent: true,
    }
}

/// The dispatch worker's state.
#[derive(Clone, Copy, Debug, PartialEq, Eq, Structural)]
pub enum WorkerState {
    /// Waiting on the backlog.
    Idle,
    /// Sending one message.
    Publishing,
}

/// What the surrounding loop reports to the worker.
pub enum WorkerEvent {
    /// A task was dequeued and is ready to be sent.
    TaskReady(NotificationTask),
    /// The last publish was written to the broker.
    PublishOk,
    /// The last publish failed; the text describes the error.
    PublishFailed(String),
}

/// What the worker asks the surrounding loop to do next.
pub enum WorkerAction {
    /// Wait on the backlog for the next task.
    AwaitTask,
    /// Publish this message to the broker.
    Publish(PublishRequest),
    /// Report this error to monitoring, then wait for the next task.
    ReportError(String),
}

/// Mathematical image of a [`WorkerEvent`].
pub enum EventView {
    TaskReady(TaskView),
    PublishOk,
    PublishFailed(Seq<char>),
}

/// Mathematical image of a [`WorkerAction`].
pub enum ActionView {
    AwaitTask,
    Publish(PublishView),
    ReportError(Seq<char>),
}

impl View for WorkerEvent {
    type V = EventView;

    open spec fn view(&self) -> EventView {
        match self {
            WorkerEvent::TaskReady(t) => EventView::TaskReady(t@),
            WorkerEvent::PublishOk => EventView::PublishOk,
            WorkerEvent::PublishFailed(e) => EventView::PublishFailed(e@),
        }
    }
}

impl View for WorkerAction {
    type V = ActionView;

    open spec fn view(&self) -> ActionView {
        match self {
            WorkerAction::AwaitTask => ActionView::AwaitTask,
            WorkerAction::Publish(r) => ActionView::Publish(r@),
            WorkerAction::ReportError(e) => ActionView::ReportError(e@),
        }
    }
}

/// The worker's transition relation. A ready task is turned into its
/// publish; a publish outcome — success or failure — returns the worker to
/// idle, failure asking for one error report first (the task itself is
/// discarded: no retry). An event that does not fit the state is ignored.
pub open spec fn spec_worker_next(s: WorkerState, e: EventView) -> (WorkerState, ActionView) {
    match (s, e) {
        (WorkerState::Idle, EventView::TaskReady(t)) => (
            WorkerState::Publishing,
            ActionView::Publish(spec_publish_of(t)),
        ),
        (WorkerState::Publishing, EventView::PublishOk) => (
            WorkerState::Idle,
            ActionView::AwaitTask,
        ),
        (WorkerState::Publishing, EventView::PublishFailed(err)) => (
            WorkerState::Idle,
            ActionView::ReportError(err),
        ),
        _ => (s, ActionView::AwaitTask),
    }
}

/// One decision of the dispatch worker.
pub fn worker_next(state: WorkerState, event: WorkerEvent) -> (r: (WorkerState, WorkerAction))
    ensures
        (r.0, r.1@) == spec_worker_next(state, event@),
{
    match (state, event) {
        (WorkerState::Idle, WorkerEvent::TaskReady(t)) => (
            WorkerState::Publishing,
            WorkerAction::Publish(prepare_publish(&t)),
        ),
        (WorkerState::Publishing, WorkerEvent::PublishOk) => (
            WorkerState::Idle,
            WorkerAction::AwaitTask,
        ),
        (WorkerState::Publishing, WorkerEvent::PublishFailed(e)) => (
            WorkerState::Idle,
            WorkerAction::ReportError(e),
        ),
        (s, _) => (s, WorkerAction::AwaitTask),
    }
}

/// Law: every publish the worker ever asks for is marked as persistent
/// delivery and as structured data.
pub proof fn lemma_publish_marking(s: WorkerState, e: EventView)
    ensures
        spec_worker_next(s, e).1 matches ActionView::Publish(p) ==> p.persistent
            && p.content_type == "application/json"@,
{
}

/// Law: a publish failure does not stall the worker. The failure is turned
/// into one error report and the worker is idle again, so a task that is
/// ready next is published as usual.
pub proof fn lemma_failure_then_next_task(err: Seq<char>, t: TaskView)
    ensures
        spec_worker_next(WorkerState::Publishing, EventView::PublishFailed(err)) == (
            WorkerState::Idle,
            ActionView::ReportError(err),
        ),
        spec_worker_next(WorkerState::Idle, EventView::TaskReady(t)) == (
            WorkerState::Publishing,
            ActionView::Publish(spec_publish_of(t)),
        ),
{
}

} // verus!
