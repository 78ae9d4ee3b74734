//! Lifecycle event payloads.

use vstd::prelude::*;

use crate::model::task_record::StateModel;
use crate::model::task_record::SummaryModel;
use crate::model::TaskId;
use crate::model::TaskState;
use crate::model::TaskSummary;
use crate::text::copy_opt_text;
use crate::text::opt_text;

verus! {

/// Immutable status-change event suitable for duplicate-aware consumers.
#[derive(Debug)]
pub struct TaskEvent {
    /// Stable task identifier.
    pub task_id: TaskId,
    /// Monotonic status revision; consumers may discard older revisions.
    pub state_version: u64,
    /// Current lifecycle state.
    pub state: TaskState,
    /// Business correlation key, when present.
    pub correlation_key: Option<String>,
}

/// Content of a [`TaskEvent`].
#[verifier::ext_equal]
pub struct EventModel {
    pub task_id: TaskId,
    pub state_version: u64,
    pub state: StateModel,
    pub correlation_key: Option<Seq<char>>,
}

impl View for TaskEvent {
    type V = EventModel;

    open spec fn view(&self) -> EventModel {
        EventModel {
            task_id: self.task_id,
            state_version: self.state_version,
            state: self.state@,
            correlation_key: opt_text(self.correlation_key),
        }
    }
}

/// The event that announces a task's current revision.
pub open spec fn event_of(summary: SummaryModel) -> EventModel {
    EventModel {
        task_id: summary.life.id,
        state_version: summary.life.state_version,
        state: summary.life.state,
        correlation_key: summary.request.correlation_key,
    }
}

impl TaskEvent {
    /// Creates the event that announces a task's current revision.
    pub fn of(summary: &TaskSummary) -> (event: Self)
        ensures
            event@ == event_of(summary@),
    {
        TaskEvent {
            task_id: summary.id,
            state_version: summary.state_version,
            state: summary.state.clone(),
            correlation_key: copy_opt_text(&summary.request.correlation_key),
        }
    }
}

impl<'a> From<&'a TaskSummary> for TaskEvent {
    fn from(summary: &'a TaskSummary) -> (event: Self)
        ensures
            event@ == event_of(summary@),
    {
        TaskEvent::of(summary)
    }
}

impl<'a> vstd::std_specs::convert::FromSpecImpl<&'a TaskSummary> for TaskEvent {
    open spec fn obeys_from_spec() -> bool {
        false
    }

    open spec fn from_spec(summary: &'a TaskSummary) -> Self {
        arbitrary()
    }
}

/// An event announces the task, the revision, the state and the correlation key
/// of the summary that it was made of.
pub proof fn law_events_announce_their_task(summary: TaskSummary, event: TaskEvent)
    requires
        call_ensures(TaskEvent::of, (&summary,), event),
    ensures
        event.task_id == summary.id,
        event.state_version == summary.state_version,
        event.state@ == summary.state@,
        event.correlation_key is Some <==> summary.request.correlation_key is Some,
        event.correlation_key matches Some(key) ==> key@ == summary.request.correlation_key->0@,
{
}

} // verus!
