//! Version-checked lifecycle transitions shared by every store.

use vstd::prelude::*;

use super::StoreError;
use super::StoreErrorModel;
use crate::model::task_record::copy_opt_output;
use crate::model::task_record::opt_output;
use crate::model::task_record::CommandModel;
use crate::model::task_record::LifeModel;
use crate::model::task_record::RecordModel;
use crate::model::task_record::StateModel;
use crate::model::task_record::SummaryModel;
use crate::model::task_record::TaskRecord;
use crate::model::task_record::TaskState;
use crate::model::task_record::TaskSummary;
use crate::model::task_record::TransitionCommand;
use crate::model::task_request::MAX_TASK_OUTPUT_SUMMARY_BYTES;
use crate::model::task_request::TaskOutput;
use crate::model::task_request::TaskRequest;
use crate::model::task_request::TaskRequestInfo;
use crate::model::TaskId;
use crate::text::copy_texts;
use crate::text::texts;

verus! {

/// Why a command is refused whatever the task's current revision, if it is.
pub open spec fn command_error(command: CommandModel) -> Option<StoreErrorModel> {
    if command.state.diagnostics_error() is Some {
        Some(StoreErrorModel::InvalidRequest(command.state.diagnostics_error()->0))
    } else if command.output is Some && command.output->0.len() > MAX_TASK_OUTPUT_SUMMARY_BYTES {
        Some(StoreErrorModel::InvalidRequest("task output summary exceeds the 65536-byte limit"@))
    } else {
        None
    }
}

/// Why a command is refused on a task in the given lifecycle, if it is.
pub open spec fn revision_error(life: LifeModel, command: CommandModel) -> Option<StoreErrorModel> {
    if life.state_version != command.expected_version || life.attempt != command.expected_attempt {
        Some(StoreErrorModel::Conflict)
    } else if !life.state.allows(command.state) {
        Some(StoreErrorModel::InvalidTransition)
    } else if command.retry_not_before_ms is Some && command.state != StateModel::Queued {
        Some(StoreErrorModel::InvalidRequest("only queued tasks may have a retry deadline"@))
    } else {
        None
    }
}

/// Whether a command starts a new execution attempt.
pub open spec fn starts_attempt(life: LifeModel, command: CommandModel) -> bool {
    life.state != StateModel::Running && command.state == StateModel::Running
}

/// The lifecycle after a command takes effect at `now`.
pub open spec fn advanced(life: LifeModel, command: CommandModel, now: u64) -> LifeModel {
    LifeModel {
        id: life.id,
        state: command.state,
        state_version: (life.state_version + 1) as u64,
        attempt: if starts_attempt(life, command) {
            (life.attempt + 1) as u32
        } else {
            life.attempt
        },
        retry_not_before_ms: command.retry_not_before_ms,
        accepted_at_ms: life.accepted_at_ms,
        started_at_ms: if starts_attempt(life, command) {
            Some(now)
        } else {
            life.started_at_ms
        },
        finished_at_ms: if command.state.is_terminal() {
            Some(now)
        } else {
            life.finished_at_ms
        },
        assigned_resources: command.assigned_resources,
        output: command.output,
        cancel_requested: command.cancel_requested,
    }
}

/// Whether the counters that a command raises, if it takes effect, can be raised.
pub open spec fn counters_fit(life: LifeModel, command: CommandModel) -> bool {
    revision_error(life, command) is None ==> {
        &&& life.state_version < u64::MAX
        &&& starts_attempt(life, command) ==> life.attempt < u32::MAX
    }
}

/// Why an abandon request is refused on a task in the given lifecycle, if it is.
pub open spec fn abandon_error(life: LifeModel, expected_version: u64) -> Option<StoreErrorModel> {
    if life.state_version != expected_version {
        Some(StoreErrorModel::Conflict)
    } else if !(life.state is Blocked) {
        Some(StoreErrorModel::InvalidTransition)
    } else {
        None
    }
}

/// The lifecycle after a blocked task is abandoned at `now`.
pub open spec fn abandoned(life: LifeModel, now: u64) -> LifeModel {
    LifeModel {
        state: StateModel::Cancelled,
        state_version: (life.state_version + 1) as u64,
        retry_not_before_ms: None,
        finished_at_ms: Some(now),
        cancel_requested: false,
        assigned_resources: Seq::empty(),
        ..life
    }
}

/// A command that took effect makes every other command for the same revision
/// a conflict, so of two competing commands at most one takes effect.
pub proof fn law_stale_commands_conflict(
    life: LifeModel,
    first: CommandModel,
    second: CommandModel,
    now: u64,
)
    requires
        life.state_version < u64::MAX,
        revision_error(life, first) is None,
        second.expected_version == first.expected_version,
    ensures
        revision_error(advanced(life, first, now), second) == Some(StoreErrorModel::Conflict),
{
}

/// Every accepted command raises the revision by one, keeps identity and
/// acceptance time, and raises the attempt count by one exactly when it starts
/// an attempt.
pub proof fn law_transitions_are_monotone(life: LifeModel, command: CommandModel, now: u64)
    requires
        counters_fit(life, command),
        revision_error(life, command) is None,
    ensures
        advanced(life, command, now).id == life.id,
        advanced(life, command, now).accepted_at_ms == life.accepted_at_ms,
        advanced(life, command, now).state_version == life.state_version + 1,
        advanced(life, command, now).attempt == life.attempt + (if starts_attempt(life, command) {
            1int
        } else {
            0int
        }),
        !life.state.is_terminal(),
{
}

/// A completion time is set exactly when a task is finished, from its acceptance
/// on.
pub proof fn law_completion_times_mark_finished_tasks(
    id: TaskId,
    life: LifeModel,
    command: CommandModel,
    expected_version: u64,
    now: u64,
)
    requires
        life.is_timed(),
    ensures
        LifeModel::accepted(id, now).is_timed(),
        revision_error(life, command) is None ==> advanced(life, command, now).is_timed(),
        abandon_error(life, expected_version) is None ==> abandoned(life, now).is_timed(),
{
}

/// No command takes effect on a finished task.
pub proof fn law_finished_tasks_never_change(life: LifeModel, command: CommandModel)
    requires
        life.state.is_terminal(),
    ensures
        revision_error(life, command) is Some,
{
}

/// Checks the parts of a command that do not depend on the stored task.
pub fn check_command(command: &TransitionCommand) -> (result: Result<(), StoreError>)
    ensures
        match result {
            Ok(_) => command_error(command@) is None,
            Err(e) => command_error(command@) == Some(e@),
        },
{
    match command.state.validate_diagnostics() {
        Ok(_) => {},
        Err(message) => {
            return Err(StoreError::InvalidRequest(message));
        },
    }
    match &command.output {
        Some(output) => {
            if output.summary.len() > MAX_TASK_OUTPUT_SUMMARY_BYTES {
                return Err(
                    StoreError::InvalidRequest("task output summary exceeds the 65536-byte limit"),
                );
            }
        },
        None => {},
    }
    Ok(())
}

/// Mutable fields of a task, stored apart from its immutable request.
#[derive(Debug)]
pub struct StoredLifecycle {
    pub id: TaskId,
    pub state: TaskState,
    pub state_version: u64,
    pub attempt: u32,
    pub retry_not_before_ms: Option<u64>,
    pub accepted_at_ms: u64,
    pub started_at_ms: Option<u64>,
    pub finished_at_ms: Option<u64>,
    pub assigned_resources: Vec<String>,
    pub output: Option<TaskOutput>,
    pub cancel_requested: bool,
}

impl View for StoredLifecycle {
    type V = LifeModel;

    open spec fn view(&self) -> LifeModel {
        LifeModel {
            id: self.id,
            state: self.state@,
            state_version: self.state_version,
            attempt: self.attempt,
            retry_not_before_ms: self.retry_not_before_ms,
            accepted_at_ms: self.accepted_at_ms,
            started_at_ms: self.started_at_ms,
            finished_at_ms: self.finished_at_ms,
            assigned_resources: texts(self.assigned_resources@),
            output: opt_output(self.output),
            cancel_requested: self.cancel_requested,
        }
    }
}

impl StoredLifecycle {
    /// Copies mutable and lifecycle fields from a complete record.
    pub fn from_record(record: &TaskRecord) -> (life: Self)
        ensures
            life@ == record@.life,
    {
        StoredLifecycle {
            id: record.id,
            state: record.state.clone(),
            state_version: record.state_version,
            attempt: record.attempt,
            retry_not_before_ms: record.retry_not_before_ms,
            accepted_at_ms: record.accepted_at_ms,
            started_at_ms: record.started_at_ms,
            finished_at_ms: record.finished_at_ms,
            assigned_resources: copy_texts(&record.assigned_resources),
            output: copy_opt_output(&record.output),
            cancel_requested: record.cancel_requested,
        }
    }

    /// Copies mutable and lifecycle fields from a summary.
    pub fn from_summary(record: &TaskSummary) -> (life: Self)
        ensures
            life@ == record@.life,
    {
        StoredLifecycle {
            id: record.id,
            state: record.state.clone(),
            state_version: record.state_version,
            attempt: record.attempt,
            retry_not_before_ms: record.retry_not_before_ms,
            accepted_at_ms: record.accepted_at_ms,
            started_at_ms: record.started_at_ms,
            finished_at_ms: record.finished_at_ms,
            assigned_resources: copy_texts(&record.assigned_resources),
            output: copy_opt_output(&record.output),
            cancel_requested: record.cancel_requested,
        }
    }

    /// Reconstructs a complete record using its immutable request.
    pub fn into_record(self, request: TaskRequest) -> (record: TaskRecord)
        ensures
            record@ == (RecordModel { request: request@, life: self@ }),
    {
        TaskRecord {
            id: self.id,
            request,
            state: self.state,
            state_version: self.state_version,
            attempt: self.attempt,
            retry_not_before_ms: self.retry_not_before_ms,
            accepted_at_ms: self.accepted_at_ms,
            started_at_ms: self.started_at_ms,
            finished_at_ms: self.finished_at_ms,
            assigned_resources: self.assigned_resources,
            output: self.output,
            cancel_requested: self.cancel_requested,
        }
    }

    /// Reconstructs a summary using the payload-free request fields.
    pub fn into_summary(self, request: TaskRequestInfo) -> (summary: TaskSummary)
        ensures
            summary@ == (SummaryModel { request: request@, life: self@ }),
    {
        TaskSummary {
            id: self.id,
            request,
            state: self.state,
            state_version: self.state_version,
            attempt: self.attempt,
            retry_not_before_ms: self.retry_not_before_ms,
            accepted_at_ms: self.accepted_at_ms,
            started_at_ms: self.started_at_ms,
            finished_at_ms: self.finished_at_ms,
            assigned_resources: self.assigned_resources,
            output: self.output,
            cancel_requested: self.cancel_requested,
        }
    }

    /// Checks a command against the current revision.
    pub fn check_revision(&self, command: &TransitionCommand) -> (result: Result<(), StoreError>)
        ensures
            match result {
                Ok(_) => revision_error(self@, command@) is None,
                Err(e) => revision_error(self@, command@) == Some(e@),
            },
    {
        if self.state_version != command.expected_version || self.attempt
            != command.expected_attempt {
            return Err(StoreError::Conflict);
        }
        if !self.state.allows_transition_to(&command.state) {
            return Err(StoreError::InvalidTransition);
        }
        if command.retry_not_before_ms.is_some() && !matches!(command.state, TaskState::Queued) {
            return Err(StoreError::InvalidRequest("only queued tasks may have a retry deadline"));
        }
        Ok(())
    }

    /// Returns whether the counters that a command raises, if it takes effect,
    /// can be raised.
    pub fn can_count(&self, command: &TransitionCommand) -> (fits: bool)
        ensures
            fits == counters_fit(self@, command@),
    {
        if self.check_revision(command).is_err() {
            return true;
        }
        let starting = !matches!(self.state, TaskState::Running) && matches!(
            command.state,
            TaskState::Running
        );
        self.state_version < u64::MAX && (!starting || self.attempt < u32::MAX)
    }

    /// Applies a checked command at `now`.
    pub fn advance(self, command: TransitionCommand, now: u64) -> (next: Self)
        requires
            revision_error(self@, command@) is None,
            counters_fit(self@, command@),
        ensures
            next@ == advanced(self@, command@, now),
    {
        let starting = !matches!(self.state, TaskState::Running) && matches!(
            command.state,
            TaskState::Running
        );
        let mut next = self;
        next.state = command.state;
        next.retry_not_before_ms = command.retry_not_before_ms;
        next.state_version = next.state_version + 1;
        if starting {
            next.attempt = next.attempt + 1;
            next.started_at_ms = Some(now);
        }
        if next.state.is_terminal() {
            next.finished_at_ms = Some(now);
        }
        next.cancel_requested = command.cancel_requested;
        next.assigned_resources = command.assigned_resources;
        next.output = command.output;
        next
    }

    /// Abandons a blocked task at `now`.
    pub fn abandon(self, expected_version: u64, now: u64) -> (result: Result<Self, StoreError>)
        requires
            abandon_error(self@, expected_version) is None ==> expected_version < u64::MAX,
        ensures
            match result {
                Ok(next) => abandon_error(self@, expected_version) is None && next@ == abandoned(
                    self@,
                    now,
                ),
                Err(e) => abandon_error(self@, expected_version) == Some(e@),
            },
    {
        if self.state_version != expected_version {
            return Err(StoreError::Conflict);
        }
        if !matches!(self.state, TaskState::Blocked { .. }) {
            return Err(StoreError::InvalidTransition);
        }
        let mut next = self;
        next.state = TaskState::Cancelled;
        next.state_version = next.state_version + 1;
        next.retry_not_before_ms = None;
        next.finished_at_ms = Some(now);
        next.cancel_requested = false;
        next.assigned_resources = Vec::new();
        proof {
            assert(texts(next.assigned_resources@) =~= Seq::<Seq<char>>::empty());
        }
        Ok(next)
    }
}

} // verus!
