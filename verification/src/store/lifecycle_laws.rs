//! What a transition command does to a task.

use vstd::prelude::*;
use vstd::utf8::encode_utf8;

use super::lifecycle::abandon_error;
use super::lifecycle::advanced;
use super::lifecycle::check_command;
use super::lifecycle::command_error;
use super::lifecycle::revision_error;
use super::lifecycle::StoredLifecycle;
use super::StoreError;
use super::StoreErrorModel;
use crate::model::record_laws::is_over;
use crate::model::task_record::CommandModel;
use crate::model::task_record::LifeModel;
use crate::model::task_record::StateModel;
use crate::model::TaskRecord;
use crate::model::TaskRequest;
use crate::model::TaskRequestInfo;
use crate::model::TaskSummary;
use crate::model::TransitionCommand;
use crate::text::decimal_text;

verus! {

/// A command is well formed exactly when its reason, messages and category keep
/// their limits of 4096 and 128 bytes, and its output one of 65536.
pub proof fn law_commands_are_bounded(command: TransitionCommand, result: Result<(), StoreError>)
    requires
        call_ensures(check_command, (&command,), result),
    ensures
        result is Ok <==> {
            &&& match command@.state {
                StateModel::Blocked { reason } => encode_utf8(reason).len() <= 4096,
                StateModel::Failed { category, message } => encode_utf8(category).len() <= 128
                    && encode_utf8(message).len() <= 4096,
                StateModel::Panicked { message } => encode_utf8(message).len() <= 4096,
                _ => true,
            }
            &&& command.output matches Some(output) ==> output.summary@.len() <= 65_536
        },
        result is Ok <==> command_error(command@) is None,
        result matches Err(error) ==> error@ is InvalidRequest,
{
}

/// A command takes effect exactly when it names the task's revision and attempt,
/// the move is one that tasks make, and only a queued task is given a deadline.
/// Otherwise a stale command is a conflict, before anything else is looked at.
pub proof fn law_commands_take_effect_on_their_revision(
    life: StoredLifecycle,
    command: TransitionCommand,
    result: Result<(), StoreError>,
)
    requires
        call_ensures(StoredLifecycle::check_revision, (&life, &command), result),
    ensures
        ({
            let current = life.state_version == command.expected_version && life.attempt
                == command.expected_attempt;
            let from = life.state@;
            let to = command.state@;
            let moves = (from is Queued && (to is Running || to is Blocked || to is Cancelled))
                || from is Running || (from is Blocked && (to is Queued || to is Cancelled));
            let deadline_fits = command.retry_not_before_ms is Some ==> to is Queued;
            &&& result is Ok <==> current && moves && deadline_fits
            &&& !current ==> (result matches Err(error) && error@ is Conflict)
            &&& current && !moves ==> (result matches Err(error) && error@ is InvalidTransition)
            &&& current && moves && !deadline_fits ==> (result matches Err(error) && error@
                == StoreErrorModel::InvalidRequest("only queued tasks may have a retry deadline"@))
            &&& result is Ok <==> revision_error(life@, command@) is None
        }),
{
}

/// What a task becomes under a command: its state, deadline, output, devices and
/// cancellation request are the command's; its revision is one later; an attempt
/// is counted and dated exactly when a task that does not run starts to; a task
/// that is over is dated; and all else stays.
pub proof fn law_commands_change_what_they_say(life: LifeModel, command: CommandModel, now: u64)
    requires
        life.state_version < u64::MAX,
        life.attempt < u32::MAX,
    ensures
        ({
            let next = advanced(life, command, now);
            let starts = !(life.state is Running) && command.state is Running;
            &&& next.id == life.id
            &&& next.accepted_at_ms == life.accepted_at_ms
            &&& next.state == command.state
            &&& next.retry_not_before_ms == command.retry_not_before_ms
            &&& next.output == command.output
            &&& next.assigned_resources == command.assigned_resources
            &&& next.cancel_requested == command.cancel_requested
            &&& next.state_version == life.state_version + 1
            &&& starts ==> next.attempt == life.attempt + 1 && next.started_at_ms == Some(now)
            &&& !starts ==> next.attempt == life.attempt && next.started_at_ms
                == life.started_at_ms
            &&& is_over(command.state) ==> next.finished_at_ms == Some(now)
            &&& !is_over(command.state) ==> next.finished_at_ms == life.finished_at_ms
        }),
{
}

/// A task is abandoned exactly when it is blocked and in the revision named.
pub proof fn law_only_blocked_tasks_are_abandoned(life: LifeModel, expected_version: u64)
    ensures
        abandon_error(life, expected_version) is None <==> life.state is Blocked
            && life.state_version == expected_version,
        life.state_version != expected_version ==> abandon_error(life, expected_version) == Some(
            StoreErrorModel::Conflict,
        ),
        life.state_version == expected_version && !(life.state is Blocked) ==> abandon_error(
            life,
            expected_version,
        ) == Some(StoreErrorModel::InvalidTransition),
{
}

/// What store errors say.
pub proof fn law_store_errors_are_described(error: StoreError, text: String)
    requires
        call_ensures(StoreError::message, (&error,), text),
    ensures
        match error@ {
            StoreErrorModel::UnsupportedCapability => text@
                == "the selected task store does not support the requested capability"@,
            StoreErrorModel::DuplicateTask => text@ == "task identifier already exists"@,
            StoreErrorModel::IdempotencyConflict => text@
                == "idempotency key was reused with a different task request"@,
            StoreErrorModel::CapacityExceeded { requested_bytes, available_bytes } => text@
                == "task payload budget exceeded: requested "@ + decimal_text(
                requested_bytes as nat,
            ) + " bytes, "@ + decimal_text(available_bytes as nat) + " bytes available"@,
            StoreErrorModel::UnfinishedRecordLimitExceeded { limit } => text@
                == "unfinished task record limit exceeded ("@ + decimal_text(limit as nat) + ")"@,
            StoreErrorModel::Conflict => text@
                == "task state changed before the requested transition"@,
            StoreErrorModel::InvalidRequest(detail) => text@ == "invalid task data: "@ + detail,
            StoreErrorModel::InvalidTransition => text@
                == "task lifecycle transition is not allowed"@,
            StoreErrorModel::NotFound => text@ == "task was not found"@,
            StoreErrorModel::Failure(detail) => text@ == "task store failure: "@ + detail,
        },
{
}

/// A lifecycle taken out of a record or a summary and put back with its request
/// gives the same record or summary.
pub proof fn law_lifecycles_are_split_off_whole(
    record: TaskRecord,
    life: StoredLifecycle,
    request: TaskRequest,
    joined: TaskRecord,
    summary: TaskSummary,
    short: StoredLifecycle,
    info: TaskRequestInfo,
    again: TaskSummary,
)
    requires
        call_ensures(StoredLifecycle::from_record, (&record,), life),
        call_ensures(StoredLifecycle::into_record, (life, request), joined),
        call_ensures(StoredLifecycle::from_summary, (&summary,), short),
        call_ensures(StoredLifecycle::into_summary, (short, info), again),
    ensures
        life.id == record.id && life.state@ == record.state@,
        life.state_version == record.state_version && life.attempt == record.attempt,
        life.accepted_at_ms == record.accepted_at_ms && life.retry_not_before_ms
            == record.retry_not_before_ms,
        life.started_at_ms == record.started_at_ms && life.finished_at_ms == record.finished_at_ms,
        life.cancel_requested == record.cancel_requested,
        joined@.request == request@ && joined@.life == record@.life,
        joined.id == record.id && joined.state@ == record.state@ && joined.attempt
            == record.attempt,
        short.id == summary.id && short.state@ == summary.state@ && short.attempt
            == summary.attempt,
        again@.request == info@ && again@.life == summary@.life,
{
}

/// A command that takes effect on a task can be counted exactly while the revision,
/// and the attempt of a task that starts, are not at their largest.
pub proof fn law_counters_are_bounded(
    life: StoredLifecycle,
    command: TransitionCommand,
    checked: Result<(), StoreError>,
    fits: bool,
)
    requires
        call_ensures(StoredLifecycle::check_revision, (&life, &command), checked),
        call_ensures(StoredLifecycle::can_count, (&life, &command), fits),
    ensures
        checked is Err ==> fits,
        checked is Ok ==> (fits <==> life.state_version < 0xffff_ffff_ffff_ffff && (
        !(life.state@ is Running) && command.state@ is Running ==> life.attempt < 0xffff_ffff)),
{
}

/// A lifecycle moves on as its command says, in the next revision.
pub proof fn law_lifecycles_move_on(
    life: StoredLifecycle,
    command: TransitionCommand,
    now: u64,
    next: StoredLifecycle,
)
    requires
        call_requires(StoredLifecycle::advance, (life, command, now)),
        call_ensures(StoredLifecycle::advance, (life, command, now), next),
        life.state_version < u64::MAX,
        life.attempt < u32::MAX,
    ensures
        next.id == life.id,
        next.state@ == command.state@,
        next.state_version == life.state_version + 1,
        next.retry_not_before_ms == command.retry_not_before_ms,
        next.cancel_requested == command.cancel_requested,
        next.accepted_at_ms == life.accepted_at_ms,
        ({
            let starts = !(life.state@ is Running) && command.state@ is Running;
            &&& starts ==> next.attempt == life.attempt + 1 && next.started_at_ms == Some(now)
            &&& !starts ==> next.attempt == life.attempt && next.started_at_ms
                == life.started_at_ms
        }),
        is_over(command.state@) ==> next.finished_at_ms == Some(now),
        !is_over(command.state@) ==> next.finished_at_ms == life.finished_at_ms,
{
}

/// A blocked task in the revision named is abandoned: it becomes cancelled, in the
/// next revision, dated, without devices, deadline or request to cancel.
pub proof fn law_abandoned_lifecycles_are_cancelled(
    life: StoredLifecycle,
    expected_version: u64,
    now: u64,
    result: Result<StoredLifecycle, StoreError>,
)
    requires
        expected_version < u64::MAX,
        call_ensures(StoredLifecycle::abandon, (life, expected_version, now), result),
    ensures
        result is Ok <==> life.state@ is Blocked && life.state_version == expected_version,
        life.state_version != expected_version ==> (result matches Err(error) && error@
            is Conflict),
        life.state_version == expected_version ==> (result matches Err(error) ==> error@
            is InvalidTransition),
        result matches Ok(next) ==> {
            &&& next.id == life.id
            &&& next.state@ is Cancelled
            &&& next.state_version == expected_version + 1
            &&& next.finished_at_ms == Some(now)
            &&& next.retry_not_before_ms is None
            &&& !next.cancel_requested
            &&& next@.assigned_resources.len() == 0
            &&& next.attempt == life.attempt
            &&& next.accepted_at_ms == life.accepted_at_ms
            &&& next.started_at_ms == life.started_at_ms
            &&& next@.output == life@.output
        },
{
}

} // verus!
