//! What cancellation, retry, waiting, abandonment and shutdown come to.

use vstd::prelude::*;

use super::control::abandon_post;
use super::control::cancel_command;
use super::control::cancel_loaded_post;
use super::control::cancel_transitioned_post;
use super::control::counted_post;
use super::control::drain_post;
use super::control::make_command;
use super::control::retry_loaded_post;
use super::control::retry_transitioned_post;
use super::control::wait_loaded_post;
use super::control::CancelDone;
use super::control::CancelStep;
use super::control::DrainStep;
use super::control::RecordReply;
use super::control::RetryStep;
use super::control::WaitStep;
use super::error::CancelOutcome;
use super::error::ServiceErrorModel;
use super::error::TaskServiceError;
use super::service_core::CoreModel;
use super::service_core::ServiceCore;
use crate::model::task_record::LifeModel;
use crate::model::task_record::TaskStateCounts;
use crate::model::task_record::TaskStateKind;
use crate::model::TaskId;
use crate::model::TaskOutput;
use crate::model::TaskRecord;
use crate::model::TaskState;
use crate::model::TransitionCommand;
use crate::store::lifecycle::abandoned;
use crate::store::lifecycle::advanced;
use crate::store::lifecycle::command_error;
use crate::store::lifecycle::revision_error;
use crate::store::StoreError;
use crate::store::StoreErrorModel;

verus! {

/// Cancelling a task that has not started finishes it as cancelled; cancelling a
/// running one asks its handler to stop and leaves everything else as it is.
pub proof fn law_cancelling_ends_or_asks(life: LifeModel, now: u64)
    requires
        life.state_version < u64::MAX,
        life.state is Queued || life.state is Blocked || life.state is Running,
    ensures
        ({
            let command = cancel_command(life);
            let stored = advanced(life, command, now);
            &&& command_error(command) is None
            &&& revision_error(life, command) is None
            &&& stored.id == life.id
            &&& stored.state_version == life.state_version + 1
            &&& stored.attempt == life.attempt
            &&& stored.accepted_at_ms == life.accepted_at_ms
            &&& stored.output is None
            &&& stored.retry_not_before_ms is None
            &&& !(life.state is Running) ==> {
                &&& stored.state is Cancelled
                &&& stored.finished_at_ms == Some(now)
                &&& stored.assigned_resources.len() == 0
                &&& !stored.cancel_requested
            }
            &&& life.state is Running ==> {
                &&& stored.state is Running
                &&& stored.finished_at_ms == life.finished_at_ms
                &&& stored.started_at_ms == life.started_at_ms
                &&& stored.assigned_resources == life.assigned_resources
                &&& stored.cancel_requested
            }
        }),
{
}

/// A cancellation answers what became of the task: a finished task is already
/// terminal, and the answer to any other is what the store then holds.
pub proof fn law_cancellation_answers_are_true<H, S, C>(
    before: CoreModel<H, S, C>,
    between: CoreModel<H, S, C>,
    after: CoreModel<H, S, C>,
    record: TaskRecord,
    tried: Option<u64>,
    kept: TaskRecord,
    command: crate::model::TransitionCommand,
    now: u64,
    updated: TaskRecord,
    done: CancelDone<S>,
)
    requires
        cancel_loaded_post(
            before,
            between,
            Ok(Some(record)),
            tried,
            CancelStep::Transition { record: kept, command },
        ),
        before.gate.active > 0,
        record@.life.state_version < u64::MAX,
        updated@.life == advanced(record@.life, command@, now),
        cancel_transitioned_post(between, after, kept@.life, Ok(updated), done),
    ensures
        revision_error(record@.life, command@) is None,
        done matches CancelDone::Reply { result, finalize, signal, fault } && {
            &&& result matches Ok(answer) && {
                &&& answer == CancelOutcome::CancelledBeforeStart <==> record@.life.state is Queued
                    || record@.life.state is Blocked
                &&& answer == CancelOutcome::CancelledBeforeStart ==> updated@.life.state
                    is Cancelled && updated@.life.finished_at_ms == Some(now)
                &&& answer == CancelOutcome::CancellationRequested <==> record@.life.state
                    is Running
                &&& answer == CancelOutcome::CancellationRequested ==> updated@.life.state
                    is Running && updated@.life.cancel_requested
            }
            &&& fault is None
            &&& signal <==> record@.life.state is Running && before.cancellations.contains_key(
                record@.life.id.0,
            ) && before.cancellations[record@.life.id.0].0 == record@.life.attempt
            &&& finalize is Some <==> !(record@.life.state is Running)
                && before.finalizations.contains_key(record@.life.id.0)
            &&& finalize is Some ==> finalize->0 == before.finalizations[record@.life.id.0]
        },
        after.gate.active == before.gate.active - 1,
        !(record@.life.state is Running) ==> !after.handlers.contains_key(record@.life.id.0)
            && !after.finalizations.contains_key(record@.life.id.0),
        record@.life.state is Running ==> after.queue == before.queue && after.queue_count
            == before.queue_count,
{
}

/// A cancellation that ends a waiting task takes it out of the queue and gives its
/// waiting position back; a task that does not wait in the queue holds none there.
pub proof fn law_cancelled_tasks_leave_the_queue<H, S, C>(
    between: CoreModel<H, S, C>,
    after: CoreModel<H, S, C>,
    life: LifeModel,
    updated: TaskRecord,
    done: CancelDone<S>,
)
    requires
        cancel_transitioned_post(between, after, life, Ok(updated), done),
        life.state is Queued,
        between.queue_count > 0,
    ensures
        between.queue.holds(life.id) ==> after.queue.len() == between.queue.len() - 1
            && after.queue_count == between.queue_count - 1,
        !between.queue.holds(life.id) ==> after.queue == between.queue && after.queue_count
            == between.queue_count,
{
    super::scheduler_queue::law_queue_accounts_for_every_task(
        between.queue,
        crate::scheduling::fair_fifo::QueuedModel {
            id: life.id,
            resources: crate::model::resource::no_demand(),
            retry_not_before_ms: None,
            bypasses: 0,
        },
        Seq::empty(),
        0,
        0,
        life.id,
    );
}

/// What a read tells a cancellation: a missing task, a finished one, a task that
/// did not move since the last try, or one to be changed.
pub proof fn law_cancellations_read_first<H, S, C>(
    before: CoreModel<H, S, C>,
    after: CoreModel<H, S, C>,
    found: Option<TaskRecord>,
    tried: Option<u64>,
    step: CancelStep<S>,
)
    requires
        cancel_loaded_post(before, after, Ok(found), tried, step),
    ensures
        found is None ==> (step matches CancelStep::Reply { result, fault } && (
        result matches Err(error) && error@ == ServiceErrorModel::Store(StoreErrorModel::NotFound))),
        found matches Some(record) ==> {
            let life = record@.life;
            let finished = life.state is Succeeded || life.state is Failed || life.state is Panicked
                || life.state is Cancelled;
            &&& finished ==> (step matches CancelStep::Reply { result, fault } && (
            result matches Ok(answer) && answer == CancelOutcome::AlreadyTerminal))
            &&& !finished && tried is Some && life.state_version <= tried->0 ==> (
            step matches CancelStep::Reply { result, fault } && (result matches Err(error)
                && error@ == ServiceErrorModel::Store(StoreErrorModel::Conflict)))
            &&& !finished && (tried is None || life.state_version > tried->0) ==> (
            step matches CancelStep::Transition { record: kept, command } && kept@ == record@
                && command@.id == life.id && command@.expected_version == life.state_version
                && command@.expected_attempt == life.attempt)
        },
        step is Transition ==> after == before,
        step is Reply ==> after == before.left(),
{
}

/// A blocked task with attempts left is requeued, without a deadline and without a
/// cancellation request, while a waiting position is free; any other is refused
/// with the reason.
pub proof fn law_blocked_tasks_are_requeued<H, S, C>(
    before: CoreModel<H, S, C>,
    after: CoreModel<H, S, C>,
    record: TaskRecord,
    step: RetryStep<S>,
    now: u64,
)
    requires
        retry_loaded_post(before, after, Ok(Some(record)), step),
        record@.life.state_version < u64::MAX,
    ensures
        ({
            let life = record@.life;
            let limit = before.settings.max_attempts;
            let free = before.queue_count < before.settings.queue_capacity;
            &&& step is Transition <==> life.state is Blocked && life.attempt < limit && free
            &&& step matches RetryStep::Transition(command) ==> {
                let stored = advanced(life, command@, now);
                &&& command_error(command@) is None
                &&& revision_error(life, command@) is None
                &&& stored.state is Queued
                &&& stored.id == life.id
                &&& stored.attempt == life.attempt
                &&& stored.state_version == life.state_version + 1
                &&& stored.retry_not_before_ms is None
                &&& !stored.cancel_requested
                &&& stored.assigned_resources.len() == 0
                &&& stored.output is None
                &&& after.queue_count == before.queue_count + 1
            }
            &&& step matches RetryStep::Reply { error, fault } ==> {
                &&& fault is None
                &&& !(life.state is Blocked) ==> error@ is Blocked
                &&& life.state is Blocked && life.attempt >= limit ==> error@
                    == (ServiceErrorModel::AttemptsExhausted { attempts: life.attempt, limit })
                &&& life.state is Blocked && life.attempt < limit ==> error@ is QueueFull
                &&& after.queue_count == before.queue_count
            }
        }),
{
}

/// A task that was requeued waits at the end of the ready tasks, and its record is
/// the answer; a refused change gives the waiting position back.
pub proof fn law_requeued_tasks_wait_last<H, S, C>(
    before: CoreModel<H, S, C>,
    after: CoreModel<H, S, C>,
    id: TaskId,
    updated: Result<TaskRecord, StoreError>,
    reply: RecordReply<S>,
)
    requires
        retry_transitioned_post(before, after, id, updated, reply),
        before.queue_count > 0,
    ensures
        updated matches Ok(record) ==> {
            &&& reply.result matches Ok(answer) && answer@ == record@
            &&& after.queue.ready.len() == before.queue.ready.len() + 1
            &&& after.queue.ready.last().id == id
            &&& after.queue.ready.last().resources == record@.request.info.resources
            &&& after.queue.ready.last().bypasses == 0
            &&& after.queue.ready.last().retry_not_before_ms is None
            &&& after.queue.ready.drop_last() == before.queue.ready
            &&& after.queue.delayed == before.queue.delayed
            &&& after.queue_count == before.queue_count
        },
        updated matches Err(error) ==> {
            &&& reply.result matches Err(told) && told@ == ServiceErrorModel::Store(error@)
            &&& after.queue == before.queue
            &&& after.queue_count == before.queue_count - 1
        },
{
    if updated is Ok {
        assert(after.queue.ready.drop_last() =~= before.queue.ready);
    }
}

/// A waiter is answered with a finished record, told of a blocked or missing task,
/// and waits on for a task that is queued or runs.
pub proof fn law_waiters_learn_the_end<H, S, C>(
    before: CoreModel<H, S, C>,
    after: CoreModel<H, S, C>,
    found: Option<TaskRecord>,
    step: WaitStep<S>,
)
    requires
        wait_loaded_post(before, after, Ok(found), step),
    ensures
        after == before,
        found matches Some(record) ==> {
            let state = record@.life.state;
            &&& step is Wait <==> state is Queued || state is Running
            &&& state is Blocked ==> (step matches WaitStep::Reply(reply) && (
            reply.result matches Err(error) && error@ is Blocked))
            &&& state is Succeeded || state is Failed || state is Panicked || state is Cancelled
                ==> (step matches WaitStep::Reply(reply) && (reply.result matches Ok(answer)
                && answer@ == record@))
        },
        found is None ==> (step matches WaitStep::Reply(reply) && (
        reply.result matches Err(error) && error@ == ServiceErrorModel::Store(
            StoreErrorModel::NotFound,
        ))),
{
}

/// Abandoning a blocked task finishes it as cancelled at the time given, one
/// revision later, with nothing assigned and nothing asked for.
pub proof fn law_abandoning_cancels(life: LifeModel, now: u64)
    requires
        life.state_version < u64::MAX,
    ensures
        ({
            let stored = abandoned(life, now);
            &&& stored.state is Cancelled
            &&& stored.state_version == life.state_version + 1
            &&& stored.finished_at_ms == Some(now)
            &&& stored.retry_not_before_ms is None
            &&& !stored.cancel_requested
            &&& stored.assigned_resources.len() == 0
            &&& stored.id == life.id
            &&& stored.attempt == life.attempt
            &&& stored.accepted_at_ms == life.accepted_at_ms
            &&& stored.started_at_ms == life.started_at_ms
            &&& stored.output == life.output
        }),
{
}

/// An abandonment is answered with the changed record, or with the state that the
/// task is in where it is not blocked; an abandoned local task is told.
pub proof fn law_abandonments_are_answered<H, S, C>(
    before: CoreModel<H, S, C>,
    after: CoreModel<H, S, C>,
    current: LifeModel,
    updated: Result<TaskRecord, StoreError>,
    reply: RecordReply<S>,
    finalize: Option<S>,
)
    requires
        abandon_post(before, after, current, updated, reply, finalize),
    ensures
        updated matches Ok(record) ==> {
            &&& reply.result matches Ok(answer) && answer@ == record@
            &&& finalize is Some <==> before.finalizations.contains_key(current.id.0)
            &&& finalize is Some ==> finalize->0 == before.finalizations[current.id.0]
            &&& !after.handlers.contains_key(current.id.0)
            &&& !after.finalizations.contains_key(current.id.0)
            &&& after.queue == before.queue
        },
        updated matches Err(error) ==> {
            &&& error@ is InvalidTransition ==> (reply.result matches Err(told) && (
            told@ matches ServiceErrorModel::NotBlocked { state } && (state
                == TaskStateKind::Queued <==> current.state is Queued) && (state
                == TaskStateKind::Running <==> current.state is Running) && (state
                == TaskStateKind::Succeeded <==> current.state is Succeeded) && (state
                == TaskStateKind::Failed <==> current.state is Failed) && (state
                == TaskStateKind::Panicked <==> current.state is Panicked) && (state
                == TaskStateKind::Cancelled <==> current.state is Cancelled)))
            &&& !(error@ is InvalidTransition) ==> (reply.result matches Err(told) && told@
                == ServiceErrorModel::Store(error@))
            &&& finalize is None
            &&& after.handlers == before.handlers || error@ is Failure
        },
{
}

/// Shutdown has drained the service exactly when no task is queued and none runs,
/// whatever is blocked or finished.
pub proof fn law_drained_means_nothing_queued_or_running<H, S, C>(
    before: CoreModel<H, S, C>,
    after: CoreModel<H, S, C>,
    counts: TaskStateCounts,
    step: DrainStep<S>,
)
    requires
        counted_post(before, after, Ok(counts), step) || (before.fault is None && drain_post(
            before,
            after,
            Ok(counts),
            step,
        )),
    ensures
        step is Settled <==> counts.queued + counts.running == 0,
        step is Wait <==> counts.queued + counts.running > 0,
        after == before,
{
}

/// A recorded storage failure ends draining with that failure.
pub proof fn law_draining_stops_at_a_fault<H, S, C>(
    before: CoreModel<H, S, C>,
    after: CoreModel<H, S, C>,
    counts: Result<TaskStateCounts, StoreError>,
    step: DrainStep<S>,
    diagnostic: Seq<char>,
)
    requires
        drain_post(before, after, counts, step),
        before.fault == Some(diagnostic),
    ensures
        step matches DrainStep::Fail { error, fault } && error@
            == ServiceErrorModel::StoreUnavailable(diagnostic) && fault is None,
        after == before,
{
}

/// A command is made for the revision and attempt of its record, and asks for what
/// it is told to.
pub proof fn law_commands_are_made_for_their_record(
    record: TaskRecord,
    state: TaskState,
    deadline: Option<u64>,
    output: Option<TaskOutput>,
    devices: Vec<String>,
    cancel_requested: bool,
    command: TransitionCommand,
)
    requires
        call_ensures(
            make_command,
            (&record, state, deadline, output, devices, cancel_requested),
            command,
        ),
    ensures
        command.id == record.id,
        command.expected_version == record.state_version,
        command.expected_attempt == record.attempt,
        command.state@ == state@,
        command.retry_not_before_ms == deadline,
        command.cancel_requested == cancel_requested,
        command.output is Some <==> output is Some,
        command.output matches Some(kept) ==> kept.summary@ == output->0.summary@,
        command@.assigned_resources.len() == devices@.len(),
        forall|i: int|
            0 <= i < devices@.len() ==> #[trigger] command@.assigned_resources[i] == devices@[i]@,
{
}

/// A waiter reads its task unless a storage failure was recorded, and is then told
/// of it.
pub proof fn law_waiters_are_told_of_failures<H, S, C>(
    core: ServiceCore<H, S, C>,
    result: Result<(), TaskServiceError>,
)
    requires
        call_ensures(ServiceCore::<H, S, C>::wait_check, (&core,), result),
    ensures
        result is Ok <==> core@.fault is None,
        result matches Err(error) ==> error@ == ServiceErrorModel::StoreUnavailable(
            core@.fault->0,
        ),
{
}

/// A cancellation that takes effect touches its own task: what is kept for a task
/// that ended is given up, a running task stays as it is until it stops, and a
/// change that came between sends the cancellation back to its read.
pub proof fn law_cancelling_touches_one_task<H, S, C>(
    before: CoreModel<H, S, C>,
    after: CoreModel<H, S, C>,
    life: LifeModel,
    updated: Result<TaskRecord, StoreError>,
    done: CancelDone<S>,
)
    requires
        cancel_transitioned_post(before, after, life, updated, done),
        before.gate.active > 0,
    ensures
        after.running == before.running,
        after.cancellations == before.cancellations,
        after.settings == before.settings,
        after.budget == before.budget,
        updated is Ok ==> after.fault == before.fault && after.gate.phase == before.gate.phase,
        done is Reload <==> (updated matches Err(error) && error@ is Conflict),
        done is Reload ==> after == before,
        done is Reply ==> after.gate.active == before.gate.active - 1,
        updated is Ok && (life.state is Queued || life.state is Blocked) ==> {
            &&& after.handlers == before.handlers.remove(life.id.0)
            &&& after.finalizations == before.finalizations.remove(life.id.0)
            &&& life.state is Blocked ==> after.queue == before.queue && after.queue_count
                == before.queue_count
        },
        updated is Ok && !(life.state is Queued || life.state is Blocked) ==> {
            &&& after.handlers == before.handlers
            &&& after.finalizations == before.finalizations
            &&& after.queue == before.queue
            &&& after.queue_count == before.queue_count
        },
        updated matches Err(error) ==> (!(error@ is Conflict) ==> {
            &&& done matches CancelDone::Reply { result, finalize, signal, fault } && (
            result matches Err(told) && told@ == ServiceErrorModel::Store(error@)) && finalize
                is None && !signal && (fault is Some <==> error@ is Failure)
            &&& after.fault is Some <==> before.fault is Some || error@ is Failure
            &&& after.queue == before.queue
        }),
{
}

/// A store that cannot be read is told to whoever asked, and recorded where it
/// failed; a retry of a missing task is told so. Each answer leaves admission.
pub proof fn law_unreadable_tasks_are_told<H, S, C>(
    before: CoreModel<H, S, C>,
    cancelled: CoreModel<H, S, C>,
    retried: CoreModel<H, S, C>,
    waited: CoreModel<H, S, C>,
    drained: CoreModel<H, S, C>,
    error: StoreError,
    tried: Option<u64>,
    cancel: CancelStep<S>,
    retry: RetryStep<S>,
    wait: WaitStep<S>,
    drain: DrainStep<S>,
)
    requires
        before.gate.active > 0,
        cancel_loaded_post(before, cancelled, Err(error), tried, cancel),
        retry_loaded_post(before, retried, Err(error), retry),
        wait_loaded_post(before, waited, Err(error), wait),
        counted_post(before, drained, Err(error), drain),
    ensures
        cancel matches CancelStep::Reply { result, fault } && (result matches Err(told) && told@
            == ServiceErrorModel::Store(error@)) && (fault is Some <==> error@ is Failure),
        retry matches RetryStep::Reply { error: told, fault } && told@ == ServiceErrorModel::Store(
            error@,
        ) && (fault is Some <==> error@ is Failure),
        wait matches WaitStep::Reply(reply) && (reply.result matches Err(told) && told@
            == ServiceErrorModel::Store(error@)) && (reply.fault is Some <==> error@ is Failure),
        drain matches DrainStep::Fail { error: told, fault } && told@ == ServiceErrorModel::Store(
            error@,
        ) && (fault is Some <==> error@ is Failure),
        cancelled.gate.active == before.gate.active - 1,
        retried.gate.active == before.gate.active - 1,
        waited.gate.active == before.gate.active,
        drained.gate.active == before.gate.active,
        cancelled.queue == before.queue && retried.queue == before.queue && waited.queue
            == before.queue && drained.queue == before.queue,
        retried.queue_count == before.queue_count,
        cancelled.fault is Some <==> before.fault is Some || error@ is Failure,
        retried.fault is Some <==> before.fault is Some || error@ is Failure,
        waited.fault is Some <==> before.fault is Some || error@ is Failure,
        drained.fault is Some <==> before.fault is Some || error@ is Failure,
{
}

/// A retry of a missing task is told so, takes no waiting position and leaves
/// admission.
pub proof fn law_missing_tasks_are_not_retried<H, S, C>(
    before: CoreModel<H, S, C>,
    after: CoreModel<H, S, C>,
    step: RetryStep<S>,
)
    requires
        before.gate.active > 0,
        retry_loaded_post(before, after, Ok(None), step),
    ensures
        step matches RetryStep::Reply { error, fault } && error@ == ServiceErrorModel::Store(
            StoreErrorModel::NotFound,
        ) && fault is None,
        after.queue_count == before.queue_count,
        after.queue == before.queue,
        after.gate.active == before.gate.active - 1,
        after.fault == before.fault,
{
}

} // verus!
