//! What holds of a service across its operations.

use vstd::prelude::*;

use super::attempts::attempt_end;
use super::attempts::end_command;
use super::attempts::OutcomeModel;
use super::builder::recovery_post;
use super::builder::RecoveryStep;
use super::control::cancel_command;
use super::control::command_for;
use super::control::requeue_command;
use super::control::retry_error;
use super::error::ServiceErrorModel;
use super::scheduler::block_command;
use super::service_core::CoreModel;
use super::submission::fails_with;
use super::submission::gives;
use super::submission::lookup_post;
use super::submission::SubmitStep;
use crate::model::task_record::CommandModel;
use crate::model::task_record::LifeModel;
use crate::model::task_record::RecordModel;
use crate::model::task_record::StateModel;
use crate::model::task_request::limits_error;
use crate::model::task_request::RequestModel;
use crate::model::TaskId;
use crate::model::TaskRecord;
use crate::store::lifecycle::advanced;
use crate::store::lifecycle::revision_error;
use crate::store::memory_history::law_retained_requests_replay;
use crate::store::memory_model::MemoryModel;
use crate::store::StoreErrorModel;

verus! {

/// Whether a task has started at most `max_attempts` times, and fewer times
/// while it still waits to be started.
pub open spec fn within_budget(life: LifeModel, max_attempts: u32) -> bool {
    &&& life.attempt <= max_attempts
    &&& life.state is Queued ==> life.attempt < max_attempts
}

/// A newly accepted task is within its attempt budget.
pub proof fn law_accepted_tasks_are_within_budget(id: TaskId, now: u64, max_attempts: u32)
    requires
        max_attempts >= 1,
    ensures
        within_budget(LifeModel::accepted(id, now), max_attempts),
{
}

/// Whether a command is one that the service applies to a task in this
/// lifecycle: cancellation, a requeue that the attempt budget allows, blocking,
/// a start of a queued task, the end of an attempt, or recovery.
pub open spec fn is_service_command<H, S, C>(
    core: CoreModel<H, S, C>,
    life: LifeModel,
    request: RequestModel,
    command: CommandModel,
) -> bool {
    ||| command == cancel_command(life)
    ||| command == requeue_command(life) && retry_error(core, life) is None
    ||| exists|reason: Seq<char>| command == #[trigger] block_command(life, reason)
    ||| life.state is Queued && exists|devices: Seq<Seq<char>>|
        command == #[trigger] command_for(
            life,
            StateModel::Running,
            None,
            None,
            devices,
            false,
        )
    ||| life.state is Running && exists|outcome: OutcomeModel, now_ms: u64|
        command == end_command(
            life,
            #[trigger] attempt_end(core, life.attempt, outcome, now_ms),
        )
    ||| exists|has_handler: bool, step: RecoveryStep|
        #[trigger] recovery_post(
            RecordModel { request, life },
            core.settings.max_attempts,
            has_handler,
            step,
        ) && ((step matches RecoveryStep::Block(c) && c@ == command) || (step matches RecoveryStep::Requeue(
            c,
        ) && c@ == command))
}

/// No task is ever started more often than the configured number of attempts:
/// whatever the service does to a task within its budget leaves it within.
pub proof fn law_attempt_budget_is_never_exceeded<H, S, C>(
    core: CoreModel<H, S, C>,
    life: LifeModel,
    request: RequestModel,
    command: CommandModel,
    now: u64,
)
    requires
        within_budget(life, core.settings.max_attempts),
        is_service_command(core, life, request, command),
        revision_error(life, command) is None,
    ensures
        within_budget(advanced(life, command, now), core.settings.max_attempts),
{
}

/// As long as an accepted task is retained, repeating its request is answered
/// with its current record, takes no waiting position and queues nothing.
pub proof fn law_repeated_submission_is_answered_with_its_record<H, S, C>(
    store: MemoryModel,
    holder: u128,
    record: TaskRecord,
    before: CoreModel<H, S, C>,
    after: CoreModel<H, S, C>,
    rechecking: bool,
    step: SubmitStep<S>,
)
    requires
        store.valid(),
        store.records.contains_key(holder),
        store.records[holder].request.info.idempotency_key is Some,
        limits_error(store.records[holder].request) is None,
        record@ == store.records[store.replayed(store.records[holder].request)->0],
        lookup_post(
            before,
            after,
            store.records[holder].request,
            Ok(Some(record)),
            rechecking,
            step,
        ),
    ensures
        step matches SubmitStep::Reply(reply) && gives(reply.result, store.records[holder])
            && !reply.queued,
        after == before.left(),
{
    law_retained_requests_replay(store, holder, TaskId(holder));
}

/// A different request with a retained key is refused as a conflict and takes no
/// waiting position.
pub proof fn law_reused_key_is_refused<H, S, C>(
    request: RequestModel,
    record: TaskRecord,
    before: CoreModel<H, S, C>,
    after: CoreModel<H, S, C>,
    rechecking: bool,
    step: SubmitStep<S>,
)
    requires
        record@.request != request,
        lookup_post(before, after, request, Ok(Some(record)), rechecking, step),
    ensures
        step matches SubmitStep::Reply(reply) && fails_with(
            reply.result,
            ServiceErrorModel::Store(StoreErrorModel::IdempotencyConflict),
        ),
        after.queue_count == before.queue_count,
{
}

/// A task is accepted only while a waiting position is free, so that accepting
/// never takes more positions than the queue has.
pub proof fn law_acceptance_needs_a_position<H, S, C>(
    request: RequestModel,
    before: CoreModel<H, S, C>,
    after: CoreModel<H, S, C>,
    rechecking: bool,
    step: SubmitStep<S>,
)
    requires
        lookup_post(before, after, request, Ok(None), rechecking, step),
    ensures
        step is Accept ==> before.queue_count < before.settings.queue_capacity && after.queue_count
            == before.queue_count + 1 && after.queue_count <= after.settings.queue_capacity,
        !(step is Accept) ==> after.queue_count == before.queue_count,
{
}

} // verus!
