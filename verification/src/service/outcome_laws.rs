//! What an attempt's outcome means for its task and for its local handle.

use vstd::prelude::*;
use vstd::utf8::encode_utf8;

use super::attempts::attempt_end;
use super::attempts::end_command;
use super::attempts::finish_loaded_post;
use super::attempts::finish_transitioned_post;
use super::attempts::EndModel;
use super::attempts::FinishStep;
use super::attempts::OutcomeModel;
use super::local_task::adapt_local_outcome;
use super::local_task::local_outcome;
use super::local_task::local_result;
use super::local_task::needs_typed_result;
use super::local_task::LocalErrorModel;
use super::local_task::LocalTaskOutcome;
use super::local_task::LocalTaskResultError;
use super::service_core::CoreModel;
use super::submission_laws::same_senders;
use super::submission_laws::same_work;
use crate::engine::ExecutionOutcome;
use crate::handler::TaskRunOutcome;
use crate::handler::TaskRunResult;
use crate::model::task_record::LifeModel;
use crate::model::task_record::StateModel;
use crate::model::TaskId;
use crate::model::TaskOutput;
use crate::model::TaskRecord;
use crate::model::TaskState;
use crate::store::lifecycle::advanced;
use crate::store::lifecycle::revision_error;
use crate::store::StoreError;
use crate::text::law_truncation_keeps_longest_prefix;
use crate::text::truncated;

verus! {

/// Whether an outcome asks for another attempt: a retryable failure, or a worker
/// that stopped.
pub open spec fn asks_for_retry(outcome: OutcomeModel) -> bool {
    match outcome {
        OutcomeModel::Failed { category, message, retryable } => retryable,
        OutcomeModel::WorkerStopped => true,
        _ => false,
    }
}

/// A task is queued again exactly when its outcome asks for another attempt, fewer
/// attempts than allowed were made and a waiting position is free. It then holds
/// that position and has a deadline.
pub proof fn law_retries_are_granted_within_the_budget<H, S, C>(
    core: CoreModel<H, S, C>,
    attempt: u32,
    outcome: OutcomeModel,
    now_ms: u64,
)
    ensures
        attempt_end(core, attempt, outcome, now_ms).state is Queued <==> asks_for_retry(outcome)
            && attempt < core.settings.max_attempts && core.queue_count
            < core.settings.queue_capacity,
        attempt_end(core, attempt, outcome, now_ms).state is Queued <==> attempt_end(
            core,
            attempt,
            outcome,
            now_ms,
        ).retry_not_before_ms is Some,
        attempt_end(core, attempt, outcome, now_ms).state is Queued <==> attempt_end(
            core,
            attempt,
            outcome,
            now_ms,
        ).slot_reserved,
{
}

/// A task that asks for another attempt and does not get one is blocked, and no
/// other task is.
pub proof fn law_refused_retries_block_the_task<H, S, C>(
    core: CoreModel<H, S, C>,
    attempt: u32,
    outcome: OutcomeModel,
    now_ms: u64,
)
    ensures
        attempt_end(core, attempt, outcome, now_ms).state is Blocked <==> asks_for_retry(outcome)
            && !(attempt < core.settings.max_attempts && core.queue_count
            < core.settings.queue_capacity),
        asks_for_retry(outcome) && attempt < core.settings.max_attempts && core.queue_count
            >= core.settings.queue_capacity ==> attempt_end(core, attempt, outcome, now_ms).state
            == (StateModel::Blocked {
            reason: "retry queue is full; call retry_blocked when capacity is available"@,
        }),
        outcome is WorkerStopped && attempt >= core.settings.max_attempts ==> attempt_end(
            core,
            attempt,
            outcome,
            now_ms,
        ).state == (StateModel::Blocked { reason: "execution worker stopped after retry limit"@ }),
{
}

/// A retryable failure of the last attempt is told in the reason, in full where it
/// fits.
pub proof fn law_the_last_failure_is_told<H, S, C>(
    core: CoreModel<H, S, C>,
    attempt: u32,
    category: Seq<char>,
    message: Seq<char>,
    now_ms: u64,
)
    requires
        attempt >= core.settings.max_attempts,
        encode_utf8("retry limit reached: "@ + message).len() <= 4096,
    ensures
        attempt_end(
            core,
            attempt,
            OutcomeModel::Failed { category, message, retryable: true },
            now_ms,
        ).state == (StateModel::Blocked { reason: "retry limit reached: "@ + message }),
{
}

/// A success is recorded as one, with its output, exactly when the output takes at
/// most 65536 bytes; a larger output fails the task and is not kept.
pub proof fn law_successes_are_recorded<H, S, C>(
    core: CoreModel<H, S, C>,
    attempt: u32,
    outcome: OutcomeModel,
    now_ms: u64,
)
    ensures
        ({
            let end = attempt_end(core, attempt, outcome, now_ms);
            &&& end.state is Succeeded <==> (outcome matches OutcomeModel::Succeeded(summary)
                && summary.len() <= 65_536)
            &&& end.output is Some <==> end.state is Succeeded
            &&& end.state is Succeeded ==> end.output == Some(outcome->Succeeded_0)
            &&& outcome matches OutcomeModel::Succeeded(summary) ==> (summary.len() > 65_536
                ==> end.state == (StateModel::Failed {
                category: "output_too_large"@,
                message: "task output summary exceeded the 65536-byte limit"@,
            }))
        }),
{
}

/// A final failure and a panic are recorded as such, with their texts in full where
/// they fit and cut at the end where not; an acknowledged cancellation is recorded
/// as one.
pub proof fn law_failures_are_recorded<H, S, C>(
    core: CoreModel<H, S, C>,
    attempt: u32,
    outcome: OutcomeModel,
    now_ms: u64,
)
    ensures
        ({
            let end = attempt_end(core, attempt, outcome, now_ms);
            &&& end.state is Cancelled <==> outcome is Cancelled
            &&& end.state is Panicked <==> outcome is Panicked
            &&& outcome matches OutcomeModel::Panicked(text) ==> (encode_utf8(text).len() <= 4096
                ==> end.state == (StateModel::Panicked { message: text }))
            &&& outcome matches OutcomeModel::Panicked(text) ==> (
            end.state matches StateModel::Panicked { message } && message.is_prefix_of(text)
                && encode_utf8(message).len() <= 4096)
            &&& end.state is Failed <==> (outcome matches OutcomeModel::Failed {
                category,
                message,
                retryable,
            } && !retryable) || (outcome matches OutcomeModel::Succeeded(summary) && summary.len()
                > 65_536)
            &&& outcome matches OutcomeModel::Failed { category, message, retryable } ==> (
            !retryable && encode_utf8(category).len() <= 128 && encode_utf8(message).len() <= 4096
                ==> end.state == (StateModel::Failed { category, message }))
            &&& outcome matches OutcomeModel::Failed {
                category: whole_category,
                message: whole_message,
                retryable,
            } ==> (!retryable ==> (end.state matches StateModel::Failed { category, message }
                && category.is_prefix_of(whole_category) && encode_utf8(category).len() <= 128
                && message.is_prefix_of(whole_message) && encode_utf8(message).len() <= 4096))
            &&& !(end.state is Running)
        }),
{
    match outcome {
        OutcomeModel::Panicked(text) => {
            lemma_cut(text, 4096);
        },
        OutcomeModel::Failed { category, message, retryable } => {
            lemma_cut(category, 128);
            lemma_cut(message, 4096);
        },
        _ => {},
    }
}

proof fn lemma_cut(text: Seq<char>, limit: nat)
    ensures
        truncated(text, limit).is_prefix_of(text),
        encode_utf8(truncated(text, limit)).len() <= limit,
{
    law_truncation_keeps_longest_prefix(text, limit);
}

/// A retry is due when the service's policy says, after the time at which the
/// attempt ended.
pub proof fn law_retries_are_due_after_the_delay<H, S, C>(
    core: CoreModel<H, S, C>,
    attempt: u32,
    outcome: OutcomeModel,
    now_ms: u64,
)
    requires
        attempt_end(core, attempt, outcome, now_ms).state is Queued,
        now_ms + core.settings.retry_policy@.delay(attempt) / 1_000_000 < u64::MAX,
    ensures
        attempt_end(core, attempt, outcome, now_ms).retry_not_before_ms matches Some(deadline)
            && deadline == now_ms + core.settings.retry_policy@.delay(attempt) / 1_000_000,
{
}

/// What is decided for an attempt is what the store keeps: its state, deadline and
/// output, with the devices and the cancellation request as they were, one
/// revision later and in the same attempt.
pub proof fn law_ends_are_stored_as_decided<H, S, C>(
    core: CoreModel<H, S, C>,
    life: LifeModel,
    outcome: OutcomeModel,
    now_ms: u64,
    later_ms: u64,
)
    requires
        life.state is Running,
        life.state_version < u64::MAX,
    ensures
        ({
            let end = attempt_end(core, life.attempt, outcome, now_ms);
            let stored = advanced(life, end_command(life, end), later_ms);
            &&& revision_error(life, end_command(life, end)) is None
            &&& stored.id == life.id
            &&& stored.state == end.state
            &&& stored.retry_not_before_ms == end.retry_not_before_ms
            &&& stored.output == end.output
            &&& stored.assigned_resources == life.assigned_resources
            &&& stored.cancel_requested == life.cancel_requested
            &&& stored.attempt == life.attempt
            &&& stored.state_version == life.state_version + 1
            &&& stored.accepted_at_ms == life.accepted_at_ms
            &&& stored.started_at_ms == life.started_at_ms
            &&& stored.finished_at_ms == if end.state is Queued || end.state is Blocked {
                life.finished_at_ms
            } else {
                Some(later_ms)
            }
        }),
{
}

/// An end is recorded only for the attempt that ended, while it still runs.
pub proof fn law_ends_concern_their_own_attempt<H, S, C>(
    before: CoreModel<H, S, C>,
    after: CoreModel<H, S, C>,
    attempt: u32,
    end: EndModel,
    record: TaskRecord,
    step: FinishStep<S>,
)
    requires
        finish_loaded_post(before, after, attempt, end, Ok(Some(record)), step),
    ensures
        step is Transition <==> record@.life.state is Running && record@.life.attempt == attempt,
        step matches FinishStep::Transition(command) ==> command@.id == record@.life.id
            && command@.expected_version == record@.life.state_version && command@.expected_attempt
            == record@.life.attempt && command@.state == end.state && command@.retry_not_before_ms
            == end.retry_not_before_ms && command@.output == end.output,
        step is Transition ==> after == before,
        step is Done && end.slot_reserved && before.queue_count > 0 ==> after.queue_count
            == before.queue_count - 1,
        step is Done && !end.slot_reserved ==> after.queue_count == before.queue_count,
{
}

/// A stored end queues a retry under the stored deadline, and tells a final state
/// to whoever waits for it.
pub proof fn law_stored_ends_are_carried_out<H, S, C>(
    before: CoreModel<H, S, C>,
    after: CoreModel<H, S, C>,
    end: EndModel,
    record: TaskRecord,
    step: FinishStep<S>,
)
    requires
        finish_transitioned_post(before, after, end, Ok(record), step),
        record@.life.state == end.state,
        record@.life.retry_not_before_ms == end.retry_not_before_ms,
        end.state is Queued <==> end.retry_not_before_ms is Some,
        !(end.state is Running),
    ensures
        step is Done,
        end.state is Queued ==> {
            &&& after.queue.delayed.len() == before.queue.delayed.len() + 1
            &&& exists|i: int|
                0 <= i < after.queue.delayed.len() && #[trigger] after.queue.delayed[i].0
                    == end.retry_not_before_ms->0 && after.queue.delayed[i].1.id == record@.life.id
                    && after.queue.delayed[i].1.resources == record@.request.info.resources
                    && after.queue.delayed[i].1.bypasses == 0
            &&& step matches FinishStep::Done { finalize, fault } && finalize is None
        },
        !(end.state is Queued) ==> {
            &&& after.queue == before.queue
            &&& before.finalizations.contains_key(record@.life.id.0) ==> (
            step matches FinishStep::Done { finalize, fault } && (finalize matches Some((
                sender,
                told,
            )) && sender == before.finalizations[record@.life.id.0] && told@ == end.state))
            &&& !after.finalizations.contains_key(record@.life.id.0)
        },
        after.queue_count == before.queue_count,
{
    if end.state is Queued {
        let deadline = end.retry_not_before_ms->0;
        let at = super::scheduler_queue::due(before.queue.delayed, deadline) as int;
        super::scheduler_queue::lemma_due_bounds(before.queue.delayed, deadline);
        assert(after.queue.delayed[at].0 == deadline);
    }
}

/// The state that an attempt of a process-local closure ends in.
pub open spec fn ends_in<H, S, C>(
    core: CoreModel<H, S, C>,
    attempt: u32,
    run: TaskRunResult,
    now_ms: u64,
    state: TaskState,
) -> bool {
    state@ == attempt_end(core, attempt, ExecutionOutcome::Returned(run)@, now_ms).state
}

/// A closure's value reaches its handle: what a closure that succeeds hands over is
/// what the handle returns once the task has succeeded.
pub proof fn law_local_values_reach_their_handle<R, E, H, S, C>(
    core: CoreModel<H, S, C>,
    attempt: u32,
    now_ms: u64,
    value: R,
    summary: TaskOutput,
    message: String,
    parts: (Option<Result<R, E>>, TaskRunResult),
    state: TaskState,
    result: Result<Result<R, E>, LocalTaskResultError>,
)
    requires
        call_ensures(
            adapt_local_outcome::<R, E>,
            (LocalTaskOutcome::Succeeded { value, summary }, message),
            parts,
        ),
        summary@.len() <= 65_536,
        ends_in(core, attempt, parts.1, now_ms, state),
        call_ensures(local_result::<R, E>, (state, parts.0), result),
    ensures
        result == Ok::<Result<R, E>, LocalTaskResultError>(Ok(value)),
        state@ is Succeeded,
{
}

/// A closure's own error reaches its handle as it is.
pub proof fn law_local_errors_reach_their_handle<R, E, H, S, C>(
    core: CoreModel<H, S, C>,
    attempt: u32,
    now_ms: u64,
    error: E,
    message: String,
    parts: (Option<Result<R, E>>, TaskRunResult),
    state: TaskState,
    result: Result<Result<R, E>, LocalTaskResultError>,
)
    requires
        call_ensures(
            adapt_local_outcome::<R, E>,
            (LocalTaskOutcome::Failed(error), message),
            parts,
        ),
        ends_in(core, attempt, parts.1, now_ms, state),
        call_ensures(local_result::<R, E>, (state, parts.0), result),
    ensures
        result == Ok::<Result<R, E>, LocalTaskResultError>(Err(error)),
        state@ is Failed,
        encode_utf8(message@).len() <= 4096 ==> (state@ matches StateModel::Failed {
            category,
            message: told,
        } && told == message@),
{
}

/// A closure that acknowledges cancellation delivers nothing but that.
pub proof fn law_local_cancellations_reach_their_handle<R, E, H, S, C>(
    core: CoreModel<H, S, C>,
    attempt: u32,
    now_ms: u64,
    message: String,
    parts: (Option<Result<R, E>>, TaskRunResult),
    state: TaskState,
    result: Result<Result<R, E>, LocalTaskResultError>,
)
    requires
        call_ensures(adapt_local_outcome::<R, E>, (LocalTaskOutcome::Cancelled, message), parts),
        ends_in(core, attempt, parts.1, now_ms, state),
        call_ensures(local_result::<R, E>, (state, parts.0), result),
    ensures
        result matches Err(told) && told@ is Cancelled,
        state@ is Cancelled,
{
}

/// Where a task ends otherwise than its closure, its handle says how: the value of
/// a task that failed is not delivered, and a missing result is reported.
pub proof fn law_handles_report_other_ends<R, E>(state: StateModel, typed: Option<Result<R, E>>)
    ensures
        ({
            let told = local_outcome(state, typed);
            &&& state is Cancelled ==> told == Err::<Result<R, E>, LocalErrorModel>(
                LocalErrorModel::Cancelled,
            )
            &&& state matches StateModel::Panicked { message } ==> told == Err::<
                Result<R, E>,
                LocalErrorModel,
            >(LocalErrorModel::Panicked(message))
            &&& state matches StateModel::Blocked { reason } ==> told == Err::<
                Result<R, E>,
                LocalErrorModel,
            >(LocalErrorModel::Blocked(reason))
            &&& state is Succeeded ==> (told is Ok <==> typed is Some)
            &&& state is Succeeded && typed is Some ==> told == Ok::<
                Result<R, E>,
                LocalErrorModel,
            >(typed->0)
            &&& state is Succeeded && typed is None ==> told == Err::<
                Result<R, E>,
                LocalErrorModel,
            >(LocalErrorModel::ResultChannelClosed)
            &&& state matches StateModel::Failed { category, message } ==> {
                &&& typed matches Some(Ok(value)) ==> told == Err::<Result<R, E>, LocalErrorModel>(
                    LocalErrorModel::Infrastructure(message),
                )
                &&& typed matches Some(Err(error)) ==> told == Ok::<
                    Result<R, E>,
                    LocalErrorModel,
                >(Err(error))
                &&& typed is None && category == "engine"@ ==> told == Err::<
                    Result<R, E>,
                    LocalErrorModel,
                >(LocalErrorModel::Infrastructure(message))
                &&& typed is None && category != "engine"@ ==> told == Err::<
                    Result<R, E>,
                    LocalErrorModel,
                >(LocalErrorModel::ResultChannelClosed)
            }
            &&& state is Queued || state is Running ==> told is Err
        }),
{
}

/// A handle waits for its typed result exactly where that result can matter.
pub proof fn law_handles_wait_only_where_it_matters<R, E>(
    state: TaskState,
    needed: bool,
    typed: Option<Result<R, E>>,
    other: Option<Result<R, E>>,
)
    requires
        call_ensures(needs_typed_result, (&state,), needed),
        !needed,
    ensures
        local_outcome(state@, typed) == local_outcome(state@, other),
{
}

/// A handle that waits is told of a state in which its result does matter.
pub proof fn law_handles_wait_where_it_matters<R, E>(
    state: TaskState,
    needed: bool,
    error: E,
)
    requires
        call_ensures(needs_typed_result, (&state,), needed),
        needed,
    ensures
        local_outcome::<R, E>(state@, Some(Err(error))) != local_outcome::<R, E>(state@, None),
{
}

/// Whether `kept` is what is left of a text within a limit: the text itself where
/// it fits, and otherwise its longest beginning that does.
pub open spec fn is_cut(kept: Seq<char>, text: Seq<char>, limit: nat) -> bool {
    &&& kept.is_prefix_of(text)
    &&& encode_utf8(kept).len() <= limit
    &&& encode_utf8(text).len() <= limit ==> kept == text
    &&& forall|n: int|
        kept.len() < n <= text.len() ==> encode_utf8(#[trigger] text.take(n)).len() > limit
}

/// Diagnostics are cut at their limits and nowhere before: categories at 128 bytes,
/// messages and reasons at 4096.
pub proof fn law_diagnostics_are_cut_at_their_limits<H, S, C>(
    core: CoreModel<H, S, C>,
    attempt: u32,
    outcome: OutcomeModel,
    now_ms: u64,
)
    ensures
        ({
            let state = attempt_end(core, attempt, outcome, now_ms).state;
            &&& outcome matches OutcomeModel::Panicked(text) ==> is_cut(
                state->Panicked_message,
                text,
                4096,
            )
            &&& outcome matches OutcomeModel::Failed { category, message, retryable } ==> {
                &&& !retryable ==> is_cut(state->Failed_category, category, 128) && is_cut(
                    state->Failed_message,
                    message,
                    4096,
                )
                &&& retryable && attempt >= core.settings.max_attempts ==> is_cut(
                    state->reason,
                    "retry limit reached: "@ + message,
                    4096,
                )
            }
        }),
{
    match outcome {
        OutcomeModel::Panicked(text) => {
            law_truncation_keeps_longest_prefix(text, 4096);
        },
        OutcomeModel::Failed { category, message, retryable } => {
            law_truncation_keeps_longest_prefix(category, 128);
            law_truncation_keeps_longest_prefix(message, 4096);
            law_truncation_keeps_longest_prefix("retry limit reached: "@ + message, 4096);
        },
        _ => {},
    }
}

/// A retry is due when its delay has passed, or at the end of time where that comes
/// first.
pub proof fn law_retries_are_due_in_time<H, S, C>(
    core: CoreModel<H, S, C>,
    attempt: u32,
    outcome: OutcomeModel,
    now_ms: u64,
)
    requires
        attempt_end(core, attempt, outcome, now_ms).state is Queued,
    ensures
        attempt_end(core, attempt, outcome, now_ms).retry_not_before_ms matches Some(deadline)
            && deadline == vstd::math::min(
            now_ms + core.settings.retry_policy@.delay(attempt) / 1_000_000,
            0xffff_ffff_ffff_ffff,
        ),
{
}

/// What an execution reports is what is decided on.
pub proof fn law_outcomes_are_taken_as_reported(outcome: ExecutionOutcome)
    ensures
        match outcome {
            ExecutionOutcome::Returned(Ok(TaskRunOutcome::Succeeded(output))) => outcome@
                == OutcomeModel::Succeeded(output.summary@),
            ExecutionOutcome::Returned(Ok(TaskRunOutcome::Cancelled)) => outcome@ is Cancelled,
            ExecutionOutcome::Returned(Err(error)) => {
                &&& outcome@ is Failed
                &&& outcome@->category == error.category@
                &&& outcome@->message == error.message@
                &&& outcome@->retryable == error.retryable
            },
            ExecutionOutcome::Panicked(text) => outcome@ == OutcomeModel::Panicked(text@),
            ExecutionOutcome::WorkerStopped(_) => outcome@ is WorkerStopped,
        },
{
}

/// An attempt that ends gives up its own signal and no other.
pub proof fn law_ended_attempts_give_up_their_signal<H, S, C>(
    core: CoreModel<H, S, C>,
    id: TaskId,
    attempt: u32,
)
    ensures
        ({
            let own = core.cancellations.contains_key(id.0) && core.cancellations[id.0].0
                == attempt;
            let after = core.attempt_over(id, attempt);
            &&& own ==> after.cancellations == core.cancellations.remove(id.0)
            &&& !own ==> after.cancellations == core.cancellations
            &&& same_work(CoreModel { cancellations: core.cancellations, ..after }, core)
            &&& same_senders(after, core)
            &&& after.gate == core.gate
        }),
{
}

/// An end for a task that is missing, or that the store cannot read, is dropped and
/// gives the waiting position of its retry back; a failed read is recorded.
pub proof fn law_ends_of_missing_tasks_are_dropped<H, S, C>(
    before: CoreModel<H, S, C>,
    after: CoreModel<H, S, C>,
    attempt: u32,
    end: EndModel,
    found: Result<Option<TaskRecord>, StoreError>,
    step: FinishStep<S>,
)
    requires
        finish_loaded_post(before, after, attempt, end, found, step),
        !(found matches Ok(Some(_))),
        before.queue_count > 0,
    ensures
        step is Done && step->finalize is None,
        after.queue == before.queue,
        after.queue_count == before.queue_count - (if end.slot_reserved {
            1int
        } else {
            0int
        }),
        found is Ok ==> step->fault is None && same_senders(after, before),
        found matches Err(error) ==> {
            &&& step->fault is Some
            &&& after.fault is Some
            &&& before.fault is None ==> after.fault == Some(error@.message())
        },
{
}

/// An end that the store does not keep is tried again where the task changed
/// meanwhile; any other answer is recorded as a failure and gives the waiting
/// position of a retry back.
pub proof fn law_refused_ends_are_tried_again<H, S, C>(
    before: CoreModel<H, S, C>,
    after: CoreModel<H, S, C>,
    end: EndModel,
    error: StoreError,
    step: FinishStep<S>,
)
    requires
        finish_transitioned_post(before, after, end, Err(error), step),
        before.queue_count > 0,
    ensures
        step is Reload <==> error@ is Conflict,
        step is Reload ==> after == before,
        step is Done <==> !(error@ is Conflict),
        step is Done ==> {
            &&& step->finalize is None
            &&& step->fault is Some
            &&& after.fault is Some
            &&& before.fault is None ==> after.fault == Some(error@.message())
            &&& after.queue == before.queue
            &&& after.queue_count == before.queue_count - (if end.slot_reserved {
                1int
            } else {
                0int
            })
        },
{
}

/// What the errors of local handles say.
pub proof fn law_local_errors_are_described(error: LocalTaskResultError, text: String)
    requires
        call_ensures(LocalTaskResultError::message, (&error,), text),
    ensures
        match error@ {
            LocalErrorModel::Cancelled => text@ == "local task was cancelled"@,
            LocalErrorModel::Panicked(detail) => text@ == "local task panicked: "@ + detail,
            LocalErrorModel::Blocked(detail) => text@ == "local task is blocked: "@ + detail,
            LocalErrorModel::Infrastructure(detail) => text@
                == "local task infrastructure failed: "@ + detail,
            LocalErrorModel::StoreUnavailable(detail) => text@
                == "local task store is unavailable: "@ + detail,
            LocalErrorModel::ResultChannelClosed => text@ == "local task result channel closed"@,
            LocalErrorModel::FinalizationChannelClosed => text@
                == "local task finalization channel closed"@,
        },
{
}

} // verus!
