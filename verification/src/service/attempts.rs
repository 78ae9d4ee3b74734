//! How an execution attempt ends.

use vstd::prelude::*;

use super::control::command_for;
use super::control::make_command;
use super::retry_policy::retry_deadline_ms;
use super::scheduler::block_command;
use super::scheduler::delivery;
use super::service_core::CoreModel;
use super::service_core::ServiceCore;
use super::service_core::StoreFault;
use crate::engine::ExecutionOutcome;
use crate::handler::TaskRunOutcome;
use crate::model::task_record::copy_opt_output;
use crate::model::task_record::opt_output;
use crate::model::task_record::CommandModel;
use crate::model::task_record::LifeModel;
use crate::model::task_record::StateModel;
use crate::model::task_request::MAX_TASK_DIAGNOSTIC_CATEGORY_BYTES;
use crate::model::task_request::MAX_TASK_DIAGNOSTIC_MESSAGE_BYTES;
use crate::model::task_request::MAX_TASK_OUTPUT_SUMMARY_BYTES;
use crate::model::TaskId;
use crate::model::TaskOutput;
use crate::model::TaskRecord;
use crate::model::TaskState;
use crate::model::TransitionCommand;
use crate::scheduling::fair_fifo::QueuedModel;
use crate::scheduling::QueuedTask;
use crate::store::lifecycle::command_error;
use crate::store::StoreError;
use crate::text::byte_len;
use crate::text::copy_texts;
use crate::text::join2;
use crate::text::law_truncation_keeps_longest_prefix;
use crate::text::truncate_utf8;
use crate::text::truncated;

verus! {

/// Content of an [`ExecutionOutcome`].
pub enum OutcomeModel {
    /// The handler returned an output summary.
    Succeeded(Seq<u8>),
    /// The handler acknowledged cancellation.
    Cancelled,
    /// The handler returned a classified error.
    Failed { category: Seq<char>, message: Seq<char>, retryable: bool },
    /// The handler panicked.
    Panicked(Seq<char>),
    /// The worker stopped before it could report.
    WorkerStopped,
}

impl View for ExecutionOutcome {
    type V = OutcomeModel;

    open spec fn view(&self) -> OutcomeModel {
        match self {
            ExecutionOutcome::Returned(Ok(TaskRunOutcome::Succeeded(output))) => {
                OutcomeModel::Succeeded(output@)
            },
            ExecutionOutcome::Returned(Ok(TaskRunOutcome::Cancelled)) => OutcomeModel::Cancelled,
            ExecutionOutcome::Returned(Err(error)) => OutcomeModel::Failed {
                category: error.category@,
                message: error.message@,
                retryable: error.retryable,
            },
            ExecutionOutcome::Panicked(message) => OutcomeModel::Panicked(message@),
            ExecutionOutcome::WorkerStopped(_) => OutcomeModel::WorkerStopped,
        }
    }
}

/// A diagnostic message cut to what is persisted.
pub open spec fn kept_message(text: Seq<char>) -> Seq<char> {
    truncated(text, MAX_TASK_DIAGNOSTIC_MESSAGE_BYTES as nat)
}

/// The state that an attempt's outcome asks for.
pub open spec fn outcome_state(outcome: OutcomeModel, attempt: u32, max_attempts: u32) -> StateModel {
    match outcome {
        OutcomeModel::Succeeded(summary) => if summary.len() > MAX_TASK_OUTPUT_SUMMARY_BYTES {
            StateModel::Failed {
                category: "output_too_large"@,
                message: "task output summary exceeded the 65536-byte limit"@,
            }
        } else {
            StateModel::Succeeded
        },
        OutcomeModel::Cancelled => StateModel::Cancelled,
        OutcomeModel::Failed { category, message, retryable } => if retryable && attempt
            < max_attempts {
            StateModel::Queued
        } else if retryable {
            StateModel::Blocked { reason: kept_message("retry limit reached: "@ + message) }
        } else {
            StateModel::Failed {
                category: truncated(category, MAX_TASK_DIAGNOSTIC_CATEGORY_BYTES as nat),
                message: kept_message(message),
            }
        },
        OutcomeModel::Panicked(message) => StateModel::Panicked { message: kept_message(message) },
        OutcomeModel::WorkerStopped => if attempt < max_attempts {
            StateModel::Queued
        } else {
            StateModel::Blocked { reason: "execution worker stopped after retry limit"@ }
        },
    }
}

/// The output summary that is persisted for an outcome.
pub open spec fn outcome_output(outcome: OutcomeModel) -> Option<Seq<u8>> {
    match outcome {
        OutcomeModel::Succeeded(summary) => if summary.len() > MAX_TASK_OUTPUT_SUMMARY_BYTES {
            None
        } else {
            Some(summary)
        },
        _ => None,
    }
}

/// How an attempt is to be recorded.
#[derive(Debug)]
pub struct AttemptEnd {
    /// State to be persisted.
    pub state: TaskState,
    /// Earliest start of a retry.
    pub retry_not_before_ms: Option<u64>,
    /// Output summary to be persisted.
    pub output: Option<TaskOutput>,
    /// Whether a waiting position is held for the retry.
    pub slot_reserved: bool,
}

/// Content of an [`AttemptEnd`].
#[verifier::ext_equal]
pub struct EndModel {
    pub state: StateModel,
    pub retry_not_before_ms: Option<u64>,
    pub output: Option<Seq<u8>>,
    pub slot_reserved: bool,
}

impl View for AttemptEnd {
    type V = EndModel;

    open spec fn view(&self) -> EndModel {
        EndModel {
            state: self.state@,
            retry_not_before_ms: self.retry_not_before_ms,
            output: opt_output(self.output),
            slot_reserved: self.slot_reserved,
        }
    }
}

/// How an attempt that ended at `now_ms` is to be recorded: a retry needs a
/// waiting position, and without one the task is blocked.
pub open spec fn attempt_end<H, S, C>(
    core: CoreModel<H, S, C>,
    attempt: u32,
    outcome: OutcomeModel,
    now_ms: u64,
) -> EndModel {
    let state = outcome_state(outcome, attempt, core.settings.max_attempts);
    if state is Queued {
        if core.has_slot() {
            EndModel {
                state,
                retry_not_before_ms: Some(
                    core.settings.retry_policy@.deadline_ms(now_ms, attempt) as u64,
                ),
                output: None,
                slot_reserved: true,
            }
        } else {
            EndModel {
                state: StateModel::Blocked {
                    reason:
                        "retry queue is full; call retry_blocked when capacity is available"@,
                },
                retry_not_before_ms: None,
                output: None,
                slot_reserved: false,
            }
        }
    } else {
        EndModel {
            state,
            retry_not_before_ms: None,
            output: outcome_output(outcome),
            slot_reserved: false,
        }
    }
}

/// The command that records the end of an attempt.
pub open spec fn end_command(life: LifeModel, end: EndModel) -> CommandModel {
    command_for(
        life,
        end.state,
        end.retry_not_before_ms,
        end.output,
        life.assigned_resources,
        life.cancel_requested,
    )
}

impl<H, S, C> CoreModel<H, S, C> {
    /// The service after an attempt ended: its signal is forgotten.
    pub open spec fn attempt_over(self, id: TaskId, attempt: u32) -> Self {
        if self.runs(id, attempt) {
            CoreModel { cancellations: self.cancellations.remove(id.0), ..self }
        } else {
            self
        }
    }

    /// The service after a retry's waiting position was given up.
    pub open spec fn retry_given_up(self, reserved: bool) -> Self {
        if reserved {
            self.slot_freed()
        } else {
            self
        }
    }
}

/// What recording an attempt's end asks next.
#[derive(Debug)]
pub enum FinishStep<S> {
    /// Apply this command.
    Transition(TransitionCommand),
    /// The task changed meanwhile: read it again.
    Reload,
    /// The attempt is settled.
    Done {
        /// Where to send the final state of a process-local task.
        finalize: Option<(S, TaskState)>,
        /// A storage fault recorded on the way.
        fault: Option<StoreFault<S>>,
    },
}

/// What reading a task whose attempt ended leads to.
pub open spec fn finish_loaded_post<H, S, C>(
    before: CoreModel<H, S, C>,
    after: CoreModel<H, S, C>,
    attempt: u32,
    end: EndModel,
    found: Result<Option<TaskRecord>, StoreError>,
    step: FinishStep<S>,
) -> bool {
    match found {
        Ok(Some(record)) if record@.life.state is Running && record@.life.attempt == attempt => {
            &&& step matches FinishStep::Transition(command) && command@ == end_command(
                record@.life,
                end,
            )
            &&& after == before
        },
        Ok(_) => {
            &&& step matches FinishStep::Done { finalize, fault } && finalize is None
                && fault is None
            &&& after == before.retry_given_up(end.slot_reserved)
        },
        Err(error) => {
            &&& step matches FinishStep::Done { finalize, fault } && finalize is None
                && (fault matches Some(asked) && before.asks(error@.message(), asked))
            &&& after == before.faulted(error@.message()).retry_given_up(end.slot_reserved)
        },
    }
}

/// What the store's answer to an end command leads to.
pub open spec fn finish_transitioned_post<H, S, C>(
    before: CoreModel<H, S, C>,
    after: CoreModel<H, S, C>,
    end: EndModel,
    updated: Result<TaskRecord, StoreError>,
    step: FinishStep<S>,
) -> bool {
    match updated {
        Ok(record) => {
            let life = record@.life;
            let queued = if end.state is Queued {
                before.waiting(
                    QueuedModel {
                        id: life.id,
                        resources: record@.request.info.resources,
                        retry_not_before_ms: life.retry_not_before_ms,
                        bypasses: 0,
                    },
                )
            } else {
                before
            };
            if life.state is Queued || life.state is Running {
                &&& step matches FinishStep::Done { finalize, fault } && finalize is None
                    && fault is None
                &&& after == queued
            } else {
                &&& step matches FinishStep::Done { finalize, fault } && delivery(
                    before,
                    life.id,
                    life.state,
                    finalize,
                ) && fault is None
                &&& after == queued.unsent(life.id)
            }
        },
        Err(error) => if error@ is Conflict {
            step is Reload && after == before
        } else {
            &&& step matches FinishStep::Done { finalize, fault } && finalize is None
                && (fault matches Some(asked) && before.asks(error@.message(), asked))
            &&& after == before.faulted(error@.message()).retry_given_up(end.slot_reserved)
        },
    }
}

/// Derives the state and output summary of an attempt's outcome.
fn settle(outcome: ExecutionOutcome, attempt: u32, max_attempts: u32) -> (parts: (
    TaskState,
    Option<TaskOutput>,
))
    ensures
        parts.0@ == outcome_state(outcome@, attempt, max_attempts),
        opt_output(parts.1) == outcome_output(outcome@),
{
    match outcome {
        ExecutionOutcome::Returned(Ok(TaskRunOutcome::Succeeded(output))) => {
            if output.summary.len() > MAX_TASK_OUTPUT_SUMMARY_BYTES {
                (
                    TaskState::Failed {
                        category: "output_too_large".to_owned(),
                        message: "task output summary exceeded the 65536-byte limit".to_owned(),
                    },
                    None,
                )
            } else {
                (TaskState::Succeeded, Some(output))
            }
        },
        ExecutionOutcome::Returned(Ok(TaskRunOutcome::Cancelled)) => (TaskState::Cancelled, None),
        ExecutionOutcome::Returned(Err(error)) => {
            if error.retryable && attempt < max_attempts {
                (TaskState::Queued, None)
            } else if error.retryable {
                let reason = join2("retry limit reached: ", error.message.as_str());
                (
                    TaskState::Blocked {
                        reason: truncate_utf8(reason.as_str(), MAX_TASK_DIAGNOSTIC_MESSAGE_BYTES),
                    },
                    None,
                )
            } else {
                (
                    TaskState::Failed {
                        category: truncate_utf8(
                            error.category.as_str(),
                            MAX_TASK_DIAGNOSTIC_CATEGORY_BYTES,
                        ),
                        message: truncate_utf8(
                            error.message.as_str(),
                            MAX_TASK_DIAGNOSTIC_MESSAGE_BYTES,
                        ),
                    },
                    None,
                )
            }
        },
        ExecutionOutcome::Panicked(message) => (
            TaskState::Panicked {
                message: truncate_utf8(message.as_str(), MAX_TASK_DIAGNOSTIC_MESSAGE_BYTES),
            },
            None,
        ),
        ExecutionOutcome::WorkerStopped(_) => {
            if attempt < max_attempts {
                (TaskState::Queued, None)
            } else {
                (
                    TaskState::Blocked {
                        reason: "execution worker stopped after retry limit".to_owned(),
                    },
                    None,
                )
            }
        },
    }
}

impl<H, S, C> ServiceCore<H, S, C> {
    /// Decides how an attempt that ended at `now_ms` is to be recorded. The task
    /// is read next.
    pub fn finish_attempt(
        &mut self,
        id: TaskId,
        attempt: u32,
        outcome: ExecutionOutcome,
        now_ms: u64,
    ) -> (end: AttemptEnd)
        ensures
            end@ == attempt_end(
                old(self)@.attempt_over(id, attempt),
                attempt,
                outcome@,
                now_ms,
            ),
            final(self)@ == if end.slot_reserved {
                old(self)@.attempt_over(id, attempt).slot_taken()
            } else {
                old(self)@.attempt_over(id, attempt)
            },
    {
        if self.cancellation(id, attempt).is_some() {
            self.drop_cancellation(id);
        }
        let max_attempts = self.settings().max_attempts;
        let (state, output) = settle(outcome, attempt, max_attempts);
        if !matches!(state, TaskState::Queued) {
            return AttemptEnd { state, retry_not_before_ms: None, output, slot_reserved: false };
        }
        if self.reserve_queue_slot() {
            let deadline = retry_deadline_ms(now_ms, self.settings().retry_policy, attempt);
            AttemptEnd {
                state,
                retry_not_before_ms: Some(deadline),
                output: None,
                slot_reserved: true,
            }
        } else {
            AttemptEnd {
                state: TaskState::Blocked {
                    reason:
                        "retry queue is full; call retry_blocked when capacity is available".to_owned(),
                },
                retry_not_before_ms: None,
                output: None,
                slot_reserved: false,
            }
        }
    }

    /// Decides what follows the read of a task whose attempt ended.
    pub fn finish_loaded(
        &mut self,
        attempt: u32,
        end: &AttemptEnd,
        found: Result<Option<TaskRecord>, StoreError>,
    ) -> (step: FinishStep<S>)
        ensures
            finish_loaded_post(old(self)@, final(self)@, attempt, end@, found, step),
    {
        match found {
            Ok(Some(record)) => {
                if matches!(record.state, TaskState::Running) && record.attempt == attempt {
                    return FinishStep::Transition(
                        make_command(
                            &record,
                            end.state.clone(),
                            end.retry_not_before_ms,
                            copy_opt_output(&end.output),
                            copy_texts(&record.assigned_resources),
                            record.cancel_requested,
                        ),
                    );
                }
                if end.slot_reserved {
                    self.release_queue_slot();
                }
                FinishStep::Done { finalize: None, fault: None }
            },
            Ok(None) => {
                if end.slot_reserved {
                    self.release_queue_slot();
                }
                FinishStep::Done { finalize: None, fault: None }
            },
            Err(error) => {
                let fault = self.pause_on_store_fault(&error);
                if end.slot_reserved {
                    self.release_queue_slot();
                }
                FinishStep::Done { finalize: None, fault: Some(fault) }
            },
        }
    }

    /// Decides what follows the store's answer to an end command.
    pub fn finish_transitioned(&mut self, end: &AttemptEnd, updated: Result<TaskRecord, StoreError>)
        -> (step: FinishStep<S>)
        ensures
            finish_transitioned_post(old(self)@, final(self)@, end@, updated, step),
    {
        match updated {
            Ok(record) => {
                if matches!(end.state, TaskState::Queued) {
                    self.push(
                        QueuedTask {
                            id: record.id,
                            resources: record.request.resources.clone(),
                            retry_not_before_ms: record.retry_not_before_ms,
                            bypasses: 0,
                        },
                    );
                }
                if matches!(record.state, TaskState::Queued | TaskState::Running) {
                    return FinishStep::Done { finalize: None, fault: None };
                }
                let finalize = match self.take_finalization(record.id) {
                    Some(sender) => Some((sender, record.state)),
                    None => None,
                };
                FinishStep::Done { finalize, fault: None }
            },
            Err(StoreError::Conflict) => FinishStep::Reload,
            Err(error) => {
                let fault = self.pause_on_store_fault(&error);
                if end.slot_reserved {
                    self.release_queue_slot();
                }
                FinishStep::Done { finalize: None, fault: Some(fault) }
            },
        }
    }
}

/// A literal of ASCII characters takes one byte for each.
proof fn lemma_ascii_len(text: Seq<char>)
    requires
        vstd::utf8::is_ascii_chars(text),
    ensures
        byte_len(text) == text.len(),
{
    vstd::utf8::is_ascii_chars_encode_utf8(text);
}

/// Every state that an attempt can end in fits the diagnostic limits, so that no
/// store refuses it for its size.
pub proof fn law_attempt_ends_are_storable<H, S, C>(
    core: CoreModel<H, S, C>,
    life: LifeModel,
    outcome: OutcomeModel,
    now_ms: u64,
)
    ensures
        command_error(end_command(life, attempt_end(core, life.attempt, outcome, now_ms))) is None,
{
    let end = attempt_end(core, life.attempt, outcome, now_ms);
    match outcome {
        OutcomeModel::Failed { category, message, retryable } => {
            law_truncation_keeps_longest_prefix(
                "retry limit reached: "@ + message,
                MAX_TASK_DIAGNOSTIC_MESSAGE_BYTES as nat,
            );
            law_truncation_keeps_longest_prefix(
                category,
                MAX_TASK_DIAGNOSTIC_CATEGORY_BYTES as nat,
            );
            law_truncation_keeps_longest_prefix(message, MAX_TASK_DIAGNOSTIC_MESSAGE_BYTES as nat);
        },
        OutcomeModel::Panicked(message) => {
            law_truncation_keeps_longest_prefix(message, MAX_TASK_DIAGNOSTIC_MESSAGE_BYTES as nat);
        },
        _ => {},
    }
    reveal_strlit("output_too_large");
    reveal_strlit("task output summary exceeded the 65536-byte limit");
    reveal_strlit("execution worker stopped after retry limit");
    reveal_strlit("retry queue is full; call retry_blocked when capacity is available");
    lemma_ascii_len("output_too_large"@);
    lemma_ascii_len("task output summary exceeded the 65536-byte limit"@);
    lemma_ascii_len("execution worker stopped after retry limit"@);
    lemma_ascii_len("retry queue is full; call retry_blocked when capacity is available"@);
}

/// Every reason for which a task is blocked is cut to what a store accepts.
pub proof fn law_block_reasons_are_storable(life: LifeModel, reason: Seq<char>)
    ensures
        command_error(block_command(life, reason)) is None,
{
    law_truncation_keeps_longest_prefix(reason, MAX_TASK_DIAGNOSTIC_MESSAGE_BYTES as nat);
}

/// An attempt is retried only while the attempt budget lasts and a waiting
/// position is free; a retry is never due before the attempt ended.
pub proof fn law_retries_need_budget_and_position<H, S, C>(
    core: CoreModel<H, S, C>,
    attempt: u32,
    outcome: OutcomeModel,
    now_ms: u64,
)
    requires
        core.settings.retry_policy@.valid(),
        attempt_end(core, attempt, outcome, now_ms).state is Queued,
    ensures
        attempt < core.settings.max_attempts,
        core.has_slot(),
        attempt_end(core, attempt, outcome, now_ms).slot_reserved,
        attempt_end(core, attempt, outcome, now_ms).retry_not_before_ms matches Some(deadline)
            && now_ms <= deadline,
        outcome matches OutcomeModel::Failed { category, message, retryable } ==> retryable,
        outcome is Failed || outcome is WorkerStopped,
{
}

/// Cancellation is recorded only when the handler acknowledged it.
pub proof fn law_cancellation_needs_acknowledgement<H, S, C>(
    core: CoreModel<H, S, C>,
    attempt: u32,
    outcome: OutcomeModel,
    now_ms: u64,
)
    ensures
        attempt_end(core, attempt, outcome, now_ms).state is Cancelled <==> outcome is Cancelled,
{
}

/// A waiting position held for a retry is either passed on to the queued task or
/// given up: the positions beyond the queue's tasks never drift.
pub proof fn law_retry_positions_are_settled<H, S, C>(
    before: CoreModel<H, S, C>,
    after: CoreModel<H, S, C>,
    end: EndModel,
    updated: Result<TaskRecord, StoreError>,
    step: FinishStep<S>,
)
    requires
        finish_transitioned_post(before, after, end, updated, step),
        step is Done,
        end.slot_reserved == (end.state is Queued),
        before.queue_count > 0,
    ensures
        after.queue_count - after.queue.len() == before.queue_count - before.queue.len() - (
        if end.slot_reserved {
            1int
        } else {
            0int
        }),
{
    if let Ok(record) = updated {
        let task = QueuedModel {
            id: record@.life.id,
            resources: record@.request.info.resources,
            retry_not_before_ms: record@.life.retry_not_before_ms,
            bypasses: 0,
        };
        super::scheduler_queue::law_queue_accounts_for_every_task(
            before.queue,
            task,
            Seq::empty(),
            0,
            0,
            task.id,
        );
    }
}

} // verus!
