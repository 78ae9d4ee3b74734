//! Cancellation, retry and abandonment of tasks, waiting, and shutdown.

use vstd::prelude::*;

use super::error::outcome;
use super::error::CancelOutcome;
use super::error::ServiceErrorModel;
use super::error::TaskServiceError;
use super::service_core::CoreModel;
use super::service_core::ServiceCore;
use super::service_core::StoreFault;
use super::submission::fails_with;
use super::submission::fresh_entry;
use super::submission::gives;
use super::validation::answers;
use crate::model::task_record::CommandModel;
use crate::model::task_record::LifeModel;
use crate::model::task_record::StateModel;
use crate::model::TaskId;
use crate::model::TaskOutput;
use crate::model::TaskRecord;
use crate::model::TaskState;
use crate::model::TaskStateCounts;
use crate::model::TransitionCommand;
use crate::scheduling::QueuedTask;
use crate::store::StoreError;
use crate::store::StoreErrorModel;
use crate::text::copy_texts;
use crate::text::texts;

verus! {

/// A command for the revision that was read.
pub open spec fn command_for(
    life: LifeModel,
    state: StateModel,
    retry_not_before_ms: Option<u64>,
    output: Option<Seq<u8>>,
    assigned_resources: Seq<Seq<char>>,
    cancel_requested: bool,
) -> CommandModel {
    CommandModel {
        id: life.id,
        expected_version: life.state_version,
        expected_attempt: life.attempt,
        state,
        retry_not_before_ms,
        output,
        assigned_resources,
        cancel_requested,
    }
}

/// Creates a command for the revision of `record`.
pub fn make_command(
    record: &TaskRecord,
    state: TaskState,
    retry_not_before_ms: Option<u64>,
    output: Option<TaskOutput>,
    assigned_resources: Vec<String>,
    cancel_requested: bool,
) -> (command: TransitionCommand)
    ensures
        command@ == command_for(
            record@.life,
            state@,
            retry_not_before_ms,
            crate::model::task_record::opt_output(output),
            texts(assigned_resources@),
            cancel_requested,
        ),
{
    TransitionCommand {
        id: record.id,
        expected_version: record.state_version,
        expected_attempt: record.attempt,
        state,
        retry_not_before_ms,
        output,
        assigned_resources,
        cancel_requested,
    }
}

/// Whether a task has not started, so that cancelling it ends it at once.
pub open spec fn ends_at_once(state: StateModel) -> bool {
    state is Queued || state is Blocked
}

/// The command that cancels a task: work that has not started ends, and running
/// work is asked to stop.
pub open spec fn cancel_command(life: LifeModel) -> CommandModel {
    if ends_at_once(life.state) {
        command_for(life, StateModel::Cancelled, None, None, Seq::empty(), false)
    } else {
        command_for(life, StateModel::Running, None, None, life.assigned_resources, true)
    }
}

/// What a cancellation does after the task was read.
#[derive(Debug)]
pub enum CancelStep<S> {
    /// The caller is answered and the operation has left admission.
    Reply {
        /// The answer.
        result: Result<CancelOutcome, TaskServiceError>,
        /// A storage fault recorded on the way.
        fault: Option<StoreFault<S>>,
    },
    /// Apply this command for the record that was read.
    Transition {
        /// The record that was read.
        record: TaskRecord,
        /// The command.
        command: TransitionCommand,
    },
}

/// What a cancellation does after its command was tried.
#[derive(Debug)]
pub enum CancelDone<S> {
    /// The caller is answered and the operation has left admission.
    Reply {
        /// The answer.
        result: Result<CancelOutcome, TaskServiceError>,
        /// Where to send `Cancelled` for a process-local task.
        finalize: Option<S>,
        /// Whether the running attempt's signal is to be set.
        signal: bool,
        /// A storage fault recorded on the way.
        fault: Option<StoreFault<S>>,
    },
    /// The task changed meanwhile: read it again.
    Reload,
}

/// What reading a task for cancellation leads to. `tried` is the revision of an
/// earlier try that met a conflict.
pub open spec fn cancel_loaded_post<H, S, C>(
    before: CoreModel<H, S, C>,
    after: CoreModel<H, S, C>,
    found: Result<Option<TaskRecord>, StoreError>,
    tried: Option<u64>,
    step: CancelStep<S>,
) -> bool {
    match found {
        Err(error) => {
            &&& step matches CancelStep::Reply { result, fault } && fails_with(
                result,
                ServiceErrorModel::Store(error@),
            ) && before.asks_after_error(error@, fault)
            &&& after == before.after_error(error@).left()
        },
        Ok(None) => {
            &&& step matches CancelStep::Reply { result, fault } && fails_with(
                result,
                ServiceErrorModel::Store(StoreErrorModel::NotFound),
            ) && fault is None
            &&& after == before.left()
        },
        Ok(Some(record)) => if record@.life.state.is_terminal() {
            &&& step matches CancelStep::Reply { result, fault } && result == Ok::<
                CancelOutcome,
                TaskServiceError,
            >(CancelOutcome::AlreadyTerminal) && fault is None
            &&& after == before.left()
        } else if tried is Some && record@.life.state_version <= tried->0 {
            &&& step matches CancelStep::Reply { result, fault } && fails_with(
                result,
                ServiceErrorModel::Store(StoreErrorModel::Conflict),
            ) && fault is None
            &&& after == before.left()
        } else {
            &&& step matches CancelStep::Transition { record: kept, command } && kept@ == record@
                && command@ == cancel_command(record@.life)
            &&& after == before
        },
    }
}

/// The service after a task that had not started was cancelled.
pub open spec fn ended_at_once<H, S, C>(
    core: CoreModel<H, S, C>,
    life: LifeModel,
) -> CoreModel<H, S, C> {
    let dequeued = if life.state is Queued && core.queue.holds(life.id) {
        CoreModel { queue: core.queue.removed(life.id), ..core }.slot_freed()
    } else {
        core
    };
    CoreModel {
        handlers: dequeued.handlers.remove(life.id.0),
        finalizations: dequeued.finalizations.remove(life.id.0),
        ..dequeued
    }
}

/// What trying a cancellation's command leads to.
pub open spec fn cancel_transitioned_post<H, S, C>(
    before: CoreModel<H, S, C>,
    after: CoreModel<H, S, C>,
    life: LifeModel,
    updated: Result<TaskRecord, StoreError>,
    done: CancelDone<S>,
) -> bool {
    match updated {
        Ok(record) => if ends_at_once(life.state) {
            &&& done matches CancelDone::Reply { result, finalize, signal, fault } && result
                == Ok::<CancelOutcome, TaskServiceError>(CancelOutcome::CancelledBeforeStart)
                && finalize == before.sender(life.id) && !signal && fault is None
            &&& after == ended_at_once(before, life).left()
        } else {
            &&& done matches CancelDone::Reply { result, finalize, signal, fault } && result
                == Ok::<CancelOutcome, TaskServiceError>(CancelOutcome::CancellationRequested)
                && finalize is None && signal == before.runs(life.id, record@.life.attempt)
                && fault is None
            &&& after == before.left()
        },
        Err(error) => if error@ is Conflict {
            done is Reload && after == before
        } else {
            &&& done matches CancelDone::Reply { result, finalize, signal, fault } && fails_with(
                result,
                ServiceErrorModel::Store(error@),
            ) && finalize is None && !signal && before.asks_after_error(error@, fault)
            &&& after == before.after_error(error@).left()
        },
    }
}

/// What a retry does after the task was read.
#[derive(Debug)]
pub enum RetryStep<S> {
    /// The caller is answered and the operation has left admission.
    Reply {
        /// Why the task is not retried.
        error: TaskServiceError,
        /// A storage fault recorded on the way.
        fault: Option<StoreFault<S>>,
    },
    /// A waiting position is taken: apply this command.
    Transition(TransitionCommand),
}

/// Why a task that was read is not retried, if it is not.
pub open spec fn retry_error<H, S, C>(core: CoreModel<H, S, C>, life: LifeModel) -> Option<
    ServiceErrorModel,
> {
    if !(life.state is Blocked) {
        Some(ServiceErrorModel::Blocked)
    } else if life.attempt >= core.settings.max_attempts {
        Some(
            ServiceErrorModel::AttemptsExhausted {
                attempts: life.attempt,
                limit: core.settings.max_attempts,
            },
        )
    } else if !core.has_slot() {
        Some(ServiceErrorModel::QueueFull)
    } else {
        None
    }
}

/// The command that requeues a blocked task.
pub open spec fn requeue_command(life: LifeModel) -> CommandModel {
    command_for(life, StateModel::Queued, None, None, Seq::empty(), false)
}

/// What reading a task for a retry leads to.
pub open spec fn retry_loaded_post<H, S, C>(
    before: CoreModel<H, S, C>,
    after: CoreModel<H, S, C>,
    found: Result<Option<TaskRecord>, StoreError>,
    step: RetryStep<S>,
) -> bool {
    match found {
        Err(error) => {
            &&& step matches RetryStep::Reply { error: shown, fault } && shown@
                == ServiceErrorModel::Store(error@) && before.asks_after_error(error@, fault)
            &&& after == before.after_error(error@).left()
        },
        Ok(None) => {
            &&& step matches RetryStep::Reply { error: shown, fault } && shown@
                == ServiceErrorModel::Store(StoreErrorModel::NotFound) && fault is None
            &&& after == before.left()
        },
        Ok(Some(record)) => match retry_error(before, record@.life) {
            Some(error) => {
                &&& step matches RetryStep::Reply { error: shown, fault } && shown@ == error
                    && fault is None
                &&& after == before.left()
            },
            None => {
                &&& step matches RetryStep::Transition(command) && command@ == requeue_command(
                    record@.life,
                )
                &&& after == before.slot_taken()
            },
        },
    }
}

/// Answer to an operation that changed one task.
#[derive(Debug)]
pub struct RecordReply<S> {
    /// The changed record, or why there is none.
    pub result: Result<TaskRecord, TaskServiceError>,
    /// A storage fault recorded on the way.
    pub fault: Option<StoreFault<S>>,
}

/// What trying a retry's command leads to.
pub open spec fn retry_transitioned_post<H, S, C>(
    before: CoreModel<H, S, C>,
    after: CoreModel<H, S, C>,
    id: TaskId,
    updated: Result<TaskRecord, StoreError>,
    reply: RecordReply<S>,
) -> bool {
    match updated {
        Ok(record) => {
            &&& gives(reply.result, record@) && reply.fault is None
            &&& after == before.waiting(fresh_entry(id, record@.request.info.resources)).left()
        },
        Err(error) => {
            &&& fails_with(reply.result, ServiceErrorModel::Store(error@))
                && before.slot_freed().asks_after_error(error@, reply.fault)
            &&& after == before.slot_freed().after_error(error@).left()
        },
    }
}

/// What trying to abandon a blocked task leads to. `current` is the task as it
/// was read before.
pub open spec fn abandon_post<H, S, C>(
    before: CoreModel<H, S, C>,
    after: CoreModel<H, S, C>,
    current: LifeModel,
    updated: Result<TaskRecord, StoreError>,
    reply: RecordReply<S>,
    finalize: Option<S>,
) -> bool {
    match updated {
        Ok(record) => {
            &&& gives(reply.result, record@) && reply.fault is None
            &&& finalize == before.sender(current.id)
            &&& after == (CoreModel {
                handlers: before.handlers.remove(current.id.0),
                ..before.unsent(current.id)
            }).left()
        },
        Err(error) => {
            &&& finalize is None
            &&& if error@ is InvalidTransition {
                &&& fails_with(
                    reply.result,
                    ServiceErrorModel::NotBlocked { state: current.state.kind() },
                ) && reply.fault is None
                &&& after == before.left()
            } else {
                &&& fails_with(reply.result, ServiceErrorModel::Store(error@))
                    && before.asks_after_error(error@, reply.fault)
                &&& after == before.after_error(error@).left()
            }
        },
    }
}

/// What a waiter does after the task was read.
#[derive(Debug)]
pub enum WaitStep<S> {
    /// The waiter is answered.
    Reply(RecordReply<S>),
    /// Wait for the next change.
    Wait,
}

/// What reading a task for a waiter leads to.
pub open spec fn wait_loaded_post<H, S, C>(
    before: CoreModel<H, S, C>,
    after: CoreModel<H, S, C>,
    found: Result<Option<TaskRecord>, StoreError>,
    step: WaitStep<S>,
) -> bool {
    match found {
        Err(error) => {
            &&& step matches WaitStep::Reply(reply) && fails_with(
                reply.result,
                ServiceErrorModel::Store(error@),
            ) && before.asks_after_error(error@, reply.fault)
            &&& after == before.after_error(error@)
        },
        Ok(None) => {
            &&& step matches WaitStep::Reply(reply) && fails_with(
                reply.result,
                ServiceErrorModel::Store(StoreErrorModel::NotFound),
            ) && reply.fault is None
            &&& after == before
        },
        Ok(Some(record)) => {
            &&& after == before
            &&& if record@.life.state.is_terminal() {
                step matches WaitStep::Reply(reply) && gives(reply.result, record@)
                    && reply.fault is None
            } else if record@.life.state is Blocked {
                step matches WaitStep::Reply(reply) && fails_with(
                    reply.result,
                    ServiceErrorModel::Blocked,
                ) && reply.fault is None
            } else {
                step is Wait
            }
        },
    }
}

/// What a drain check leads to.
#[derive(Debug)]
pub enum DrainStep<S> {
    /// Draining stops with this failure.
    Fail {
        /// The failure.
        error: TaskServiceError,
        /// A storage fault recorded on the way.
        fault: Option<StoreFault<S>>,
    },
    /// Nothing is queued or running.
    Settled,
    /// Work is left: wait for the next change.
    Wait,
}

/// What the counts of the tasks lead to during shutdown.
pub open spec fn counted_post<H, S, C>(
    before: CoreModel<H, S, C>,
    after: CoreModel<H, S, C>,
    counts: Result<TaskStateCounts, StoreError>,
    step: DrainStep<S>,
) -> bool {
    match counts {
        Err(failed) => {
            &&& step matches DrainStep::Fail { error, fault } && error@
                == ServiceErrorModel::Store(failed@) && before.asks_after_error(failed@, fault)
            &&& after == before.after_error(failed@)
        },
        Ok(found) => {
            &&& after == before
            &&& if found.queued == 0 && found.running == 0 {
                step is Settled
            } else {
                step is Wait
            }
        },
    }
}

/// What counting tasks during shutdown leads to, unless a storage failure was
/// recorded.
pub open spec fn drain_post<H, S, C>(
    before: CoreModel<H, S, C>,
    after: CoreModel<H, S, C>,
    counts: Result<TaskStateCounts, StoreError>,
    step: DrainStep<S>,
) -> bool {
    if before.fault is Some {
        &&& step matches DrainStep::Fail { error, fault } && error@
            == ServiceErrorModel::StoreUnavailable(before.fault->0) && fault is None
        &&& after == before
    } else {
        counted_post(before, after, counts, step)
    }
}

impl<H, S, C> ServiceCore<H, S, C> {
    /// Decides what follows the read of a task that is to be cancelled.
    pub fn cancel_loaded(
        &mut self,
        found: Result<Option<TaskRecord>, StoreError>,
        tried: Option<u64>,
    ) -> (step: CancelStep<S>)
        requires
            old(self)@.gate.active > 0,
        ensures
            cancel_loaded_post(old(self)@, final(self)@, found, tried, step),
    {
        match found {
            Err(error) => {
                let (failure, fault) = self.handle_store_error(error);
                self.leave();
                CancelStep::Reply { result: Err(failure), fault }
            },
            Ok(None) => {
                self.leave();
                CancelStep::Reply {
                    result: Err(TaskServiceError::Store(StoreError::NotFound)),
                    fault: None,
                }
            },
            Ok(Some(record)) => {
                if record.state.is_terminal() {
                    self.leave();
                    return CancelStep::Reply {
                        result: Ok(CancelOutcome::AlreadyTerminal),
                        fault: None,
                    };
                }
                let stale = match tried {
                    Some(version) => record.state_version <= version,
                    None => false,
                };
                if stale {
                    self.leave();
                    return CancelStep::Reply {
                        result: Err(TaskServiceError::Store(StoreError::Conflict)),
                        fault: None,
                    };
                }
                let waiting = matches!(record.state, TaskState::Queued | TaskState::Blocked { .. });
                let command = if waiting {
                    let nothing: Vec<String> = Vec::new();
                    proof {
                        assert(texts(nothing@) =~= Seq::<Seq<char>>::empty());
                    }
                    make_command(&record, TaskState::Cancelled, None, None, nothing, false)
                } else {
                    make_command(
                        &record,
                        TaskState::Running,
                        None,
                        None,
                        copy_texts(&record.assigned_resources),
                        true,
                    )
                };
                CancelStep::Transition { record, command }
            },
        }
    }

    /// Finishes a cancellation with the store's answer to its command for
    /// `record`.
    pub fn cancel_transitioned(
        &mut self,
        record: &TaskRecord,
        updated: Result<TaskRecord, StoreError>,
    ) -> (done: CancelDone<S>)
        requires
            old(self)@.gate.active > 0,
        ensures
            cancel_transitioned_post(old(self)@, final(self)@, record@.life, updated, done),
    {
        let queued = matches!(record.state, TaskState::Queued);
        let blocked = matches!(record.state, TaskState::Blocked { .. });
        match updated {
            Ok(latest) => {
                if queued || blocked {
                    let finalize = self.take_finalization(record.id);
                    if queued {
                        let removed = self.remove_waiting(record.id);
                        if removed {
                            self.release_queue_slot();
                        }
                    }
                    self.drop_handler(record.id);
                    self.leave();
                    CancelDone::Reply {
                        result: Ok(CancelOutcome::CancelledBeforeStart),
                        finalize,
                        signal: false,
                        fault: None,
                    }
                } else {
                    let signal = self.cancellation(record.id, latest.attempt).is_some();
                    self.leave();
                    CancelDone::Reply {
                        result: Ok(CancelOutcome::CancellationRequested),
                        finalize: None,
                        signal,
                        fault: None,
                    }
                }
            },
            Err(StoreError::Conflict) => CancelDone::Reload,
            Err(error) => {
                let (failure, fault) = self.handle_store_error(error);
                self.leave();
                CancelDone::Reply { result: Err(failure), finalize: None, signal: false, fault }
            },
        }
    }

    /// Decides what follows the read of a blocked task that is to be requeued.
    pub fn retry_loaded(&mut self, found: Result<Option<TaskRecord>, StoreError>) -> (step:
        RetryStep<S>)
        requires
            old(self)@.gate.active > 0,
        ensures
            retry_loaded_post(old(self)@, final(self)@, found, step),
    {
        let record = match found {
            Err(error) => {
                let (failure, fault) = self.handle_store_error(error);
                self.leave();
                return RetryStep::Reply { error: failure, fault };
            },
            Ok(None) => {
                self.leave();
                return RetryStep::Reply {
                    error: TaskServiceError::Store(StoreError::NotFound),
                    fault: None,
                };
            },
            Ok(Some(record)) => record,
        };
        if !matches!(record.state, TaskState::Blocked { .. }) {
            self.leave();
            return RetryStep::Reply { error: TaskServiceError::Blocked, fault: None };
        }
        let limit = self.settings().max_attempts;
        if record.attempt >= limit {
            self.leave();
            return RetryStep::Reply {
                error: TaskServiceError::AttemptsExhausted { attempts: record.attempt, limit },
                fault: None,
            };
        }
        if !self.reserve_queue_slot() {
            self.leave();
            return RetryStep::Reply { error: TaskServiceError::QueueFull, fault: None };
        }
        let nothing: Vec<String> = Vec::new();
        proof {
            assert(texts(nothing@) =~= Seq::<Seq<char>>::empty());
        }
        RetryStep::Transition(
            make_command(&record, TaskState::Queued, None, None, nothing, false),
        )
    }

    /// Finishes a retry with the store's answer to its command.
    pub fn retry_transitioned(&mut self, id: TaskId, updated: Result<TaskRecord, StoreError>) -> (
    reply: RecordReply<S>)
        requires
            old(self)@.gate.active > 0,
        ensures
            retry_transitioned_post(old(self)@, final(self)@, id, updated, reply),
    {
        match updated {
            Ok(record) => {
                self.push(
                    QueuedTask {
                        id,
                        resources: record.request.resources.clone(),
                        retry_not_before_ms: None,
                        bypasses: 0,
                    },
                );
                self.leave();
                RecordReply { result: Ok(record), fault: None }
            },
            Err(error) => {
                self.release_queue_slot();
                let (failure, fault) = self.handle_store_error(error);
                self.leave();
                RecordReply { result: Err(failure), fault }
            },
        }
    }

    /// Finishes the abandonment of a blocked task with the store's answer. A
    /// task in another state is reported as not blocked.
    pub fn abandon_transitioned(
        &mut self,
        current: &TaskRecord,
        updated: Result<TaskRecord, StoreError>,
    ) -> (parts: (RecordReply<S>, Option<S>))
        requires
            old(self)@.gate.active > 0,
        ensures
            abandon_post(old(self)@, final(self)@, current@.life, updated, parts.0, parts.1),
    {
        match updated {
            Ok(record) => {
                let sender = self.take_finalization(current.id);
                self.drop_handler(current.id);
                self.leave();
                (RecordReply { result: Ok(record), fault: None }, sender)
            },
            Err(StoreError::InvalidTransition) => {
                self.leave();
                (
                    RecordReply {
                        result: Err(TaskServiceError::NotBlocked { state: current.state.kind() }),
                        fault: None,
                    },
                    None,
                )
            },
            Err(error) => {
                let (failure, fault) = self.handle_store_error(error);
                self.leave();
                (RecordReply { result: Err(failure), fault }, None)
            },
        }
    }

    /// Lets a waiter read its task unless a storage failure was recorded.
    pub fn wait_check(&self) -> (result: Result<(), TaskServiceError>)
        ensures
            answers(result, self@.fault_error()),
    {
        match self.last_store_error() {
            Some(text) => Err(TaskServiceError::StoreUnavailable(text)),
            None => Ok(()),
        }
    }

    /// Decides what follows the read of a task that somebody waits for.
    pub fn wait_loaded(&mut self, found: Result<Option<TaskRecord>, StoreError>) -> (step: WaitStep<
        S,
    >)
        ensures
            wait_loaded_post(old(self)@, final(self)@, found, step),
    {
        match found {
            Err(error) => {
                let (failure, fault) = self.handle_store_error(error);
                WaitStep::Reply(RecordReply { result: Err(failure), fault })
            },
            Ok(None) => WaitStep::Reply(
                RecordReply {
                    result: Err(TaskServiceError::Store(StoreError::NotFound)),
                    fault: None,
                },
            ),
            Ok(Some(record)) => {
                if record.state.is_terminal() {
                    WaitStep::Reply(RecordReply { result: Ok(record), fault: None })
                } else if matches!(record.state, TaskState::Blocked { .. }) {
                    WaitStep::Reply(
                        RecordReply { result: Err(TaskServiceError::Blocked), fault: None },
                    )
                } else {
                    WaitStep::Wait
                }
            },
        }
    }

    /// Decides whether shutdown has drained all accepted work.
    pub fn drain_check(&mut self, counts: Result<TaskStateCounts, StoreError>) -> (step: DrainStep<
        S,
    >)
        ensures
            drain_post(old(self)@, final(self)@, counts, step),
    {
        match self.last_store_error() {
            Some(text) => {
                return DrainStep::Fail {
                    error: TaskServiceError::StoreUnavailable(text),
                    fault: None,
                };
            },
            None => {},
        }
        self.drain_confirm(counts)
    }

    /// Decides by the counts alone whether all accepted work is drained. This is
    /// the second look, taken while no transition can happen.
    pub fn drain_confirm(&mut self, counts: Result<TaskStateCounts, StoreError>) -> (step:
        DrainStep<S>)
        ensures
            counted_post(old(self)@, final(self)@, counts, step),
    {
        match counts {
            Err(failed) => {
                let (error, fault) = self.handle_store_error(failed);
                DrainStep::Fail { error, fault }
            },
            Ok(found) => {
                if found.queued == 0 && found.running == 0 {
                    DrainStep::Settled
                } else {
                    DrainStep::Wait
                }
            },
        }
    }

    /// Finishes draining with the store's answer to the release of ownership,
    /// if there was any to release.
    pub fn drain_finish(&mut self, released: Option<Result<(), StoreError>>) -> (parts: (
        Result<(), TaskServiceError>,
        Option<StoreFault<S>>,
    ))
        ensures
            match released {
                Some(Err(error)) => {
                    &&& outcome(parts.0) == Err::<(), ServiceErrorModel>(
                        ServiceErrorModel::Store(error@),
                    )
                    &&& parts.1 matches Some(fault) && old(self)@.asks(error@.message(), fault)
                    &&& final(self)@ == old(self)@.faulted(error@.message())
                },
                _ => parts.0 is Ok && parts.1 is None && final(self)@ == old(self)@,
            },
    {
        match released {
            Some(Err(error)) => {
                let fault = self.pause_on_store_fault(&error);
                (Err(TaskServiceError::Store(error)), Some(fault))
            },
            _ => (Ok(()), None),
        }
    }
}

/// A refused retry changes nothing, and a task is requeued only while attempts
/// are left.
pub proof fn law_retries_respect_the_attempt_budget<H, S, C>(
    before: CoreModel<H, S, C>,
    after: CoreModel<H, S, C>,
    record: TaskRecord,
    step: RetryStep<S>,
)
    requires
        retry_loaded_post(before, after, Ok(Some(record)), step),
    ensures
        step is Transition ==> record@.life.attempt < before.settings.max_attempts,
        record@.life.state is Blocked && record@.life.attempt >= before.settings.max_attempts ==> (
        step matches RetryStep::Reply { error, fault } && error@
            == (ServiceErrorModel::AttemptsExhausted {
            attempts: record@.life.attempt,
            limit: before.settings.max_attempts,
        })),
        step is Reply ==> after == before.left(),
{
}

} // verus!
