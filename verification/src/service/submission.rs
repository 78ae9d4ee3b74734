//! Acceptance of task requests and of process-local tasks.

use vstd::prelude::*;

use super::error::ServiceErrorModel;
use super::error::TaskServiceError;
use super::service_core::CoreModel;
use super::service_core::ServiceCore;
use super::service_core::StoreFault;
use super::validation::answers;
use super::validation::request_error;
use super::validation::submission_error;
use super::validation::validate_request;
use super::validation::validate_submission;
use crate::model::resource::CapacityModel;
use crate::model::resource::DemandModel;
use crate::model::task_id::uuid_text;
use crate::model::task_record::RecordModel;
use crate::model::task_request::new_request;
use crate::model::task_request::RequestModel;
use crate::model::AcceptOutcome;
use crate::model::ResourceCapacity;
use crate::model::ResourceRequest;
use crate::model::TaskId;
use crate::model::TaskRecord;
use crate::model::TaskRequest;
use crate::scheduling::fair_fifo::QueuedModel;
use crate::scheduling::QueuedTask;
use crate::store::StoreError;
use crate::store::StoreErrorModel;
use crate::text::join2;
use crate::text::join3;

verus! {

/// What a submission does after its idempotency key was looked up.
#[derive(Debug)]
pub enum SubmitStep<S> {
    /// The caller is answered and the operation has left admission.
    Reply(SubmitReply<S>),
    /// No waiting position is free: look the key up once more.
    Recheck,
    /// A waiting position is taken: ask the store to accept the request.
    Accept,
}

/// Answer to a submission.
#[derive(Debug)]
pub struct SubmitReply<S> {
    /// The accepted or replayed record, or why there is none.
    pub result: Result<TaskRecord, TaskServiceError>,
    /// Whether the task is new and waits to be scheduled.
    pub queued: bool,
    /// A storage fault recorded on the way.
    pub fault: Option<StoreFault<S>>,
}

/// A queue entry that was never bypassed.
pub open spec fn fresh_entry(id: TaskId, resources: DemandModel) -> QueuedModel {
    QueuedModel { id, resources, retry_not_before_ms: None, bypasses: 0 }
}

/// Whether a result is this error.
pub open spec fn fails_with<T>(result: Result<T, TaskServiceError>, error: ServiceErrorModel) -> bool {
    result matches Err(e) && e@ == error
}

/// Whether a result is this record.
pub open spec fn gives(result: Result<TaskRecord, TaskServiceError>, record: RecordModel) -> bool {
    result matches Ok(r) && r@ == record
}

/// Why a submission may not begin, if it may not.
pub open spec fn submit_error<H, S, C>(
    core: CoreModel<H, S, C>,
    request: RequestModel,
    capacity: CapacityModel,
) -> Option<ServiceErrorModel> {
    if core.admission_error() is Some {
        core.admission_error()
    } else {
        submission_error(request, capacity)
    }
}

/// What looking up an idempotency key leads to.
pub open spec fn lookup_post<H, S, C>(
    before: CoreModel<H, S, C>,
    after: CoreModel<H, S, C>,
    request: RequestModel,
    found: Result<Option<TaskRecord>, StoreError>,
    rechecking: bool,
    step: SubmitStep<S>,
) -> bool {
    match found {
        Err(error) => {
            &&& step matches SubmitStep::Reply(reply) && fails_with(
                reply.result,
                ServiceErrorModel::Store(error@),
            ) && !reply.queued && before.asks_after_error(error@, reply.fault)
            &&& after == before.after_error(error@).left()
        },
        Ok(Some(record)) => {
            &&& step matches SubmitStep::Reply(reply) && reply.fault is None && !reply.queued && (
            if record@.request == request {
                gives(reply.result, record@)
            } else {
                fails_with(
                    reply.result,
                    ServiceErrorModel::Store(StoreErrorModel::IdempotencyConflict),
                )
            })
            &&& after == before.left()
        },
        Ok(None) => if rechecking {
            &&& step matches SubmitStep::Reply(reply) && reply.fault is None && !reply.queued
                && fails_with(reply.result, ServiceErrorModel::QueueFull)
            &&& after == before.left()
        } else if before.has_slot() {
            step is Accept && after == before.slot_taken()
        } else {
            step is Recheck && after == before
        },
    }
}

/// What the store's answer to an acceptance leads to.
pub open spec fn accepted_post<H, S, C>(
    before: CoreModel<H, S, C>,
    after: CoreModel<H, S, C>,
    resources: DemandModel,
    outcome: Result<AcceptOutcome, StoreError>,
    reply: SubmitReply<S>,
) -> bool {
    match outcome {
        Ok(AcceptOutcome::Accepted(record)) => {
            &&& gives(reply.result, record@) && reply.queued && reply.fault is None
            &&& after == before.waiting(fresh_entry(record@.life.id, resources)).left()
        },
        Ok(AcceptOutcome::Existing(record)) => {
            &&& gives(reply.result, record@) && !reply.queued && reply.fault is None
            &&& after == before.slot_freed().left()
        },
        Err(error) => {
            &&& fails_with(reply.result, ServiceErrorModel::Store(error@)) && !reply.queued
                && before.slot_freed().asks_after_error(error@, reply.fault)
            &&& after == before.slot_freed().after_error(error@).left()
        },
    }
}

/// The request that stands for a process-local task.
pub open spec fn local_request_model(id: TaskId) -> RequestModel {
    new_request("local:"@ + uuid_text(id.0), "1"@, Seq::empty())
}

/// Creates the request that stands for a process-local task.
pub fn local_request(id: TaskId) -> (request: TaskRequest)
    ensures
        request@ == local_request_model(id),
{
    let name = join2("local:", id.text().as_str());
    TaskRequest::new(name, "1", Vec::new())
}

/// Why a process-local task may not be submitted, if it may not.
pub open spec fn local_submit_error<H, S, C>(
    core: CoreModel<H, S, C>,
    restart_recovery: bool,
    id: TaskId,
    capacity: CapacityModel,
) -> Option<ServiceErrorModel> {
    if restart_recovery {
        Some(ServiceErrorModel::UnsupportedCapability)
    } else if core.admission_error() is Some {
        core.admission_error()
    } else if request_error(local_request_model(id), capacity) is Some {
        request_error(local_request_model(id), capacity)
    } else if !core.has_slot() {
        Some(ServiceErrorModel::QueueFull)
    } else {
        None
    }
}

/// The service after a process-local task entered with its waiting position and
/// its sender.
pub open spec fn local_entered<H, S, C>(
    core: CoreModel<H, S, C>,
    id: TaskId,
    sender: S,
) -> CoreModel<H, S, C> {
    CoreModel {
        finalizations: core.finalizations.insert(id.0, sender),
        ..core.entered().slot_taken()
    }
}

/// What the store's answer to accepting a process-local task leads to.
pub open spec fn local_accepted_post<H, S, C>(
    before: CoreModel<H, S, C>,
    after: CoreModel<H, S, C>,
    id: TaskId,
    resources: DemandModel,
    handler: H,
    outcome: Result<AcceptOutcome, StoreError>,
    reply: SubmitReply<S>,
) -> bool {
    match outcome {
        Ok(AcceptOutcome::Accepted(record)) => {
            &&& gives(reply.result, record@) && reply.fault is None
            &&& reply.queued == before.finalizations.contains_key(id.0)
            &&& after == if reply.queued {
                CoreModel {
                    handlers: before.handlers.insert(id.0, handler),
                    queue: before.queue.pushed(fresh_entry(id, resources)),
                    ..before
                }.left()
            } else {
                before.slot_freed().left()
            }
        },
        Ok(AcceptOutcome::Existing(record)) => {
            &&& fails_with(
                reply.result,
                ServiceErrorModel::InvalidRequest(
                    "local task id "@ + uuid_text(record@.life.id.0) + " was already accepted"@,
                ),
            ) && !reply.queued && reply.fault is None
            &&& after == before.unsent(id).slot_freed().left()
        },
        Err(error) => {
            &&& fails_with(reply.result, ServiceErrorModel::Store(error@)) && !reply.queued
                && before.unsent(id).slot_freed().asks_after_error(error@, reply.fault)
            &&& after == before.unsent(id).slot_freed().after_error(error@).left()
        },
    }
}

impl<H, S, C> ServiceCore<H, S, C> {
    /// Begins a submission: the request must be valid for `capacity` and carry a
    /// non-empty idempotency key. Its key is looked up next.
    pub fn submit_start(&mut self, request: &TaskRequest, capacity: &ResourceCapacity) -> (result:
        Result<(), TaskServiceError>)
        requires
            old(self)@.admission_error() is None ==> old(self)@.gate.active < usize::MAX,
        ensures
            answers(result, submit_error(old(self)@, request@, capacity@)),
            final(self)@ == if result is Ok {
                old(self)@.entered()
            } else {
                old(self)@
            },
    {
        match self.enter_healthy() {
            Ok(_) => {},
            Err(error) => {
                return Err(error);
            },
        }
        match validate_submission(request, capacity) {
            Ok(_) => Ok(()),
            Err(error) => {
                self.leave();
                Err(error)
            },
        }
    }

    /// Decides what follows the lookup of a submission's idempotency key.
    pub fn submit_lookup(
        &mut self,
        request: &TaskRequest,
        found: Result<Option<TaskRecord>, StoreError>,
        rechecking: bool,
    ) -> (step: SubmitStep<S>)
        requires
            old(self)@.gate.active > 0,
        ensures
            lookup_post(old(self)@, final(self)@, request@, found, rechecking, step),
    {
        match found {
            Err(error) => {
                let (failure, fault) = self.handle_store_error(error);
                self.leave();
                SubmitStep::Reply(SubmitReply { result: Err(failure), queued: false, fault })
            },
            Ok(Some(record)) => {
                self.leave();
                let result = if record.request.same(request) {
                    Ok(record)
                } else {
                    Err(TaskServiceError::Store(StoreError::IdempotencyConflict))
                };
                SubmitStep::Reply(SubmitReply { result, queued: false, fault: None })
            },
            Ok(None) => {
                if rechecking {
                    self.leave();
                    return SubmitStep::Reply(
                        SubmitReply {
                            result: Err(TaskServiceError::QueueFull),
                            queued: false,
                            fault: None,
                        },
                    );
                }
                if self.reserve_queue_slot() {
                    SubmitStep::Accept
                } else {
                    SubmitStep::Recheck
                }
            },
        }
    }

    /// Finishes a submission with the store's answer.
    pub fn submit_accepted(
        &mut self,
        resources: ResourceRequest,
        outcome: Result<AcceptOutcome, StoreError>,
    ) -> (reply: SubmitReply<S>)
        requires
            old(self)@.gate.active > 0,
        ensures
            accepted_post(old(self)@, final(self)@, resources@, outcome, reply),
    {
        match outcome {
            Ok(AcceptOutcome::Accepted(record)) => {
                self.push(
                    QueuedTask {
                        id: record.id,
                        resources,
                        retry_not_before_ms: None,
                        bypasses: 0,
                    },
                );
                self.leave();
                SubmitReply { result: Ok(record), queued: true, fault: None }
            },
            Ok(AcceptOutcome::Existing(record)) => {
                self.release_queue_slot();
                self.leave();
                SubmitReply { result: Ok(record), queued: false, fault: None }
            },
            Err(error) => {
                self.release_queue_slot();
                let (failure, fault) = self.handle_store_error(error);
                self.leave();
                SubmitReply { result: Err(failure), queued: false, fault }
            },
        }
    }

    /// Begins the submission of a process-local task and returns the request to
    /// be accepted for it.
    pub fn submit_local_start(
        &mut self,
        restart_recovery: bool,
        id: TaskId,
        capacity: &ResourceCapacity,
        sender: S,
    ) -> (result: Result<TaskRequest, TaskServiceError>)
        requires
            old(self)@.admission_error() is None ==> old(self)@.gate.active < usize::MAX,
        ensures
            match result {
                Ok(request) => {
                    &&& local_submit_error(old(self)@, restart_recovery, id, capacity@) is None
                    &&& request@ == local_request_model(id)
                    &&& final(self)@ == local_entered(old(self)@, id, sender)
                },
                Err(error) => {
                    &&& local_submit_error(old(self)@, restart_recovery, id, capacity@) == Some(
                        error@,
                    )
                    &&& final(self)@ == old(self)@
                },
            },
    {
        if restart_recovery {
            return Err(TaskServiceError::UnsupportedCapability);
        }
        match self.enter_healthy() {
            Ok(_) => {},
            Err(error) => {
                return Err(error);
            },
        }
        let request = local_request(id);
        match validate_request(&request, capacity) {
            Ok(_) => {},
            Err(error) => {
                self.leave();
                return Err(error);
            },
        }
        if !self.reserve_queue_slot() {
            self.leave();
            return Err(TaskServiceError::QueueFull);
        }
        self.keep_finalization(id, sender);
        Ok(request)
    }

    /// Finishes the submission of a process-local task with the store's answer.
    /// A storage fault that was recorded meanwhile has already told the task's
    /// handle, so such a task is not queued.
    pub fn submit_local_accepted(
        &mut self,
        id: TaskId,
        resources: ResourceRequest,
        handler: H,
        outcome: Result<AcceptOutcome, StoreError>,
    ) -> (reply: SubmitReply<S>)
        requires
            old(self)@.gate.active > 0,
        ensures
            local_accepted_post(
                old(self)@,
                final(self)@,
                id,
                resources@,
                handler,
                outcome,
                reply,
            ),
    {
        match outcome {
            Ok(AcceptOutcome::Accepted(record)) => {
                if !self.awaits_finalization(id) {
                    self.release_queue_slot();
                    self.leave();
                    return SubmitReply { result: Ok(record), queued: false, fault: None };
                }
                self.keep_handler(id, handler);
                self.push(QueuedTask { id, resources, retry_not_before_ms: None, bypasses: 0 });
                self.leave();
                SubmitReply { result: Ok(record), queued: true, fault: None }
            },
            Ok(AcceptOutcome::Existing(record)) => {
                let _sender = self.take_finalization(id);
                self.release_queue_slot();
                self.leave();
                let message = join3(
                    "local task id ",
                    record.id.text().as_str(),
                    " was already accepted",
                );
                SubmitReply {
                    result: Err(TaskServiceError::InvalidRequest(message)),
                    queued: false,
                    fault: None,
                }
            },
            Err(error) => {
                let _sender = self.take_finalization(id);
                self.release_queue_slot();
                let (failure, fault) = self.handle_store_error(error);
                self.leave();
                SubmitReply { result: Err(failure), queued: false, fault }
            },
        }
    }
}

} // verus!
