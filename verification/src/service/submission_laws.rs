//! What submissions take and are told, and what a storage failure stops.

use vstd::prelude::*;

use super::admission_laws::is_named;
use super::error::ServiceErrorModel;
use super::error::TaskServiceError;
use super::scheduler_queue::SchedulerQueue;
use super::service_core::settled;
use super::service_core::CoreModel;
use super::service_core::ServiceCore;
use super::service_core::ServiceSettings;
use super::service_core::StoreFault;
use super::submission::accepted_post;
use super::submission::local_accepted_post;
use super::submission::local_entered;
use super::submission::local_request;
use super::submission::local_submit_error;
use super::submission::lookup_post;
use super::submission::submit_error;
use super::submission::SubmitReply;
use super::submission::SubmitStep;
use crate::keyed::lists_values;
use crate::model::request_laws::is_within_limits;
use crate::model::request_laws::law_limits_are_documented;
use crate::model::resource::CapacityModel;
use crate::model::resource::DemandModel;
use crate::model::task_id::uuid_text;
use crate::model::task_request::RequestModel;
use crate::model::AcceptOutcome;
use crate::model::TaskId;
use crate::model::TaskRecord;
use crate::model::TaskRequest;
use crate::scheduling::fair_fifo::QueuedModel;
use crate::scheduling::fit_laws::could_hold;
use crate::scheduling::fit_laws::lemma_could_hold;
use crate::store::StoreError;
use crate::store::StoreErrorModel;

verus! {

/// Whether a service takes new work: no storage failure was recorded and shutdown
/// has not begun.
pub open spec fn takes_work<H, S, C>(core: CoreModel<H, S, C>) -> bool {
    core.fault is None && core.gate.phase is Open
}

/// An operation begins on an open service, and one that needs the store only while
/// no failure was recorded. A recorded failure is told before shutdown.
pub proof fn law_services_take_work_while_healthy<H, S, C>(core: CoreModel<H, S, C>)
    ensures
        core.entry_error() is None <==> core.gate.phase is Open,
        core.entry_error() matches Some(error) ==> error is ShuttingDown,
        core.admission_error() is None <==> takes_work(core),
        core.fault matches Some(words) ==> core.admission_error() == Some(
            ServiceErrorModel::StoreUnavailable(words),
        ),
        core.fault matches Some(words) ==> core.fault_error() == Some(
            ServiceErrorModel::StoreUnavailable(words),
        ),
        core.fault is None ==> core.fault_error() is None,
        core.fault is None && !(core.gate.phase is Open) ==> core.admission_error() == Some(
            ServiceErrorModel::ShuttingDown,
        ),
{
}

/// Whether two services differ at most in admission, failure and the process-local
/// tasks they keep.
pub open spec fn same_work<H, S, C>(a: CoreModel<H, S, C>, b: CoreModel<H, S, C>) -> bool {
    &&& a.settings == b.settings
    &&& a.queue == b.queue
    &&& a.queue_count == b.queue_count
    &&& a.running == b.running
    &&& a.cancellations == b.cancellations
    &&& a.budget == b.budget
}

/// Whether two services keep the same process-local tasks and the same failure.
pub open spec fn same_senders<H, S, C>(a: CoreModel<H, S, C>, b: CoreModel<H, S, C>) -> bool {
    &&& a.handlers == b.handlers
    &&& a.finalizations == b.finalizations
    &&& a.fault == b.fault
}

/// Operations are counted in and out, waiting positions are counted up to the
/// queue's capacity, and neither touches anything else.
pub proof fn law_operations_and_positions_are_counted<H, S, C>(core: CoreModel<H, S, C>)
    requires
        0 < core.gate.active < usize::MAX,
    ensures
        core.entered().gate.active == core.gate.active + 1,
        core.left().gate.active == core.gate.active - 1,
        core.entered().gate.phase == core.gate.phase && core.left().gate.phase == core.gate.phase,
        core.entered().gate.result == core.gate.result && core.left().gate.result
            == core.gate.result,
        same_work(core.entered(), core) && same_senders(core.entered(), core),
        same_work(core.left(), core) && same_senders(core.left(), core),
        core.has_slot() <==> core.queue_count < core.settings.queue_capacity,
        core.has_slot() ==> core.slot_taken().queue_count == core.queue_count + 1,
        core.queue_count > 0 ==> core.slot_freed().queue_count == core.queue_count - 1,
        core.queue_count == 0 ==> core.slot_freed().queue_count == 0,
        core.slot_taken().queue == core.queue && core.slot_freed().queue == core.queue,
        core.slot_taken().running == core.running && core.slot_freed().running == core.running,
        same_senders(core.slot_taken(), core) && same_senders(core.slot_freed(), core),
        core.slot_taken().gate == core.gate && core.slot_freed().gate == core.gate,
{
}

/// A storage failure is recorded once, the first one; from then on nothing that
/// needs the store begins and no process-local task is kept. Each of these tasks is
/// told once, in the words of the first failure, and shutdown is begun by the
/// failure that finds the service open.
pub proof fn law_storage_failures_stop_the_service<H, S, C>(
    core: CoreModel<H, S, C>,
    words: Seq<char>,
    fault: StoreFault<S>,
)
    requires
        core.asks(words, fault),
    ensures
        core.faulted(words).fault == Some(fault.diagnostic@),
        core.fault matches Some(first) ==> fault.diagnostic@ == first,
        core.fault is None ==> fault.diagnostic@ == words,
        !takes_work(core.faulted(words)),
        !(core.faulted(words).gate.phase is Open),
        core.faulted(words).gate.phase is Closed <==> core.gate.phase is Closed,
        core.faulted(words).gate.active == core.gate.active,
        core.faulted(words).gate.result == core.gate.result,
        core.faulted(words).finalizations.dom() == Set::<u128>::empty(),
        core.faulted(words).handlers.dom() == Set::<u128>::empty(),
        same_work(core.faulted(words), core),
        lists_values(fault.finalizations@, core.finalizations),
        fault.coordinates <==> core.gate.phase is Open,
{
}

/// Only an operational failure of the store is recorded; a conflict or a missing
/// task concerns the operation alone.
pub proof fn law_only_failures_stop_the_service<H, S, C>(
    core: CoreModel<H, S, C>,
    error: StoreErrorModel,
    fault: Option<StoreFault<S>>,
)
    requires
        core.asks_after_error(error, fault),
    ensures
        fault is Some <==> error is Failure,
        !(error is Failure) ==> core.after_error(error) == core,
        error matches StoreErrorModel::Failure(detail) ==> {
            &&& core.after_error(error) == core.faulted("task store failure: "@ + detail)
            &&& core.asks("task store failure: "@ + detail, fault->0)
        },
{
}

/// The result of a store call is passed on, and an error is told as the store's.
pub proof fn law_store_results_are_passed_on<H, S, C, T>(
    before: CoreModel<H, S, C>,
    after: CoreModel<H, S, C>,
    result: Result<T, StoreError>,
    converted: Result<T, TaskServiceError>,
    fault: Option<StoreFault<S>>,
)
    requires
        settled(before, after, result, converted, fault),
    ensures
        converted is Ok <==> result is Ok,
        result matches Ok(value) ==> converted->Ok_0 == value && after == before && fault is None,
        result matches Err(error) ==> {
            &&& converted->Err_0@ == ServiceErrorModel::Store(error@)
            &&& fault is Some <==> error@ is Failure
            &&& after.fault is Some <==> before.fault is Some || error@ is Failure
            &&& same_work(after, before)
        },
{
}

/// A submission begins exactly when the service takes work and the request keeps
/// the limits, names what it demands, could be held by the capacity and carries a
/// key that is not empty.
pub proof fn law_submissions_begin_when_valid<H, S, C>(
    core: CoreModel<H, S, C>,
    request: RequestModel,
    capacity: CapacityModel,
)
    ensures
        submit_error(core, request, capacity) is None <==> {
            &&& takes_work(core)
            &&& is_within_limits(request)
            &&& is_named(request.info.resources)
            &&& could_hold(request.info.resources, capacity)
            &&& request.info.idempotency_key matches Some(key) && key.len() > 0
        },
        !takes_work(core) ==> submit_error(core, request, capacity) == core.admission_error(),
        takes_work(core) && is_within_limits(request) && is_named(request.info.resources)
            && !could_hold(request.info.resources, capacity) ==> submit_error(
            core,
            request,
            capacity,
        ) == Some(ServiceErrorModel::Unsatisfiable),
{
    law_limits_are_documented(request);
    lemma_could_hold(request.info.resources, capacity);
    lemma_named(request.info.resources);
}

proof fn lemma_named(demand: DemandModel)
    ensures
        super::validation::has_empty_name(demand) <==> !is_named(demand),
{
    reveal_strlit("");
    assert forall|text: Seq<char>| text.len() == 0 implies text == ""@ by {
        assert(text =~= ""@);
    }
}

/// A key that is stored answers its own request with the stored task and any other
/// request with a conflict. A key that is not stored goes on to acceptance with a
/// waiting position, or is looked up once more where none is free, and is then told
/// that the queue is full. Every answer leaves admission, and only acceptance takes
/// a position.
pub proof fn law_lookups_answer_or_go_on<H, S, C>(
    before: CoreModel<H, S, C>,
    after: CoreModel<H, S, C>,
    request: RequestModel,
    found: Result<Option<TaskRecord>, StoreError>,
    rechecking: bool,
    step: SubmitStep<S>,
)
    requires
        before.gate.active > 0,
        lookup_post(before, after, request, found, rechecking, step),
    ensures
        step is Accept <==> (found matches Ok(stored) && stored is None) && !rechecking
            && before.queue_count < before.settings.queue_capacity,
        step is Recheck <==> (found matches Ok(stored) && stored is None) && !rechecking
            && before.queue_count >= before.settings.queue_capacity,
        step is Accept ==> after.queue_count == before.queue_count + 1,
        !(step is Accept) ==> after.queue_count == before.queue_count,
        after.queue == before.queue,
        after.running == before.running,
        step is Reply ==> after.gate.active == before.gate.active - 1,
        !(step is Reply) ==> after.gate == before.gate,
        step matches SubmitStep::Reply(reply) ==> {
            &&& !reply.queued
            &&& match found {
                Ok(Some(record)) => if record@.request == request {
                    reply.result matches Ok(answer) && answer@ == record@
                } else {
                    reply.result matches Err(error) && error@ == ServiceErrorModel::Store(
                        StoreErrorModel::IdempotencyConflict,
                    )
                },
                Ok(None) => reply.result matches Err(error) && error@ is QueueFull,
                Err(failure) => reply.result matches Err(error) && error@
                    == ServiceErrorModel::Store(failure@),
            }
            &&& reply.fault is Some <==> (found matches Err(failure) && failure@ is Failure)
        },
        found is Ok ==> same_senders(after, before),
{
}

/// A task that the store accepted waits behind all ready tasks, not bypassed yet,
/// and its record is the answer. A task that was there already is the answer and
/// gives the waiting position back, and so does a refusal.
pub proof fn law_accepted_tasks_wait_last<H, S, C>(
    before: CoreModel<H, S, C>,
    after: CoreModel<H, S, C>,
    resources: DemandModel,
    outcome: Result<AcceptOutcome, StoreError>,
    reply: SubmitReply<S>,
)
    requires
        before.gate.active > 0,
        before.queue_count > 0,
        accepted_post(before, after, resources, outcome, reply),
    ensures
        after.gate.active == before.gate.active - 1,
        after.running == before.running,
        after.queue.delayed == before.queue.delayed,
        reply.queued <==> (outcome matches Ok(AcceptOutcome::Accepted(_))),
        outcome matches Ok(AcceptOutcome::Accepted(record)) ==> {
            &&& reply.result matches Ok(answer) && answer@ == record@
            &&& after.queue_count == before.queue_count
            &&& after.queue.ready.len() == before.queue.ready.len() + 1
            &&& after.queue.ready.drop_last() == before.queue.ready
            &&& after.queue.ready.last().id == record@.life.id
            &&& after.queue.ready.last().resources == resources
            &&& after.queue.ready.last().bypasses == 0
            &&& after.queue.ready.last().retry_not_before_ms is None
        },
        outcome matches Ok(AcceptOutcome::Existing(record)) ==> {
            &&& reply.result matches Ok(answer) && answer@ == record@
            &&& after.queue_count == before.queue_count - 1
            &&& after.queue == before.queue
        },
        outcome matches Err(failure) ==> {
            &&& reply.result matches Err(error) && error@ == ServiceErrorModel::Store(failure@)
            &&& after.queue_count == before.queue_count - 1
            &&& after.queue == before.queue
            &&& reply.fault is Some <==> failure@ is Failure
            &&& after.fault is Some <==> before.fault is Some || failure@ is Failure
        },
        outcome is Ok ==> reply.fault is None && same_senders(after, before),
{
    if outcome matches Ok(AcceptOutcome::Accepted(_)) {
        assert(after.queue.ready.drop_last() =~= before.queue.ready);
    }
}

/// The request of a process-local task is named after the task, in version 1, and
/// carries nothing else.
pub proof fn law_local_tasks_are_named_after_their_id(id: TaskId, request: TaskRequest)
    requires
        call_ensures(local_request, (id,), request),
    ensures
        request@.info.task_type == "local:"@ + uuid_text(id.0),
        request@.info.handler_version == "1"@,
        request@.payload.len() == 0,
        request@.info.idempotency_key is None,
        request@.info.correlation_key is None,
        request@.info.metadata.len() == 0,
        request@.info.resources.cpu_slots == 1,
        request@.info.resources.gpu_count == 0,
        request@.info.resources.custom.len() == 0,
        request@.info.resources.gpu_labels.len() == 0,
{
}

/// A process-local task begins exactly when the store does not recover tasks, the
/// service takes work, its request is valid and a waiting position is free; the
/// first of these that fails is told.
pub proof fn law_local_tasks_begin_when_valid<H, S, C>(
    core: CoreModel<H, S, C>,
    restart_recovery: bool,
    id: TaskId,
    capacity: CapacityModel,
    request: TaskRequest,
)
    requires
        call_ensures(local_request, (id,), request),
    ensures
        local_submit_error(core, restart_recovery, id, capacity) is None <==> {
            &&& !restart_recovery
            &&& takes_work(core)
            &&& is_within_limits(request@)
            &&& is_named(request@.info.resources)
            &&& could_hold(request@.info.resources, capacity)
            &&& core.queue_count < core.settings.queue_capacity
        },
        restart_recovery ==> local_submit_error(core, restart_recovery, id, capacity) == Some(
            ServiceErrorModel::UnsupportedCapability,
        ),
        !restart_recovery && !takes_work(core) ==> local_submit_error(
            core,
            restart_recovery,
            id,
            capacity,
        ) == core.admission_error(),
        !restart_recovery && takes_work(core) && is_within_limits(request@) && is_named(
            request@.info.resources,
        ) && could_hold(request@.info.resources, capacity) && core.queue_count
            >= core.settings.queue_capacity ==> local_submit_error(
            core,
            restart_recovery,
            id,
            capacity,
        ) == Some(ServiceErrorModel::QueueFull),
{
    law_limits_are_documented(request@);
    lemma_could_hold(request@.info.resources, capacity);
    lemma_named(request@.info.resources);
}

/// A process-local task that begins enters admission, takes a waiting position and
/// leaves its sender under its identifier.
pub proof fn law_local_tasks_leave_their_sender<H, S, C>(
    core: CoreModel<H, S, C>,
    id: TaskId,
    sender: S,
)
    requires
        core.gate.active < usize::MAX,
        core.queue_count < core.settings.queue_capacity,
    ensures
        local_entered(core, id, sender).gate.active == core.gate.active + 1,
        local_entered(core, id, sender).queue_count == core.queue_count + 1,
        local_entered(core, id, sender).sender(id) == Some(sender),
        forall|other: TaskId|
            other != id ==> #[trigger] local_entered(core, id, sender).sender(other)
                == core.sender(other),
        local_entered(core, id, sender).queue == core.queue,
        local_entered(core, id, sender).handlers == core.handlers,
        local_entered(core, id, sender).fault == core.fault,
        core.unsent(id).sender(id) is None,
        forall|other: TaskId|
            other != id ==> #[trigger] core.unsent(id).sender(other) == core.sender(other),
{
}

/// A process-local task that the store accepted waits behind all ready tasks with
/// its handler, unless a failure told its sender meanwhile; it then waits nowhere
/// and gives its position back. A task that was there already, and a refusal, take
/// the sender and the position back.
pub proof fn law_accepted_local_tasks_wait_last<H, S, C>(
    before: CoreModel<H, S, C>,
    after: CoreModel<H, S, C>,
    id: TaskId,
    resources: DemandModel,
    handler: H,
    outcome: Result<AcceptOutcome, StoreError>,
    reply: SubmitReply<S>,
)
    requires
        before.gate.active > 0,
        before.queue_count > 0,
        local_accepted_post(before, after, id, resources, handler, outcome, reply),
    ensures
        after.gate.active == before.gate.active - 1,
        after.running == before.running,
        after.queue.delayed == before.queue.delayed,
        reply.queued <==> (outcome matches Ok(AcceptOutcome::Accepted(_)))
            && before.finalizations.contains_key(id.0),
        reply.queued ==> {
            &&& after.queue_count == before.queue_count
            &&& after.queue.ready.drop_last() == before.queue.ready
            &&& after.queue.ready.len() == before.queue.ready.len() + 1
            &&& after.queue.ready.last().id == id
            &&& after.queue.ready.last().resources == resources
            &&& after.queue.ready.last().bypasses == 0
            &&& after.queue.ready.last().retry_not_before_ms is None
            &&& after.handlers == before.handlers.insert(id.0, handler)
            &&& after.finalizations == before.finalizations
        },
        !reply.queued ==> after.queue == before.queue && after.queue_count == before.queue_count
            - 1,
        outcome matches Ok(AcceptOutcome::Accepted(record)) ==> (reply.result matches Ok(answer)
            && answer@ == record@),
        outcome matches Ok(AcceptOutcome::Existing(record)) ==> {
            &&& reply.result matches Err(error) && error@ == ServiceErrorModel::InvalidRequest(
                "local task id "@ + uuid_text(record@.life.id.0) + " was already accepted"@,
            )
            &&& after.finalizations == before.finalizations.remove(id.0)
        },
        outcome matches Err(failure) ==> {
            &&& reply.result matches Err(error) && error@ == ServiceErrorModel::Store(failure@)
            &&& !after.finalizations.contains_key(id.0)
            &&& reply.fault is Some <==> failure@ is Failure
        },
{
    if reply.queued {
        assert(after.queue.ready.drop_last() =~= before.queue.ready);
    }
}

/// A new service has its settings and the recovered tasks that wait, each with a
/// position; nothing runs, nothing is inside, and no failure was recorded.
pub proof fn law_new_services_are_at_rest<H, S, C>(
    settings: ServiceSettings,
    queue: SchedulerQueue,
    queue_count: usize,
    max_payload_bytes: usize,
    max_submissions: usize,
    core: ServiceCore<H, S, C>,
)
    requires
        call_ensures(
            ServiceCore::<H, S, C>::new,
            (settings, queue, queue_count, max_payload_bytes, max_submissions),
            core,
        ),
    ensures
        core@.settings == settings,
        core@.queue == queue@,
        core@.queue_count == queue_count,
        core@.running == 0,
        core@.handlers.dom() == Set::<u128>::empty(),
        core@.finalizations.dom() == Set::<u128>::empty(),
        core@.cancellations.dom() == Set::<u128>::empty(),
        core@.gate.phase is Open && core@.gate.active == 0 && core@.gate.result is None,
        core@.budget.max_payload_bytes == max_payload_bytes,
        core@.budget.max_submissions == max_submissions,
        core@.budget.submissions == 0 && core@.budget.payload_bytes == 0,
        core@.fault is None,
        takes_work(core@),
{
}

/// A signal is found for the attempt that runs, and for no other.
pub proof fn law_signals_belong_to_their_attempt<H, S, C>(
    core: ServiceCore<H, S, C>,
    id: TaskId,
    attempt: u32,
    signal: Option<&C>,
)
    requires
        call_ensures(ServiceCore::<H, S, C>::cancellation, (&core, id, attempt), signal),
    ensures
        signal is Some <==> core@.cancellations.contains_key(id.0) && core@.cancellations[id.0].0
            == attempt,
        signal matches Some(found) ==> *found == core@.cancellations[id.0].1,
        core@.runs(id, attempt) <==> signal is Some,
{
}

/// Whether two services have the same settings, attempts, admission, budget and
/// failure.
pub open spec fn same_frame<H, S, C>(a: CoreModel<H, S, C>, b: CoreModel<H, S, C>) -> bool {
    &&& a.settings == b.settings
    &&& a.running == b.running
    &&& a.cancellations == b.cancellations
    &&& a.gate == b.gate
    &&& a.budget == b.budget
    &&& a.fault == b.fault
}

/// Adding a task to the queue, bringing tasks back to it, taking a sender, dropping
/// a handler, and taking or freeing a position each change that and nothing else.
pub proof fn law_each_change_touches_its_part<H, S, C>(
    core: CoreModel<H, S, C>,
    task: QueuedModel,
    tasks: Seq<QueuedModel>,
    id: TaskId,
)
    ensures
        same_frame(core.waiting(task), core) && same_senders(core.waiting(task), core),
        core.waiting(task).queue == core.queue.pushed(task),
        core.waiting(task).queue_count == core.queue_count,
        same_frame(core.regained(tasks), core) && same_senders(core.regained(tasks), core),
        core.regained(tasks).queue == core.queue.restored(tasks),
        core.regained(tasks).queue_count == core.queue_count,
        same_frame(core.unsent(id), core) && core.unsent(id).handlers == core.handlers,
        core.unsent(id).finalizations == core.finalizations.remove(id.0),
        core.unsent(id).queue == core.queue && core.unsent(id).queue_count == core.queue_count,
        same_frame(core.unhandled(id), core) && core.unhandled(id).finalizations
            == core.finalizations,
        core.unhandled(id).handlers == core.handlers.remove(id.0),
        core.unhandled(id).queue == core.queue && core.unhandled(id).queue_count
            == core.queue_count,
        same_frame(core.slot_taken(), core) && same_senders(core.slot_taken(), core),
        same_frame(core.slot_freed(), core) && same_senders(core.slot_freed(), core),
        core.slot_taken().queue == core.queue && core.slot_freed().queue == core.queue,
{
}

/// A process-local task that begins changes nothing but admission, its position and
/// its sender.
pub proof fn law_local_tasks_touch_nothing_else<H, S, C>(
    core: CoreModel<H, S, C>,
    id: TaskId,
    sender: S,
)
    ensures
        local_entered(core, id, sender).settings == core.settings,
        local_entered(core, id, sender).running == core.running,
        local_entered(core, id, sender).cancellations == core.cancellations,
        local_entered(core, id, sender).budget == core.budget,
        local_entered(core, id, sender).gate.phase == core.gate.phase,
        local_entered(core, id, sender).gate.result == core.gate.result,
        local_entered(core, id, sender).finalizations == core.finalizations.insert(id.0, sender),
{
}

} // verus!
