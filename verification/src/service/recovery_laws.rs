//! How services are configured, built and restored.

use vstd::prelude::*;

use super::builder::queue_of;
use super::builder::recover_task;
use super::builder::restore_post;
use super::builder::restored_entries;
use super::builder::scan_error;
use super::builder::validate_recovery_page;
use super::builder::BuildErrorModel;
use super::builder::RecoveryScan;
use super::builder::RecoveryStep;
use super::builder::RestoreStep;
use super::builder::TaskExecutionServiceBuilder;
use super::builder::TaskServiceBuildError;
use super::retry_policy::RetryPolicy;
use super::service_core::ServiceCore;
use super::submission_laws::takes_work;
use crate::handler::TaskHandlerDescriptor;
use crate::handler::TaskHandlerRegistry;
use crate::model::task_record::CommandModel;
use crate::model::task_record::LifeModel;
use crate::model::task_record::RecordModel;
use crate::model::task_record::StateModel;
use crate::model::OwnerEpoch;
use crate::model::ResourceCapacity;
use crate::model::StoreCapabilities;
use crate::model::StoredTask;
use crate::model::TaskId;
use crate::model::TaskRecord;
use crate::scheduling::fair_fifo::queued_models;
use crate::scheduling::fair_fifo::QueuedModel;
use crate::scheduling::QueuedTask;
use crate::store::MemoryTaskStore;
use crate::text::decimal_text;

verus! {

/// A new builder has no component and no handler. By default a service takes 1024
/// waiting tasks, 64 submissions of 64 MiB in flight, 128 candidates a cycle and 3
/// attempts, waits between a second and a minute before a retry, publishes from a
/// buffer of 256, and runs as many tasks as the machine runs threads.
pub proof fn law_builders_begin_with_defaults<T, E, P, H>(
    parallelism: usize,
    builder: TaskExecutionServiceBuilder<T, E, P, H>,
)
    requires
        call_ensures(
            TaskExecutionServiceBuilder::<T, E, P, H>::new,
            (parallelism,),
            builder,
        ),
    ensures
        builder.store is None && builder.engine is None && builder.policy is None,
        builder.handlers@.dom() == Set::<(Seq<char>, Seq<char>)>::empty(),
        builder.capacity@.cpu_slots == vstd::math::min(parallelism as int, 0xffff_ffff),
        builder.capacity@.gpus.len() == 0 && builder.capacity@.custom.len() == 0,
        builder.queue_capacity == 1024,
        builder.max_inflight_payload_bytes == 64 * 1024 * 1024,
        builder.max_inflight_submissions == 64,
        builder.max_running_tasks == parallelism,
        builder.scan_budget == 128,
        builder.max_attempts == 3,
        builder.retry_policy@.initial == 1_000 * 1_000_000,
        builder.retry_policy@.max == 60 * 1_000 * 1_000_000,
        !builder.require_recovery,
        builder.event_bus_buffer_capacity == 256,
{
}

/// A builder made of components has them, and one in memory keeps 1024 finished
/// tasks and 2048 unfinished ones.
pub proof fn law_builders_take_their_components<T, E, P, H>(
    parallelism: usize,
    store: T,
    engine: E,
    policy: P,
    builder: TaskExecutionServiceBuilder<T, E, P, H>,
    volatile: TaskExecutionServiceBuilder<MemoryTaskStore, E, P, H>,
    limit: usize,
    budgeted: TaskExecutionServiceBuilder<MemoryTaskStore, E, P, H>,
)
    requires
        call_ensures(
            TaskExecutionServiceBuilder::<T, E, P, H>::from_components,
            (parallelism, store, engine, policy),
            builder,
        ),
        call_ensures(
            TaskExecutionServiceBuilder::<MemoryTaskStore, E, P, H>::in_memory,
            (parallelism,),
            volatile,
        ),
        call_ensures(
            TaskExecutionServiceBuilder::<MemoryTaskStore, E, P, H>::in_memory_with_payload_budget,
            (parallelism, limit),
            budgeted,
        ),
    ensures
        builder.store == Some(store),
        builder.engine == Some(engine),
        builder.policy == Some(policy),
        builder.queue_capacity == 1024 && volatile.queue_capacity == 1024
            && budgeted.queue_capacity == 1024,
        volatile.store matches Some(held) && {
            &&& held@.records.dom() == Set::<u128>::empty()
            &&& held@.history_capacity == 1024
            &&& held@.max_unfinished_records == 2048
            &&& held@.max_payload_bytes == 64 * 1024 * 1024
        },
        budgeted.store matches Some(held) && {
            &&& held@.records.dom() == Set::<u128>::empty()
            &&& held@.history_capacity == 1024
            &&& held@.max_unfinished_records == 2048
            &&& held@.max_payload_bytes == limit
        },
{
}

/// Each setting is kept as given, except that a cycle inspects one candidate and a
/// task gets one attempt at least.
pub proof fn law_settings_are_kept<T, E, P, H>(
    builder: TaskExecutionServiceBuilder<T, E, P, H>,
    size: usize,
    attempts: u32,
    policy: RetryPolicy,
    required: bool,
    queue: TaskExecutionServiceBuilder<T, E, P, H>,
    bytes: TaskExecutionServiceBuilder<T, E, P, H>,
    submissions: TaskExecutionServiceBuilder<T, E, P, H>,
    running: TaskExecutionServiceBuilder<T, E, P, H>,
    scan: TaskExecutionServiceBuilder<T, E, P, H>,
    tries: TaskExecutionServiceBuilder<T, E, P, H>,
    retry: TaskExecutionServiceBuilder<T, E, P, H>,
    recovery: TaskExecutionServiceBuilder<T, E, P, H>,
    events: TaskExecutionServiceBuilder<T, E, P, H>,
)
    requires
        call_ensures(
            TaskExecutionServiceBuilder::<T, E, P, H>::queue_capacity,
            (builder, size),
            queue,
        ),
        call_ensures(
            TaskExecutionServiceBuilder::<T, E, P, H>::max_inflight_payload_bytes,
            (builder, size),
            bytes,
        ),
        call_ensures(
            TaskExecutionServiceBuilder::<T, E, P, H>::max_inflight_submissions,
            (builder, size),
            submissions,
        ),
        call_ensures(
            TaskExecutionServiceBuilder::<T, E, P, H>::max_running_tasks,
            (builder, size),
            running,
        ),
        call_ensures(
            TaskExecutionServiceBuilder::<T, E, P, H>::scan_budget,
            (builder, size),
            scan,
        ),
        call_ensures(
            TaskExecutionServiceBuilder::<T, E, P, H>::max_attempts,
            (builder, attempts),
            tries,
        ),
        call_ensures(
            TaskExecutionServiceBuilder::<T, E, P, H>::retry_policy,
            (builder, policy),
            retry,
        ),
        call_ensures(
            TaskExecutionServiceBuilder::<T, E, P, H>::require_recovery,
            (builder, required),
            recovery,
        ),
        call_ensures(
            TaskExecutionServiceBuilder::<T, E, P, H>::event_bus_buffer_capacity,
            (builder, size),
            events,
        ),
    ensures
        queue.queue_capacity == size,
        bytes.max_inflight_payload_bytes == size,
        submissions.max_inflight_submissions == size,
        running.max_running_tasks == size,
        scan.scan_budget == vstd::math::max(size as int, 1),
        tries.max_attempts == vstd::math::max(attempts as int, 1),
        retry.retry_policy == policy,
        recovery.require_recovery == required,
        events.event_bus_buffer_capacity == size,
        queue.scan_budget == builder.scan_budget && scan.queue_capacity == builder.queue_capacity,
        tries.queue_capacity == builder.queue_capacity && queue.max_attempts
            == builder.max_attempts,
        queue.max_running_tasks == builder.max_running_tasks && running.queue_capacity
            == builder.queue_capacity,
{
}

/// Components, handlers and capacity are kept as given.
pub proof fn law_components_are_kept<T, E, P, H>(
    builder: TaskExecutionServiceBuilder<T, E, P, H>,
    store: T,
    engine: E,
    policy: P,
    handlers: TaskHandlerRegistry<H>,
    capacity: ResourceCapacity,
    stored: TaskExecutionServiceBuilder<T, E, P, H>,
    powered: TaskExecutionServiceBuilder<T, E, P, H>,
    ordered: TaskExecutionServiceBuilder<T, E, P, H>,
    handled: TaskExecutionServiceBuilder<T, E, P, H>,
    sized: TaskExecutionServiceBuilder<T, E, P, H>,
)
    requires
        call_ensures(
            TaskExecutionServiceBuilder::<T, E, P, H>::store,
            (builder, store),
            stored,
        ),
        call_ensures(
            TaskExecutionServiceBuilder::<T, E, P, H>::engine,
            (builder, engine),
            powered,
        ),
        call_ensures(
            TaskExecutionServiceBuilder::<T, E, P, H>::policy,
            (builder, policy),
            ordered,
        ),
        call_ensures(
            TaskExecutionServiceBuilder::<T, E, P, H>::handlers,
            (builder, handlers),
            handled,
        ),
        call_ensures(
            TaskExecutionServiceBuilder::<T, E, P, H>::capacity,
            (builder, capacity),
            sized,
        ),
    ensures
        stored.store == Some(store) && stored.engine == builder.engine && stored.policy
            == builder.policy,
        powered.engine == Some(engine) && powered.store == builder.store && powered.policy
            == builder.policy,
        ordered.policy == Some(policy) && ordered.store == builder.store && ordered.engine
            == builder.engine,
        handled.handlers == handlers && handled.store == builder.store,
        sized.capacity == capacity && sized.store == builder.store,
{
}

/// A handler is added to a builder exactly when its type and version are not empty
/// and no handler has both.
pub proof fn law_builders_add_handlers_once<T, E, P, H>(
    builder: TaskExecutionServiceBuilder<T, E, P, H>,
    descriptor: TaskHandlerDescriptor,
    handler: H,
    result: Result<TaskExecutionServiceBuilder<T, E, P, H>, TaskServiceBuildError>,
)
    requires
        call_ensures(
            TaskExecutionServiceBuilder::<T, E, P, H>::register_handler,
            (builder, descriptor, handler),
            result,
        ),
    ensures
        result is Ok <==> descriptor.task_type@.len() > 0 && descriptor.version@.len() > 0
            && !builder.handlers@.contains_key((descriptor.task_type@, descriptor.version@)),
        result matches Ok(next) ==> {
            &&& next.handlers@.contains_key((descriptor.task_type@, descriptor.version@))
            &&& next.handlers@[(descriptor.task_type@, descriptor.version@)].0 == handler
            &&& next.store == builder.store
            &&& next.queue_capacity == builder.queue_capacity
        },
        result matches Err(error) ==> error@ is HandlerConflict,
{
}

/// A service is built exactly when a store is selected, the store recovers tasks
/// where that is required, a store that recovers tasks keeps its history, and the
/// waiting and running tasks can be counted together; as many tasks are recovered
/// at most.
pub proof fn law_services_are_built_on_fitting_stores<T, E, P, H>(
    builder: TaskExecutionServiceBuilder<T, E, P, H>,
    capabilities: StoreCapabilities,
    result: Result<usize, TaskServiceBuildError>,
)
    requires
        call_ensures(
            TaskExecutionServiceBuilder::<T, E, P, H>::check,
            (&builder, capabilities),
            result,
        ),
    ensures
        result is Ok <==> {
            &&& builder.store is Some
            &&& builder.require_recovery ==> capabilities.restart_recovery
            &&& capabilities.restart_recovery ==> capabilities.persistent_history
            &&& builder.queue_capacity + builder.max_running_tasks <= usize::MAX
        },
        result matches Ok(limit) ==> limit == builder.queue_capacity + builder.max_running_tasks,
        result matches Err(error) ==> {
            &&& error@ is MissingStore <==> builder.store is None
            &&& error@ is RecoveryRequired <==> builder.store is Some && (
            builder.require_recovery && !capabilities.restart_recovery
                || capabilities.restart_recovery && !capabilities.persistent_history)
            &&& error@ is MissingStore || error@ is RecoveryRequired || error@
                == BuildErrorModel::InvalidConfiguration(
                "queue_capacity + max_running_tasks overflows usize"@,
            )
        },
{
}

/// A service starts with its builder's settings and the recovered tasks waiting,
/// each in a position of its own.
pub proof fn law_services_start_as_configured<T, E, P, H, S, C>(
    builder: TaskExecutionServiceBuilder<T, E, P, H>,
    recovered: Vec<QueuedTask>,
    owner: Option<OwnerEpoch>,
    core: ServiceCore<H, S, C>,
)
    requires
        call_ensures(
            TaskExecutionServiceBuilder::<T, E, P, H>::start::<S, C>,
            (&builder, recovered, owner),
            core,
        ),
    ensures
        core@.settings.queue_capacity == builder.queue_capacity,
        core@.settings.scan_budget == builder.scan_budget,
        core@.settings.max_running_tasks == builder.max_running_tasks,
        core@.settings.max_attempts == builder.max_attempts,
        core@.settings.retry_policy == builder.retry_policy,
        core@.settings.owner == owner,
        core@.queue == queue_of(queued_models(recovered@)),
        core@.queue_count == recovered@.len(),
        core@.running == 0,
        core@.budget.max_payload_bytes == builder.max_inflight_payload_bytes,
        core@.budget.max_submissions == builder.max_inflight_submissions,
        takes_work(core@),
{
}

/// Recovered tasks wait in the order they were given: one without a deadline behind
/// the ready ones before it, and one with a deadline as any retry does.
pub proof fn law_recovered_tasks_wait_in_order(tasks: Seq<QueuedModel>)
    ensures
        queue_of(tasks).ready == tasks.filter(|t: QueuedModel| t.retry_not_before_ms is None),
        queue_of(tasks).delayed.len() == tasks.filter(
            |t: QueuedModel| t.retry_not_before_ms is Some,
        ).len(),
        queue_of(tasks).valid(),
        tasks.len() > 0 ==> queue_of(tasks) == queue_of(tasks.drop_last()).pushed(tasks.last()),
    decreases tasks.len(),
{
    reveal(Seq::filter);
    if tasks.len() > 0 {
        let fewer = tasks.drop_last();
        law_recovered_tasks_wait_in_order(fewer);
        super::scheduler_queue::law_pushing_keeps_queues_valid(queue_of(fewer), tasks.last());
        let at = super::queue_laws::law_tasks_wait_behind_their_equals(
            queue_of(fewer),
            tasks.last(),
        );
    }
}

/// A recovery page is valid exactly when it has at most 256 tasks and, where more
/// follows, has a task and leads on.
pub proof fn law_recovery_pages_lead_on(
    tasks: Vec<StoredTask>,
    previous: Option<TaskId>,
    next: Option<TaskId>,
    result: Result<(), TaskServiceBuildError>,
)
    requires
        call_ensures(validate_recovery_page, (&tasks, previous, next), result),
    ensures
        result is Ok <==> {
            &&& tasks@.len() <= 256
            &&& next is Some ==> tasks@.len() > 0
            &&& next is Some && previous is Some ==> (previous->0).0 < (next->0).0
        },
        tasks@.len() > 256 ==> result->Err_0@ == BuildErrorModel::InvalidRecoveryPage(
            "page contains "@ + decimal_text(tasks@.len()) + " records; maximum is 256"@,
        ),
        tasks@.len() == 0 && next is Some ==> result->Err_0@
            == BuildErrorModel::InvalidRecoveryPage("empty page returned a next cursor"@),
        0 < tasks@.len() <= 256 && result is Err ==> result->Err_0@
            == BuildErrorModel::InvalidRecoveryPage("cursor did not advance"@),
{
}

/// A scan goes on exactly while its pages are valid and no more tasks were seen
/// than may be recovered; it begins only where that many are stored at most.
pub proof fn law_scans_stop_at_their_limit(
    scan: RecoveryScan,
    tasks: Vec<StoredTask>,
    next: Option<TaskId>,
    valid: Result<(), TaskServiceBuildError>,
    limit: usize,
    over_limit: bool,
    begun: Result<RecoveryScan, TaskServiceBuildError>,
)
    requires
        call_ensures(validate_recovery_page, (&tasks, scan.cursor, next), valid),
        call_ensures(RecoveryScan::begin, (limit, over_limit), begun),
    ensures
        scan_error(scan, tasks@.len(), next) is None <==> valid is Ok && scan.count + tasks@.len()
            <= scan.limit,
        valid matches Err(error) ==> scan_error(scan, tasks@.len(), next) == Some(error@),
        valid is Ok && scan.limit < scan.count + tasks@.len() <= usize::MAX ==> scan_error(
            scan,
            tasks@.len(),
            next,
        ) == Some(BuildErrorModel::RecoveryCapacityExceeded { limit: scan.limit }),
        begun is Ok <==> !over_limit,
        begun matches Ok(first) ==> first.cursor is None && first.count == 0 && first.limit
            == limit,
        begun matches Err(error) ==> error@ == (BuildErrorModel::RecoveryCapacityExceeded {
            limit,
        }),
{
}

/// Whether a command concerns the revision that a task is in.
pub open spec fn is_for(command: CommandModel, life: LifeModel) -> bool {
    command.id == life.id && command.expected_version == life.state_version
        && command.expected_attempt == life.attempt
}

/// Recovery blocks a waiting or interrupted task that used up its attempts, requeues
/// an interrupted one that did not, lets a waiting one with a handler wait under its
/// deadline, blocks one without a handler, and leaves any other task alone. Commands
/// concern the revision that was read and give back devices, output and deadline.
pub proof fn law_recovery_restores_what_can_run<H>(
    record: TaskRecord,
    max_attempts: u32,
    handlers: TaskHandlerRegistry<H>,
    step: RecoveryStep,
)
    requires
        call_ensures(recover_task::<H>, (&record, max_attempts, &handlers), step),
    ensures
        ({
            let life = record@.life;
            let waits = life.state is Queued;
            let ran = life.state is Running;
            let spent = life.attempt >= max_attempts;
            let known = handlers@.contains_key(
                (record@.request.info.task_type, record@.request.info.handler_version),
            );
            &&& step is Block <==> (waits || ran) && spent || waits && !known
            &&& step is Requeue <==> ran && !spent
            &&& step is Enqueue <==> waits && !spent && known
            &&& step is Leave <==> !waits && !ran
            &&& step matches RecoveryStep::Block(command) ==> {
                &&& is_for(command@, life)
                &&& command@.state == (StateModel::Blocked {
                    reason: if spent {
                        "retry limit reached during recovery: "@ + decimal_text(life.attempt as nat)
                            + "/"@ + decimal_text(max_attempts as nat) + " attempts used"@
                    } else {
                        "missing handler "@ + record@.request.info.task_type + "@"@
                            + record@.request.info.handler_version + " during recovery"@
                    },
                })
                &&& command@.retry_not_before_ms is None && command@.output is None
                &&& command@.assigned_resources.len() == 0
                &&& command@.cancel_requested <==> spent && life.cancel_requested
            }
            &&& step matches RecoveryStep::Requeue(command) ==> {
                &&& is_for(command@, life)
                &&& command@.state is Queued
                &&& command@.retry_not_before_ms is None && command@.output is None
                &&& command@.assigned_resources.len() == 0
                &&& !command@.cancel_requested
            }
            &&& step matches RecoveryStep::Enqueue(task) ==> {
                &&& task@.id == life.id
                &&& task@.resources == record@.request.info.resources
                &&& task@.retry_not_before_ms == life.retry_not_before_ms
                &&& task@.bypasses == 0
            }
        }),
{
}

/// Whether a stored task waits again: it waited or ran, has attempts left and has a
/// handler.
pub open spec fn waits_again(
    record: RecordModel,
    max_attempts: u32,
    keys: Set<(Seq<char>, Seq<char>)>,
) -> bool {
    &&& record.life.state is Queued || record.life.state is Running
    &&& record.life.attempt < max_attempts
    &&& keys.contains((record.request.info.task_type, record.request.info.handler_version))
}

/// The waiting entries are those of the scanned tasks that wait again, in scan
/// order: each with its task's identifier and demand, under the stored deadline of a
/// task that waited, and not bypassed yet.
pub proof fn law_restored_entries_are_in_scan_order(
    records: Seq<RecordModel>,
    max_attempts: u32,
    keys: Set<(Seq<char>, Seq<char>)>,
)
    ensures
        ({
            let again = records.filter(|r: RecordModel| waits_again(r, max_attempts, keys));
            let entries = restored_entries(records, max_attempts, keys);
            &&& entries.len() == again.len()
            &&& forall|i: int|
                0 <= i < entries.len() ==> {
                    &&& (#[trigger] entries[i]).id == again[i].life.id
                    &&& entries[i].resources == again[i].request.info.resources
                    &&& entries[i].bypasses == 0
                    &&& again[i].life.state is Queued ==> entries[i].retry_not_before_ms
                        == again[i].life.retry_not_before_ms
                    &&& again[i].life.state is Running ==> entries[i].retry_not_before_ms is None
                }
        }),
    decreases records.len(),
{
    reveal(Seq::filter);
    if records.len() > 0 {
        law_restored_entries_are_in_scan_order(records.drop_last(), max_attempts, keys);
    }
}

/// What build errors say.
pub proof fn law_build_errors_are_described(error: TaskServiceBuildError, text: String)
    requires
        call_ensures(TaskServiceBuildError::message, (&error,), text),
    ensures
        match error@ {
            BuildErrorModel::MissingStore => text@ == "a task store must be selected explicitly"@,
            BuildErrorModel::RecoveryRequired => text@
                == "restart recovery was required but the selected store does not support it"@,
            BuildErrorModel::Store(inner) => text@ == inner.message(),
            BuildErrorModel::HandlerConflict(words) => text@ == words,
            BuildErrorModel::SqliteFeatureDisabled => text@
                == "SQLite support requires the `sqlite` feature"@,
            BuildErrorModel::RecoveryCapacityExceeded { limit } => text@
                == "unfinished task count exceeds recovery capacity "@ + decimal_text(
                limit as nat,
            ),
            BuildErrorModel::InvalidRecoveryPage(words) => text@ == "invalid recovery page: "@
                + words,
            BuildErrorModel::InvalidConfiguration(words) => text@
                == "invalid service configuration: "@ + words,
            BuildErrorModel::EventPublisherThread(words) => text@
                == "failed to start task event publisher thread: "@ + words,
        },
{
}

/// Restoring a task adds an entry for it exactly where it waits with attempts left
/// and a handler, behind the entries before it. An interrupted task is changed and
/// looked at again, a task that cannot run is changed and done with, and any other
/// is done with as it is.
pub proof fn law_restoring_adds_waiting_tasks(
    before: Seq<QueuedModel>,
    after: Seq<QueuedModel>,
    record: RecordModel,
    max_attempts: u32,
    has_handler: bool,
    step: RestoreStep,
)
    requires
        restore_post(before, after, record, max_attempts, has_handler, step),
    ensures
        ({
            let life = record.life;
            let waits = life.state is Queued;
            let ran = life.state is Running;
            let spent = life.attempt >= max_attempts;
            let added = waits && !spent && has_handler;
            &&& added ==> {
                &&& step is Done
                &&& after.len() == before.len() + 1
                &&& after.drop_last() == before
                &&& after.last().id == life.id
                &&& after.last().resources == record.request.info.resources
                &&& after.last().retry_not_before_ms == life.retry_not_before_ms
                &&& after.last().bypasses == 0
            }
            &&& !added ==> after == before
            &&& step is Again <==> ran && !spent
            &&& step is Apply <==> (waits || ran) && spent || waits && !has_handler
            &&& step matches RestoreStep::Again(command) ==> is_for(command@, life)
                && command@.state is Queued && command@.retry_not_before_ms is None
            &&& step matches RestoreStep::Apply(command) ==> is_for(command@, life)
                && command@.state is Blocked
        }),
{
    if after.len() > 0 {
        let decision = choose|decision: RecoveryStep| #[trigger]
            super::builder::recovery_post(record, max_attempts, has_handler, decision)
                && match decision {
                RecoveryStep::Block(command) => after == before && (
                step matches RestoreStep::Apply(asked) && asked@ == command@),
                RecoveryStep::Requeue(command) => after == before && (
                step matches RestoreStep::Again(asked) && asked@ == command@),
                RecoveryStep::Enqueue(task) => after == before.push(task@) && step is Done,
                RecoveryStep::Leave => after == before && step is Done,
            };
        if let RecoveryStep::Enqueue(task) = decision {
            assert(after.drop_last() =~= before);
        }
    }
}

} // verus!
