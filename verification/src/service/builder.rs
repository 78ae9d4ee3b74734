//! Assembly of a service and recovery of its unfinished tasks.

use vstd::prelude::*;

use super::control::command_for;
use super::control::make_command;
use super::retry_policy::RetryPolicy;
use super::scheduler_queue::QueueModel;
use super::scheduler_queue::SchedulerQueue;
use super::service_core::CoreModel;
use super::service_core::ServiceCore;
use super::service_core::ServiceSettings;
use crate::handler::registry::registration_error;
use crate::handler::TaskHandlerDescriptor;
use crate::handler::TaskHandlerRegistry;
use crate::model::resource::CapacityModel;
use crate::model::task_record::RecordModel;
use crate::model::task_record::StateModel;
use crate::model::NameMap;
use crate::model::OwnerEpoch;
use crate::model::ResourceCapacity;
use crate::model::StoreCapabilities;
use crate::model::StoredTask;
use crate::model::TaskId;
use crate::model::TaskRecord;
use crate::model::TaskState;
use crate::model::TransitionCommand;
use crate::scheduling::fair_fifo::queued_models;
use crate::scheduling::fair_fifo::QueuedModel;
use crate::scheduling::QueuedTask;
use crate::store::lifecycle::advanced;
use crate::store::memory::DEFAULT_MAX_PAYLOAD_BYTES;
use crate::store::memory::DEFAULT_MAX_UNFINISHED_RECORDS;
use crate::store::memory_model::MemoryModel;
use crate::store::MemoryTaskStore;
use crate::store::StoreError;
use crate::store::StoreErrorModel;
use crate::text::decimal;
use crate::text::decimal_text;
use crate::text::join2;
use crate::text::join3;
use crate::text::texts;

verus! {

/// Service construction error, unsupported or unavailable recovery among them.
#[derive(Debug)]
pub enum TaskServiceBuildError {
    /// A generic builder did not select a store explicitly.
    MissingStore,
    /// Recovery was required but the selected store does not support it.
    RecoveryRequired,
    /// Store initialization or recovery scan failed.
    Store(StoreError),
    /// Two handlers claimed the same task type and version.
    HandlerConflict(String),
    /// SQLite support is disabled for this build.
    SqliteFeatureDisabled,
    /// Existing unfinished work is larger than the configured recovery bound.
    RecoveryCapacityExceeded {
        /// Maximum unfinished task count accepted by this configuration.
        limit: usize,
    },
    /// A task store returned an invalid recovery page.
    InvalidRecoveryPage(String),
    /// The selected queue and running capacities overflow the supported range.
    InvalidConfiguration(String),
    /// The dedicated lifecycle event publisher thread could not start.
    EventPublisherThread(String),
}

/// Content of a [`TaskServiceBuildError`].
#[verifier::ext_equal]
pub enum BuildErrorModel {
    MissingStore,
    RecoveryRequired,
    Store(StoreErrorModel),
    HandlerConflict(Seq<char>),
    SqliteFeatureDisabled,
    RecoveryCapacityExceeded { limit: usize },
    InvalidRecoveryPage(Seq<char>),
    InvalidConfiguration(Seq<char>),
    EventPublisherThread(Seq<char>),
}

impl View for TaskServiceBuildError {
    type V = BuildErrorModel;

    open spec fn view(&self) -> BuildErrorModel {
        match self {
            TaskServiceBuildError::MissingStore => BuildErrorModel::MissingStore,
            TaskServiceBuildError::RecoveryRequired => BuildErrorModel::RecoveryRequired,
            TaskServiceBuildError::Store(error) => BuildErrorModel::Store(error@),
            TaskServiceBuildError::HandlerConflict(text) => BuildErrorModel::HandlerConflict(
                text@,
            ),
            TaskServiceBuildError::SqliteFeatureDisabled => BuildErrorModel::SqliteFeatureDisabled,
            TaskServiceBuildError::RecoveryCapacityExceeded { limit } => {
                BuildErrorModel::RecoveryCapacityExceeded { limit: *limit }
            },
            TaskServiceBuildError::InvalidRecoveryPage(text) => {
                BuildErrorModel::InvalidRecoveryPage(text@)
            },
            TaskServiceBuildError::InvalidConfiguration(text) => {
                BuildErrorModel::InvalidConfiguration(text@)
            },
            TaskServiceBuildError::EventPublisherThread(text) => {
                BuildErrorModel::EventPublisherThread(text@)
            },
        }
    }
}

impl BuildErrorModel {
    /// The text that describes this error.
    pub open spec fn message(self) -> Seq<char> {
        match self {
            BuildErrorModel::MissingStore => "a task store must be selected explicitly"@,
            BuildErrorModel::RecoveryRequired => {
                "restart recovery was required but the selected store does not support it"@
            },
            BuildErrorModel::Store(error) => error.message(),
            BuildErrorModel::HandlerConflict(text) => text,
            BuildErrorModel::SqliteFeatureDisabled => {
                "SQLite support requires the `sqlite` feature"@
            },
            BuildErrorModel::RecoveryCapacityExceeded { limit } => {
                "unfinished task count exceeds recovery capacity "@ + decimal_text(limit as nat)
            },
            BuildErrorModel::InvalidRecoveryPage(text) => "invalid recovery page: "@ + text,
            BuildErrorModel::InvalidConfiguration(text) => {
                "invalid service configuration: "@ + text
            },
            BuildErrorModel::EventPublisherThread(text) => {
                "failed to start task event publisher thread: "@ + text
            },
        }
    }
}

impl TaskServiceBuildError {
    /// Returns the text that describes this error.
    pub fn message(&self) -> (text: String)
        ensures
            text@ == self@.message(),
    {
        match self {
            TaskServiceBuildError::MissingStore => {
                "a task store must be selected explicitly".to_owned()
            },
            TaskServiceBuildError::RecoveryRequired => {
                "restart recovery was required but the selected store does not support it".to_owned()
            },
            TaskServiceBuildError::Store(error) => error.message(),
            TaskServiceBuildError::HandlerConflict(text) => text.clone(),
            TaskServiceBuildError::SqliteFeatureDisabled => {
                "SQLite support requires the `sqlite` feature".to_owned()
            },
            TaskServiceBuildError::RecoveryCapacityExceeded { limit } => join2(
                "unfinished task count exceeds recovery capacity ",
                decimal(*limit as u64).as_str(),
            ),
            TaskServiceBuildError::InvalidRecoveryPage(text) => join2(
                "invalid recovery page: ",
                text.as_str(),
            ),
            TaskServiceBuildError::InvalidConfiguration(text) => join2(
                "invalid service configuration: ",
                text.as_str(),
            ),
            TaskServiceBuildError::EventPublisherThread(text) => join2(
                "failed to start task event publisher thread: ",
                text.as_str(),
            ),
        }
    }
}

/// Explicit component assembly and resource policy for one task service.
///
/// The components are a store `T`, an engine `E`, a scheduling policy `P` and
/// handlers `H`.
#[derive(Debug)]
pub struct TaskExecutionServiceBuilder<T, E, P, H> {
    /// Authoritative task store.
    pub store: Option<T>,
    /// Resource execution engine.
    pub engine: Option<E>,
    /// Task ordering policy.
    pub policy: Option<P>,
    /// Business handlers.
    pub handlers: TaskHandlerRegistry<H>,
    /// Capacity of a local engine.
    pub capacity: ResourceCapacity,
    /// Maximum number of waiting tasks.
    pub queue_capacity: usize,
    /// Maximum payload bytes of in-flight submissions.
    pub max_inflight_payload_bytes: usize,
    /// Maximum number of in-flight submissions.
    pub max_inflight_submissions: usize,
    /// Maximum number of attempts that run at once.
    pub max_running_tasks: usize,
    /// Maximum number of candidates inspected in each scheduler cycle.
    pub scan_budget: usize,
    /// Maximum execution attempts of a task.
    pub max_attempts: u32,
    /// Delay between retryable attempts.
    pub retry_policy: RetryPolicy,
    /// Whether the store must support restart recovery.
    pub require_recovery: bool,
    /// Number of lifecycle notifications that may wait to be published.
    pub event_bus_buffer_capacity: usize,
}

/// Why a service cannot be built on a store, if it cannot.
pub open spec fn build_error(
    has_store: bool,
    capabilities: StoreCapabilities,
    require_recovery: bool,
    queue_capacity: usize,
    max_running_tasks: usize,
) -> Option<BuildErrorModel> {
    if !has_store {
        Some(BuildErrorModel::MissingStore)
    } else if require_recovery && !capabilities.restart_recovery {
        Some(BuildErrorModel::RecoveryRequired)
    } else if capabilities.restart_recovery && !capabilities.persistent_history {
        Some(BuildErrorModel::RecoveryRequired)
    } else if queue_capacity + max_running_tasks > usize::MAX {
        Some(
            BuildErrorModel::InvalidConfiguration(
                "queue_capacity + max_running_tasks overflows usize"@,
            ),
        )
    } else {
        None
    }
}

impl<T, E, P, H> TaskExecutionServiceBuilder<T, E, P, H> {
    /// Whether everything but the components is as a machine that runs
    /// `parallelism` threads at once gets it by default.
    pub open spec fn has_defaults(self, parallelism: usize) -> bool {
        &&& self.handlers@ == Map::<(Seq<char>, Seq<char>), (H, Seq<char>)>::empty()
        &&& self.capacity@ == (CapacityModel {
            cpu_slots: if parallelism <= u32::MAX {
                parallelism as u32
            } else {
                u32::MAX
            },
            gpus: Seq::empty(),
            custom: Seq::empty(),
        })
        &&& self.queue_capacity == 1024
        &&& self.max_inflight_payload_bytes == 67_108_864
        &&& self.max_inflight_submissions == 64
        &&& self.max_running_tasks == parallelism
        &&& self.scan_budget == 128
        &&& self.max_attempts == 3
        &&& self.retry_policy@.initial == 1_000_000_000
        &&& self.retry_policy@.max == 60_000_000_000
        &&& !self.require_recovery
        &&& self.event_bus_buffer_capacity == 256
    }

    /// Creates a builder with the default limits for a machine that runs
    /// `parallelism` threads at once. No component is selected yet.
    pub fn new(parallelism: usize) -> (builder: Self)
        ensures
            builder.store is None,
            builder.engine is None,
            builder.policy is None,
            builder.has_defaults(parallelism),
    {
        let cpu_slots: u32 = if parallelism <= u32::MAX as usize {
            parallelism as u32
        } else {
            u32::MAX
        };
        TaskExecutionServiceBuilder {
            store: None,
            engine: None,
            policy: None,
            handlers: TaskHandlerRegistry::new(),
            capacity: ResourceCapacity {
                cpu_slots,
                gpus: NameMap::new(),
                custom: NameMap::new(),
            },
            queue_capacity: 1024,
            max_inflight_payload_bytes: 67_108_864,
            max_inflight_submissions: 64,
            max_running_tasks: parallelism,
            scan_budget: 128,
            max_attempts: 3,
            retry_policy: RetryPolicy::default(),
            require_recovery: false,
            event_bus_buffer_capacity: 256,
        }
    }

    /// Returns a builder with every component selected.
    pub fn from_components(parallelism: usize, store: T, engine: E, policy: P) -> (builder: Self)
        ensures
            builder.store == Some(store),
            builder.engine == Some(engine),
            builder.policy == Some(policy),
            builder.has_defaults(parallelism),
    {
        Self::new(parallelism).store(store).engine(engine).policy(policy)
    }

    /// Selects the authoritative task store.
    pub fn store(self, store: T) -> (builder: Self)
        ensures
            builder == (TaskExecutionServiceBuilder { store: Some(store), ..self }),
    {
        let mut builder = self;
        builder.store = Some(store);
        builder
    }

    /// Selects the resource execution engine.
    pub fn engine(self, engine: E) -> (builder: Self)
        ensures
            builder == (TaskExecutionServiceBuilder { engine: Some(engine), ..self }),
    {
        let mut builder = self;
        builder.engine = Some(engine);
        builder
    }

    /// Selects the task ordering policy.
    pub fn policy(self, policy: P) -> (builder: Self)
        ensures
            builder == (TaskExecutionServiceBuilder { policy: Some(policy), ..self }),
    {
        let mut builder = self;
        builder.policy = Some(policy);
        builder
    }

    /// Adds one exact-version business handler.
    pub fn register_handler(self, descriptor: TaskHandlerDescriptor, handler: H) -> (result: Result<
        Self,
        TaskServiceBuildError,
    >)
        ensures
            ({
                let refused = registration_error(
                    self.handlers@,
                    descriptor@,
                    "direct registration"@,
                );
                match result {
                    Ok(builder) => {
                        &&& refused is None
                        &&& builder.handlers@ == self.handlers@.insert(
                            descriptor@,
                            (handler, "direct registration"@),
                        )
                        &&& builder == (TaskExecutionServiceBuilder {
                            handlers: builder.handlers,
                            ..self
                        })
                    },
                    Err(error) => {
                        &&& refused is Some
                        &&& error@ == BuildErrorModel::HandlerConflict(refused->0.message())
                    },
                }
            }),
    {
        let mut builder = self;
        match builder.handlers.register(descriptor, handler) {
            Ok(_) => Ok(builder),
            Err(error) => Err(TaskServiceBuildError::HandlerConflict(error.message())),
        }
    }

    /// Replaces the handler registry.
    pub fn handlers(self, handlers: TaskHandlerRegistry<H>) -> (builder: Self)
        ensures
            builder == (TaskExecutionServiceBuilder { handlers, ..self }),
    {
        let mut builder = self;
        builder.handlers = handlers;
        builder
    }

    /// Overrides local CPU, GPU, and custom resource capacity.
    pub fn capacity(self, capacity: ResourceCapacity) -> (builder: Self)
        ensures
            builder == (TaskExecutionServiceBuilder { capacity, ..self }),
    {
        let mut builder = self;
        builder.capacity = capacity;
        builder
    }

    /// Sets the maximum number of waiting tasks accepted by the service.
    pub fn queue_capacity(self, capacity: usize) -> (builder: Self)
        ensures
            builder == (TaskExecutionServiceBuilder { queue_capacity: capacity, ..self }),
    {
        let mut builder = self;
        builder.queue_capacity = capacity;
        builder
    }

    /// Sets the maximum payload bytes retained by in-flight admission workers.
    pub fn max_inflight_payload_bytes(self, limit: usize) -> (builder: Self)
        ensures
            builder == (TaskExecutionServiceBuilder { max_inflight_payload_bytes: limit, ..self }),
    {
        let mut builder = self;
        builder.max_inflight_payload_bytes = limit;
        builder
    }

    /// Sets the maximum number of in-flight admission workers.
    pub fn max_inflight_submissions(self, limit: usize) -> (builder: Self)
        ensures
            builder == (TaskExecutionServiceBuilder { max_inflight_submissions: limit, ..self }),
    {
        let mut builder = self;
        builder.max_inflight_submissions = limit;
        builder
    }

    /// Sets the maximum number of task attempts that may run simultaneously.
    pub fn max_running_tasks(self, limit: usize) -> (builder: Self)
        ensures
            builder == (TaskExecutionServiceBuilder { max_running_tasks: limit, ..self }),
    {
        let mut builder = self;
        builder.max_running_tasks = limit;
        builder
    }

    /// Sets the maximum number of candidates inspected in each scheduler cycle,
    /// at least one.
    pub fn scan_budget(self, budget: usize) -> (builder: Self)
        ensures
            builder == (TaskExecutionServiceBuilder {
                scan_budget: if budget == 0 {
                    1
                } else {
                    budget
                },
                ..self
            }),
    {
        let mut builder = self;
        builder.scan_budget = if budget == 0 {
            1
        } else {
            budget
        };
        builder
    }

    /// Sets the maximum execution attempts for a retryable handler result, at
    /// least one.
    pub fn max_attempts(self, attempts: u32) -> (builder: Self)
        ensures
            builder == (TaskExecutionServiceBuilder {
                max_attempts: if attempts == 0 {
                    1
                } else {
                    attempts
                },
                ..self
            }),
    {
        let mut builder = self;
        builder.max_attempts = if attempts == 0 {
            1
        } else {
            attempts
        };
        builder
    }

    /// Sets the exponential delay applied between retryable attempts.
    pub fn retry_policy(self, policy: RetryPolicy) -> (builder: Self)
        ensures
            builder == (TaskExecutionServiceBuilder { retry_policy: policy, ..self }),
    {
        let mut builder = self;
        builder.retry_policy = policy;
        builder
    }

    /// Fails construction unless storage declares restart recovery.
    pub fn require_recovery(self, required: bool) -> (builder: Self)
        ensures
            builder == (TaskExecutionServiceBuilder { require_recovery: required, ..self }),
    {
        let mut builder = self;
        builder.require_recovery = required;
        builder
    }

    /// Sets the number of lifecycle notifications waiting behind the publisher.
    pub fn event_bus_buffer_capacity(self, capacity: usize) -> (builder: Self)
        ensures
            builder == (TaskExecutionServiceBuilder {
                event_bus_buffer_capacity: capacity,
                ..self
            }),
    {
        let mut builder = self;
        builder.event_bus_buffer_capacity = capacity;
        builder
    }

    /// Checks the configuration against the capabilities of the selected store
    /// and returns how many unfinished tasks may be recovered.
    pub fn check(&self, capabilities: StoreCapabilities) -> (result: Result<
        usize,
        TaskServiceBuildError,
    >)
        ensures
            ({
                let error = build_error(
                    self.store is Some,
                    capabilities,
                    self.require_recovery,
                    self.queue_capacity,
                    self.max_running_tasks,
                );
                match result {
                    Ok(limit) => error is None && limit == self.queue_capacity
                        + self.max_running_tasks,
                    Err(e) => error == Some(e@),
                }
            }),
    {
        if self.store.is_none() {
            return Err(TaskServiceBuildError::MissingStore);
        }
        if self.require_recovery && !capabilities.restart_recovery {
            return Err(TaskServiceBuildError::RecoveryRequired);
        }
        if capabilities.restart_recovery && !capabilities.persistent_history {
            return Err(TaskServiceBuildError::RecoveryRequired);
        }
        match self.queue_capacity.checked_add(self.max_running_tasks) {
            Some(limit) => Ok(limit),
            None => Err(
                TaskServiceBuildError::InvalidConfiguration(
                    "queue_capacity + max_running_tasks overflows usize".to_owned(),
                ),
            ),
        }
    }

    /// Creates the shared state of a service whose recovered tasks wait.
    pub fn start<S, C>(&self, recovered: Vec<QueuedTask>, owner: Option<OwnerEpoch>) -> (core:
        ServiceCore<H, S, C>)
        ensures
            core@ == CoreModel::<H, S, C>::starting(
                ServiceSettings {
                    queue_capacity: self.queue_capacity,
                    scan_budget: self.scan_budget,
                    max_running_tasks: self.max_running_tasks,
                    max_attempts: self.max_attempts,
                    retry_policy: self.retry_policy,
                    owner,
                },
                queue_of(queued_models(recovered@)),
                recovered.len(),
                self.max_inflight_payload_bytes,
                self.max_inflight_submissions,
            ),
    {
        let count = recovered.len();
        let ghost all = queued_models(recovered@);
        let mut queue = SchedulerQueue::new();
        let mut i: usize = 0;
        proof {
            assert(all.take(0) =~= Seq::<QueuedModel>::empty());
        }
        while i < count
            invariant
                i <= count == recovered@.len(),
                all == queued_models(recovered@),
                queue@ == queue_of(all.take(i as int)),
            decreases count - i,
        {
            proof {
                assert(all.take(i + 1).drop_last() =~= all.take(i as int));
            }
            queue.push(recovered[i].clone());
            i = i + 1;
        }
        proof {
            assert(all.take(i as int) =~= all);
        }
        ServiceCore::new(
            ServiceSettings {
                queue_capacity: self.queue_capacity,
                scan_budget: self.scan_budget,
                max_running_tasks: self.max_running_tasks,
                max_attempts: self.max_attempts,
                retry_policy: self.retry_policy,
                owner,
            },
            queue,
            count,
            self.max_inflight_payload_bytes,
            self.max_inflight_submissions,
        )
    }
}

impl<E, P, H> TaskExecutionServiceBuilder<MemoryTaskStore, E, P, H> {
    /// Selects explicit volatile storage with the default limits.
    pub fn in_memory(parallelism: usize) -> (builder: Self)
        ensures
            builder.store matches Some(store) && store@ == MemoryModel::empty(
                1024,
                DEFAULT_MAX_PAYLOAD_BYTES,
                DEFAULT_MAX_UNFINISHED_RECORDS,
            ),
            builder.engine is None,
            builder.policy is None,
            builder.has_defaults(parallelism),
    {
        Self::new(parallelism).store(MemoryTaskStore::new(1024))
    }

    /// Selects volatile storage with an explicit retained payload budget.
    pub fn in_memory_with_payload_budget(parallelism: usize, limit: usize) -> (builder: Self)
        ensures
            builder.store matches Some(store) && store@ == MemoryModel::empty(
                1024,
                limit,
                DEFAULT_MAX_UNFINISHED_RECORDS,
            ),
            builder.engine is None,
            builder.policy is None,
            builder.has_defaults(parallelism),
    {
        Self::new(parallelism).store(MemoryTaskStore::with_payload_budget(1024, limit))
    }
}

/// The queue that tasks form when they are added one after the other.
pub open spec fn queue_of(tasks: Seq<QueuedModel>) -> QueueModel
    decreases tasks.len(),
{
    if tasks.len() == 0 {
        QueueModel::empty()
    } else {
        queue_of(tasks.drop_last()).pushed(tasks.last())
    }
}

/// Every recovered task waits, and each holds one waiting position.
pub proof fn law_recovered_tasks_hold_positions(tasks: Seq<QueuedModel>)
    ensures
        queue_of(tasks).len() == tasks.len(),
    decreases tasks.len(),
{
    if tasks.len() > 0 {
        law_recovered_tasks_hold_positions(tasks.drop_last());
        super::scheduler_queue::law_queue_accounts_for_every_task(
            queue_of(tasks.drop_last()),
            tasks.last(),
            Seq::empty(),
            0,
            0,
            tasks.last().id,
        );
    }
}

/// Most tasks on one recovery page.
pub const RECOVERY_PAGE_LIMIT: usize = 256;

/// Why a recovery page is invalid, if it is.
pub open spec fn recovery_page_error(
    tasks: nat,
    previous: Option<TaskId>,
    next: Option<TaskId>,
) -> Option<BuildErrorModel> {
    if tasks > RECOVERY_PAGE_LIMIT {
        Some(
            BuildErrorModel::InvalidRecoveryPage(
                "page contains "@ + decimal_text(tasks) + " records; maximum is 256"@,
            ),
        )
    } else if next is Some && tasks == 0 {
        Some(BuildErrorModel::InvalidRecoveryPage("empty page returned a next cursor"@))
    } else if next is Some && previous is Some && (next->0).0 <= (previous->0).0 {
        Some(BuildErrorModel::InvalidRecoveryPage("cursor did not advance"@))
    } else {
        None
    }
}

/// Checks a recovery page: it is bounded, not empty while more follows, and its
/// cursor advances.
pub fn validate_recovery_page(
    tasks: &Vec<StoredTask>,
    previous: Option<TaskId>,
    next: Option<TaskId>,
) -> (result: Result<(), TaskServiceBuildError>)
    ensures
        match result {
            Ok(_) => recovery_page_error(tasks@.len(), previous, next) is None,
            Err(error) => recovery_page_error(tasks@.len(), previous, next) == Some(error@),
        },
{
    if tasks.len() > RECOVERY_PAGE_LIMIT {
        return Err(
            TaskServiceBuildError::InvalidRecoveryPage(
                join3(
                    "page contains ",
                    decimal(tasks.len() as u64).as_str(),
                    " records; maximum is 256",
                ),
            ),
        );
    }
    match next {
        Some(cursor) => {
            if tasks.len() == 0 {
                return Err(
                    TaskServiceBuildError::InvalidRecoveryPage(
                        "empty page returned a next cursor".to_owned(),
                    ),
                );
            }
            match previous {
                Some(before) => {
                    if cursor.0 <= before.0 {
                        return Err(
                            TaskServiceBuildError::InvalidRecoveryPage(
                                "cursor did not advance".to_owned(),
                            ),
                        );
                    }
                },
                None => {},
            }
        },
        None => {},
    }
    Ok(())
}

/// Progress of a recovery scan.
#[derive(Debug, Clone, Copy)]
pub struct RecoveryScan {
    /// Position of the last page.
    pub cursor: Option<TaskId>,
    /// Tasks seen so far.
    pub count: usize,
    /// Most tasks that may be recovered.
    pub limit: usize,
}

/// Why a recovery scan stops at a page, if it does.
pub open spec fn scan_error(scan: RecoveryScan, tasks: nat, next: Option<TaskId>) -> Option<
    BuildErrorModel,
> {
    if recovery_page_error(tasks, scan.cursor, next) is Some {
        recovery_page_error(tasks, scan.cursor, next)
    } else if scan.count + tasks > usize::MAX {
        Some(BuildErrorModel::InvalidConfiguration("unfinished task count overflows usize"@))
    } else if scan.count + tasks > scan.limit {
        Some(BuildErrorModel::RecoveryCapacityExceeded { limit: scan.limit })
    } else {
        None
    }
}

impl RecoveryScan {
    /// Begins a scan that may recover at most `limit` tasks.
    pub fn new(limit: usize) -> (scan: Self)
        ensures
            scan.cursor is None,
            scan.count == 0,
            scan.limit == limit,
    {
        RecoveryScan { cursor: None, count: 0, limit }
    }

    /// Refuses to begin when more unfinished tasks are stored than may be
    /// recovered.
    pub fn begin(limit: usize, over_limit: bool) -> (result: Result<Self, TaskServiceBuildError>)
        ensures
            match result {
                Ok(scan) => !over_limit && scan == (RecoveryScan {
                    cursor: None,
                    count: 0,
                    limit,
                }),
                Err(e) => over_limit && e@ == (BuildErrorModel::RecoveryCapacityExceeded {
                    limit,
                }),
            },
    {
        if over_limit {
            Err(TaskServiceBuildError::RecoveryCapacityExceeded { limit })
        } else {
            Ok(Self::new(limit))
        }
    }

    /// Takes one page into account. The scan goes on while `cursor` is present.
    pub fn take_page(&mut self, tasks: &Vec<StoredTask>, next: Option<TaskId>) -> (result: Result<
        (),
        TaskServiceBuildError,
    >)
        ensures
            match result {
                Ok(_) => {
                    &&& scan_error(*old(self), tasks@.len(), next) is None
                    &&& *final(self) == (RecoveryScan {
                        cursor: next,
                        count: (old(self).count + tasks@.len()) as usize,
                        limit: old(self).limit,
                    })
                },
                Err(error) => {
                    &&& scan_error(*old(self), tasks@.len(), next) == Some(error@)
                    &&& *final(self) == *old(self)
                },
            },
    {
        match validate_recovery_page(tasks, self.cursor, next) {
            Ok(_) => {},
            Err(error) => {
                return Err(error);
            },
        }
        let count: usize = match self.count.checked_add(tasks.len()) {
            Some(count) => count,
            None => {
                return Err(
                    TaskServiceBuildError::InvalidConfiguration(
                        "unfinished task count overflows usize".to_owned(),
                    ),
                );
            },
        };
        if count > self.limit {
            return Err(TaskServiceBuildError::RecoveryCapacityExceeded { limit: self.limit });
        }
        self.count = count;
        self.cursor = next;
        Ok(())
    }
}

/// A scan never takes more tasks than its limit, and its cursor only advances,
/// so that it ends.
pub proof fn law_recovery_scans_are_bounded(scan: RecoveryScan, tasks: nat, next: Option<TaskId>)
    requires
        scan.count <= scan.limit,
        scan_error(scan, tasks, next) is None,
    ensures
        scan.count + tasks <= scan.limit,
        next is Some ==> tasks > 0,
        next is Some && scan.cursor is Some ==> (scan.cursor->0).0 < (next->0).0,
{
}

/// What recovery does with a stored task.
#[derive(Debug)]
pub enum RecoveryStep {
    /// Apply this command; the task then needs intervention.
    Block(TransitionCommand),
    /// Apply this command and look at the task again: its attempt was
    /// interrupted.
    Requeue(TransitionCommand),
    /// Let the task wait.
    Enqueue(QueuedTask),
    /// Leave the task as it is.
    Leave,
}

/// Why an exhausted task is blocked during recovery.
pub open spec fn exhausted_reason(attempt: u32, max_attempts: u32) -> Seq<char> {
    "retry limit reached during recovery: "@ + decimal_text(attempt as nat) + "/"@ + decimal_text(
        max_attempts as nat,
    ) + " attempts used"@
}

/// Why a task without a handler is blocked during recovery.
pub open spec fn unknown_handler_reason(record: RecordModel) -> Seq<char> {
    "missing handler "@ + record.request.info.task_type + "@"@ + record.request.info.handler_version
        + " during recovery"@
}

/// Whether `step` is what recovery does with a task: exhausted tasks and tasks
/// without a handler are blocked, interrupted attempts are requeued, and queued
/// tasks wait under their persisted retry deadline.
pub open spec fn recovery_post(
    record: RecordModel,
    max_attempts: u32,
    has_handler: bool,
    step: RecoveryStep,
) -> bool {
    let life = record.life;
    if (life.state is Queued || life.state is Running) && life.attempt >= max_attempts {
        step matches RecoveryStep::Block(command) && command@ == command_for(
            life,
            StateModel::Blocked { reason: exhausted_reason(life.attempt, max_attempts) },
            None,
            None,
            Seq::empty(),
            life.cancel_requested,
        )
    } else if life.state is Running {
        step matches RecoveryStep::Requeue(command) && command@ == command_for(
            life,
            StateModel::Queued,
            None,
            None,
            Seq::empty(),
            false,
        )
    } else if life.state is Queued {
        if has_handler {
            step matches RecoveryStep::Enqueue(task) && task@ == (QueuedModel {
                id: life.id,
                resources: record.request.info.resources,
                retry_not_before_ms: life.retry_not_before_ms,
                bypasses: 0,
            })
        } else {
            step matches RecoveryStep::Block(command) && command@ == command_for(
                life,
                StateModel::Blocked { reason: unknown_handler_reason(record) },
                None,
                None,
                Seq::empty(),
                false,
            )
        }
    } else {
        step is Leave
    }
}

/// Decides what recovery does with a stored task.
pub fn recover_task<H>(
    record: &TaskRecord,
    max_attempts: u32,
    handlers: &TaskHandlerRegistry<H>,
) -> (step: RecoveryStep)
    ensures
        recovery_post(
            record@,
            max_attempts,
            handlers@.contains_key(
                (record@.request.info.task_type, record@.request.info.handler_version),
            ),
            step,
        ),
{
    let nothing: Vec<String> = Vec::new();
    proof {
        assert(texts(nothing@) =~= Seq::<Seq<char>>::empty());
    }
    if matches!(record.state, TaskState::Queued | TaskState::Running) && record.attempt
        >= max_attempts {
        let head = join3(
            "retry limit reached during recovery: ",
            decimal(record.attempt as u64).as_str(),
            "/",
        );
        let reason = join3(
            head.as_str(),
            decimal(max_attempts as u64).as_str(),
            " attempts used",
        );
        return RecoveryStep::Block(
            make_command(
                record,
                TaskState::Blocked { reason },
                None,
                None,
                nothing,
                record.cancel_requested,
            ),
        );
    }
    if matches!(record.state, TaskState::Running) {
        return RecoveryStep::Requeue(
            make_command(record, TaskState::Queued, None, None, nothing, false),
        );
    }
    if matches!(record.state, TaskState::Queued) {
        if handlers.resolve(
            record.request.task_type.as_str(),
            record.request.handler_version.as_str(),
        ).is_none() {
            let head = join3("missing handler ", record.request.task_type.as_str(), "@");
            let reason = join3(
                head.as_str(),
                record.request.handler_version.as_str(),
                " during recovery",
            );
            return RecoveryStep::Block(
                make_command(record, TaskState::Blocked { reason }, None, None, nothing, false),
            );
        }
        return RecoveryStep::Enqueue(
            QueuedTask {
                id: record.id,
                resources: record.request.resources.clone(),
                retry_not_before_ms: record.retry_not_before_ms,
                bypasses: 0,
            },
        );
    }
    RecoveryStep::Leave
}

/// What restoring a task asks next.
#[derive(Debug)]
pub enum RestoreStep {
    /// Apply this command; the task is done with.
    Apply(TransitionCommand),
    /// Apply this command and restore the changed task.
    Again(TransitionCommand),
    /// The task is done with.
    Done,
}

/// The waiting entry that a stored task is restored to, if it waits again: a
/// queued task under its stored deadline, an interrupted one at once.
pub open spec fn restored_entry(record: RecordModel, max_attempts: u32, has_handler: bool) -> Option<
    QueuedModel,
> {
    let life = record.life;
    if (life.state is Queued || life.state is Running) && life.attempt < max_attempts
        && has_handler {
        Some(
            QueuedModel {
                id: life.id,
                resources: record.request.info.resources,
                retry_not_before_ms: if life.state is Queued {
                    life.retry_not_before_ms
                } else {
                    None
                },
                bypasses: 0,
            },
        )
    } else {
        None
    }
}

/// Whether a handler is registered for a stored task.
pub open spec fn is_known(record: RecordModel, keys: Set<(Seq<char>, Seq<char>)>) -> bool {
    keys.contains((record.request.info.task_type, record.request.info.handler_version))
}

/// The waiting entries that scanned tasks are restored to, in scan order and once
/// for each of them that waits again.
pub open spec fn restored_entries(
    records: Seq<RecordModel>,
    max_attempts: u32,
    keys: Set<(Seq<char>, Seq<char>)>,
) -> Seq<QueuedModel>
    decreases records.len(),
{
    if records.len() == 0 {
        Seq::empty()
    } else {
        let before = restored_entries(records.drop_last(), max_attempts, keys);
        match restored_entry(records.last(), max_attempts, is_known(records.last(), keys)) {
            Some(entry) => before.push(entry),
            None => before,
        }
    }
}

/// What restoring a task does to the entries collected so far.
pub open spec fn restore_post(
    before: Seq<QueuedModel>,
    after: Seq<QueuedModel>,
    record: RecordModel,
    max_attempts: u32,
    has_handler: bool,
    step: RestoreStep,
) -> bool {
    exists|decision: RecoveryStep| #[trigger]
        recovery_post(record, max_attempts, has_handler, decision) && match decision {
            RecoveryStep::Block(command) => after == before && (step matches RestoreStep::Apply(
                asked,
            ) && asked@ == command@),
            RecoveryStep::Requeue(command) => after == before && (step matches RestoreStep::Again(
                asked,
            ) && asked@ == command@),
            RecoveryStep::Enqueue(task) => after == before.push(task@) && step is Done,
            RecoveryStep::Leave => after == before && step is Done,
        }
}

/// Tasks that wait again after a restart, in the order they were scanned.
#[derive(Debug)]
pub struct RestoredTasks {
    tasks: Vec<QueuedTask>,
}

impl View for RestoredTasks {
    type V = Seq<QueuedModel>;

    closed spec fn view(&self) -> Seq<QueuedModel> {
        queued_models(self.tasks@)
    }
}

impl RestoredTasks {
    /// Begins without tasks.
    pub fn new() -> (restored: Self)
        ensures
            restored@ == Seq::<QueuedModel>::empty(),
    {
        let restored = RestoredTasks { tasks: Vec::new() };
        proof {
            assert(restored@ =~= Seq::<QueuedModel>::empty());
        }
        restored
    }

    /// Restores one scanned task, or says what to do with it first.
    pub fn restore<H>(
        &mut self,
        record: &TaskRecord,
        max_attempts: u32,
        handlers: &TaskHandlerRegistry<H>,
    ) -> (step: RestoreStep)
        ensures
            restore_post(
                old(self)@,
                final(self)@,
                record@,
                max_attempts,
                is_known(record@, handlers@.dom()),
                step,
            ),
    {
        let ghost before = self@;
        let decision = recover_task(record, max_attempts, handlers);
        let ghost decided = decision;
        match decision {
            RecoveryStep::Block(command) => RestoreStep::Apply(command),
            RecoveryStep::Requeue(command) => RestoreStep::Again(command),
            RecoveryStep::Enqueue(task) => {
                self.tasks.push(task);
                proof {
                    assert(self@ =~= before.push(task@));
                    assert(recovery_post(
                        record@,
                        max_attempts,
                        is_known(record@, handlers@.dom()),
                        decided,
                    ));
                }
                RestoreStep::Done
            },
            RecoveryStep::Leave => RestoreStep::Done,
        }
    }

    /// Hands the collected tasks out.
    pub fn into_tasks(self) -> (tasks: Vec<QueuedTask>)
        ensures
            queued_models(tasks@) == self@,
    {
        self.tasks
    }
}

/// Whether a scanned task is restored: its steps are taken until it is done with,
/// and a command for it applies to the revision that was scanned.
pub open spec fn is_restored(
    before: Seq<QueuedModel>,
    after: Seq<QueuedModel>,
    record: RecordModel,
    max_attempts: u32,
    has_handler: bool,
) -> bool {
    exists|middle: Seq<QueuedModel>, step: RestoreStep| #[trigger]
        restore_post(before, middle, record, max_attempts, has_handler, step) && match step {
            RestoreStep::Again(command) => exists|now: u64, last: RestoreStep| #[trigger]
                restore_post(
                    middle,
                    after,
                    RecordModel { life: advanced(record.life, command@, now), ..record },
                    max_attempts,
                    has_handler,
                    last,
                ),
            _ => after == middle,
        }
}

/// Restoring one task adds its waiting entry, if it has one, and nothing else.
pub proof fn law_restoring_a_task_adds_its_entry(
    before: Seq<QueuedModel>,
    after: Seq<QueuedModel>,
    record: RecordModel,
    max_attempts: u32,
    has_handler: bool,
)
    requires
        is_restored(before, after, record, max_attempts, has_handler),
    ensures
        after == match restored_entry(record, max_attempts, has_handler) {
            Some(entry) => before.push(entry),
            None => before,
        },
{
}

/// A recovery scan collects exactly the waiting entries of what it scanned, in
/// scan order.
pub proof fn law_recovery_restores_what_was_scanned(
    records: Seq<RecordModel>,
    collected: Seq<Seq<QueuedModel>>,
    max_attempts: u32,
    keys: Set<(Seq<char>, Seq<char>)>,
    n: int,
)
    requires
        collected.len() == records.len() + 1,
        collected[0] == Seq::<QueuedModel>::empty(),
        forall|k: int|
            0 <= k < records.len() ==> is_restored(
                collected[k],
                collected[k + 1],
                #[trigger] records[k],
                max_attempts,
                is_known(records[k], keys),
            ),
        0 <= n <= records.len(),
    ensures
        collected[n] == restored_entries(records.take(n), max_attempts, keys),
        forall|i: int| 0 <= i < collected[n].len() ==> (#[trigger] collected[n][i]).bypasses == 0,
        collected[n].len() <= n,
    decreases n,
{
    if n > 0 {
        law_recovery_restores_what_was_scanned(records, collected, max_attempts, keys, n - 1);
        let record = records[n - 1];
        assert(is_restored(
            collected[n - 1],
            collected[(n - 1) + 1],
            records[n - 1],
            max_attempts,
            is_known(records[n - 1], keys),
        ));
        law_restoring_a_task_adds_its_entry(
            collected[n - 1],
            collected[n],
            record,
            max_attempts,
            is_known(record, keys),
        );
        assert(records.take(n).drop_last() =~= records.take(n - 1));
        assert(records.take(n).last() == record);
    } else {
        assert(records.take(0) =~= Seq::<RecordModel>::empty());
    }
}

/// Recovery lets a task wait only while it has attempts left and a handler is
/// registered; an interrupted attempt counts.
pub proof fn law_recovery_respects_the_attempt_budget(
    record: RecordModel,
    max_attempts: u32,
    has_handler: bool,
    step: RecoveryStep,
)
    requires
        recovery_post(record, max_attempts, has_handler, step),
    ensures
        step is Enqueue ==> record.life.attempt < max_attempts && has_handler,
        step is Requeue ==> record.life.attempt < max_attempts,
{
}

} // verus!
