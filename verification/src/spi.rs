//! Component families that an application selects at startup.

use vstd::prelude::*;

use crate::engine::local::idle_engine;
use crate::engine::LocalTaskExecutionEngine;
use crate::model::ResourceCapacity;
use crate::scheduling::FairFifoPolicy;
use crate::store::memory::DEFAULT_MAX_PAYLOAD_BYTES;
use crate::store::memory::DEFAULT_MAX_UNFINISHED_RECORDS;
use crate::store::memory_model::MemoryModel;
use crate::store::MemoryTaskStore;
use crate::store::StoreError;
use crate::store::StoreErrorModel;

verus! {

/// Stable ID of the default FIFO fair scheduling provider.
pub const FAIR_FIFO_PROVIDER_ID: &'static str = "qubit.task.scheduler.fair-fifo";

/// Stable ID of the local execution engine provider.
pub const LOCAL_ENGINE_PROVIDER_ID: &'static str = "qubit.task.engine.local";

/// Stable ID of the in-memory storage provider.
pub const MEMORY_STORE_PROVIDER_ID: &'static str = "qubit.task.store.memory";

/// Stable ID of the recoverable SQLite storage provider.
pub const SQLITE_STORE_PROVIDER_ID: &'static str = "qubit.task.store.sqlite";

/// Runtime configuration selected for a task store provider: `P` is a database
/// path, `X` the settings of an extension.
#[derive(Debug)]
pub enum TaskStoreConfig<P, X> {
    /// Volatile records with a bounded terminal history.
    Memory {
        /// Maximum retained terminal records.
        history_capacity: usize,
    },
    /// SQLite records with restart recovery.
    Sqlite {
        /// Database path owned by the service.
        path: P,
    },
    /// Provider-specific runtime settings for an application or extension.
    Custom(X),
}

impl<P, X> Default for TaskStoreConfig<P, X> {
    fn default() -> (config: Self)
        ensures
            config == (TaskStoreConfig::<P, X>::Memory { history_capacity: 1024 }),
    {
        TaskStoreConfig::Memory { history_capacity: 1024 }
    }
}

impl<P, X> TaskStoreConfig<P, X> {
    /// Wraps an extension configuration for one selected provider.
    pub fn custom(config: X) -> (wrapped: Self)
        ensures
            wrapped == TaskStoreConfig::<P, X>::Custom(config),
    {
        TaskStoreConfig::Custom(config)
    }

    /// Borrows an extension configuration.
    pub fn downcast_ref(&self) -> (config: Option<&X>)
        ensures
            match config {
                Some(found) => *self == TaskStoreConfig::<P, X>::Custom(*found),
                None => !(self is Custom),
            },
    {
        match self {
            TaskStoreConfig::Custom(config) => Some(config),
            _ => None,
        }
    }

    /// Creates the store of the in-memory provider.
    pub fn memory_store(&self) -> (result: Result<MemoryTaskStore, StoreError>)
        ensures
            match self {
                TaskStoreConfig::Memory { history_capacity } => {
                    result matches Ok(store) && store@ == MemoryModel::empty(
                        *history_capacity,
                        DEFAULT_MAX_PAYLOAD_BYTES,
                        DEFAULT_MAX_UNFINISHED_RECORDS,
                    )
                },
                TaskStoreConfig::Sqlite { .. } => result matches Err(e) && e@
                    == StoreErrorModel::Failure(
                    "SQLite provider selected for a memory configuration"@,
                ),
                TaskStoreConfig::Custom(_) => result matches Err(e) && e@
                    == StoreErrorModel::Failure(
                    "memory provider selected for a custom configuration"@,
                ),
            },
    {
        match self {
            TaskStoreConfig::Memory { history_capacity } => Ok(
                MemoryTaskStore::new(*history_capacity),
            ),
            TaskStoreConfig::Sqlite { .. } => Err(
                StoreError::Failure(
                    "SQLite provider selected for a memory configuration".to_owned(),
                ),
            ),
            TaskStoreConfig::Custom(_) => Err(
                StoreError::Failure(
                    "memory provider selected for a custom configuration".to_owned(),
                ),
            ),
        }
    }

    /// Returns the path that the SQLite provider opens.
    pub fn sqlite_path(&self) -> (result: Result<&P, StoreError>)
        ensures
            match self {
                TaskStoreConfig::Sqlite { path } => result matches Ok(found) && *found == *path,
                TaskStoreConfig::Memory { .. } => result matches Err(e) && e@
                    == StoreErrorModel::Failure(
                    "SQLite provider selected for a memory configuration"@,
                ),
                TaskStoreConfig::Custom(_) => result matches Err(e) && e@
                    == StoreErrorModel::Failure(
                    "SQLite provider selected for a custom configuration"@,
                ),
            },
    {
        match self {
            TaskStoreConfig::Sqlite { path } => Ok(path),
            TaskStoreConfig::Memory { .. } => Err(
                StoreError::Failure(
                    "SQLite provider selected for a memory configuration".to_owned(),
                ),
            ),
            TaskStoreConfig::Custom(_) => Err(
                StoreError::Failure(
                    "SQLite provider selected for a custom configuration".to_owned(),
                ),
            ),
        }
    }
}

/// Service family for a task history backend.
#[derive(Debug, Clone, Copy)]
pub struct TaskStoreSpec;

/// Service family for an ordering policy.
#[derive(Debug, Clone, Copy)]
pub struct SchedulingPolicySpec;

impl SchedulingPolicySpec {
    /// Creates the policy of the fair FIFO provider.
    pub fn fair_fifo() -> (policy: FairFifoPolicy)
        ensures
            policy.max_bypasses == 8,
    {
        FairFifoPolicy::default()
    }
}

/// Service family for a local or future distributed execution engine.
#[derive(Debug, Clone, Copy)]
pub struct TaskExecutionEngineSpec;

impl TaskExecutionEngineSpec {
    /// Creates the engine of the local provider.
    pub fn local(capacity: &ResourceCapacity) -> (engine: LocalTaskExecutionEngine)
        ensures
            engine@ == idle_engine(capacity@),
    {
        LocalTaskExecutionEngine::new(capacity.clone())
    }
}

/// Service family for task handlers. Applications may register many providers.
#[derive(Debug, Clone, Copy)]
pub struct TaskHandlerSpec;

/// A store is made of the configuration that its provider is for, and of no other;
/// by default that is one in memory which keeps 1024 finished tasks.
pub proof fn law_providers_take_their_own_configuration<P, X>(
    config: TaskStoreConfig<P, X>,
    standard: TaskStoreConfig<P, X>,
    store: Result<MemoryTaskStore, StoreError>,
    path: Result<&P, StoreError>,
    extension: Option<&X>,
    settings: X,
    wrapped: TaskStoreConfig<P, X>,
)
    requires
        call_ensures(TaskStoreConfig::<P, X>::default, (), standard),
        call_ensures(TaskStoreConfig::<P, X>::memory_store, (&config,), store),
        call_ensures(TaskStoreConfig::<P, X>::sqlite_path, (&config,), path),
        call_ensures(TaskStoreConfig::<P, X>::downcast_ref, (&config,), extension),
        call_ensures(TaskStoreConfig::<P, X>::custom, (settings,), wrapped),
    ensures
        standard == (TaskStoreConfig::<P, X>::Memory { history_capacity: 1024 }),
        store is Ok <==> config is Memory,
        path is Ok <==> config is Sqlite,
        extension is Some <==> config is Custom,
        store matches Ok(made) ==> {
            &&& made@.records.dom() == Set::<u128>::empty()
            &&& made@.history_capacity == config->history_capacity
            &&& made@.max_unfinished_records == 2048
            &&& made@.max_payload_bytes == 64 * 1024 * 1024
        },
        path matches Ok(found) ==> *found == config->path,
        extension matches Some(found) ==> *found == config->Custom_0,
        wrapped is Custom && wrapped->Custom_0 == settings,
        store matches Err(error) ==> error@ == StoreErrorModel::Failure(
            if config is Sqlite {
                "SQLite provider selected for a memory configuration"@
            } else {
                "memory provider selected for a custom configuration"@
            },
        ),
        path matches Err(error) ==> error@ == StoreErrorModel::Failure(
            if config is Memory {
                "SQLite provider selected for a memory configuration"@
            } else {
                "SQLite provider selected for a custom configuration"@
            },
        ),
{
}

/// The local provider makes an engine of the whole capacity with nothing in use, and
/// the fair provider a policy that bounds bypasses by 8.
pub proof fn law_standard_providers_begin_idle(
    capacity: ResourceCapacity,
    engine: LocalTaskExecutionEngine,
    policy: FairFifoPolicy,
)
    requires
        call_ensures(TaskExecutionEngineSpec::local, (&capacity,), engine),
        call_ensures(SchedulingPolicySpec::fair_fifo, (), policy),
    ensures
        engine@.capacity == capacity@,
        engine@.cpu == 0 && engine@.gpus.len() == 0 && engine@.custom.len() == 0,
        engine@.allocations.dom() == Set::<u64>::empty(),
        policy.max_bypasses == 8,
{
}

/// Providers go by their stable names.
pub proof fn law_providers_are_named()
    ensures
        FAIR_FIFO_PROVIDER_ID@ == "qubit.task.scheduler.fair-fifo"@,
        LOCAL_ENGINE_PROVIDER_ID@ == "qubit.task.engine.local"@,
        MEMORY_STORE_PROVIDER_ID@ == "qubit.task.store.memory"@,
        SQLITE_STORE_PROVIDER_ID@ == "qubit.task.store.sqlite"@,
{
}

} // verus!
