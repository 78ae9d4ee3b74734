//! Failures and outcomes of service operations.

use vstd::prelude::*;
use vstd::string::StringExecFns;

use crate::model::StoreCapabilities;
use crate::model::TaskStateKind;
use crate::store::StoreError;
use crate::store::StoreErrorModel;
use crate::text::decimal;
use crate::text::decimal_text;
use crate::text::join2;
use crate::text::join3;

verus! {

/// Effective store capabilities and local-closure support.
#[derive(Debug, Clone, Copy, PartialEq, Eq, Structural)]
pub struct TaskServiceCapabilities {
    /// Capabilities declared by the selected store.
    pub store: StoreCapabilities,
    /// Whether local in-process handlers can be submitted.
    pub submit_local: bool,
}

impl TaskServiceCapabilities {
    /// Reports the guarantees of a service over a store: local closures need a
    /// store that does not promise restart recovery.
    pub fn of(store: StoreCapabilities) -> (capabilities: Self)
        ensures
            capabilities.store == store,
            capabilities.submit_local == !store.restart_recovery,
    {
        TaskServiceCapabilities { store, submit_local: !store.restart_recovery }
    }
}

/// Failure reported by a service operation.
#[allow(inconsistent_fields)]
#[derive(Debug)]
pub enum TaskServiceError {
    /// The selected store failed an operation.
    Store(StoreError),
    /// The configured queue has no remaining waiting capacity.
    QueueFull,
    /// The request payload would exceed the configured in-flight byte budget.
    PayloadBudgetExceeded {
        /// Payload bytes in the rejected submission.
        requested_bytes: usize,
        /// Payload bytes remaining when the submission was checked.
        available_bytes: usize,
    },
    /// The configured number of detached admission workers is already in
    /// flight.
    SubmissionLimitExceeded {
        /// Maximum number of concurrent admission workers.
        limit: usize,
    },
    /// The request exceeds available configured capacity.
    Unsatisfiable,
    /// The request contains invalid metadata or an oversized payload.
    InvalidRequest(String),
    /// The requested task is blocked pending intervention.
    Blocked,
    /// The task is not blocked, so it cannot be abandoned.
    NotBlocked {
        /// Category of the task's current state.
        state: TaskStateKind,
    },
    /// The task used all configured execution attempts and cannot be requeued.
    AttemptsExhausted {
        /// Number of attempts already started.
        attempts: u32,
        /// Maximum attempts configured for the service.
        limit: u32,
    },
    /// New task submissions have been stopped.
    ShuttingDown,
    /// The caller's shutdown deadline expired while accepted work was draining.
    ShutdownTimedOut,
    /// A persistence failure suspended task acceptance and scheduling.
    StoreUnavailable(String),
    /// The scheduler stopped before accepted work was drained.
    SchedulerUnavailable(String),
    /// The task notification publisher failed while draining during shutdown.
    NotificationClose(String),
    /// No handler matches the submitted type and exact version.
    MissingHandler {
        /// Task type requested by the submitted record.
        task_type: String,
        /// Exact version requested by the submitted record.
        version: String,
    },
    /// Reconstructable storage cannot accept a local closure.
    UnsupportedCapability,
}

/// Content of a [`TaskServiceError`].
#[allow(inconsistent_fields)]
#[verifier::ext_equal]
pub enum ServiceErrorModel {
    Store(StoreErrorModel),
    QueueFull,
    PayloadBudgetExceeded { requested_bytes: usize, available_bytes: usize },
    SubmissionLimitExceeded { limit: usize },
    Unsatisfiable,
    InvalidRequest(Seq<char>),
    Blocked,
    NotBlocked { state: TaskStateKind },
    AttemptsExhausted { attempts: u32, limit: u32 },
    ShuttingDown,
    ShutdownTimedOut,
    StoreUnavailable(Seq<char>),
    SchedulerUnavailable(Seq<char>),
    NotificationClose(Seq<char>),
    MissingHandler { task_type: Seq<char>, version: Seq<char> },
    UnsupportedCapability,
}

impl View for TaskServiceError {
    type V = ServiceErrorModel;

    open spec fn view(&self) -> ServiceErrorModel {
        match self {
            TaskServiceError::Store(error) => ServiceErrorModel::Store(error@),
            TaskServiceError::QueueFull => ServiceErrorModel::QueueFull,
            TaskServiceError::PayloadBudgetExceeded { requested_bytes, available_bytes } => {
                ServiceErrorModel::PayloadBudgetExceeded {
                    requested_bytes: *requested_bytes,
                    available_bytes: *available_bytes,
                }
            },
            TaskServiceError::SubmissionLimitExceeded { limit } => {
                ServiceErrorModel::SubmissionLimitExceeded { limit: *limit }
            },
            TaskServiceError::Unsatisfiable => ServiceErrorModel::Unsatisfiable,
            TaskServiceError::InvalidRequest(message) => ServiceErrorModel::InvalidRequest(
                message@,
            ),
            TaskServiceError::Blocked => ServiceErrorModel::Blocked,
            TaskServiceError::NotBlocked { state } => ServiceErrorModel::NotBlocked {
                state: *state,
            },
            TaskServiceError::AttemptsExhausted { attempts, limit } => {
                ServiceErrorModel::AttemptsExhausted { attempts: *attempts, limit: *limit }
            },
            TaskServiceError::ShuttingDown => ServiceErrorModel::ShuttingDown,
            TaskServiceError::ShutdownTimedOut => ServiceErrorModel::ShutdownTimedOut,
            TaskServiceError::StoreUnavailable(message) => ServiceErrorModel::StoreUnavailable(
                message@,
            ),
            TaskServiceError::SchedulerUnavailable(message) => {
                ServiceErrorModel::SchedulerUnavailable(message@)
            },
            TaskServiceError::NotificationClose(message) => ServiceErrorModel::NotificationClose(
                message@,
            ),
            TaskServiceError::MissingHandler { task_type, version } => {
                ServiceErrorModel::MissingHandler { task_type: task_type@, version: version@ }
            },
            TaskServiceError::UnsupportedCapability => ServiceErrorModel::UnsupportedCapability,
        }
    }
}

impl ServiceErrorModel {
    /// The text that describes this error.
    pub open spec fn message(self) -> Seq<char> {
        match self {
            ServiceErrorModel::Store(error) => error.message(),
            ServiceErrorModel::QueueFull => "task queue is full"@,
            ServiceErrorModel::PayloadBudgetExceeded { requested_bytes, available_bytes } => {
                "in-flight task payload budget exceeded: requested "@ + decimal_text(
                    requested_bytes as nat,
                ) + " bytes, "@ + decimal_text(available_bytes as nat) + " bytes available"@
            },
            ServiceErrorModel::SubmissionLimitExceeded { limit } => {
                "in-flight task submission limit reached ("@ + decimal_text(limit as nat) + ")"@
            },
            ServiceErrorModel::Unsatisfiable => {
                "task request cannot be satisfied by configured resources"@
            },
            ServiceErrorModel::InvalidRequest(detail) => "invalid task request: "@ + detail,
            ServiceErrorModel::Blocked => "task is blocked and requires intervention"@,
            ServiceErrorModel::NotBlocked { .. } => "task is not blocked"@,
            ServiceErrorModel::AttemptsExhausted { attempts, limit } => {
                "task exhausted its execution attempt budget ("@ + decimal_text(attempts as nat)
                    + "/"@ + decimal_text(limit as nat) + ")"@
            },
            ServiceErrorModel::ShuttingDown => "task execution service is shutting down"@,
            ServiceErrorModel::ShutdownTimedOut => {
                "task execution service did not shut down before the deadline"@
            },
            ServiceErrorModel::StoreUnavailable(detail) => {
                "task execution service is paused after a task store failure: "@ + detail
            },
            ServiceErrorModel::SchedulerUnavailable(detail) => {
                "task scheduler is unavailable: "@ + detail
            },
            ServiceErrorModel::NotificationClose(detail) => {
                "task notification publisher failed to close: "@ + detail
            },
            ServiceErrorModel::MissingHandler { task_type, version } => {
                "no handler registered for `"@ + task_type + "` version `"@ + version + "`"@
            },
            ServiceErrorModel::UnsupportedCapability => {
                "local closure submission is unavailable with a restart-recoverable store"@
            },
        }
    }
}

impl TaskServiceError {
    /// Returns the text that describes this error.
    pub fn message(&self) -> (text: String)
        ensures
            text@ == self@.message(),
    {
        match self {
            TaskServiceError::Store(error) => error.message(),
            TaskServiceError::QueueFull => "task queue is full".to_owned(),
            TaskServiceError::PayloadBudgetExceeded { requested_bytes, available_bytes } => {
                let mut text = join3(
                    "in-flight task payload budget exceeded: requested ",
                    decimal(*requested_bytes as u64).as_str(),
                    " bytes, ",
                );
                text.append(decimal(*available_bytes as u64).as_str());
                text.append(" bytes available");
                text
            },
            TaskServiceError::SubmissionLimitExceeded { limit } => join3(
                "in-flight task submission limit reached (",
                decimal(*limit as u64).as_str(),
                ")",
            ),
            TaskServiceError::Unsatisfiable => {
                "task request cannot be satisfied by configured resources".to_owned()
            },
            TaskServiceError::InvalidRequest(detail) => join2(
                "invalid task request: ",
                detail.as_str(),
            ),
            TaskServiceError::Blocked => "task is blocked and requires intervention".to_owned(),
            TaskServiceError::NotBlocked { .. } => "task is not blocked".to_owned(),
            TaskServiceError::AttemptsExhausted { attempts, limit } => {
                let mut text = join3(
                    "task exhausted its execution attempt budget (",
                    decimal(*attempts as u64).as_str(),
                    "/",
                );
                text.append(decimal(*limit as u64).as_str());
                text.append(")");
                text
            },
            TaskServiceError::ShuttingDown => "task execution service is shutting down".to_owned(),
            TaskServiceError::ShutdownTimedOut => {
                "task execution service did not shut down before the deadline".to_owned()
            },
            TaskServiceError::StoreUnavailable(detail) => join2(
                "task execution service is paused after a task store failure: ",
                detail.as_str(),
            ),
            TaskServiceError::SchedulerUnavailable(detail) => join2(
                "task scheduler is unavailable: ",
                detail.as_str(),
            ),
            TaskServiceError::NotificationClose(detail) => join2(
                "task notification publisher failed to close: ",
                detail.as_str(),
            ),
            TaskServiceError::MissingHandler { task_type, version } => {
                let mut text = join3(
                    "no handler registered for `",
                    task_type.as_str(),
                    "` version `",
                );
                text.append(version.as_str());
                text.append("`");
                text
            },
            TaskServiceError::UnsupportedCapability => {
                "local closure submission is unavailable with a restart-recoverable store".to_owned()
            },
        }
    }
}

/// Outcome of a cancellation request.
#[derive(Debug, Clone, Copy, PartialEq, Eq, Structural)]
pub enum CancelOutcome {
    /// The task was cancelled while it was queued.
    CancelledBeforeStart,
    /// Cooperative cancellation was signalled to a running handler.
    CancellationRequested,
    /// The task had already reached a terminal state.
    AlreadyTerminal,
}

/// Content of a unit result.
pub open spec fn outcome(result: Result<(), TaskServiceError>) -> Result<(), ServiceErrorModel> {
    match result {
        Ok(_) => Ok(()),
        Err(error) => Err(error@),
    }
}

/// What shutdown reports for a convergence result and a notification result.
pub open spec fn combined(
    primary: Result<(), ServiceErrorModel>,
    notification: Result<(), ServiceErrorModel>,
) -> Result<(), ServiceErrorModel> {
    match (primary, notification) {
        (Ok(_), result) => result,
        (Err(first), Ok(_)) => Err(first),
        (
            Err(ServiceErrorModel::StoreUnavailable(store)),
            Err(ServiceErrorModel::NotificationClose(close)),
        ) => Err(
            ServiceErrorModel::StoreUnavailable(
                store + "; notification close failed: "@ + close,
            ),
        ),
        (Err(first), Err(second)) => Err(
            ServiceErrorModel::StoreUnavailable(
                first.message() + "; notification close failed: "@ + second.message(),
            ),
        ),
    }
}

/// Combines service convergence and notification worker shutdown results.
///
/// A notification close failure becomes the close result when task
/// convergence succeeded. If both fail, the service error stays primary and
/// the notification error is appended to its diagnostic.
pub fn combine_shutdown_results(
    primary: Result<(), TaskServiceError>,
    notification: Result<(), TaskServiceError>,
) -> (result: Result<(), TaskServiceError>)
    ensures
        outcome(result) == combined(outcome(primary), outcome(notification)),
{
    match (primary, notification) {
        (Ok(_), result) => result,
        (Err(first), Ok(_)) => Err(first),
        (Err(TaskServiceError::StoreUnavailable(store)), Err(
            TaskServiceError::NotificationClose(close),
        )) => Err(
            TaskServiceError::StoreUnavailable(
                join3(store.as_str(), "; notification close failed: ", close.as_str()),
            ),
        ),
        (Err(first), Err(second)) => Err(
            TaskServiceError::StoreUnavailable(
                join3(
                    first.message().as_str(),
                    "; notification close failed: ",
                    second.message().as_str(),
                ),
            ),
        ),
    }
}

/// Reports an admission worker that ended with `error` before it answered.
pub fn admission_stopped(error: &str) -> (failure: TaskServiceError)
    ensures
        failure@ == ServiceErrorModel::StoreUnavailable("task admission worker stopped: "@ + error@),
{
    TaskServiceError::StoreUnavailable(join2("task admission worker stopped: ", error))
}

/// Shutdown succeeds only when both parts did.
pub proof fn law_shutdown_success_needs_both(
    primary: Result<(), ServiceErrorModel>,
    notification: Result<(), ServiceErrorModel>,
)
    ensures
        combined(primary, notification) is Ok <==> primary is Ok && notification is Ok,
{
}

} // verus!
