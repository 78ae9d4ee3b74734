use qubit_task::engine::EngineError;
use qubit_task::model::TaskStateKind;
use qubit_task::service::LocalTaskResultError;
use qubit_task::service::RetryPolicy;
use qubit_task::service::RetryPolicyError;
use qubit_task::service::TaskServiceBuildError;
use qubit_task::service::TaskServiceError;
use qubit_task::store::StoreError;

#[test]
fn service_errors_describe_themselves() {
    let texts = vec![
        (TaskServiceError::Store(StoreError::NotFound), "task was not found"),
        (TaskServiceError::QueueFull, "task queue is full"),
        (
            TaskServiceError::PayloadBudgetExceeded { requested_bytes: 3, available_bytes: 2 },
            "in-flight task payload budget exceeded: requested 3 bytes, 2 bytes available",
        ),
        (
            TaskServiceError::SubmissionLimitExceeded { limit: 64 },
            "in-flight task submission limit reached (64)",
        ),
        (
            TaskServiceError::Unsatisfiable,
            "task request cannot be satisfied by configured resources",
        ),
        (TaskServiceError::InvalidRequest("x".to_owned()), "invalid task request: x"),
        (TaskServiceError::Blocked, "task is blocked and requires intervention"),
        (
            TaskServiceError::AttemptsExhausted { attempts: 3, limit: 2 },
            "task exhausted its execution attempt budget (3/2)",
        ),
        (TaskServiceError::ShuttingDown, "task execution service is shutting down"),
        (
            TaskServiceError::ShutdownTimedOut,
            "task execution service did not shut down before the deadline",
        ),
        (
            TaskServiceError::StoreUnavailable("x".to_owned()),
            "task execution service is paused after a task store failure: x",
        ),
        (
            TaskServiceError::NotificationClose("x".to_owned()),
            "task notification publisher failed to close: x",
        ),
        (
            TaskServiceError::MissingHandler { task_type: "t".to_owned(), version: "2".to_owned() },
            "no handler registered for `t` version `2`",
        ),
        (
            TaskServiceError::UnsupportedCapability,
            "local closure submission is unavailable with a restart-recoverable store",
        ),
    ];
    for (error, text) in texts {
        assert_eq!(error.message(), text);
    }
    assert!(!TaskServiceError::NotBlocked { state: TaskStateKind::Running }.message().is_empty());
    assert!(TaskServiceError::SchedulerUnavailable("x".to_owned()).message().ends_with("x"));
}

#[test]
fn build_errors_describe_themselves() {
    let texts = vec![
        (TaskServiceBuildError::MissingStore, "a task store must be selected explicitly"),
        (
            TaskServiceBuildError::RecoveryRequired,
            "restart recovery was required but the selected store does not support it",
        ),
        (TaskServiceBuildError::Store(StoreError::Conflict), "task state changed before the requested transition"),
        (TaskServiceBuildError::HandlerConflict("x".to_owned()), "x"),
        (
            TaskServiceBuildError::SqliteFeatureDisabled,
            "SQLite support requires the `sqlite` feature",
        ),
        (
            TaskServiceBuildError::RecoveryCapacityExceeded { limit: 9 },
            "unfinished task count exceeds recovery capacity 9",
        ),
        (TaskServiceBuildError::InvalidRecoveryPage("x".to_owned()), "invalid recovery page: x"),
        (TaskServiceBuildError::InvalidConfiguration("x".to_owned()), "invalid service configuration: x"),
        (
            TaskServiceBuildError::EventPublisherThread("x".to_owned()),
            "failed to start task event publisher thread: x",
        ),
    ];
    for (error, text) in texts {
        assert_eq!(error.message(), text);
    }
}

#[test]
fn local_result_errors_describe_themselves() {
    let texts = vec![
        (LocalTaskResultError::Cancelled, "local task was cancelled"),
        (LocalTaskResultError::Panicked("x".to_owned()), "local task panicked: x"),
        (LocalTaskResultError::Blocked("x".to_owned()), "local task is blocked: x"),
        (LocalTaskResultError::Infrastructure("x".to_owned()), "local task infrastructure failed: x"),
        (LocalTaskResultError::StoreUnavailable("x".to_owned()), "local task store is unavailable: x"),
        (LocalTaskResultError::ResultChannelClosed, "local task result channel closed"),
        (LocalTaskResultError::FinalizationChannelClosed, "local task finalization channel closed"),
    ];
    for (error, text) in texts {
        assert_eq!(error.message(), text);
    }
}

#[test]
fn store_and_engine_errors_describe_themselves() {
    let texts = vec![
        (
            StoreError::UnsupportedCapability,
            "the selected task store does not support the requested capability",
        ),
        (StoreError::DuplicateTask, "task identifier already exists"),
        (
            StoreError::IdempotencyConflict,
            "idempotency key was reused with a different task request",
        ),
        (StoreError::Conflict, "task state changed before the requested transition"),
        (StoreError::InvalidTransition, "task lifecycle transition is not allowed"),
    ];
    for (error, text) in texts {
        assert_eq!(error.message(), text);
    }
    assert_eq!(
        EngineError::TemporarilyUnavailable.message(),
        "requested resources are temporarily unavailable"
    );
    assert_eq!(
        EngineError::Unsatisfiable.message(),
        "requested resources cannot be satisfied by this engine"
    );
}

#[test]
fn retry_defaults_and_refusals_are_described() {
    let policy = RetryPolicy::default();
    assert_eq!((policy.initial_delay().as_millis(), policy.max_delay().as_millis()), (1_000, 60_000));
    assert_eq!(policy.delay_for_attempt(7).as_millis(), 60_000);
    assert_eq!(
        RetryPolicyError::ZeroInitialDelay.message(),
        "initial retry delay must be greater than zero"
    );
    assert_eq!(
        RetryPolicyError::MaximumBelowInitial.message(),
        "maximum retry delay must be at least the initial delay"
    );
}
