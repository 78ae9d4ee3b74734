//! The task service: admission, scheduling and execution decisions.

pub mod admission_budget;
pub mod admission_gate;
pub mod admission_laws;
pub mod attempts;
pub mod builder;
pub mod clock;
pub mod control;
pub mod control_laws;
pub mod error;
pub mod execution_state;
pub mod local_task;
pub mod notifications;
pub mod outcome_laws;
pub mod progress;
pub mod queue_laws;
pub mod recovery_laws;
pub mod retry_laws;
pub mod retry_policy;
pub mod runs;
pub mod scheduler;
pub mod scheduler_laws;
pub mod scheduler_queue;
pub mod service_core;
pub mod service_laws;
pub mod status_laws;
pub mod submission;
pub mod submission_laws;
pub mod task_status;
pub mod validation;
pub mod wait_registry;

pub use builder::TaskExecutionServiceBuilder;
pub use builder::TaskServiceBuildError;
pub use error::CancelOutcome;
pub use error::TaskServiceCapabilities;
pub use error::TaskServiceError;
pub use local_task::LocalTaskOutcome;
pub use local_task::LocalTaskResultError;
pub use notifications::TaskEventNotificationStats;
pub use retry_policy::RetryPolicy;
pub use retry_policy::RetryPolicyError;
pub use task_status::TaskExecutionStats;
pub use task_status::TaskStatus;
