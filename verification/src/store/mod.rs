//! Task history storage.

pub mod lifecycle;
pub mod lifecycle_laws;
pub mod memory;
pub mod memory_history;
pub mod memory_laws;
pub mod memory_model;
pub mod retention_laws;
pub mod row_laws;
pub mod sqlite;
pub mod statements;

pub use memory::MemoryTaskStore;
pub use memory::DEFAULT_MAX_UNFINISHED_RECORDS;

use vstd::prelude::*;

use crate::text::decimal;
use crate::text::decimal_text;
use crate::text::join2;
use crate::text::join3;

verus! {

/// Storage errors distinguish unsupported capabilities from ordinary
/// persistence failures.
#[derive(Debug)]
pub enum StoreError {
    /// The operation requires a capability that this store does not provide.
    UnsupportedCapability,
    /// A task ID already belongs to a different accepted request.
    DuplicateTask,
    /// An idempotency key was reused with a different request.
    IdempotencyConflict,
    /// The in-memory store cannot retain the request payload within its
    /// configured budget.
    CapacityExceeded {
        /// Bytes in the request that could not be retained.
        requested_bytes: usize,
        /// Bytes available after evicting eligible terminal records.
        available_bytes: usize,
    },
    /// The in-memory store already retains its configured maximum number of
    /// nonterminal task records.
    UnfinishedRecordLimitExceeded {
        /// Maximum number of nonterminal records this store retains.
        limit: usize,
    },
    /// The expected state revision or attempt no longer matches.
    Conflict,
    /// A request or persisted diagnostic violates a documented size limit.
    InvalidRequest(&'static str),
    /// A valid revision attempted an illegal lifecycle transition.
    InvalidTransition,
    /// No task with the requested identifier is retained.
    NotFound,
    /// Persistence implementation reported an operational failure.
    Failure(String),
}

/// Content of a [`StoreError`].
#[verifier::ext_equal]
pub enum StoreErrorModel {
    UnsupportedCapability,
    DuplicateTask,
    IdempotencyConflict,
    CapacityExceeded { requested_bytes: usize, available_bytes: usize },
    UnfinishedRecordLimitExceeded { limit: usize },
    Conflict,
    InvalidRequest(Seq<char>),
    InvalidTransition,
    NotFound,
    Failure(Seq<char>),
}

impl View for StoreError {
    type V = StoreErrorModel;

    open spec fn view(&self) -> StoreErrorModel {
        match self {
            StoreError::UnsupportedCapability => StoreErrorModel::UnsupportedCapability,
            StoreError::DuplicateTask => StoreErrorModel::DuplicateTask,
            StoreError::IdempotencyConflict => StoreErrorModel::IdempotencyConflict,
            StoreError::CapacityExceeded { requested_bytes, available_bytes } => {
                StoreErrorModel::CapacityExceeded {
                    requested_bytes: *requested_bytes,
                    available_bytes: *available_bytes,
                }
            },
            StoreError::UnfinishedRecordLimitExceeded { limit } => {
                StoreErrorModel::UnfinishedRecordLimitExceeded { limit: *limit }
            },
            StoreError::Conflict => StoreErrorModel::Conflict,
            StoreError::InvalidRequest(message) => StoreErrorModel::InvalidRequest(message@),
            StoreError::InvalidTransition => StoreErrorModel::InvalidTransition,
            StoreError::NotFound => StoreErrorModel::NotFound,
            StoreError::Failure(message) => StoreErrorModel::Failure(message@),
        }
    }
}

impl StoreErrorModel {
    /// The text that describes this error.
    pub open spec fn message(self) -> Seq<char> {
        match self {
            StoreErrorModel::UnsupportedCapability => {
                "the selected task store does not support the requested capability"@
            },
            StoreErrorModel::DuplicateTask => "task identifier already exists"@,
            StoreErrorModel::IdempotencyConflict => {
                "idempotency key was reused with a different task request"@
            },
            StoreErrorModel::CapacityExceeded { requested_bytes, available_bytes } => {
                "task payload budget exceeded: requested "@ + decimal_text(requested_bytes as nat)
                    + " bytes, "@ + decimal_text(available_bytes as nat) + " bytes available"@
            },
            StoreErrorModel::UnfinishedRecordLimitExceeded { limit } => {
                "unfinished task record limit exceeded ("@ + decimal_text(limit as nat) + ")"@
            },
            StoreErrorModel::Conflict => "task state changed before the requested transition"@,
            StoreErrorModel::InvalidRequest(detail) => "invalid task data: "@ + detail,
            StoreErrorModel::InvalidTransition => "task lifecycle transition is not allowed"@,
            StoreErrorModel::NotFound => "task was not found"@,
            StoreErrorModel::Failure(detail) => "task store failure: "@ + detail,
        }
    }
}

impl StoreError {
    /// Returns the text that describes this error.
    pub fn message(&self) -> (text: String)
        ensures
            text@ == self@.message(),
    {
        match self {
            StoreError::UnsupportedCapability => {
                "the selected task store does not support the requested capability".to_owned()
            },
            StoreError::DuplicateTask => "task identifier already exists".to_owned(),
            StoreError::IdempotencyConflict => {
                "idempotency key was reused with a different task request".to_owned()
            },
            StoreError::CapacityExceeded { requested_bytes, available_bytes } => {
                let head = join3(
                    "task payload budget exceeded: requested ",
                    decimal(*requested_bytes as u64).as_str(),
                    " bytes, ",
                );
                join3(
                    head.as_str(),
                    decimal(*available_bytes as u64).as_str(),
                    " bytes available",
                )
            },
            StoreError::UnfinishedRecordLimitExceeded { limit } => join3(
                "unfinished task record limit exceeded (",
                decimal(*limit as u64).as_str(),
                ")",
            ),
            StoreError::Conflict => "task state changed before the requested transition".to_owned(),
            StoreError::InvalidRequest(detail) => join2("invalid task data: ", detail),
            StoreError::InvalidTransition => "task lifecycle transition is not allowed".to_owned(),
            StoreError::NotFound => "task was not found".to_owned(),
            StoreError::Failure(detail) => join2("task store failure: ", detail.as_str()),
        }
    }
}

} // verus!
