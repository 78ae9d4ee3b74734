//! Results of process-local tasks.

use vstd::prelude::*;

use crate::handler::TaskRunOutcome;
use crate::handler::TaskRunResult;
use crate::model::task_record::StateModel;
use crate::model::TaskOutput;
use crate::model::TaskRunError;
use crate::model::TaskState;
use crate::text::join2;
use crate::text::same_text;

verus! {

/// Outcome returned by a process-local task closure.
#[derive(Debug)]
pub enum LocalTaskOutcome<R, E> {
    /// Provides a process-local value and a bounded persisted summary.
    Succeeded {
        /// Full value delivered only through the local handle.
        value: R,
        /// Small summary retained in the task record.
        summary: TaskOutput,
    },
    /// Provides the original application error type.
    Failed(E),
    /// Acknowledges cancellation without a result value.
    Cancelled,
}

/// Failure to obtain a typed local result after a task was accepted.
#[derive(Debug)]
pub enum LocalTaskResultError {
    /// Execution was cancelled before or during the handler.
    Cancelled,
    /// Execution panicked.
    Panicked(String),
    /// Execution cannot currently continue.
    Blocked(String),
    /// The engine failed without a typed application error.
    Infrastructure(String),
    /// A task store failure prevented authoritative finalization.
    StoreUnavailable(String),
    /// The typed result channel closed unexpectedly.
    ResultChannelClosed,
    /// The authoritative finalization channel closed unexpectedly.
    FinalizationChannelClosed,
}

/// Content of a [`LocalTaskResultError`].
#[verifier::ext_equal]
pub enum LocalErrorModel {
    Cancelled,
    Panicked(Seq<char>),
    Blocked(Seq<char>),
    Infrastructure(Seq<char>),
    StoreUnavailable(Seq<char>),
    ResultChannelClosed,
    FinalizationChannelClosed,
}

impl View for LocalTaskResultError {
    type V = LocalErrorModel;

    open spec fn view(&self) -> LocalErrorModel {
        match self {
            LocalTaskResultError::Cancelled => LocalErrorModel::Cancelled,
            LocalTaskResultError::Panicked(message) => LocalErrorModel::Panicked(message@),
            LocalTaskResultError::Blocked(message) => LocalErrorModel::Blocked(message@),
            LocalTaskResultError::Infrastructure(message) => LocalErrorModel::Infrastructure(
                message@,
            ),
            LocalTaskResultError::StoreUnavailable(message) => LocalErrorModel::StoreUnavailable(
                message@,
            ),
            LocalTaskResultError::ResultChannelClosed => LocalErrorModel::ResultChannelClosed,
            LocalTaskResultError::FinalizationChannelClosed => {
                LocalErrorModel::FinalizationChannelClosed
            },
        }
    }
}

impl LocalErrorModel {
    /// The text that describes this error.
    pub open spec fn message(self) -> Seq<char> {
        match self {
            LocalErrorModel::Cancelled => "local task was cancelled"@,
            LocalErrorModel::Panicked(detail) => "local task panicked: "@ + detail,
            LocalErrorModel::Blocked(detail) => "local task is blocked: "@ + detail,
            LocalErrorModel::Infrastructure(detail) => "local task infrastructure failed: "@
                + detail,
            LocalErrorModel::StoreUnavailable(detail) => "local task store is unavailable: "@
                + detail,
            LocalErrorModel::ResultChannelClosed => "local task result channel closed"@,
            LocalErrorModel::FinalizationChannelClosed => "local task finalization channel closed"@,
        }
    }
}

impl LocalTaskResultError {
    /// Returns the text that describes this error.
    pub fn message(&self) -> (text: String)
        ensures
            text@ == self@.message(),
    {
        match self {
            LocalTaskResultError::Cancelled => "local task was cancelled".to_owned(),
            LocalTaskResultError::Panicked(detail) => join2(
                "local task panicked: ",
                detail.as_str(),
            ),
            LocalTaskResultError::Blocked(detail) => join2(
                "local task is blocked: ",
                detail.as_str(),
            ),
            LocalTaskResultError::Infrastructure(detail) => join2(
                "local task infrastructure failed: ",
                detail.as_str(),
            ),
            LocalTaskResultError::StoreUnavailable(detail) => join2(
                "local task store is unavailable: ",
                detail.as_str(),
            ),
            LocalTaskResultError::ResultChannelClosed => {
                "local task result channel closed".to_owned()
            },
            LocalTaskResultError::FinalizationChannelClosed => {
                "local task finalization channel closed".to_owned()
            },
        }
    }
}

/// Splits a closure outcome into what its local handle receives and what the
/// service persists. `message` describes the application error.
pub fn adapt_local_outcome<R, E>(outcome: LocalTaskOutcome<R, E>, message: String) -> (parts: (
    Option<Result<R, E>>,
    TaskRunResult,
))
    ensures
        match outcome {
            LocalTaskOutcome::Succeeded { value, summary } => {
                &&& parts.0 == Some(Ok::<R, E>(value))
                &&& parts.1 == Ok::<TaskRunOutcome, TaskRunError>(
                    TaskRunOutcome::Succeeded(summary),
                )
            },
            LocalTaskOutcome::Failed(error) => {
                &&& parts.0 == Some(Err::<R, E>(error))
                &&& parts.1 matches Err(failure) && failure.category@ == "local"@
                    && failure.message == message && !failure.retryable
            },
            LocalTaskOutcome::Cancelled => {
                &&& parts.0 is None
                &&& parts.1 == Ok::<TaskRunOutcome, TaskRunError>(TaskRunOutcome::Cancelled)
            },
        },
{
    match outcome {
        LocalTaskOutcome::Succeeded { value, summary } => (
            Some(Ok(value)),
            Ok(TaskRunOutcome::Succeeded(summary)),
        ),
        LocalTaskOutcome::Failed(error) => (
            Some(Err(error)),
            Err(TaskRunError { category: "local".to_owned(), message, retryable: false }),
        ),
        LocalTaskOutcome::Cancelled => (None, Ok(TaskRunOutcome::Cancelled)),
    }
}

/// Whether the typed result decides what a handle returns for a final state.
pub fn needs_typed_result(state: &TaskState) -> (needed: bool)
    ensures
        needed == (state@ is Succeeded || state@ is Failed),
{
    matches!(state, TaskState::Succeeded | TaskState::Failed { .. })
}

/// What a local handle returns for a final state and a typed result, where a
/// missing typed result means that its channel closed.
pub open spec fn local_outcome<R, E>(state: StateModel, typed: Option<Result<R, E>>) -> Result<
    Result<R, E>,
    LocalErrorModel,
> {
    match state {
        StateModel::Succeeded => match typed {
            Some(result) => Ok(result),
            None => Err(LocalErrorModel::ResultChannelClosed),
        },
        StateModel::Failed { category, message } => match typed {
            Some(Err(error)) => Ok(Err(error)),
            Some(Ok(_)) => Err(LocalErrorModel::Infrastructure(message)),
            None => if category == "engine"@ {
                Err(LocalErrorModel::Infrastructure(message))
            } else {
                Err(LocalErrorModel::ResultChannelClosed)
            },
        },
        StateModel::Cancelled => Err(LocalErrorModel::Cancelled),
        StateModel::Panicked { message } => Err(LocalErrorModel::Panicked(message)),
        StateModel::Blocked { reason } => Err(LocalErrorModel::Blocked(reason)),
        StateModel::Queued | StateModel::Running => Err(
            LocalErrorModel::Infrastructure("finalization received a non-final task state"@),
        ),
    }
}

/// Delivers the typed result of a task whose authoritative final state is known.
pub fn local_result<R, E>(state: TaskState, typed: Option<Result<R, E>>) -> (result: Result<
    Result<R, E>,
    LocalTaskResultError,
>)
    ensures
        match result {
            Ok(value) => local_outcome(state@, typed) == Ok::<Result<R, E>, LocalErrorModel>(value),
            Err(error) => local_outcome(state@, typed) == Err::<Result<R, E>, LocalErrorModel>(
                error@,
            ),
        },
{
    match state {
        TaskState::Succeeded => match typed {
            Some(result) => Ok(result),
            None => Err(LocalTaskResultError::ResultChannelClosed),
        },
        TaskState::Failed { category, message } => match typed {
            Some(Err(error)) => Ok(Err(error)),
            Some(Ok(_)) => Err(LocalTaskResultError::Infrastructure(message)),
            None => if same_text(category.as_str(), "engine") {
                Err(LocalTaskResultError::Infrastructure(message))
            } else {
                Err(LocalTaskResultError::ResultChannelClosed)
            },
        },
        TaskState::Cancelled => Err(LocalTaskResultError::Cancelled),
        TaskState::Panicked { message } => Err(LocalTaskResultError::Panicked(message)),
        TaskState::Blocked { reason } => Err(LocalTaskResultError::Blocked(reason)),
        TaskState::Queued | TaskState::Running => Err(
            LocalTaskResultError::Infrastructure(
                "finalization received a non-final task state".to_owned(),
            ),
        ),
    }
}

/// A typed value is delivered only for a task that succeeded, and an
/// application error only for one that succeeded or failed: a cancelled, panicked
/// or blocked task never delivers a typed result.
pub proof fn law_typed_results_follow_the_final_state<R, E>(
    state: StateModel,
    typed: Option<Result<R, E>>,
)
    ensures
        local_outcome(state, typed) matches Ok(Ok(_)) ==> state is Succeeded,
        local_outcome(state, typed) is Ok ==> state is Succeeded || state is Failed,
        local_outcome(state, typed) matches Err(LocalErrorModel::Cancelled) ==> state is Cancelled,
{
}

} // verus!
