//! Resource reservation and execution outcomes.

pub mod local;
pub mod reservation_laws;

pub use local::LocalTaskExecutionEngine;

use vstd::prelude::*;

use crate::handler::TaskRunResult;
use crate::model::TaskId;
use crate::text::texts;

verus! {

/// Opaque resource reservation prepared before the store commits `Running`.
///
/// `R` is what returns the reserved resources when the reservation is abandoned
/// or the execution attempt finishes.
#[derive(Debug)]
pub struct PreparedExecution<R> {
    id: TaskId,
    assigned: Vec<String>,
    release: Option<R>,
}

/// Content of a [`PreparedExecution`].
#[verifier::ext_equal]
pub struct PreparedModel<R> {
    pub id: TaskId,
    pub assigned: Seq<Seq<char>>,
    pub release: Option<R>,
}

impl<R> View for PreparedExecution<R> {
    type V = PreparedModel<R>;

    closed spec fn view(&self) -> PreparedModel<R> {
        PreparedModel { id: self.id, assigned: texts(self.assigned@), release: self.release }
    }
}

impl<R> PreparedExecution<R> {
    /// Creates a prepared execution for a custom engine implementation.
    pub fn new(id: TaskId, assigned: Vec<String>, release: R) -> (prepared: Self)
        ensures
            prepared@ == (PreparedModel {
                id,
                assigned: texts(assigned@),
                release: Some(release),
            }),
    {
        PreparedExecution { id, assigned, release: Some(release) }
    }

    /// Returns the identifier associated with this prepared attempt.
    pub fn task_id(&self) -> (id: TaskId)
        ensures
            id == self@.id,
    {
        self.id
    }

    /// Returns resources assigned by the engine when reserving this attempt.
    pub fn assigned_resources(&self) -> (assigned: &Vec<String>)
        ensures
            texts(assigned@) == self@.assigned,
    {
        &self.assigned
    }

    /// Takes responsibility for releasing this reservation from the value.
    pub fn take_release(&mut self) -> (release: Option<R>)
        ensures
            release == old(self)@.release,
            final(self)@ == (PreparedModel { release: None, ..old(self)@ }),
    {
        self.release.take()
    }
}

/// Outcome reported by an execution backend for one started attempt.
#[derive(Debug)]
pub enum ExecutionOutcome {
    /// The handler returned a result, possibly a classified application error.
    Returned(TaskRunResult),
    /// The handler panicked while constructing or polling its future.
    Panicked(String),
    /// The execution worker stopped before it could report a handler result.
    WorkerStopped(String),
}

/// Engine errors distinguish temporary contention from invalid capacity
/// requests.
#[derive(Debug, Clone, Copy, PartialEq, Eq, Structural)]
pub enum EngineError {
    /// Resources are valid but currently reserved by other tasks.
    TemporarilyUnavailable,
    /// Request exceeds configured capacity or requires unknown resources.
    Unsatisfiable,
    /// Engine cannot accept new task execution.
    Closed,
}

impl EngineError {
    /// The text that describes this error.
    pub open spec fn text(self) -> Seq<char> {
        match self {
            EngineError::TemporarilyUnavailable => {
                "requested resources are temporarily unavailable"@
            },
            EngineError::Unsatisfiable => {
                "requested resources cannot be satisfied by this engine"@
            },
            EngineError::Closed => "task execution engine is shut down"@,
        }
    }

    /// Returns the text that describes this error.
    pub fn message(&self) -> (text: String)
        ensures
            text@ == self.text(),
    {
        match self {
            EngineError::TemporarilyUnavailable => {
                "requested resources are temporarily unavailable".to_owned()
            },
            EngineError::Unsatisfiable => {
                "requested resources cannot be satisfied by this engine".to_owned()
            },
            EngineError::Closed => "task execution engine is shut down".to_owned(),
        }
    }
}

} // verus!
