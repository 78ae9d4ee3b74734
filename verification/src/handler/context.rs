//! What a handler knows of the attempt it runs.

use vstd::prelude::*;

use crate::model::TaskId;
use crate::text::texts;

verus! {

/// Identity and assigned resources of one execution attempt, with the signal
/// `S` that tells the handler of a cancellation request.
#[derive(Debug)]
pub struct TaskContext<S> {
    id: TaskId,
    attempt: u32,
    assigned_resources: Vec<String>,
    signal: S,
}

/// Content of a [`TaskContext`] apart from its signal.
#[verifier::ext_equal]
pub struct ContextModel {
    pub id: TaskId,
    pub attempt: u32,
    pub assigned_resources: Seq<Seq<char>>,
}

impl<S> View for TaskContext<S> {
    type V = ContextModel;

    closed spec fn view(&self) -> ContextModel {
        ContextModel {
            id: self.id,
            attempt: self.attempt,
            assigned_resources: texts(self.assigned_resources@),
        }
    }
}

impl<S> TaskContext<S> {
    /// The cancellation signal.
    pub closed spec fn signal(&self) -> S {
        self.signal
    }

    /// Creates the context of one attempt.
    pub fn new(id: TaskId, attempt: u32, assigned_resources: Vec<String>, signal: S) -> (context:
        Self)
        ensures
            context@ == (ContextModel {
                id,
                attempt,
                assigned_resources: texts(assigned_resources@),
            }),
            context.signal() == signal,
    {
        TaskContext { id, attempt, assigned_resources, signal }
    }

    /// Returns the task that this attempt belongs to.
    pub fn task_id(&self) -> (id: TaskId)
        ensures
            id == self@.id,
    {
        self.id
    }

    /// Returns the number of this attempt, counted from one.
    pub fn attempt(&self) -> (attempt: u32)
        ensures
            attempt == self@.attempt,
    {
        self.attempt
    }

    /// Returns the devices reserved for this attempt.
    pub fn assigned_resources(&self) -> (assigned: &Vec<String>)
        ensures
            texts(assigned@) == self@.assigned_resources,
    {
        &self.assigned_resources
    }

    /// Returns the signal that is set when cancellation is requested.
    pub fn cancellation_signal(&self) -> (signal: &S)
        ensures
            *signal == self.signal(),
    {
        &self.signal
    }
}

} // verus!
