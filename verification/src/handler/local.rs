//! One-shot handlers of process-local tasks.

use vstd::prelude::*;
use vstd::string::StringExecFns;

use super::registry::TaskHandlerDescriptor;
use crate::model::TaskRunError;

verus! {

/// Adapter that turns a one-shot local closure into a non-recoverable handler.
#[derive(Debug)]
pub struct LocalTaskHandler<F> {
    descriptor: TaskHandlerDescriptor,
    closure: Option<F>,
}

/// Content of a [`LocalTaskHandler`].
pub struct LocalHandlerModel<F> {
    /// The handler's exact key.
    pub key: (Seq<char>, Seq<char>),
    /// The closure, until it is taken.
    pub closure: Option<F>,
}

impl<F> View for LocalTaskHandler<F> {
    type V = LocalHandlerModel<F>;

    closed spec fn view(&self) -> LocalHandlerModel<F> {
        LocalHandlerModel { key: self.descriptor@, closure: self.closure }
    }
}

impl<F> LocalTaskHandler<F> {
    /// Creates a one-shot handler for a closure submitted directly to a
    /// volatile service.
    pub fn new(descriptor: TaskHandlerDescriptor, closure: F) -> (handler: Self)
        ensures
            handler@ == (LocalHandlerModel { key: descriptor@, closure: Some(closure) }),
    {
        LocalTaskHandler { descriptor, closure: Some(closure) }
    }

    /// Identifies the exact task type and payload version of this handler.
    pub fn descriptor(&self) -> (descriptor: TaskHandlerDescriptor)
        ensures
            descriptor@ == self@.key,
    {
        self.descriptor.clone()
    }

    /// Hands the closure out to the first attempt; a later one fails.
    pub fn take_closure(&mut self) -> (result: Result<F, TaskRunError>)
        ensures
            final(self)@ == (LocalHandlerModel { closure: None, ..old(self)@ }),
            match result {
                Ok(closure) => old(self)@.closure == Some(closure),
                Err(error) => {
                    &&& old(self)@.closure is None
                    &&& error.category@ == "local_handler"@
                    &&& error.message@ == "one-shot local closure ran more than once"@
                    &&& !error.retryable
                },
            },
    {
        match self.closure.take() {
            Some(closure) => Ok(closure),
            None => Err(
                TaskRunError {
                    category: "local_handler".to_owned(),
                    message: "one-shot local closure ran more than once".to_owned(),
                    retryable: false,
                },
            ),
        }
    }
}

/// The failure of a local closure whose worker ended with `message`.
pub fn closure_stopped(message: String) -> (error: TaskRunError)
    ensures
        error.category@ == "panic"@,
        error.message@ == message@,
        !error.retryable,
{
    TaskRunError { category: "panic".to_owned(), message, retryable: false }
}

} // verus!
