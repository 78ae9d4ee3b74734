//! Which handlers a registry takes, and what it finds.

use vstd::prelude::*;

use super::context::TaskContext;
use super::local::closure_stopped;
use super::local::LocalTaskHandler;
use super::registry::register_post;
use super::registry::RegistryError;
use super::registry::RegistryErrorModel;
use super::registry::TaskHandlerDescriptor;
use super::registry::TaskHandlerRegistry;
use crate::model::TaskId;
use crate::model::TaskRunError;

verus! {

/// A handler is registered exactly when its type and version are not empty and no
/// handler is registered for both. It is then found under both, with its source,
/// and every other key finds what it found before.
pub proof fn law_handlers_are_registered_once<H>(
    before: Map<(Seq<char>, Seq<char>), (H, Seq<char>)>,
    after: Map<(Seq<char>, Seq<char>), (H, Seq<char>)>,
    task_type: Seq<char>,
    version: Seq<char>,
    handler: H,
    source: Seq<char>,
    result: Result<(), RegistryError>,
    other: (Seq<char>, Seq<char>),
)
    requires
        register_post(before, after, (task_type, version), handler, source, result),
    ensures
        result is Ok <==> task_type.len() > 0 && version.len() > 0 && !before.contains_key(
            (task_type, version),
        ),
        result is Ok ==> after.contains_key((task_type, version)) && after[(task_type, version)].0
            == handler && after[(task_type, version)].1 == source,
        result is Err ==> after == before,
        other != (task_type, version) ==> (after.contains_key(other) <==> before.contains_key(
            other,
        )),
        other != (task_type, version) && before.contains_key(other) ==> after[other]
            == before[other],
{
}

/// A refused registration is told that a part of its key is empty, or else the key
/// and both sources.
pub proof fn law_refused_handlers_are_told_why<H>(
    before: Map<(Seq<char>, Seq<char>), (H, Seq<char>)>,
    after: Map<(Seq<char>, Seq<char>), (H, Seq<char>)>,
    task_type: Seq<char>,
    version: Seq<char>,
    handler: H,
    source: Seq<char>,
    error: RegistryError,
)
    requires
        register_post(before, after, (task_type, version), handler, source, Err(error)),
    ensures
        error@ is InvalidDescriptor <==> task_type.len() == 0 || version.len() == 0,
        error@ is Duplicate ==> {
            &&& error@->task_type == task_type
            &&& error@->version == version
            &&& error@->first_source == before[(task_type, version)].1
            &&& error@->second_source == source
        },
{
}

/// Looking a handler up finds the one registered for exactly this type and
/// version, and nothing otherwise; a new registry finds nothing.
pub proof fn law_handlers_are_found_by_type_and_version<H>(
    registry: TaskHandlerRegistry<H>,
    task_type: &str,
    version: &str,
    found: Option<&H>,
    fresh: TaskHandlerRegistry<H>,
    nothing: Option<&H>,
)
    requires
        call_ensures(
            TaskHandlerRegistry::<H>::resolve,
            (&registry, task_type, version),
            found,
        ),
        call_ensures(TaskHandlerRegistry::<H>::new, (), fresh),
        call_ensures(TaskHandlerRegistry::<H>::resolve, (&fresh, task_type, version), nothing),
    ensures
        found is Some <==> registry@.contains_key((task_type@, version@)),
        found matches Some(handler) ==> *handler == registry@[(task_type@, version@)].0,
        nothing is None,
{
}

/// What registry errors say.
pub proof fn law_registry_errors_are_described(error: RegistryError, text: String)
    requires
        call_ensures(RegistryError::message, (&error,), text),
    ensures
        match error@ {
            RegistryErrorModel::InvalidDescriptor => text@
                == "handler task type and version must not be empty"@,
            RegistryErrorModel::Duplicate { task_type, version, first_source, second_source } => text@
                == "duplicate handler for `"@ + task_type + "` version `"@ + version + "` from `"@
                + first_source + "` and `"@ + second_source + "`"@,
        },
{
}

/// An attempt knows its task, its number, its devices and its signal.
pub proof fn law_attempts_know_their_task<S>(
    id: TaskId,
    attempt: u32,
    devices: Vec<String>,
    signal: S,
    context: TaskContext<S>,
    told_id: TaskId,
    told_attempt: u32,
    told_devices: &Vec<String>,
    told_signal: &S,
)
    requires
        call_ensures(TaskContext::<S>::new, (id, attempt, devices, signal), context),
        call_ensures(TaskContext::<S>::task_id, (&context,), told_id),
        call_ensures(TaskContext::<S>::attempt, (&context,), told_attempt),
        call_ensures(TaskContext::<S>::assigned_resources, (&context,), told_devices),
        call_ensures(TaskContext::<S>::cancellation_signal, (&context,), told_signal),
    ensures
        told_id == id,
        told_attempt == attempt,
        told_devices@.len() == devices@.len(),
        forall|i: int|
            0 <= i < devices@.len() ==> (#[trigger] told_devices@[i])@ == devices@[i]@,
        *told_signal == signal,
{
    let told = crate::text::texts(told_devices@);
    let given = crate::text::texts(devices@);
    assert(told.len() == told_devices@.len() && given.len() == devices@.len());
    assert forall|i: int| 0 <= i < devices@.len() implies (#[trigger] told_devices@[i])@
        == devices@[i]@ by {
        assert(told[i] == given[i]);
    }
}

/// A local handler keeps its key and its closure, and a closure whose worker ended
/// fails as a panic that is not retried.
pub proof fn law_local_handlers_keep_their_closure<F>(
    descriptor: TaskHandlerDescriptor,
    closure: F,
    handler: LocalTaskHandler<F>,
    told: TaskHandlerDescriptor,
    message: String,
    error: TaskRunError,
)
    requires
        call_ensures(LocalTaskHandler::<F>::new, (descriptor, closure), handler),
        call_ensures(LocalTaskHandler::<F>::descriptor, (&handler,), told),
        call_ensures(closure_stopped, (message,), error),
    ensures
        handler@.closure == Some(closure),
        told.task_type@ == descriptor.task_type@,
        told.version@ == descriptor.version@,
        error.category@ == "panic"@,
        error.message@ == message@,
        !error.retryable,
{
}

} // verus!
