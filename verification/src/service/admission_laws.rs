//! Which requests are let in, what they may take, and what shutdown tells.

use vstd::prelude::*;
use vstd::utf8::encode_utf8;

use super::admission_budget::AdmissionBudget;
use super::admission_budget::AdmissionBudgetError;
use super::admission_budget::BudgetModel;
use super::admission_gate::published;
use super::admission_gate::AdmissionGate;
use super::admission_gate::GateModel;
use super::error::admission_stopped;
use super::error::combine_shutdown_results;
use super::error::ServiceErrorModel;
use super::error::TaskServiceCapabilities;
use super::error::TaskServiceError;
use super::validation::validate_key;
use super::validation::validate_request;
use super::validation::validate_submission;
use crate::model::request_laws::is_within_limits;
use crate::model::request_laws::law_limits_are_documented;
use crate::model::resource::DemandModel;
use crate::model::task_request::limits_error;
use crate::model::ResourceCapacity;
use crate::model::StoreCapabilities;
use crate::model::TaskRequest;
use crate::scheduling::fit_laws::could_hold;
use crate::scheduling::fit_laws::lemma_could_hold;
use crate::text::decimal_text;

verus! {

/// Whether every resource and label that a demand names has a name.
pub open spec fn is_named(demand: DemandModel) -> bool {
    &&& forall|i: int| 0 <= i < demand.custom.len() ==> (#[trigger] demand.custom[i]).0 != ""@
    &&& forall|i: int| 0 <= i < demand.gpu_labels.len() ==> #[trigger] demand.gpu_labels[i] != ""@
}

/// A request is valid exactly when it keeps the limits, names what it demands and
/// could be held by the capacity. Of several faults the first of these is told.
pub proof fn law_valid_requests_can_be_satisfied(
    request: TaskRequest,
    capacity: ResourceCapacity,
    result: Result<(), TaskServiceError>,
)
    requires
        call_ensures(validate_request, (&request, &capacity), result),
    ensures
        result is Ok <==> {
            &&& is_within_limits(request@)
            &&& is_named(request@.info.resources)
            &&& could_hold(request@.info.resources, capacity@)
        },
        !is_within_limits(request@) ==> (result matches Err(error) && error@
            is InvalidRequest && Some(error@->InvalidRequest_0) == limits_error(request@)),
        is_within_limits(request@) && !is_named(request@.info.resources) ==> (result matches Err(
            error,
        ) && error@ == ServiceErrorModel::InvalidRequest(
            "resource names and GPU labels must not be empty"@,
        )),
        is_within_limits(request@) && is_named(request@.info.resources) && !could_hold(
            request@.info.resources,
            capacity@,
        ) ==> (result matches Err(error) && error@ is Unsatisfiable),
{
    reveal_strlit("");
    law_limits_are_documented(request@);
    lemma_could_hold(request@.info.resources, capacity@);
    let demand = request@.info.resources;
    assert forall|text: Seq<char>| text.len() == 0 implies text == ""@ by {
        assert(text =~= ""@);
    }
    assert(super::validation::has_empty_name(demand) <==> !is_named(demand));
}

/// A submission takes a valid request with an idempotency key that is not empty.
pub proof fn law_submissions_need_a_key(
    request: TaskRequest,
    capacity: ResourceCapacity,
    valid: Result<(), TaskServiceError>,
    result: Result<(), TaskServiceError>,
)
    requires
        call_ensures(validate_request, (&request, &capacity), valid),
        call_ensures(validate_submission, (&request, &capacity), result),
    ensures
        result is Ok <==> valid is Ok && (request.idempotency_key matches Some(key) && key@.len()
            > 0),
        valid matches Err(first) ==> (result matches Err(error) && error@ == first@),
        valid is Ok && result is Err ==> result->Err_0@ == ServiceErrorModel::InvalidRequest(
            "task submission requires a non-empty idempotency key"@,
        ),
{
}

/// A key can be looked up exactly when it takes between 1 and 256 bytes.
pub proof fn law_keys_are_bounded(key: &str, result: Result<(), TaskServiceError>)
    requires
        call_ensures(validate_key, (key,), result),
    ensures
        result is Ok <==> key@.len() > 0 && encode_utf8(key@).len() <= 256,
        result matches Err(error) ==> error@ == ServiceErrorModel::InvalidRequest(
            "idempotency key must contain between 1 and 256 bytes"@,
        ),
{
}

/// A submission fits the budget exactly when a slot is free and its payload fits
/// what is left; a missing slot is told first, and a payload that is too large is
/// told what is left.
pub proof fn law_budgets_admit_what_fits(budget: BudgetModel, payload_bytes: usize)
    requires
        budget.valid(),
    ensures
        budget.reserve_error(payload_bytes) is None <==> budget.submissions < budget.max_submissions
            && budget.payload_bytes + payload_bytes <= budget.max_payload_bytes,
        budget.submissions == budget.max_submissions ==> budget.reserve_error(payload_bytes) == Some(
            AdmissionBudgetError::SubmissionLimitExceeded { limit: budget.max_submissions },
        ),
        budget.submissions < budget.max_submissions ==> (budget.reserve_error(
            payload_bytes,
        ) matches Some(error) ==> {
            &&& error is PayloadBytesExceeded
            &&& error->requested == payload_bytes
            &&& error->available + budget.payload_bytes == budget.max_payload_bytes
        }),
{
}

/// A reservation takes one slot and its payload's bytes, and giving it back frees
/// exactly these; the limits never change.
pub proof fn law_budgets_count_slots_and_bytes(budget: BudgetModel, payload_bytes: usize)
    requires
        budget.valid(),
    ensures
        budget.reserve_error(payload_bytes) is None ==> {
            let after = budget.reserved(payload_bytes);
            &&& after.submissions == budget.submissions + 1
            &&& after.payload_bytes == budget.payload_bytes + payload_bytes
            &&& after.max_submissions == budget.max_submissions
            &&& after.max_payload_bytes == budget.max_payload_bytes
        },
        budget.can_release(payload_bytes) <==> budget.submissions >= 1 && payload_bytes
            <= budget.payload_bytes,
        budget.can_release(payload_bytes) ==> {
            let after = budget.released(payload_bytes);
            &&& after.submissions + 1 == budget.submissions
            &&& after.payload_bytes + payload_bytes == budget.payload_bytes
            &&& after.max_submissions == budget.max_submissions
            &&& after.max_payload_bytes == budget.max_payload_bytes
        },
{
}

/// A new budget is empty, and a refusal is passed on with its numbers.
pub proof fn law_budget_refusals_are_reported(
    max_payload_bytes: usize,
    max_submissions: usize,
    budget: AdmissionBudget,
    refusal: AdmissionBudgetError,
    error: TaskServiceError,
)
    requires
        call_ensures(AdmissionBudget::new, (max_payload_bytes, max_submissions), budget),
        call_ensures(AdmissionBudgetError::into_service_error, (refusal,), error),
    ensures
        budget@.submissions == 0 && budget@.payload_bytes == 0,
        budget@.max_submissions == max_submissions,
        budget@.max_payload_bytes == max_payload_bytes,
        refusal matches AdmissionBudgetError::SubmissionLimitExceeded { limit } ==> error@ == (
        ServiceErrorModel::SubmissionLimitExceeded { limit }),
        refusal matches AdmissionBudgetError::PayloadBytesExceeded { requested, available }
            ==> error@ == (ServiceErrorModel::PayloadBudgetExceeded {
            requested_bytes: requested,
            available_bytes: available,
        }),
{
}

/// Shutdown begins once, from an open gate, and publishes its first result; what is
/// inside stays inside.
pub proof fn law_gates_close_step_by_step(
    gate: GateModel,
    result: Result<(), ServiceErrorModel>,
)
    ensures
        gate.phase is Open ==> gate.closing().phase is Closing,
        gate.phase is Closing ==> gate.closing().phase is Closing,
        gate.phase is Closed ==> gate.closing().phase is Closed,
        gate.closing().active == gate.active,
        gate.closing().result == gate.result,
        gate.finished(result).phase is Closed,
        gate.finished(result).active == gate.active,
        gate.phase is Closed ==> gate.finished(result).result == gate.result,
        !(gate.phase is Closed) ==> gate.finished(result).result is Some,
{
}

/// Every caller of shutdown is told success for success; a failure to close the
/// notifications, of the store or of the scheduler as it is; and any other failure
/// as one of the store, with the failure's words.
pub proof fn law_shutdown_results_are_published(
    gate: GateModel,
    result: Result<(), ServiceErrorModel>,
)
    requires
        !(gate.phase is Closed),
    ensures
        gate.finished(result).result == Some(published(result)),
        result is Ok <==> published(result) is Ok,
        result matches Err(error) ==> {
            if error is NotificationClose || error is StoreUnavailable
                || error is SchedulerUnavailable {
                published(result) == result
            } else {
                published(result) == Err::<(), _>(
                    ServiceErrorModel::StoreUnavailable(error.message()),
                )
            }
        },
{
}

/// A new gate is open and empty. A gate tells whether it is closed and idle, how
/// many operations are inside, and the published result once there is one.
pub proof fn law_gates_tell_their_state(
    fresh: AdmissionGate,
    gate: AdmissionGate,
    closed: bool,
    idle: bool,
    active: usize,
    told: Option<Result<(), TaskServiceError>>,
)
    requires
        call_ensures(AdmissionGate::new, (), fresh),
        call_ensures(AdmissionGate::is_closed, (&gate,), closed),
        call_ensures(AdmissionGate::is_idle, (&gate,), idle),
        call_ensures(AdmissionGate::active, (&gate,), active),
        call_ensures(AdmissionGate::close_result, (&gate,), told),
    ensures
        fresh@.phase is Open && fresh@.active == 0 && fresh@.result is None,
        closed <==> gate@.phase is Closed,
        idle <==> active == 0,
        active == gate@.active,
        told is Some <==> gate@.result is Some,
        told matches Some(Ok(_)) ==> gate@.result->0 is Ok,
        told matches Some(Err(error)) ==> gate@.result->0 == Err::<(), _>(error@),
{
}

/// Shutdown succeeds exactly when convergence and notifications both do. One
/// failure alone is told as it is. Of two failures the first stays the cause and
/// the second is appended to its words.
pub proof fn law_shutdown_failures_are_combined(
    primary: Result<(), TaskServiceError>,
    notification: Result<(), TaskServiceError>,
    result: Result<(), TaskServiceError>,
)
    requires
        call_ensures(combine_shutdown_results, (primary, notification), result),
    ensures
        result is Ok <==> primary is Ok && notification is Ok,
        primary is Ok ==> (notification matches Err(error) ==> (result matches Err(told) && told@
            == error@)),
        notification is Ok ==> (primary matches Err(error) ==> (result matches Err(told) && told@
            == error@)),
        primary matches Err(first) ==> (notification matches Err(second) ==> {
            &&& result matches Err(told) && told@ is StoreUnavailable
            &&& result->Err_0@->StoreUnavailable_0 == if first@ is StoreUnavailable && second@
                is NotificationClose {
                first@->StoreUnavailable_0 + "; notification close failed: "@
                    + second@->NotificationClose_0
            } else {
                first@.message() + "; notification close failed: "@ + second@.message()
            }
        }),
{
}

/// What service errors say.
pub proof fn law_service_errors_are_described(error: TaskServiceError, text: String)
    requires
        call_ensures(TaskServiceError::message, (&error,), text),
    ensures
        match error@ {
            ServiceErrorModel::Store(inner) => text@ == inner.message(),
            ServiceErrorModel::QueueFull => text@ == "task queue is full"@,
            ServiceErrorModel::PayloadBudgetExceeded { requested_bytes, available_bytes } => text@
                == "in-flight task payload budget exceeded: requested "@ + decimal_text(
                requested_bytes as nat,
            ) + " bytes, "@ + decimal_text(available_bytes as nat) + " bytes available"@,
            ServiceErrorModel::SubmissionLimitExceeded { limit } => text@
                == "in-flight task submission limit reached ("@ + decimal_text(limit as nat)
                + ")"@,
            ServiceErrorModel::Unsatisfiable => text@
                == "task request cannot be satisfied by configured resources"@,
            ServiceErrorModel::InvalidRequest(detail) => text@ == "invalid task request: "@
                + detail,
            ServiceErrorModel::Blocked => text@ == "task is blocked and requires intervention"@,
            ServiceErrorModel::NotBlocked { .. } => text@ == "task is not blocked"@,
            ServiceErrorModel::AttemptsExhausted { attempts, limit } => text@
                == "task exhausted its execution attempt budget ("@ + decimal_text(attempts as nat)
                + "/"@ + decimal_text(limit as nat) + ")"@,
            ServiceErrorModel::ShuttingDown => text@ == "task execution service is shutting down"@,
            ServiceErrorModel::ShutdownTimedOut => text@
                == "task execution service did not shut down before the deadline"@,
            ServiceErrorModel::StoreUnavailable(detail) => text@
                == "task execution service is paused after a task store failure: "@ + detail,
            ServiceErrorModel::SchedulerUnavailable(detail) => text@
                == "task scheduler is unavailable: "@ + detail,
            ServiceErrorModel::NotificationClose(detail) => text@
                == "task notification publisher failed to close: "@ + detail,
            ServiceErrorModel::MissingHandler { task_type, version } => text@
                == "no handler registered for `"@ + task_type + "` version `"@ + version + "`"@,
            ServiceErrorModel::UnsupportedCapability => text@
                == "local closure submission is unavailable with a restart-recoverable store"@,
        },
{
}

/// A service passes on what its store can do, and takes local closures exactly
/// where the store does not recover tasks.
pub proof fn law_local_closures_need_a_volatile_store(
    store: StoreCapabilities,
    capabilities: TaskServiceCapabilities,
)
    requires
        call_ensures(TaskServiceCapabilities::of, (store,), capabilities),
    ensures
        capabilities.store == store,
        capabilities.submit_local <==> !store.restart_recovery,
{
}

/// A worker that stopped is told as a failure of the store, with its words.
pub proof fn law_stopped_workers_are_reported(error: &str, failure: TaskServiceError)
    requires
        call_ensures(admission_stopped, (error,), failure),
    ensures
        failure@ == ServiceErrorModel::StoreUnavailable("task admission worker stopped: "@ + error@),
{
}

} // verus!
