//! Checks on submitted requests.

use vstd::prelude::*;

use super::error::outcome;
use super::error::ServiceErrorModel;
use super::error::TaskServiceError;
use crate::model::resource::CapacityModel;
use crate::model::resource::DemandModel;
use crate::model::task_request::limits_error;
use crate::model::task_request::MAX_IDEMPOTENCY_KEY_BYTES;
use crate::model::task_request::RequestModel;
use crate::model::ResourceCapacity;
use crate::model::ResourceRequest;
use crate::model::TaskRequest;
use crate::scheduling::fit::can_fit_capacity;
use crate::scheduling::fit::fits_capacity;
use crate::text::byte_len;
use crate::text::utf8_len;

verus! {

/// Whether a demand names a resource or a label by an empty string.
pub open spec fn has_empty_name(demand: DemandModel) -> bool {
    ||| exists|i: int| 0 <= i < demand.custom.len() && (#[trigger] demand.custom[i]).0.len() == 0
    ||| exists|i: int| 0 <= i < demand.gpu_labels.len() && (#[trigger] demand.gpu_labels[i]).len() == 0
}

/// Why a request is refused for a capacity, if it is.
pub open spec fn request_error(request: RequestModel, capacity: CapacityModel) -> Option<
    ServiceErrorModel,
> {
    if limits_error(request) is Some {
        Some(ServiceErrorModel::InvalidRequest(limits_error(request)->0))
    } else if has_empty_name(request.info.resources) {
        Some(
            ServiceErrorModel::InvalidRequest("resource names and GPU labels must not be empty"@),
        )
    } else if !fits_capacity(request.info.resources, capacity) {
        Some(ServiceErrorModel::Unsatisfiable)
    } else {
        None
    }
}

/// Why a request cannot be submitted, if it cannot: it must be valid for the
/// capacity and carry a key that later submissions can repeat.
pub open spec fn submission_error(request: RequestModel, capacity: CapacityModel) -> Option<
    ServiceErrorModel,
> {
    if request_error(request, capacity) is Some {
        request_error(request, capacity)
    } else if request.info.idempotency_key is None || request.info.idempotency_key->0.len() == 0 {
        Some(
            ServiceErrorModel::InvalidRequest(
                "task submission requires a non-empty idempotency key"@,
            ),
        )
    } else {
        None
    }
}

/// Whether a unit result reports exactly `error`.
pub open spec fn answers(
    result: Result<(), TaskServiceError>,
    error: Option<ServiceErrorModel>,
) -> bool {
    match error {
        None => result is Ok,
        Some(e) => outcome(result) == Err::<(), ServiceErrorModel>(e),
    }
}

fn names_empty(demand: &ResourceRequest) -> (found: bool)
    ensures
        found == has_empty_name(demand@),
{
    let mut i: usize = 0;
    while i < demand.custom.len()
        invariant
            i <= demand.custom@.len(),
            forall|k: int| 0 <= k < i ==> (#[trigger] demand@.custom[k]).0.len() != 0,
        decreases demand.custom@.len() - i,
    {
        if demand.custom.name_at(i).is_empty() {
            proof {
                assert(demand@.custom[i as int].0.len() == 0);
            }
            return true;
        }
        i = i + 1;
    }
    let mut j: usize = 0;
    while j < demand.gpu_labels.len()
        invariant
            j <= demand.gpu_labels@.len(),
            forall|k: int| 0 <= k < j ==> (#[trigger] demand@.gpu_labels[k]).len() != 0,
        decreases demand.gpu_labels@.len() - j,
    {
        if demand.gpu_labels[j].as_str().is_empty() {
            proof {
                assert(demand@.gpu_labels[j as int].len() == 0);
            }
            return true;
        }
        j = j + 1;
    }
    false
}

/// Validates request limits and whether configured resources can satisfy it.
pub fn validate_request(request: &TaskRequest, capacity: &ResourceCapacity) -> (result: Result<
    (),
    TaskServiceError,
>)
    ensures
        answers(result, request_error(request@, capacity@)),
{
    match request.validate_limits() {
        Ok(_) => {},
        Err(message) => {
            return Err(TaskServiceError::InvalidRequest(message.to_owned()));
        },
    }
    if names_empty(&request.resources) {
        return Err(
            TaskServiceError::InvalidRequest(
                "resource names and GPU labels must not be empty".to_owned(),
            ),
        );
    }
    if !can_fit_capacity(&request.resources, capacity) {
        return Err(TaskServiceError::Unsatisfiable);
    }
    Ok(())
}

/// Validates a request and that it carries a key that can be repeated.
pub fn validate_submission(request: &TaskRequest, capacity: &ResourceCapacity) -> (result: Result<
    (),
    TaskServiceError,
>)
    ensures
        answers(result, submission_error(request@, capacity@)),
{
    match validate_request(request, capacity) {
        Ok(_) => {},
        Err(error) => {
            return Err(error);
        },
    }
    let usable = match &request.idempotency_key {
        Some(key) => !key.as_str().is_empty(),
        None => false,
    };
    if usable {
        Ok(())
    } else {
        Err(
            TaskServiceError::InvalidRequest(
                "task submission requires a non-empty idempotency key".to_owned(),
            ),
        )
    }
}

/// Why a key cannot be looked up, if it cannot.
pub open spec fn key_error(key: Seq<char>) -> Option<ServiceErrorModel> {
    if key.len() == 0 || byte_len(key) > MAX_IDEMPOTENCY_KEY_BYTES {
        Some(
            ServiceErrorModel::InvalidRequest(
                "idempotency key must contain between 1 and 256 bytes"@,
            ),
        )
    } else {
        None
    }
}

/// Checks a key before it is looked up.
pub fn validate_key(key: &str) -> (result: Result<(), TaskServiceError>)
    ensures
        answers(result, key_error(key@)),
{
    if key.is_empty() || utf8_len(key) > MAX_IDEMPOTENCY_KEY_BYTES {
        return Err(
            TaskServiceError::InvalidRequest(
                "idempotency key must contain between 1 and 256 bytes".to_owned(),
            ),
        );
    }
    Ok(())
}

} // verus!
