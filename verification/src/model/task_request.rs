//! Task requests, their limits, outputs and handler errors.

use vstd::prelude::*;

use super::name_map::NameMap;
use super::resource::no_demand;
use super::resource::DemandModel;
use super::resource::ResourceRequest;
use crate::text::byte_len;
use crate::text::copy_opt_text;
use crate::text::opt_text;
use crate::text::same_opt_text;
use crate::text::same_text;
use crate::text::utf8_len;
use crate::text::IntoText;

verus! {

/// Maximum number of bytes accepted in a reconstructable task payload.
pub const MAX_TASK_PAYLOAD_BYTES: usize = 16_777_216;

/// Maximum number of bytes retained for a task output summary.
pub const MAX_TASK_OUTPUT_SUMMARY_BYTES: usize = 65_536;

/// Maximum byte lengths for stable task request identifiers.
pub const MAX_TASK_TYPE_BYTES: usize = 128;

/// Maximum byte lengths for handler versions.
pub const MAX_HANDLER_VERSION_BYTES: usize = 64;

/// Maximum byte lengths for caller correlation keys.
pub const MAX_CORRELATION_KEY_BYTES: usize = 256;

/// Maximum byte lengths for idempotency keys.
pub const MAX_IDEMPOTENCY_KEY_BYTES: usize = 256;

/// Maximum number of metadata entries per task.
pub const MAX_TASK_METADATA_ENTRIES: usize = 32;

/// Maximum byte length of each metadata key.
pub const MAX_TASK_METADATA_KEY_BYTES: usize = 128;

/// Maximum byte length of each metadata value.
pub const MAX_TASK_METADATA_VALUE_BYTES: usize = 4_096;

/// Maximum combined UTF-8 bytes used by task metadata.
pub const MAX_TASK_METADATA_BYTES: usize = 16_384;

/// Maximum byte length of a persisted diagnostic category.
pub const MAX_TASK_DIAGNOSTIC_CATEGORY_BYTES: usize = 128;

/// Maximum byte length of a persisted diagnostic message.
pub const MAX_TASK_DIAGNOSTIC_MESSAGE_BYTES: usize = 4_096;

/// Copies a byte string.
pub fn copy_bytes(bytes: &Vec<u8>) -> (res: Vec<u8>)
    ensures
        res@ == bytes@,
{
    let res = bytes.clone();
    proof {
        assert(res@ =~= bytes@);
    }
    res
}

/// Whether both byte strings are equal.
pub fn same_bytes(a: &Vec<u8>, b: &Vec<u8>) -> (same: bool)
    ensures
        same == (a@ == b@),
{
    if a.len() != b.len() {
        return false;
    }
    let mut i: usize = 0;
    while i < a.len()
        invariant
            i <= a@.len(),
            a@.len() == b@.len(),
            forall|k: int| 0 <= k < i ==> a@[k] == b@[k],
        decreases a@.len() - i,
    {
        if a[i] != b[i] {
            return false;
        }
        i = i + 1;
    }
    proof {
        assert(a@ =~= b@);
    }
    true
}

/// Reconstructible description accepted by a task handler.
///
/// The payload is interpreted by the exact `(task_type, handler_version)`
/// handler registered at service startup. Text limits are measured in UTF-8
/// bytes, and the payload is limited to [`MAX_TASK_PAYLOAD_BYTES`].
#[derive(Debug)]
pub struct TaskRequest {
    /// Stable task family understood by registered handlers.
    pub task_type: String,
    /// Exact handler version required to decode the payload.
    pub handler_version: String,
    /// Opaque bounded payload interpreted by the handler.
    pub payload: Vec<u8>,
    /// Resource budget required during execution.
    pub resources: ResourceRequest,
    /// Optional caller-defined value used to find related tasks.
    pub correlation_key: Option<String>,
    /// Optional key used to deduplicate identical submissions.
    pub idempotency_key: Option<String>,
    /// Small values attached to the task for filtering and diagnostics.
    pub metadata: NameMap<String>,
}

/// Payload-free immutable fields used in task history and lifecycle reads.
#[derive(Debug)]
pub struct TaskRequestInfo {
    /// Stable task family understood by registered handlers.
    pub task_type: String,
    /// Exact handler version required to decode the payload.
    pub handler_version: String,
    /// Resource budget required during execution.
    pub resources: ResourceRequest,
    /// Optional caller-defined value used to find related tasks.
    pub correlation_key: Option<String>,
    /// Optional key used to deduplicate identical submissions.
    pub idempotency_key: Option<String>,
    /// Small values attached to the task for filtering and diagnostics.
    pub metadata: NameMap<String>,
}

/// Content of a [`TaskRequestInfo`].
#[verifier::ext_equal]
pub struct InfoModel {
    pub task_type: Seq<char>,
    pub handler_version: Seq<char>,
    pub resources: DemandModel,
    pub correlation_key: Option<Seq<char>>,
    pub idempotency_key: Option<Seq<char>>,
    pub metadata: Seq<(Seq<char>, Seq<char>)>,
}

/// Content of a [`TaskRequest`].
#[verifier::ext_equal]
pub struct RequestModel {
    pub info: InfoModel,
    pub payload: Seq<u8>,
}

impl View for TaskRequestInfo {
    type V = InfoModel;

    open spec fn view(&self) -> InfoModel {
        InfoModel {
            task_type: self.task_type@,
            handler_version: self.handler_version@,
            resources: self.resources@,
            correlation_key: opt_text(self.correlation_key),
            idempotency_key: opt_text(self.idempotency_key),
            metadata: self.metadata@,
        }
    }
}

impl View for TaskRequest {
    type V = RequestModel;

    open spec fn view(&self) -> RequestModel {
        RequestModel {
            info: InfoModel {
                task_type: self.task_type@,
                handler_version: self.handler_version@,
                resources: self.resources@,
                correlation_key: opt_text(self.correlation_key),
                idempotency_key: opt_text(self.idempotency_key),
                metadata: self.metadata@,
            },
            payload: self.payload@,
        }
    }
}

impl TaskRequestInfo {
    /// Takes the payload-free fields of a request.
    pub fn of(request: &TaskRequest) -> (info: Self)
        ensures
            info@ == request@.info,
    {
        TaskRequestInfo {
            task_type: request.task_type.clone(),
            handler_version: request.handler_version.clone(),
            resources: request.resources.clone(),
            correlation_key: copy_opt_text(&request.correlation_key),
            idempotency_key: copy_opt_text(&request.idempotency_key),
            metadata: request.metadata.clone(),
        }
    }

    /// Rebuilds the complete request around `payload`.
    pub fn with_payload(self, payload: Vec<u8>) -> (request: TaskRequest)
        ensures
            request@ == (RequestModel { info: self@, payload: payload@ }),
    {
        TaskRequest {
            task_type: self.task_type,
            handler_version: self.handler_version,
            payload,
            resources: self.resources,
            correlation_key: self.correlation_key,
            idempotency_key: self.idempotency_key,
            metadata: self.metadata,
        }
    }
}

impl<'a> From<&'a TaskRequest> for TaskRequestInfo {
    fn from(request: &'a TaskRequest) -> (info: Self)
        ensures
            info@ == request@.info,
    {
        TaskRequestInfo::of(request)
    }
}

impl<'a> vstd::std_specs::convert::FromSpecImpl<&'a TaskRequest> for TaskRequestInfo {
    open spec fn obeys_from_spec() -> bool {
        false
    }

    open spec fn from_spec(request: &'a TaskRequest) -> Self {
        arbitrary()
    }
}

impl Clone for TaskRequestInfo {
    fn clone(&self) -> (res: Self)
        ensures
            res@ == self@,
    {
        TaskRequestInfo {
            task_type: self.task_type.clone(),
            handler_version: self.handler_version.clone(),
            resources: self.resources.clone(),
            correlation_key: copy_opt_text(&self.correlation_key),
            idempotency_key: copy_opt_text(&self.idempotency_key),
            metadata: self.metadata.clone(),
        }
    }
}

/// Reports the first metadata entry, in key order, that breaks an entry limit.
pub open spec fn metadata_entry_error(entries: Seq<(Seq<char>, Seq<char>)>) -> Option<Seq<char>>
    decreases entries.len(),
{
    if entries.len() == 0 {
        None
    } else if byte_len(entries[0].0) > MAX_TASK_METADATA_KEY_BYTES {
        Some("metadata key exceeds the 128-byte limit"@)
    } else if byte_len(entries[0].1) > MAX_TASK_METADATA_VALUE_BYTES {
        Some("metadata value exceeds the 4096-byte limit"@)
    } else {
        metadata_entry_error(entries.drop_first())
    }
}

/// Combined bytes of all metadata keys and values.
pub open spec fn metadata_bytes(entries: Seq<(Seq<char>, Seq<char>)>) -> nat
    decreases entries.len(),
{
    if entries.len() == 0 {
        0
    } else {
        byte_len(entries[0].0) + byte_len(entries[0].1) + metadata_bytes(entries.drop_first())
    }
}

/// Whether an optional text takes more than `limit` bytes.
pub open spec fn opt_exceeds(text: Option<Seq<char>>, limit: usize) -> bool {
    text is Some && byte_len(text->0) > limit
}

/// The documented size limit that a request breaks, if any.
pub open spec fn limits_error(request: RequestModel) -> Option<Seq<char>> {
    let info = request.info;
    if info.task_type.len() == 0 || info.handler_version.len() == 0 {
        Some("task type and handler version must not be empty"@)
    } else if byte_len(info.task_type) > MAX_TASK_TYPE_BYTES {
        Some("task type exceeds the 128-byte limit"@)
    } else if byte_len(info.handler_version) > MAX_HANDLER_VERSION_BYTES {
        Some("handler version exceeds the 64-byte limit"@)
    } else if request.payload.len() > MAX_TASK_PAYLOAD_BYTES {
        Some("payload exceeds the 16 MiB limit"@)
    } else if opt_exceeds(info.correlation_key, MAX_CORRELATION_KEY_BYTES) {
        Some("correlation key exceeds the 256-byte limit"@)
    } else if opt_exceeds(info.idempotency_key, MAX_IDEMPOTENCY_KEY_BYTES) {
        Some("idempotency key exceeds the 256-byte limit"@)
    } else if info.metadata.len() > MAX_TASK_METADATA_ENTRIES {
        Some("metadata exceeds the 32-entry limit"@)
    } else if metadata_entry_error(info.metadata) is Some {
        metadata_entry_error(info.metadata)
    } else if metadata_bytes(info.metadata) > MAX_TASK_METADATA_BYTES {
        Some("metadata exceeds the 16384-byte limit"@)
    } else {
        None
    }
}

/// Whether a diagnostic result reports exactly `error`.
pub open spec fn reports(result: Result<(), &'static str>, error: Option<Seq<char>>) -> bool {
    match result {
        Ok(_) => error is None,
        Err(message) => error == Some(message@),
    }
}

fn opt_too_long(text: &Option<String>, limit: usize) -> (long: bool)
    ensures
        long == opt_exceeds(opt_text(*text), limit),
{
    match text {
        Some(value) => utf8_len(value.as_str()) > limit,
        None => false,
    }
}

impl TaskRequest {
    /// Checks the size limits used by both the service and task stores.
    ///
    /// Returns `Ok(())` when all fields fit their documented byte and entry
    /// limits; otherwise a static diagnostic suitable for validation errors.
    pub fn validate_limits(&self) -> (result: Result<(), &'static str>)
        ensures
            reports(result, limits_error(self@)),
    {
        if self.task_type.as_str().is_empty() || self.handler_version.as_str().is_empty() {
            return Err("task type and handler version must not be empty");
        }
        if utf8_len(self.task_type.as_str()) > MAX_TASK_TYPE_BYTES {
            return Err("task type exceeds the 128-byte limit");
        }
        if utf8_len(self.handler_version.as_str()) > MAX_HANDLER_VERSION_BYTES {
            return Err("handler version exceeds the 64-byte limit");
        }
        if self.payload.len() > MAX_TASK_PAYLOAD_BYTES {
            return Err("payload exceeds the 16 MiB limit");
        }
        if opt_too_long(&self.correlation_key, MAX_CORRELATION_KEY_BYTES) {
            return Err("correlation key exceeds the 256-byte limit");
        }
        if opt_too_long(&self.idempotency_key, MAX_IDEMPOTENCY_KEY_BYTES) {
            return Err("idempotency key exceeds the 256-byte limit");
        }
        if self.metadata.len() > MAX_TASK_METADATA_ENTRIES {
            return Err("metadata exceeds the 32-entry limit");
        }
        let ghost entries = self.metadata@;
        let mut total: usize = 0;
        let mut i: usize = 0;
        proof {
            assert(entries.skip(0) =~= entries);
        }
        while i < self.metadata.len()
            invariant
                i <= entries.len() <= 32,
                entries == self.metadata@,
                total <= i * 4224,
                metadata_entry_error(entries) is Some ==> limits_error(self@)
                    == metadata_entry_error(entries),
                metadata_entry_error(entries) == metadata_entry_error(entries.skip(i as int)),
                metadata_bytes(entries) == total + metadata_bytes(entries.skip(i as int)),
            decreases entries.len() - i,
        {
            proof {
                assert(entries.skip(i as int).drop_first() =~= entries.skip(i + 1));
                assert(entries.skip(i as int)[0] == entries[i as int]);
            }
            let key_bytes = utf8_len(self.metadata.name_at(i));
            let value_bytes = utf8_len(self.metadata.value_at(i).as_str());
            if key_bytes > MAX_TASK_METADATA_KEY_BYTES {
                return Err("metadata key exceeds the 128-byte limit");
            }
            if value_bytes > MAX_TASK_METADATA_VALUE_BYTES {
                return Err("metadata value exceeds the 4096-byte limit");
            }
            total = total + key_bytes + value_bytes;
            i = i + 1;
        }
        if total > MAX_TASK_METADATA_BYTES {
            return Err("metadata exceeds the 16384-byte limit");
        }
        Ok(())
    }

    /// Creates a versioned request with one CPU slot and no optional metadata.
    pub fn new(
        task_type: impl IntoText,
        handler_version: impl IntoText,
        payload: Vec<u8>,
    ) -> (request: Self)
        ensures
            request@ == new_request(
                task_type.characters(),
                handler_version.characters(),
                payload@,
            ),
    {
        let mut resources = ResourceRequest::default();
        resources.cpu_slots = 1;
        TaskRequest {
            task_type: task_type.into_text(),
            handler_version: handler_version.into_text(),
            payload,
            resources,
            correlation_key: None,
            idempotency_key: None,
            metadata: NameMap::new(),
        }
    }

    /// Sets the caller-generated key used to recover the same accepted task.
    ///
    /// Create and durably retain this key before submitting the request. Reuse
    /// it only with the identical request.
    pub fn with_idempotency_key(self, key: impl IntoText) -> (request: Self)
        ensures
            request@ == (RequestModel {
                info: InfoModel { idempotency_key: Some(key.characters()), ..self@.info },
                payload: self@.payload,
            }),
    {
        let mut request = self;
        request.idempotency_key = Some(key.into_text());
        request
    }

    /// Whether both requests describe the same work.
    pub fn same(&self, other: &Self) -> (same: bool)
        ensures
            same == (self@ == other@),
    {
        same_text(self.task_type.as_str(), other.task_type.as_str()) && same_text(
            self.handler_version.as_str(),
            other.handler_version.as_str(),
        ) && same_bytes(&self.payload, &other.payload) && self.resources.same(&other.resources)
            && same_opt_text(&self.correlation_key, &other.correlation_key) && same_opt_text(
            &self.idempotency_key,
            &other.idempotency_key,
        ) && self.metadata.same_map(&other.metadata)
    }
}

/// A request as [`TaskRequest::new`] creates it.
pub open spec fn new_request(
    task_type: Seq<char>,
    handler_version: Seq<char>,
    payload: Seq<u8>,
) -> RequestModel {
    RequestModel {
        info: InfoModel {
            task_type,
            handler_version,
            resources: DemandModel { cpu_slots: 1, ..no_demand() },
            correlation_key: None,
            idempotency_key: None,
            metadata: Seq::empty(),
        },
        payload,
    }
}

impl Clone for TaskRequest {
    fn clone(&self) -> (res: Self)
        ensures
            res@ == self@,
    {
        TaskRequest {
            task_type: self.task_type.clone(),
            handler_version: self.handler_version.clone(),
            payload: copy_bytes(&self.payload),
            resources: self.resources.clone(),
            correlation_key: copy_opt_text(&self.correlation_key),
            idempotency_key: copy_opt_text(&self.idempotency_key),
            metadata: self.metadata.clone(),
        }
    }
}

/// Small result summary saved with the task record.
#[derive(Debug)]
pub struct TaskOutput {
    /// Bounded opaque summary or external result reference.
    pub summary: Vec<u8>,
}

impl View for TaskOutput {
    type V = Seq<u8>;

    open spec fn view(&self) -> Seq<u8> {
        self.summary@
    }
}

impl Clone for TaskOutput {
    fn clone(&self) -> (res: Self)
        ensures
            res@ == self@,
    {
        TaskOutput { summary: copy_bytes(&self.summary) }
    }
}

impl Default for TaskOutput {
    fn default() -> (res: Self)
        ensures
            res@ == Seq::<u8>::empty(),
    {
        TaskOutput { summary: Vec::new() }
    }
}

/// Classified failure reported by a handler.
///
/// Set `retryable` only when repeating the operation is safe under the
/// application's idempotency and side-effect rules. Persisted category and
/// message strings are byte-bounded by the service.
#[derive(Debug)]
pub struct TaskRunError {
    /// Stable error category suitable for business logic.
    pub category: String,
    /// Human-readable diagnostic summary.
    pub message: String,
    /// Whether the service may retry this attempt.
    pub retryable: bool,
}

} // verus!
