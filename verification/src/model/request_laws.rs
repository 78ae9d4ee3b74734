//! What the limits of a request come to.

use vstd::prelude::*;
use vstd::utf8::encode_utf8;

use super::task_request::limits_error;
use super::task_request::metadata_bytes;
use super::task_request::metadata_entry_error;
use super::task_request::new_request;
use super::task_request::RequestModel;
use super::task_request::TaskRequest;
use super::task_request::TaskRequestInfo;
use crate::model::task_request::copy_bytes;
use crate::model::task_request::same_bytes;

verus! {

/// Bytes that the keys and values of some metadata take together.
pub open spec fn combined_bytes(entries: Seq<(Seq<char>, Seq<char>)>) -> nat {
    entries.fold_left(
        0nat,
        |sum: nat, entry: (Seq<char>, Seq<char>)|
            sum + encode_utf8(entry.0).len() + encode_utf8(entry.1).len(),
    )
}

/// Whether an optional key takes at most 256 bytes.
pub open spec fn is_short_key(key: Option<Seq<char>>) -> bool {
    match key {
        Some(text) => encode_utf8(text).len() <= 256,
        None => true,
    }
}

proof fn lemma_entries(entries: Seq<(Seq<char>, Seq<char>)>)
    ensures
        metadata_entry_error(entries) is None <==> forall|i: int|
            0 <= i < entries.len() ==> encode_utf8((#[trigger] entries[i]).0).len() <= 128
                && encode_utf8(entries[i].1).len() <= 4096,
    decreases entries.len(),
{
    if entries.len() > 0 {
        let rest = entries.drop_first();
        lemma_entries(rest);
        assert forall|i: int| 0 <= i < rest.len() implies #[trigger] rest[i] == entries[i + 1] by {}
        if metadata_entry_error(entries) is None {
            assert forall|i: int| 0 <= i < entries.len() implies encode_utf8(
                (#[trigger] entries[i]).0,
            ).len() <= 128 && encode_utf8(entries[i].1).len() <= 4096 by {
                if i > 0 {
                    assert(rest[i - 1] == entries[i]);
                }
            }
        } else if forall|i: int|
            0 <= i < entries.len() ==> encode_utf8((#[trigger] entries[i]).0).len() <= 128
                && encode_utf8(entries[i].1).len() <= 4096 {
            assert(entries[0] == entries[0]);
            assert(false);
        }
    }
}

proof fn lemma_bytes_last(entries: Seq<(Seq<char>, Seq<char>)>)
    requires
        entries.len() > 0,
    ensures
        metadata_bytes(entries) == metadata_bytes(entries.drop_last()) + encode_utf8(
            entries.last().0,
        ).len() + encode_utf8(entries.last().1).len(),
    decreases entries.len(),
{
    reveal_with_fuel(metadata_bytes, 2);
    if entries.len() > 1 {
        lemma_bytes_last(entries.drop_first());
        assert(entries.drop_first().drop_last() =~= entries.drop_last().drop_first());
    } else {
        assert(entries.drop_first() =~= Seq::empty());
        assert(entries.drop_last() =~= Seq::empty());
    }
}

proof fn lemma_bytes(entries: Seq<(Seq<char>, Seq<char>)>)
    ensures
        metadata_bytes(entries) == combined_bytes(entries),
    decreases entries.len(),
{
    reveal_with_fuel(Seq::fold_left, 2);
    if entries.len() > 0 {
        lemma_bytes(entries.drop_last());
        lemma_bytes_last(entries);
    }
}

/// Whether a request is within every documented limit.
pub open spec fn is_within_limits(request: RequestModel) -> bool {
    let info = request.info;
    &&& 1 <= info.task_type.len() && encode_utf8(info.task_type).len() <= 128
    &&& 1 <= info.handler_version.len() && encode_utf8(info.handler_version).len() <= 64
    &&& request.payload.len() <= 16_777_216
    &&& is_short_key(info.correlation_key)
    &&& is_short_key(info.idempotency_key)
    &&& info.metadata.len() <= 32
    &&& forall|i: int|
        0 <= i < info.metadata.len() ==> encode_utf8((#[trigger] info.metadata[i]).0).len() <= 128
            && encode_utf8(info.metadata[i].1).len() <= 4096
    &&& combined_bytes(info.metadata) <= 16_384
}

/// A request is accepted exactly when it names its type and version, in at most
/// 128 and 64 bytes, its payload takes at most 16 MiB, its optional keys take at
/// most 256 bytes each, and it has at most 32 metadata entries of at most 128 and
/// 4096 bytes that take at most 16384 bytes together.
pub proof fn law_accepted_requests_are_within_the_limits(
    request: TaskRequest,
    result: Result<(), &'static str>,
)
    requires
        call_ensures(TaskRequest::validate_limits, (&request,), result),
    ensures
        result is Ok <==> is_within_limits(request@),
        limits_error(request@) is None <==> is_within_limits(request@),
{
    lemma_entries(request@.info.metadata);
    lemma_bytes(request@.info.metadata);
}

/// The same of a request's content.
pub proof fn law_limits_are_documented(request: RequestModel)
    ensures
        limits_error(request) is None <==> is_within_limits(request),
{
    lemma_entries(request.info.metadata);
    lemma_bytes(request.info.metadata);
}

/// A refusal names a limit that is broken, and the limits that it is preceded by
/// are kept.
pub proof fn law_refusals_name_the_first_broken_limit(request: RequestModel)
    ensures
        ({
            let info = request.info;
            let unnamed = info.task_type.len() == 0 || info.handler_version.len() == 0;
            let long_type = encode_utf8(info.task_type).len() > 128;
            let long_version = encode_utf8(info.handler_version).len() > 64;
            let long_payload = request.payload.len() > 16_777_216;
            let error = limits_error(request);
            &&& unnamed ==> error == Some("task type and handler version must not be empty"@)
            &&& !unnamed && long_type ==> error == Some("task type exceeds the 128-byte limit"@)
            &&& !unnamed && !long_type && long_version ==> error == Some(
                "handler version exceeds the 64-byte limit"@,
            )
            &&& !unnamed && !long_type && !long_version && long_payload ==> error == Some(
                "payload exceeds the 16 MiB limit"@,
            )
            &&& !unnamed && !long_type && !long_version && !long_payload && !is_short_key(
                info.correlation_key,
            ) ==> error == Some("correlation key exceeds the 256-byte limit"@)
            &&& !unnamed && !long_type && !long_version && !long_payload && is_short_key(
                info.correlation_key,
            ) && !is_short_key(info.idempotency_key) ==> error == Some(
                "idempotency key exceeds the 256-byte limit"@,
            )
            &&& !unnamed && !long_type && !long_version && !long_payload && is_short_key(
                info.correlation_key,
            ) && is_short_key(info.idempotency_key) && info.metadata.len() > 32 ==> error == Some(
                "metadata exceeds the 32-entry limit"@,
            )
        }),
{
}

/// Of oversized metadata entries the first is named, its key before its value;
/// the combined size is looked at last.
pub proof fn law_refusals_name_the_first_oversized_entry(request: RequestModel, first: int)
    requires
        request.info.task_type.len() > 0,
        encode_utf8(request.info.task_type).len() <= 128,
        request.info.handler_version.len() > 0,
        encode_utf8(request.info.handler_version).len() <= 64,
        request.payload.len() <= 16_777_216,
        is_short_key(request.info.correlation_key),
        is_short_key(request.info.idempotency_key),
        0 <= first <= request.info.metadata.len() <= 32,
        forall|i: int|
            0 <= i < first ==> encode_utf8((#[trigger] request.info.metadata[i]).0).len() <= 128
                && encode_utf8(request.info.metadata[i].1).len() <= 4096,
    ensures
        first < request.info.metadata.len() ==> {
            let entry = request.info.metadata[first];
            &&& encode_utf8(entry.0).len() > 128 ==> limits_error(request) == Some(
                "metadata key exceeds the 128-byte limit"@,
            )
            &&& encode_utf8(entry.0).len() <= 128 && encode_utf8(entry.1).len() > 4096
                ==> limits_error(request) == Some("metadata value exceeds the 4096-byte limit"@)
        },
        first == request.info.metadata.len() && combined_bytes(request.info.metadata) > 16_384
            ==> limits_error(request) == Some("metadata exceeds the 16384-byte limit"@),
{
    let entries = request.info.metadata;
    lemma_bytes(entries);
    lemma_first_entry(entries, first);
}

proof fn lemma_first_entry(entries: Seq<(Seq<char>, Seq<char>)>, first: int)
    requires
        0 <= first <= entries.len(),
        forall|i: int|
            0 <= i < first ==> encode_utf8((#[trigger] entries[i]).0).len() <= 128 && encode_utf8(
                entries[i].1,
            ).len() <= 4096,
    ensures
        first == entries.len() ==> metadata_entry_error(entries) is None,
        first < entries.len() && encode_utf8(entries[first].0).len() > 128
            ==> metadata_entry_error(entries) == Some("metadata key exceeds the 128-byte limit"@),
        first < entries.len() && encode_utf8(entries[first].0).len() <= 128 && encode_utf8(
            entries[first].1,
        ).len() > 4096 ==> metadata_entry_error(entries) == Some(
            "metadata value exceeds the 4096-byte limit"@,
        ),
    decreases entries.len(),
{
    if first > 0 {
        let rest = entries.drop_first();
        assert(entries[0] == entries[0]);
        assert forall|i: int| 0 <= i < first - 1 implies encode_utf8((#[trigger] rest[i]).0).len()
            <= 128 && encode_utf8(rest[i].1).len() <= 4096 by {
            assert(rest[i] == entries[i + 1]);
        }
        if first < entries.len() {
            assert(rest[first - 1] == entries[first]);
        }
        lemma_first_entry(rest, first - 1);
    }
}

/// A new request carries its type, version and payload, asks for one CPU slot and
/// nothing else, and has no keys and no metadata.
pub proof fn law_new_requests_are_plain(
    task_type: Seq<char>,
    handler_version: Seq<char>,
    payload: Seq<u8>,
)
    ensures
        ({
            let request = new_request(task_type, handler_version, payload);
            &&& request.info.task_type == task_type
            &&& request.info.handler_version == handler_version
            &&& request.payload == payload
            &&& request.info.resources.cpu_slots == 1
            &&& request.info.resources.gpu_count == 0
            &&& request.info.resources.gpu_labels.len() == 0
            &&& request.info.resources.custom.len() == 0
            &&& request.info.correlation_key is None
            &&& request.info.idempotency_key is None
            &&& request.info.metadata.len() == 0
        }),
{
}

/// Two requests count as the same exactly when every field is.
pub proof fn law_same_requests_agree_in_every_field(a: TaskRequest, b: TaskRequest, same: bool)
    requires
        call_ensures(TaskRequest::same, (&a, &b), same),
    ensures
        same <==> {
            &&& a.task_type@ == b.task_type@
            &&& a.handler_version@ == b.handler_version@
            &&& a.payload@ == b.payload@
            &&& a.resources.cpu_slots == b.resources.cpu_slots
            &&& a.resources.gpu_count == b.resources.gpu_count
            &&& a.resources@.gpu_labels == b.resources@.gpu_labels
            &&& a.resources.custom@ == b.resources.custom@
            &&& a.correlation_key is Some == b.correlation_key is Some
            &&& a.correlation_key is Some ==> a.correlation_key->0@ == b.correlation_key->0@
            &&& a.idempotency_key is Some == b.idempotency_key is Some
            &&& a.idempotency_key is Some ==> a.idempotency_key->0@ == b.idempotency_key->0@
            &&& a.metadata@ == b.metadata@
        },
{
    assert(a@ == b@ <==> a@.info == b@.info && a@.payload == b@.payload);
    assert(a@.info == b@.info <==> a@.info =~= b@.info);
    assert(a.resources@ == b.resources@ <==> a.resources@ =~= b.resources@);
}

/// Taking a request apart and putting it together again gives the same request.
pub proof fn law_requests_survive_splitting(
    request: TaskRequest,
    info: TaskRequestInfo,
    payload: Vec<u8>,
    joined: TaskRequest,
)
    requires
        call_ensures(TaskRequestInfo::of, (&request,), info),
        payload@ == request.payload@,
        call_ensures(TaskRequestInfo::with_payload, (info, payload), joined),
    ensures
        joined@ == request@,
        info.task_type@ == request.task_type@,
        info.handler_version@ == request.handler_version@,
        info.resources@ == request.resources@,
        info.metadata@ == request.metadata@,
        info@.correlation_key == request@.info.correlation_key,
        info@.idempotency_key == request@.info.idempotency_key,
{
}

/// Bytes are the same when they agree at every position, and a copy agrees.
pub proof fn law_bytes_are_compared_whole(a: Vec<u8>, b: Vec<u8>, same: bool, copy: Vec<u8>)
    requires
        call_ensures(same_bytes, (&a, &b), same),
        call_ensures(copy_bytes, (&a,), copy),
    ensures
        same <==> a@.len() == b@.len() && forall|i: int|
            0 <= i < a@.len() ==> #[trigger] a@[i] == b@[i],
        copy@ == a@,
{
    if a@.len() == b@.len() && forall|i: int| 0 <= i < a@.len() ==> #[trigger] a@[i] == b@[i] {
        assert(a@ =~= b@);
    }
}

} // verus!
