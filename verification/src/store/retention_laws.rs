//! What an in-memory store keeps, counts and forgets, told of the records
//! themselves.

use vstd::prelude::*;

use super::lifecycle::advanced;
use super::lifecycle::command_error;
use super::lifecycle::revision_error;
use super::memory::accept_post;
use super::memory::prune_post;
use super::memory::MemoryTaskStore;
use super::memory_laws::law_pruned_records_are_gone;
use super::memory_laws::lemma_forget_all_keeps;
use super::memory_model::cursors;
use super::memory_model::finished_weight;
use super::memory_model::is_least;
use super::memory_model::kind_weight;
use super::memory_model::lemma_forget;
use super::memory_model::lemma_holder;
use super::memory_model::lemma_least_complete;
use super::memory_model::payload_weight;
use super::memory_model::unfinished_payload_weight;
use super::memory_model::unfinished_weight;
use super::memory_model::MemoryModel;
use super::StoreError;
use super::StoreErrorModel;
use crate::lists::lemma_without_at;
use crate::model::record_laws::is_of_kind;
use crate::model::record_laws::is_over;
use crate::model::request_laws::is_within_limits;
use crate::model::request_laws::law_limits_are_documented;
use crate::model::task_record::CommandModel;
use crate::model::task_record::QueryModel;
use crate::model::task_record::RecordModel;
use crate::model::task_record::StateModel;
use crate::model::task_record::TaskCursor;
use crate::model::task_record::TaskStateKind;
use crate::model::task_request::limits_error;
use crate::model::task_request::RequestModel;
use crate::model::AcceptOutcome;
use crate::model::StoreCapabilities;
use crate::model::TaskId;
use crate::model::TaskPage;
use crate::model::TaskQuery;
use crate::model::TaskRecord;
use crate::model::TaskStateCounts;
use crate::totals::lemma_total_counts;
use crate::totals::total;

verus! {

/// Identifiers of the records that satisfy a condition on their state.
pub open spec fn ids_where(m: MemoryModel, wanted: spec_fn(StateModel) -> bool) -> Set<u128> {
    m.records.dom().filter(|id: u128| wanted(m.records[id].life.state))
}

/// Identifiers of the unfinished records.
pub open spec fn open_ids(m: MemoryModel) -> Set<u128> {
    ids_where(m, |state: StateModel| !is_over(state))
}

/// The retained records, in some order.
pub open spec fn listed(records: Map<u128, RecordModel>) -> Seq<RecordModel> {
    records.dom().to_seq().map_values(|id: u128| records[id])
}

/// Payload bytes that these records take together.
pub open spec fn bytes_of(records: Seq<RecordModel>) -> nat {
    records.fold_right_alt(|r: RecordModel, sum: nat| r.request.payload.len() + sum, 0nat)
}

/// Payload bytes that the unfinished ones among these records take together.
pub open spec fn open_bytes_of(records: Seq<RecordModel>) -> nat {
    records.fold_right_alt(
        |r: RecordModel, sum: nat|
            if is_over(r.life.state) {
                sum
            } else {
                r.request.payload.len() + sum
            },
        0nat,
    )
}

/// Whether some retained record has this idempotency key.
pub open spec fn is_taken(m: MemoryModel, key: Option<Seq<char>>) -> bool {
    exists|id: u128| is_taken_by(m, key, id)
}

/// Whether the record under `id` has this idempotency key.
pub open spec fn is_taken_by(m: MemoryModel, key: Option<Seq<char>>, id: u128) -> bool {
    key is Some && m.records.contains_key(id) && m.records[id].request.info.idempotency_key == key
}

/// The payload sums of a store are those of its records.
pub proof fn law_payloads_are_summed(m: MemoryModel)
    requires
        m.records.dom().finite(),
    ensures
        m.payload_bytes() == bytes_of(listed(m.records)),
        m.unfinished_payload_bytes() == open_bytes_of(listed(m.records)),
    decreases m.records.dom().len(),
{
    let all = listed(m.records);
    if m.records.dom().len() > 0 {
        let key = m.records.dom().choose();
        let rest = MemoryModel { records: m.records.remove(key), ..m };
        law_payloads_are_summed(rest);
        assert(m.records.dom().contains(key));
        assert(rest.records.dom() =~= m.records.dom().remove(key));
        lemma_listed_keys(rest.records.dom());
        assert(all.subrange(1, all.len() as int) =~= listed(rest.records));
        assert(all[0] == m.records[key]);
    }
}

/// Listing a set yields its members.
proof fn lemma_listed_keys(keys: Set<u128>)
    requires
        keys.finite(),
    ensures
        forall|i: int| 0 <= i < keys.to_seq().len() ==> keys.contains(#[trigger] keys.to_seq()[i]),
    decreases keys.len(),
{
    if keys.len() > 0 {
        let key = keys.choose();
        lemma_listed_keys(keys.remove(key));
        assert forall|i: int| 0 <= i < keys.to_seq().len() implies keys.contains(
            #[trigger] keys.to_seq()[i],
        ) by {
            if i > 0 {
                assert(keys.to_seq()[i] == keys.remove(key).to_seq()[i - 1]);
                assert(keys.remove(key).contains(keys.to_seq()[i]));
            }
        }
    }
}

/// The counts of a store are the numbers of records in each state.
pub proof fn law_states_are_counted(m: MemoryModel, kind: TaskStateKind)
    requires
        m.records.dom().finite(),
    ensures
        m.count(kind) == ids_where(m, |state: StateModel| is_of_kind(state, kind)).len(),
        m.unfinished() == open_ids(m).len(),
        total(m.records, finished_weight()) == ids_where(m, |state: StateModel| is_over(state)).len(),
{
    lemma_total_counts(
        m.records,
        kind_weight(kind),
        |id: u128| (|state: StateModel| is_of_kind(state, kind))(m.records[id].life.state),
    );
    lemma_total_counts(
        m.records,
        unfinished_weight(),
        |id: u128| (|state: StateModel| !is_over(state))(m.records[id].life.state),
    );
    lemma_total_counts(
        m.records,
        finished_weight(),
        |id: u128| (|state: StateModel| is_over(state))(m.records[id].life.state),
    );
    assert(ids_where(m, |state: StateModel| is_of_kind(state, kind)) =~= m.records.dom().filter(
        |id: u128| (|state: StateModel| is_of_kind(state, kind))(m.records[id].life.state),
    ));
    assert(open_ids(m) =~= m.records.dom().filter(
        |id: u128| (|state: StateModel| !is_over(state))(m.records[id].life.state),
    ));
    assert(ids_where(m, |state: StateModel| is_over(state)) =~= m.records.dom().filter(
        |id: u128| (|state: StateModel| is_over(state))(m.records[id].life.state),
    ));
}

/// A request is accepted as new exactly when it keeps the limits, no retained
/// record has its idempotency key or its identifier, and the unfinished records
/// leave room for it, in number and in payload bytes. The new task is queued, has
/// not been attempted, and is stored with the request as it was sent.
pub proof fn law_new_requests_are_accepted_while_there_is_room(
    before: MemoryModel,
    after: MemoryModel,
    id: TaskId,
    request: RequestModel,
    now: u64,
    result: Result<AcceptOutcome, StoreError>,
)
    requires
        before.valid(),
        accept_post(before, after, id, request, now, result),
    ensures
        (result matches Ok(AcceptOutcome::Accepted(_))) <==> {
            &&& is_within_limits(request)
            &&& !is_taken(before, request.info.idempotency_key)
            &&& !before.records.contains_key(id.0)
            &&& open_ids(before).len() < before.max_unfinished_records
            &&& open_bytes_of(listed(before.records)) + request.payload.len()
                <= before.max_payload_bytes
        },
        result matches Ok(AcceptOutcome::Accepted(record)) ==> {
            &&& record@.request == request
            &&& record@.life.id == id
            &&& record@.life.accepted_at_ms == now
            &&& record@.life.state is Queued
            &&& record@.life.attempt == 0
            &&& record@.life.state_version == 0
            &&& after.records.contains_key(id.0) && after.records[id.0] == record@
            &&& !before.records.contains_key(id.0)
        },
{
    law_limits_are_documented(request);
    law_states_are_counted(before, TaskStateKind::Queued);
    law_payloads_are_summed(before);
    lemma_taken(before, request.info.idempotency_key);
}

proof fn lemma_taken(m: MemoryModel, key: Option<Seq<char>>)
    requires
        m.consistent(),
    ensures
        key matches Some(text) ==> (m.holder(text) is Some <==> is_taken(m, key)),
        key is None ==> !is_taken(m, key),
        forall|id: u128| #[trigger] is_taken_by(m, key, id) ==> m.holder(key->0) == Some(id),
{
    if let Some(text) = key {
        if m.holder(text) is Some {
            assert(exists|id: u128| m.holds_key(id, text));
            let id = choose|id: u128| m.holds_key(id, text);
            assert(is_taken_by(m, key, id));
        }
        assert forall|id: u128| #[trigger] is_taken_by(m, key, id) implies m.holder(key->0) == Some(
            id,
        ) by {
            assert(m.holds_key(id, text));
            lemma_holder(m, id, text);
        }
    }
}

/// A request whose key is taken is answered with the record that took it, if it
/// is the same request, and is a conflict if it is another; nothing changes.
pub proof fn law_taken_keys_are_answered_by_their_record(
    before: MemoryModel,
    after: MemoryModel,
    id: TaskId,
    request: RequestModel,
    now: u64,
    result: Result<AcceptOutcome, StoreError>,
    first: u128,
)
    requires
        before.valid(),
        accept_post(before, after, id, request, now, result),
        is_within_limits(request),
        is_taken_by(before, request.info.idempotency_key, first),
    ensures
        after == before,
        before.records[first].request == request ==> (result matches Ok(
            AcceptOutcome::Existing(record),
        ) && record@ == before.records[first]),
        before.records[first].request != request ==> (result matches Err(error) && error@
            is IdempotencyConflict),
{
    law_limits_are_documented(request);
    lemma_taken(before, request.info.idempotency_key);
}

/// A refused request changes nothing, and each refusal names what is wrong: a
/// broken limit, a key that another request took, a task that is there already,
/// too many unfinished records, or the payload bytes that are left.
pub proof fn law_refused_requests_are_told_why(
    before: MemoryModel,
    after: MemoryModel,
    id: TaskId,
    request: RequestModel,
    now: u64,
    result: Result<AcceptOutcome, StoreError>,
)
    requires
        before.valid(),
        accept_post(before, after, id, request, now, result),
        result is Err,
    ensures
        after == before,
        !is_within_limits(request) <==> result->Err_0@ is InvalidRequest,
        !is_within_limits(request) ==> limits_error(request) == Some(
            result->Err_0@->InvalidRequest_0,
        ),
        is_within_limits(request) && is_taken(before, request.info.idempotency_key)
            ==> result->Err_0@ is IdempotencyConflict,
        is_within_limits(request) && !is_taken(before, request.info.idempotency_key) ==> {
            if before.records.contains_key(id.0) {
                result->Err_0@ is DuplicateTask
            } else if open_ids(before).len() >= before.max_unfinished_records {
                result->Err_0@ == (StoreErrorModel::UnfinishedRecordLimitExceeded {
                    limit: before.max_unfinished_records,
                })
            } else {
                &&& result->Err_0@ is CapacityExceeded
                &&& result->Err_0@->requested_bytes == request.payload.len()
                &&& result->Err_0@->available_bytes + open_bytes_of(listed(before.records))
                    == before.max_payload_bytes
            }
        },
{
    law_limits_are_documented(request);
    law_states_are_counted(before, TaskStateKind::Queued);
    law_payloads_are_summed(before);
    lemma_taken(before, request.info.idempotency_key);
    lemma_open_bytes(before.records);
}

/// Unfinished records take no more than all records.
proof fn lemma_open_bytes(records: Map<u128, RecordModel>)
    requires
        records.dom().finite(),
    ensures
        total(records, unfinished_payload_weight()) <= total(records, payload_weight()),
    decreases records.dom().len(),
{
    if records.dom().len() > 0 {
        let key = records.dom().choose();
        lemma_open_bytes(records.remove(key));
    }
}

/// Whether `after` is `before` without the `count` records that finished first.
pub open spec fn is_without_oldest(before: MemoryModel, after: MemoryModel, count: int) -> bool {
    &&& 0 <= count <= before.finished.len()
    &&& after.finished == before.finished.skip(count)
    &&& forall|id: u128| #[trigger]
        after.records.contains_key(id) <==> before.records.contains_key(id)
            && !before.finished.take(count).contains(id)
    &&& forall|id: u128| #[trigger] after.records.contains_key(id) ==> after.records[id]
        == before.records[id]
    &&& before.same_limits(after)
}

/// Dropping the oldest record and then more of the oldest drops one more of them.
proof fn lemma_oldest_step(before: MemoryModel, after: MemoryModel, count: int)
    requires
        before.consistent(),
        before.finished.len() > 0,
        is_without_oldest(before.forget(before.finished[0]), after, count),
    ensures
        is_without_oldest(before, after, count + 1),
{
    let list = before.finished;
    let oldest = list[0];
    let next = before.forget(oldest);
    lemma_without_at(list, oldest, 0);
    assert(next.finished =~= list.skip(1));
    assert(after.finished =~= list.skip(count + 1));
    assert forall|id: u128| #[trigger] list.take(count + 1).contains(id) <==> id == oldest
        || next.finished.take(count).contains(id) by {
        if list.take(count + 1).contains(id) {
            let part = list.take(count + 1);
            let i = choose|i: int| 0 <= i < part.len() && part[i] == id;
            if i > 0 {
                assert(next.finished.take(count)[i - 1] == id);
            }
        }
        if next.finished.take(count).contains(id) {
            let part = next.finished.take(count);
            let i = choose|i: int| 0 <= i < part.len() && part[i] == id;
            assert(list.take(count + 1)[i + 1] == id);
        }
        assert(list.take(count + 1)[0] == oldest);
    }
    assert forall|id: u128| #[trigger]
        after.records.contains_key(id) <==> before.records.contains_key(id) && !list.take(
            count + 1,
        ).contains(id) by {
        assert(next.records.contains_key(id) <==> before.records.contains_key(id) && id != oldest);
        assert(list.take(count + 1).contains(id) <==> id == oldest || next.finished.take(
            count,
        ).contains(id));
    }
    assert forall|id: u128| #[trigger] after.records.contains_key(id) implies after.records[id]
        == before.records[id] by {
        assert(next.records.contains_key(id));
    }
}

/// Making room for more payload bytes drops the oldest finished records, in the
/// order they finished, and no more of them than it takes: without the last one
/// that is dropped the payload would not fit. Where it fits already nothing is
/// dropped, and everything else stays.
pub proof fn law_room_is_made_by_the_oldest(m: MemoryModel, requested: nat) -> (count: int)
    requires
        m.valid(),
    ensures
        is_without_oldest(m, m.making_room(requested), count),
        bytes_of(listed(m.records)) + requested <= m.max_payload_bytes ==> count == 0,
        count > 0 ==> bytes_of(listed(m.making_room(requested).records)) + m.records[m.finished[count
            - 1]].request.payload.len() + requested > m.max_payload_bytes,
        bytes_of(listed(m.making_room(requested).records)) + requested <= m.max_payload_bytes
            || count == m.finished.len(),
    decreases m.finished.len(),
{
    law_payloads_are_summed(m);
    if m.payload_bytes() + requested <= m.max_payload_bytes || m.finished.len() == 0 {
        assert(m.finished.skip(0) =~= m.finished);
        0
    } else {
        let oldest = m.finished[0];
        assert(m.is_finished(oldest));
        let next = m.forget(oldest);
        lemma_forget(m, oldest);
        lemma_without_at(m.finished, oldest, 0);
        let more = law_room_is_made_by_the_oldest(next, requested);
        lemma_oldest_step(m, m.making_room(requested), more);
        law_payloads_are_summed(next);
        if more > 0 {
            assert(next.finished[more - 1] == m.finished[more]);
            assert(m.finished[more] != oldest);
            assert(next.records[m.finished[more]] == m.records[m.finished[more]]);
        } else {
            assert(m.making_room(requested).finished =~= next.finished);
            assert(next.finished.skip(0) =~= next.finished);
            assert(next.finished.take(0) =~= Seq::empty());
            assert(m.making_room(requested).records =~= next.records);
        }
        more + 1
    }
}

/// Accepting a task leaves everything as it was but for the new record and the
/// oldest finished records that make way for its payload.
pub proof fn law_acceptance_touches_only_the_oldest(
    before: MemoryModel,
    after: MemoryModel,
    id: TaskId,
    request: RequestModel,
    now: u64,
    record: crate::model::TaskRecord,
) -> (count: int)
    requires
        before.valid(),
        accept_post(before, after, id, request, now, Ok(AcceptOutcome::Accepted(record))),
    ensures
        is_without_oldest(
            before,
            MemoryModel { records: after.records.remove(id.0), ..after },
            count,
        ),
        bytes_of(listed(before.records)) + request.payload.len() <= before.max_payload_bytes
            ==> count == 0,
        count > 0 ==> bytes_of(listed(after.records.remove(id.0)))
            + before.records[before.finished[count - 1]].request.payload.len()
            + request.payload.len() > before.max_payload_bytes,
{
    let count = law_room_is_made_by_the_oldest(before, request.payload.len());
    let room = before.making_room(request.payload.len());
    assert(!before.records.contains_key(id.0));
    assert(!room.records.contains_key(id.0));
    assert(after.records.remove(id.0) =~= room.records);
    count
}

/// Whether a query asks for this record: its state is among the states asked
/// for, if any are, its correlation key is the one asked for, if one is, and it
/// stands behind the position asked for, if one is.
pub open spec fn is_asked_for(query: QueryModel, record: RecordModel) -> bool {
    &&& query.states.len() == 0 || exists|i: int|
        0 <= i < query.states.len() && is_of_kind(record.life.state, #[trigger] query.states[i])
    &&& query.correlation_key matches Some(key) ==> (
    record.request.info.correlation_key matches Some(own) && own == key)
    &&& query.after matches Some(place) ==> stands_before(
        place.accepted_at_ms,
        place.id.0,
        record.life,
    )
}

/// Whether a time and an identifier stand before a task in history.
pub open spec fn stands_before(
    time: u64,
    id: u128,
    life: crate::model::task_record::LifeModel,
) -> bool {
    time < life.accepted_at_ms || (time == life.accepted_at_ms && id < life.id.0)
}

proof fn lemma_asked_for(query: QueryModel, record: RecordModel)
    ensures
        query.selects(record.request.info, record.life) <==> is_asked_for(query, record),
{
    let kind = record.life.state.kind();
    assert(is_of_kind(record.life.state, kind));
    if query.states.contains(kind) {
        let i = choose|i: int| 0 <= i < query.states.len() && query.states[i] == kind;
        assert(is_of_kind(record.life.state, query.states[i]));
    }
    if exists|i: int|
        0 <= i < query.states.len() && is_of_kind(record.life.state, #[trigger] query.states[i]) {
        let i = choose|i: int|
            0 <= i < query.states.len() && is_of_kind(record.life.state, #[trigger] query.states[i]);
        assert(query.states[i] == kind);
    }
}

/// A page holds stored records that were asked for, oldest first, as many as fit
/// up to the limit; whatever was asked for and is not on the page stands behind
/// all of it, and there is a next position, that of the last record, exactly when
/// something was left out.
pub proof fn law_pages_hold_the_first_records_asked_for(
    m: MemoryModel,
    query: QueryModel,
    records: Seq<RecordModel>,
    next: Option<TaskCursor>,
)
    requires
        m.valid(),
        m.is_page(query, records, next),
    ensures
        forall|i: int|
            0 <= i < records.len() ==> {
                let id = (#[trigger] records[i]).life.id.0;
                m.records.contains_key(id) && m.records[id] == records[i] && is_asked_for(
                    query,
                    records[i],
                )
            },
        forall|i: int, j: int|
            0 <= i < j < records.len() ==> stands_before(
                (#[trigger] records[i]).life.accepted_at_ms,
                records[i].life.id.0,
                (#[trigger] records[j]).life,
            ),
        forall|i: int, id: u128|
            #![trigger records[i], m.records[id]]
            0 <= i < records.len() && m.records.contains_key(id) && is_asked_for(
                query,
                m.records[id],
            ) && !records.contains(m.records[id]) ==> stands_before(
                records[i].life.accepted_at_ms,
                records[i].life.id.0,
                m.records[id].life,
            ),
        records.len() <= vstd::math::max(query.limit as int, 1),
        next is Some <==> exists|id: u128|
            m.records.contains_key(id) && is_asked_for(query, #[trigger] m.records[id])
                && !records.contains(m.records[id]),
        next matches Some(place) ==> records.len() == vstd::math::max(query.limit as int, 1)
            && place.accepted_at_ms == records.last().life.accepted_at_ms && place.id
            == records.last().life.id,
{
    let all = m.matches(query);
    let chosen = cursors(records);
    assert forall|i: int| 0 <= i < records.len() implies {
        let id = (#[trigger] records[i]).life.id.0;
        m.records.contains_key(id) && m.records[id] == records[i] && is_asked_for(query, records[i])
    } by {
        assert(all.contains(chosen[i]));
        lemma_asked_for(query, records[i]);
    }
    assert forall|i: int, j: int| 0 <= i < j < records.len() implies stands_before(
        (#[trigger] records[i]).life.accepted_at_ms,
        records[i].life.id.0,
        (#[trigger] records[j]).life,
    ) by {
        assert(crate::model::task_record::cursor_lt(chosen[i], chosen[j]));
    }
    assert forall|id: u128|
        m.records.contains_key(id) && is_asked_for(query, #[trigger] m.records[id])
            && !records.contains(m.records[id]) implies all.contains(m.records[id].life.cursor())
        && !chosen.contains(m.records[id].life.cursor()) by {
        lemma_asked_for(query, m.records[id]);
        let place = m.records[id].life.cursor();
        if chosen.contains(place) {
            let k = choose|k: int| 0 <= k < chosen.len() && chosen[k] == place;
            assert(records[k] == m.records[id]);
        }
    }
    assert forall|i: int, id: u128|
        #![trigger records[i], m.records[id]]
        0 <= i < records.len() && m.records.contains_key(id) && is_asked_for(query, m.records[id])
            && !records.contains(m.records[id]) implies stands_before(
        records[i].life.accepted_at_ms,
        records[i].life.id.0,
        m.records[id].life,
    ) by {
        assert(crate::model::task_record::cursor_lt(chosen[i], m.records[id].life.cursor()));
    }
    if next is Some {
        assert(all.len() > chosen.len());
        if forall|c: TaskCursor| all.contains(c) ==> chosen.contains(c) {
            assert(all.subset_of(chosen.to_set()));
            vstd::set_lib::lemma_len_subset(all, chosen.to_set());
            chosen.lemma_cardinality_of_set();
        }
        let c = choose|c: TaskCursor| all.contains(c) && !chosen.contains(c);
        let left = m.records[c.id.0];
        lemma_asked_for(query, left);
        if records.contains(left) {
            let k = choose|k: int| 0 <= k < records.len() && records[k] == left;
            assert(chosen[k] == c);
        }
        assert(m.records.contains_key(c.id.0) && is_asked_for(query, m.records[c.id.0]));
    } else {
        lemma_least_complete(chosen, all, crate::model::task_record::page_size(query.limit) as nat);
    }
}

/// Whether a retained record is finished and was accepted before a time.
pub open spec fn is_expired(m: MemoryModel, id: u128, accepted_before_ms: u64) -> bool {
    m.records.contains_key(id) && is_over(m.records[id].life.state)
        && m.records[id].life.accepted_at_ms < accepted_before_ms
}

/// Pruning removes finished records accepted before the given time and nothing
/// else, the oldest of them first, as many as it reports: all of them, or the
/// most that it was allowed.
pub proof fn law_pruning_removes_the_oldest_expired(
    before: MemoryModel,
    after: MemoryModel,
    accepted_before_ms: u64,
    max_rows: nat,
    pruned: nat,
)
    requires
        before.valid(),
        prune_post(before, after, accepted_before_ms, max_rows, pruned),
    ensures
        forall|id: u128| #[trigger]
            after.records.contains_key(id) ==> before.records.contains_key(id) && after.records[id]
                == before.records[id],
        forall|id: u128|
            before.records.contains_key(id) && !(#[trigger] after.records.contains_key(id))
                ==> is_expired(before, id, accepted_before_ms),
        forall|gone: u128, kept: u128|
            #![trigger after.records.contains_key(gone), after.records.contains_key(kept)]
            before.records.contains_key(gone) && !after.records.contains_key(gone)
                && after.records.contains_key(kept) && is_expired(before, kept, accepted_before_ms)
                ==> stands_before(
                before.records[gone].life.accepted_at_ms,
                gone,
                before.records[kept].life,
            ),
        before.records.dom().difference(after.records.dom()).len() == pruned,
        pruned <= max_rows,
        pruned < max_rows ==> forall|id: u128| #[trigger]
            after.records.contains_key(id) ==> !is_expired(after, id, accepted_before_ms),
        before.same_limits(after),
{
    let gone = choose|gone: Seq<TaskCursor>|
        #![trigger before.forget_all(gone)]
        {
            &&& is_least(gone, before.expired(accepted_before_ms), max_rows)
            &&& after == before.forget_all(gone)
            &&& pruned == gone.len()
        };
    let all = before.expired(accepted_before_ms);
    lemma_forget_all_shrinks(before, gone);
    let ids = gone.map_values(|c: TaskCursor| c.id.0);
    assert forall|id: u128|
        before.records.contains_key(id) && !(#[trigger] after.records.contains_key(id)) implies (
    exists|i: int| 0 <= i < gone.len() && (#[trigger] gone[i]).id.0 == id) && is_expired(
        before,
        id,
        accepted_before_ms,
    ) by {
        if forall|i: int| 0 <= i < gone.len() ==> (#[trigger] gone[i]).id.0 != id {
            lemma_forget_all_keeps(before, gone, id);
        }
        let i = choose|i: int| 0 <= i < gone.len() && (#[trigger] gone[i]).id.0 == id;
        assert(all.contains(gone[i]));
    }
    assert forall|i: int| 0 <= i < gone.len() implies !after.records.contains_key(
        (#[trigger] gone[i]).id.0,
    ) && before.records.contains_key(gone[i].id.0) by {
        law_pruned_records_are_gone(before, gone, i);
        assert(all.contains(gone[i]));
    }
    assert forall|a: u128, kept: u128|
        #![trigger after.records.contains_key(a), after.records.contains_key(kept)]
        before.records.contains_key(a) && !after.records.contains_key(a)
            && after.records.contains_key(kept) && is_expired(before, kept, accepted_before_ms) implies stands_before(
        before.records[a].life.accepted_at_ms,
        a,
        before.records[kept].life,
    ) by {
        let i = choose|i: int| 0 <= i < gone.len() && (#[trigger] gone[i]).id.0 == a;
        let place = before.records[kept].life.cursor();
        assert(all.contains(gone[i]));
        assert(all.contains(place));
        if gone.contains(place) {
            let k = choose|k: int| 0 <= k < gone.len() && gone[k] == place;
            assert(!after.records.contains_key(gone[k].id.0));
        }
        assert(crate::model::task_record::cursor_lt(gone[i], place));
    }
    assert(ids.no_duplicates()) by {
        assert forall|i: int, j: int| 0 <= i < j < ids.len() implies ids[i] != ids[j] by {
            assert(all.contains(gone[i]) && all.contains(gone[j]));
            assert(crate::model::task_record::cursor_lt(gone[i], gone[j]));
        }
    }
    assert(ids.to_set() =~= before.records.dom().difference(after.records.dom())) by {
        assert forall|id: u128| ids.to_set().contains(id) <==> before.records.dom().difference(
            after.records.dom(),
        ).contains(id) by {
            if ids.contains(id) {
                let i = choose|i: int| 0 <= i < ids.len() && ids[i] == id;
                assert(!after.records.contains_key(gone[i].id.0));
            }
            if before.records.contains_key(id) && !after.records.contains_key(id) {
                let i = choose|i: int| 0 <= i < gone.len() && (#[trigger] gone[i]).id.0 == id;
                assert(ids[i] == id);
            }
        }
    }
    ids.unique_seq_to_set();
    if pruned < max_rows {
        lemma_least_complete(gone, all, max_rows);
        assert forall|id: u128| #[trigger] after.records.contains_key(id) implies !is_expired(
            after,
            id,
            accepted_before_ms,
        ) by {
            if is_expired(after, id, accepted_before_ms) {
                let place = before.records[id].life.cursor();
                assert(all.contains(place));
                assert(gone.contains(place));
                let k = choose|k: int| 0 <= k < gone.len() && gone[k] == place;
                assert(!after.records.contains_key(gone[k].id.0));
            }
        }
    }
}

proof fn lemma_forget_all_shrinks(m: MemoryModel, gone: Seq<TaskCursor>)
    ensures
        forall|id: u128| #[trigger]
            m.forget_all(gone).records.contains_key(id) ==> m.records.contains_key(id)
                && m.forget_all(gone).records[id] == m.records[id],
        m.same_limits(m.forget_all(gone)),
    decreases gone.len(),
{
    if gone.len() > 0 {
        let part = gone.drop_last();
        lemma_forget_all_shrinks(m, part);
        assert forall|id: u128| #[trigger]
            m.forget_all(gone).records.contains_key(id) implies m.records.contains_key(id)
            && m.forget_all(gone).records[id] == m.records[id] by {
            assert(m.forget_all(part).records.contains_key(id));
        }
    }
}

/// A changed record replaces the one that had its identifier. A task that is over
/// joins the end of the finished history, which then gives up its oldest records
/// until it is as long as its capacity at most; nothing else changes.
pub proof fn law_changes_touch_one_record(m: MemoryModel, id: u128, record: RecordModel) -> (count:
    int)
    requires
        m.valid(),
        m.records.contains_key(id),
        !is_over(m.records[id].life.state),
        record.life.id == TaskId(id),
        record.life.is_timed(),
        record.request == m.records[id].request,
    ensures
        !is_over(record.life.state) ==> m.updated(id, record).records == m.records.insert(
            id,
            record,
        ) && m.updated(id, record).finished == m.finished && count == 0,
        is_over(record.life.state) ==> is_without_oldest(
            MemoryModel {
                records: m.records.insert(id, record),
                finished: m.finished.push(id),
                ..m
            },
            m.updated(id, record),
            count,
        ),
        is_over(record.life.state) ==> count == vstd::math::max(
            m.finished.len() + 1 - m.history_capacity,
            0,
        ),
        m.same_limits(m.updated(id, record)),
{
    if is_over(record.life.state) {
        super::memory_model::lemma_change_record(m, id, record);
        let done = super::memory_model::just_finished(m, id, record);
        lemma_trimming(done)
    } else {
        0
    }
}

proof fn lemma_trimming(m: MemoryModel) -> (count: int)
    requires
        m.consistent(),
    ensures
        is_without_oldest(m, m.trimmed(), count),
        count == vstd::math::max(m.finished.len() - m.history_capacity, 0),
    decreases m.finished.len(),
{
    if m.finished.len() <= m.history_capacity || m.finished.len() == 0 {
        assert(m.finished.skip(0) =~= m.finished);
        0
    } else {
        let oldest = m.finished[0];
        assert(m.is_finished(oldest));
        lemma_forget(m, oldest);
        let more = lemma_trimming(m.forget(oldest));
        lemma_oldest_step(m, m.trimmed(), more);
        more + 1
    }
}

/// A command for a task that is not retained finds nothing; otherwise the stored
/// task decides, and the request that it was accepted with is kept.
pub proof fn law_transitions_concern_the_stored_task(
    m: MemoryModel,
    command: CommandModel,
    now: u64,
)
    ensures
        command_error(command) is Some ==> m.transition_error(command) == command_error(command),
        command_error(command) is None && !m.records.contains_key(command.id.0)
            ==> m.transition_error(command) == Some(StoreErrorModel::NotFound),
        command_error(command) is None && m.records.contains_key(command.id.0)
            ==> m.transition_error(command) == revision_error(
            m.records[command.id.0].life,
            command,
        ),
        m.transition_record(command, now).request == m.records[command.id.0].request,
        m.transition_record(command, now).life == advanced(
            m.records[command.id.0].life,
            command,
            now,
        ),
{
}

/// A blocked task that is abandoned in its revision becomes cancelled, in the
/// next revision, and is dated; it keeps its request, its attempts and its output
/// and gives up its devices, its deadline and its request to cancel.
pub proof fn law_abandoned_tasks_are_cancelled(
    m: MemoryModel,
    id: TaskId,
    expected_version: u64,
    now: u64,
)
    requires
        m.records.contains_key(id.0),
        m.abandon_error(id, expected_version) is None,
        expected_version < u64::MAX,
    ensures
        ({
            let before = m.records[id.0];
            let after = m.abandon_record(id, now);
            &&& before.life.state is Blocked
            &&& before.life.state_version == expected_version
            &&& after.request == before.request
            &&& after.life.state is Cancelled
            &&& after.life.state_version == expected_version + 1
            &&& after.life.finished_at_ms == Some(now)
            &&& after.life.retry_not_before_ms is None
            &&& !after.life.cancel_requested
            &&& after.life.assigned_resources.len() == 0
            &&& after.life.id == before.life.id
            &&& after.life.attempt == before.life.attempt
            &&& after.life.accepted_at_ms == before.life.accepted_at_ms
            &&& after.life.started_at_ms == before.life.started_at_ms
            &&& after.life.output == before.life.output
        }),
{
}

/// Which tasks can be abandoned: retained ones that are blocked, in the revision
/// named. What stands in the way is told, the missing task first, then the
/// revision, then the state.
pub proof fn law_abandoning_takes_a_blocked_task(
    m: MemoryModel,
    id: TaskId,
    expected_version: u64,
)
    ensures
        m.abandon_error(id, expected_version) is None <==> {
            &&& m.records.contains_key(id.0)
            &&& m.records[id.0].life.state is Blocked
            &&& m.records[id.0].life.state_version == expected_version
        },
        !m.records.contains_key(id.0) ==> m.abandon_error(id, expected_version) == Some(
            StoreErrorModel::NotFound,
        ),
        m.records.contains_key(id.0) && m.records[id.0].life.state_version != expected_version
            ==> m.abandon_error(id, expected_version) == Some(StoreErrorModel::Conflict),
        m.records.contains_key(id.0) && m.records[id.0].life.state_version == expected_version && !(
        m.records[id.0].life.state is Blocked) ==> m.abandon_error(id, expected_version) == Some(
            StoreErrorModel::InvalidTransition,
        ),
{
}

/// A store counts its queued, running, blocked and finished records, and tells
/// whether queued and running ones together are more than a limit.
pub proof fn law_stores_count_their_records(
    store: MemoryTaskStore,
    counts: TaskStateCounts,
    limit: usize,
    over: bool,
)
    requires
        store@.records.dom().finite(),
        call_ensures(MemoryTaskStore::count_states, (&store,), counts),
        call_ensures(MemoryTaskStore::has_unfinished_over_limit, (&store, limit), over),
    ensures
        counts.queued == ids_where(store@, |state: StateModel| state is Queued).len(),
        counts.running == ids_where(store@, |state: StateModel| state is Running).len(),
        counts.blocked == ids_where(store@, |state: StateModel| state is Blocked).len(),
        counts.terminal == ids_where(store@, |state: StateModel| is_over(state)).len(),
        over <==> ids_where(store@, |state: StateModel| state is Queued).len() + ids_where(
            store@,
            |state: StateModel| state is Running,
        ).len() > limit,
{
    let m = store@;
    law_states_are_counted(m, TaskStateKind::Queued);
    law_states_are_counted(m, TaskStateKind::Running);
    law_states_are_counted(m, TaskStateKind::Blocked);
    assert(ids_where(m, |state: StateModel| state is Queued) =~= ids_where(
        m,
        |state: StateModel| is_of_kind(state, TaskStateKind::Queued),
    ));
    assert(ids_where(m, |state: StateModel| state is Running) =~= ids_where(
        m,
        |state: StateModel| is_of_kind(state, TaskStateKind::Running),
    ));
    assert(ids_where(m, |state: StateModel| state is Blocked) =~= ids_where(
        m,
        |state: StateModel| is_of_kind(state, TaskStateKind::Blocked),
    ));
}

/// Looking a task up by its idempotency key finds the record that has the key,
/// and nothing where none has it.
pub proof fn law_keys_find_their_record(
    store: MemoryTaskStore,
    key: &str,
    found: Option<crate::model::TaskRecord>,
    id: u128,
)
    requires
        call_ensures(MemoryTaskStore::get_by_idempotency_key, (&store, key), found),
    ensures
        found is Some <==> is_taken(store@, Some(key@)),
        is_taken_by(store@, Some(key@), id) ==> (found matches Some(record) && record@
            == store@.records[id]),
{
    lemma_taken(store@, Some(key@));
}

/// A new store is empty. Unless told otherwise it takes up to 2048 unfinished
/// records and 64 MiB of payloads. Nothing in it survives a restart.
pub proof fn law_new_stores_are_empty(
    history_capacity: usize,
    max_payload_bytes: usize,
    max_unfinished_records: usize,
    plain: MemoryTaskStore,
    budgeted: MemoryTaskStore,
    limited: MemoryTaskStore,
    capabilities: StoreCapabilities,
)
    requires
        call_ensures(MemoryTaskStore::new, (history_capacity,), plain),
        call_ensures(
            MemoryTaskStore::with_payload_budget,
            (history_capacity, max_payload_bytes),
            budgeted,
        ),
        call_ensures(
            MemoryTaskStore::with_limits,
            (history_capacity, max_payload_bytes, max_unfinished_records),
            limited,
        ),
        call_ensures(MemoryTaskStore::capabilities, (&plain,), capabilities),
    ensures
        plain@.records.dom() == Set::<u128>::empty(),
        budgeted@.records.dom() == Set::<u128>::empty(),
        limited@.records.dom() == Set::<u128>::empty(),
        plain@.finished.len() == 0,
        budgeted@.finished.len() == 0,
        limited@.finished.len() == 0,
        plain@.history_capacity == history_capacity,
        budgeted@.history_capacity == history_capacity,
        limited@.history_capacity == history_capacity,
        plain@.max_payload_bytes == 64 * 1024 * 1024,
        budgeted@.max_payload_bytes == max_payload_bytes,
        limited@.max_payload_bytes == max_payload_bytes,
        plain@.max_unfinished_records == 2048,
        budgeted@.max_unfinished_records == 2048,
        limited@.max_unfinished_records == max_unfinished_records,
        !capabilities.persistent_history && !capabilities.restart_recovery,
{
}

/// A store lists the tasks that were asked for, as they are stored; a limit above
/// 256 is refused.
pub proof fn law_lists_hold_the_first_records_asked_for(
    store: MemoryTaskStore,
    query: TaskQuery,
    result: Result<TaskPage, StoreError>,
)
    requires
        call_ensures(MemoryTaskStore::list, (&store, query), result),
    ensures
        result is Ok <==> query.limit <= 256,
        result matches Ok(page) ==> {
            let records = page.records@.map_values(|r: TaskRecord| r@);
            &&& records.len() <= vstd::math::max(query.limit as int, 1)
            &&& forall|i: int|
                0 <= i < records.len() ==> {
                    let id = (#[trigger] records[i]).life.id.0;
                    store@.records.contains_key(id) && store@.records[id] == records[i]
                        && is_asked_for(query@, records[i])
                }
            &&& forall|i: int, j: int|
                0 <= i < j < records.len() ==> stands_before(
                    (#[trigger] records[i]).life.accepted_at_ms,
                    records[i].life.id.0,
                    (#[trigger] records[j]).life,
                )
            &&& forall|i: int, id: u128|
                #![trigger records[i], store@.records[id]]
                0 <= i < records.len() && store@.records.contains_key(id) && is_asked_for(
                    query@,
                    store@.records[id],
                ) && !records.contains(store@.records[id]) ==> stands_before(
                    records[i].life.accepted_at_ms,
                    records[i].life.id.0,
                    store@.records[id].life,
                )
            &&& page.next is Some <==> exists|id: u128|
                store@.records.contains_key(id) && is_asked_for(query@, #[trigger] store@.records[id])
                    && !records.contains(store@.records[id])
            &&& page.next matches Some(place) ==> place.accepted_at_ms
                == records.last().life.accepted_at_ms && place.id == records.last().life.id
        },
{
    if let Ok(page) = result {
        let records = page.records@.map_values(|r: TaskRecord| r@);
        assert(super::memory::models_of(page.records@) =~= records);
        law_pages_hold_the_first_records_asked_for(store@, query@, records, page.next);
    }
}

/// A transition can be counted unless a counter that it raises is at its largest.
pub proof fn law_only_full_counters_stop_transitions(
    m: MemoryModel,
    command: CommandModel,
    id: TaskId,
    expected_version: u64,
)
    ensures
        m.can_abandon(id, expected_version) <==> (m.abandon_error(id, expected_version) is None
            ==> expected_version < 0xffff_ffff_ffff_ffff),
        m.transition_error(command) is Some ==> m.can_count(command),
        m.transition_error(command) is None ==> (m.can_count(command) <==> {
            let life = m.records[command.id.0].life;
            &&& life.state_version < 0xffff_ffff_ffff_ffff
            &&& !(life.state is Running) && command.state is Running ==> life.attempt < 0xffff_ffff
        }),
{
}

} // verus!
