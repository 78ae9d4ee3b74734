//! What holds of every in-memory store across its operations.

use vstd::prelude::*;

use super::lifecycle::advanced;
use super::memory_model::cursors;
use super::memory_model::is_least;
use super::memory_model::just_finished;
use super::memory_model::lemma_change_record;
use super::memory_model::lemma_forget;
use super::memory_model::lemma_holder;
use super::memory_model::lemma_least_complete;
use super::memory_model::lemma_least_unique;
use super::memory_model::lemma_making_room;
use super::memory_model::lemma_trimmed;
use super::memory_model::lemma_with_record;
use super::memory_model::MemoryModel;
use super::StoreErrorModel;
use crate::lists::lemma_without_at;
use crate::model::task_record::cursor_lt;
use crate::model::task_record::page_limit_error;
use crate::model::task_record::page_size;
use crate::model::task_record::CommandModel;
use crate::model::task_record::MAX_TASK_PAGE_SIZE;
use crate::model::task_record::QueryModel;
use crate::model::task_record::RecordModel;
use crate::model::task_record::TaskCursor;
use crate::model::task_request::limits_error;
use crate::model::task_request::RequestModel;
use crate::model::TaskId;

verus! {

/// Right after a keyed request is accepted, submitting the identical request
/// under any identifier returns the accepted record and changes nothing.
pub proof fn law_replay_returns_the_accepted_record(
    m: MemoryModel,
    id: TaskId,
    request: RequestModel,
    now: u64,
    other: TaskId,
)
    requires
        m.valid(),
        request.info.idempotency_key is Some,
        m.accept_error(id, request) is None,
        m.replayed(request) is None,
    ensures
        m.after_accept(id, request, now).accept_error(other, request) is None,
        m.after_accept(id, request, now).replayed(request) == Some(id.0),
        m.after_accept(id, request, now).records[id.0] == RecordModel::accepted(id, request, now),
{
    lemma_after_accept(m, id, request, now);
    let next = m.after_accept(id, request, now);
    assert(next.holds_key(id.0, request.info.idempotency_key->0));
    lemma_holder(next, id.0, request.info.idempotency_key->0);
}

/// While a record holds an idempotency key, a different request with that key
/// is a conflict.
pub proof fn law_key_reuse_conflicts(
    m: MemoryModel,
    holder: u128,
    id: TaskId,
    request: RequestModel,
)
    requires
        m.valid(),
        request.info.idempotency_key is Some,
        m.holds_key(holder, request.info.idempotency_key->0),
        limits_error(request) is None,
        m.records[holder].request != request,
    ensures
        m.accept_error(id, request) == Some(StoreErrorModel::IdempotencyConflict),
{
    lemma_holder(m, holder, request.info.idempotency_key->0);
}

/// Accepting a request leaves every unfinished record as it was.
pub proof fn law_acceptance_keeps_unfinished_work(
    m: MemoryModel,
    id: TaskId,
    request: RequestModel,
    now: u64,
    other: u128,
)
    requires
        m.valid(),
        m.accept_error(id, request) is None,
        m.replayed(request) is None,
        m.records.contains_key(other),
        !m.is_finished(other),
    ensures
        m.after_accept(id, request, now).records.contains_key(other),
        m.after_accept(id, request, now).records[other] == m.records[other],
{
    lemma_making_room(m, request.payload.len());
    assert(m.making_room(request.payload.len()).records.contains_key(other));
}

/// Accepting keeps a store valid, so none of its limits is ever exceeded.
pub proof fn lemma_after_accept(m: MemoryModel, id: TaskId, request: RequestModel, now: u64)
    requires
        m.valid(),
        m.accept_error(id, request) is None,
        m.replayed(request) is None,
    ensures
        m.after_accept(id, request, now).valid(),
{
    let bytes = request.payload.len();
    lemma_making_room(m, bytes);
    let room = m.making_room(bytes);
    if request.info.idempotency_key is Some {
        let key = request.info.idempotency_key->0;
        assert forall|x: u128| !room.holds_key(x, key) by {
            if room.holds_key(x, key) {
                assert(m.holds_key(x, key));
            }
        }
    }
    assert(!m.records.contains_key(id.0));
    if room.records.contains_key(id.0) {
        assert(m.records.contains_key(id.0));
    }
    lemma_with_record(room, id.0, RecordModel::accepted(id, request, now));
}

/// A forgotten record's idempotency key becomes available for reuse.
pub proof fn law_forgotten_keys_are_free(m: MemoryModel, id: u128, key: Seq<char>)
    requires
        m.valid(),
        m.is_finished(id),
        m.holds_key(id, key),
    ensures
        m.forget(id).holder(key) is None,
{
    let next = m.forget(id);
    assert forall|x: u128| !next.holds_key(x, key) by {
        if next.holds_key(x, key) {
            assert(m.records.contains_key(x));
            assert(m.key_of(x) == m.key_of(id));
        }
    }
}

/// A task that finishes is the newest of the finished history, unless nothing
/// is retained at all, and the history keeps the newest ones in order.
pub proof fn law_finished_history_keeps_the_newest(m: MemoryModel, id: u128, record: RecordModel)
    requires
        m.valid(),
        m.records.contains_key(id),
        !m.is_finished(id),
        record.life.id == TaskId(id),
        record.life.is_timed(),
        record.request == m.records[id].request,
        record.life.state.is_terminal(),
    ensures
        m.updated(id, record).valid(),
        m.updated(id, record).finished == if m.history_capacity == 0 {
            Seq::empty()
        } else if m.finished.len() < m.history_capacity {
            m.finished.push(id)
        } else {
            m.finished.drop_first().push(id)
        },
        m.history_capacity > 0 ==> m.updated(id, record).records.contains_key(id) && m.updated(
            id,
            record,
        ).records[id] == record,
{
    let done = just_finished(m, id, record);
    lemma_change_record(m, id, record);
    lemma_trimmed(done);
    reveal_with_fuel(MemoryModel::trimmed, 2);
    if m.finished.len() >= m.history_capacity {
        let oldest = done.finished[0];
        assert(done.is_finished(oldest));
        lemma_forget(done, oldest);
        lemma_without_at(done.finished, oldest, 0);
        if m.history_capacity == 0 {
            assert(done.finished.remove(0) =~= Seq::<u128>::empty());
        } else {
            assert(done.finished.remove(0) =~= m.finished.drop_first().push(id));
            if oldest == id {
                assert(done.finished[m.finished.len() as int] == id);
            }
        }
    }
}

/// The cursor of a page leads to exactly the records that the page left out.
pub proof fn law_next_page_continues(
    m: MemoryModel,
    query: QueryModel,
    records: Seq<RecordModel>,
    next: Option<TaskCursor>,
)
    requires
        m.valid(),
        m.is_page(query, records, next),
        next is Some,
    ensures
        forall|c: TaskCursor|
            m.matches(QueryModel { after: next, ..query }).contains(c) <==> m.matches(
                query,
            ).contains(c) && !cursors(records).contains(c),
{
    let all = m.matches(query);
    let chosen = cursors(records);
    let size = page_size(query.limit) as nat;
    let rest = m.matches(QueryModel { after: next, ..query });
    let last = chosen.len() - 1;
    assert(chosen[last] == next->0);
    assert(all.contains(chosen[last]));
    assert forall|c: TaskCursor| rest.contains(c) <==> all.contains(c) && !chosen.contains(c) by {
        if rest.contains(c) {
            if chosen.contains(c) {
                let i = choose|i: int| 0 <= i < chosen.len() && chosen[i] == c;
                if i < last {
                    assert(cursor_lt(chosen[i], chosen[last]));
                }
            }
        }
        if all.contains(c) && !chosen.contains(c) {
            assert(cursor_lt(chosen[last], c));
        }
    }
}

/// A page without a cursor completes the answer: nothing is left out.
pub proof fn law_last_page_is_complete(
    m: MemoryModel,
    query: QueryModel,
    records: Seq<RecordModel>,
)
    requires
        m.valid(),
        m.is_page(query, records, None),
    ensures
        forall|c: TaskCursor| m.matches(query).contains(c) ==> cursors(records).contains(c),
{
    lemma_least_complete(cursors(records), m.matches(query), page_size(query.limit) as nat);
}

/// Records come out of a page in history order, each only once.
pub proof fn law_pages_are_ordered(
    m: MemoryModel,
    query: QueryModel,
    records: Seq<RecordModel>,
    next: Option<TaskCursor>,
    i: int,
    j: int,
)
    requires
        m.is_page(query, records, next),
        0 <= i < j < records.len(),
    ensures
        cursor_lt(records[i].life.cursor(), records[j].life.cursor()),
{
    assert(cursor_lt(cursors(records)[i], cursors(records)[j]));
}

/// A store's content and a query determine the page.
pub proof fn law_pages_are_determined(
    m: MemoryModel,
    query: QueryModel,
    records: Seq<RecordModel>,
    next: Option<TaskCursor>,
    others: Seq<RecordModel>,
    other_next: Option<TaskCursor>,
)
    requires
        m.is_page(query, records, next),
        m.is_page(query, others, other_next),
    ensures
        records == others,
        next == other_next,
{
    lemma_least_unique(
        cursors(records),
        cursors(others),
        m.matches(query),
        page_size(query.limit) as nat,
    );
    assert(cursors(records).len() == records.len());
    assert(cursors(others).len() == others.len());
    assert forall|i: int| 0 <= i < records.len() implies records[i] == others[i] by {
        assert(cursors(records)[i] == cursors(others)[i]);
        assert(cursors(records)[i] == records[i].life.cursor());
        assert(cursors(others)[i] == others[i].life.cursor());
        assert(records[i] == m.records[records[i].life.id.0]);
        assert(others[i] == m.records[others[i].life.id.0]);
    }
    assert(records =~= others);
}

/// A page holds no more records than its query asks for, and at most
/// [`MAX_TASK_PAGE_SIZE`].
pub proof fn law_pages_are_bounded(
    m: MemoryModel,
    query: QueryModel,
    records: Seq<RecordModel>,
    next: Option<TaskCursor>,
)
    requires
        page_limit_error(query.limit) is None,
        m.is_page(query, records, next),
    ensures
        records.len() <= page_size(query.limit) <= MAX_TASK_PAGE_SIZE,
{
    assert(cursors(records).len() == records.len());
}

/// Pruning removes finished records only.
pub proof fn law_pruning_keeps_unfinished_work(
    m: MemoryModel,
    gone: Seq<TaskCursor>,
    accepted_before_ms: u64,
    limit: nat,
    id: u128,
)
    requires
        m.valid(),
        is_least(gone, m.expired(accepted_before_ms), limit),
        m.records.contains_key(id),
        !m.is_finished(id),
    ensures
        m.forget_all(gone).records.contains_key(id),
        m.forget_all(gone).records[id] == m.records[id],
{
    assert forall|i: int| 0 <= i < gone.len() implies (#[trigger] gone[i]).id.0 != id by {
        assert(m.expired(accepted_before_ms).contains(gone[i]));
    }
    lemma_forget_all_keeps(m, gone, id);
}

/// Forgetting other records leaves a record alone.
pub proof fn lemma_forget_all_keeps(m: MemoryModel, gone: Seq<TaskCursor>, id: u128)
    requires
        m.records.contains_key(id),
        forall|i: int| 0 <= i < gone.len() ==> (#[trigger] gone[i]).id.0 != id,
    ensures
        m.forget_all(gone).records.contains_key(id),
        m.forget_all(gone).records[id] == m.records[id],
    decreases gone.len(),
{
    if gone.len() > 0 {
        assert forall|i: int| 0 <= i < gone.drop_last().len() implies (
        #[trigger] gone.drop_last()[i]).id.0 != id by {
            assert(gone[i].id.0 != id);
        }
        lemma_forget_all_keeps(m, gone.drop_last(), id);
        assert(gone[gone.len() - 1].id.0 != id);
    }
}

/// Pruning forgets every record that it counts.
pub proof fn law_pruned_records_are_gone(m: MemoryModel, gone: Seq<TaskCursor>, i: int)
    requires
        0 <= i < gone.len(),
    ensures
        !m.forget_all(gone).records.contains_key(gone[i].id.0),
    decreases gone.len(),
{
    if i < gone.len() - 1 {
        law_pruned_records_are_gone(m, gone.drop_last(), i);
    }
}

/// A retained task reads back as its last transition left it.
pub proof fn law_reads_return_the_last_transition(m: MemoryModel, command: CommandModel, now: u64)
    requires
        m.valid(),
        m.transition_error(command) is None,
        !command.state.is_terminal() || m.history_capacity > 0,
    ensures
        m.updated(command.id.0, m.transition_record(command, now)).records.contains_key(
            command.id.0,
        ),
        m.updated(command.id.0, m.transition_record(command, now)).records[command.id.0].life
            == advanced(m.records[command.id.0].life, command, now),
{
    let id = command.id.0;
    let record = m.transition_record(command, now);
    assert(m.records[id].life.id == TaskId(id));
    assert(!m.is_finished(id));
    if command.state.is_terminal() {
        law_finished_history_keeps_the_newest(m, id, record);
    }
}

} // verus!
