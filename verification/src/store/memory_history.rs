//! What holds of an in-memory store however its operations follow one another.

use vstd::prelude::*;

use super::memory_laws::law_acceptance_keeps_unfinished_work;
use super::memory_laws::law_pruning_keeps_unfinished_work;
use super::memory_laws::lemma_after_accept;
use super::memory_laws::lemma_forget_all_keeps;
use super::memory_model::is_least;
use super::memory_model::just_finished;
use super::memory_model::lemma_change_record;
use super::memory_model::lemma_forget;
use super::memory_model::lemma_holder;
use super::memory_model::lemma_making_room;
use super::memory_model::lemma_trimmed;
use super::memory_model::MemoryModel;
use crate::lists::keeps_order;
use crate::lists::lemma_without_at;
use crate::lists::lemma_without_keeps_order;
use crate::lists::precedes;
use crate::model::task_record::cursor_lt;
use crate::model::task_record::CommandModel;
use crate::model::task_record::RecordModel;
use crate::model::task_record::TaskCursor;
use crate::model::task_request::limits_error;
use crate::model::task_request::RequestModel;
use crate::model::TaskId;

verus! {

/// A new request is accepted under `id`.
pub open spec fn accepts(
    before: MemoryModel,
    after: MemoryModel,
    id: TaskId,
    request: RequestModel,
    now: u64,
) -> bool {
    &&& before.accept_error(id, request) is None
    &&& before.replayed(request) is None
    &&& after == before.after_accept(id, request, now)
}

/// A command takes effect.
pub open spec fn transitions(
    before: MemoryModel,
    after: MemoryModel,
    command: CommandModel,
    now: u64,
) -> bool {
    &&& before.transition_error(command) is None
    &&& before.can_count(command)
    &&& after == before.updated(command.id.0, before.transition_record(command, now))
}

/// A blocked task is abandoned.
pub open spec fn abandons(
    before: MemoryModel,
    after: MemoryModel,
    id: TaskId,
    expected_version: u64,
    now: u64,
) -> bool {
    &&& before.abandon_error(id, expected_version) is None
    &&& before.can_abandon(id, expected_version)
    &&& after == before.updated(id.0, before.abandon_record(id, now))
}

/// These records are pruned.
pub open spec fn prunes(
    before: MemoryModel,
    after: MemoryModel,
    gone: Seq<TaskCursor>,
    accepted_before_ms: u64,
    max_rows: nat,
) -> bool {
    &&& is_least(gone, before.expired(accepted_before_ms), max_rows)
    &&& after == before.forget_all(gone)
}

/// Anything that an operation does to a store.
pub open spec fn store_step(before: MemoryModel, after: MemoryModel) -> bool {
    ||| after == before
    ||| exists|id: TaskId, request: RequestModel, now: u64| #[trigger]
        accepts(before, after, id, request, now)
    ||| exists|command: CommandModel, now: u64| #[trigger]
        transitions(before, after, command, now)
    ||| exists|id: TaskId, expected_version: u64, now: u64| #[trigger]
        abandons(before, after, id, expected_version, now)
    ||| exists|gone: Seq<TaskCursor>, accepted_before_ms: u64, max_rows: nat| #[trigger]
        prunes(before, after, gone, accepted_before_ms, max_rows)
}

/// Whether a step finishes the task under `id`.
pub open spec fn finishes(before: MemoryModel, after: MemoryModel, id: u128) -> bool {
    exists|record: RecordModel|
        after == #[trigger] before.updated(id, record) && record.life.state.is_terminal()
}

/// Dropping old history leaves unfinished records alone.
proof fn lemma_trimmed_keeps(m: MemoryModel, id: u128)
    requires
        m.consistent(),
        m.records.contains_key(id),
        !m.is_finished(id),
    ensures
        m.trimmed().records.contains_key(id),
        m.trimmed().records[id] == m.records[id],
    decreases m.finished.len(),
{
    if m.finished.len() > m.history_capacity {
        let oldest = m.finished[0];
        assert(m.is_finished(oldest));
        lemma_forget(m, oldest);
        lemma_trimmed_keeps(m.forget(oldest), id);
    }
}

/// Expired records are finished, and no two choices name the same one.
proof fn lemma_gone(m: MemoryModel, gone: Seq<TaskCursor>, accepted_before_ms: u64, limit: nat)
    requires
        is_least(gone, m.expired(accepted_before_ms), limit),
    ensures
        forall|i: int| 0 <= i < gone.len() ==> m.is_finished((#[trigger] gone[i]).id.0),
        forall|i: int, j: int|
            0 <= i < j < gone.len() ==> (#[trigger] gone[i]).id.0 != (#[trigger] gone[j]).id.0,
{
    assert forall|i: int| 0 <= i < gone.len() implies m.is_finished((#[trigger] gone[i]).id.0) by {
        assert(m.expired(accepted_before_ms).contains(gone[i]));
    }
    assert forall|i: int, j: int| 0 <= i < j < gone.len() implies (#[trigger] gone[i]).id.0 != (
    #[trigger] gone[j]).id.0 by {
        assert(m.expired(accepted_before_ms).contains(gone[i]));
        assert(m.expired(accepted_before_ms).contains(gone[j]));
        assert(cursor_lt(gone[i], gone[j]));
    }
}

/// Forgetting distinct finished records keeps a store valid.
proof fn lemma_forget_all_valid(m: MemoryModel, gone: Seq<TaskCursor>)
    requires
        m.valid(),
        forall|i: int| 0 <= i < gone.len() ==> m.is_finished((#[trigger] gone[i]).id.0),
        forall|i: int, j: int|
            0 <= i < j < gone.len() ==> (#[trigger] gone[i]).id.0 != (#[trigger] gone[j]).id.0,
    ensures
        m.forget_all(gone).valid(),
        m.forget_all(gone).same_limits(m),
        keeps_order(m.finished, m.forget_all(gone).finished),
    decreases gone.len(),
{
    if gone.len() > 0 {
        let rest = gone.drop_last();
        let last = gone.last().id.0;
        assert forall|i: int| 0 <= i < rest.len() implies m.is_finished((#[trigger] rest[i]).id.0)
            && rest[i].id.0 != last by {
            assert(rest[i] == gone[i]);
            assert(gone[gone.len() - 1].id.0 == last);
        }
        assert forall|i: int, j: int| 0 <= i < j < rest.len() implies (#[trigger] rest[i]).id.0 != (
        #[trigger] rest[j]).id.0 by {
            assert(rest[i] == gone[i]);
            assert(rest[j] == gone[j]);
        }
        assert(m.is_finished(gone[gone.len() - 1].id.0));
        lemma_forget_all_valid(m, rest);
        lemma_forget_all_keeps(m, rest, last);
        lemma_forget(m.forget_all(rest), last);
        lemma_without_keeps_order(m.forget_all(rest).finished, last);
    }
}

/// Changing the unfinished record under `id` keeps a store valid and every other
/// unfinished record as it was.
proof fn lemma_updated(m: MemoryModel, id: u128, record: RecordModel, other: u128)
    requires
        m.valid(),
        m.records.contains_key(id),
        !m.is_finished(id),
        record.life.id == TaskId(id),
        record.life.is_timed(),
        record.request == m.records[id].request,
    ensures
        m.updated(id, record).valid(),
        m.updated(id, record).same_limits(m),
        m.records.contains_key(other) && !m.is_finished(other) && other != id ==> {
            &&& m.updated(id, record).records.contains_key(other)
            &&& m.updated(id, record).records[other] == m.records[other]
        },
        !record.life.state.is_terminal() ==> m.updated(id, record).records.contains_key(id)
            && m.updated(id, record).records[id] == record,
{
    lemma_change_record(m, id, record);
    if record.life.state.is_terminal() {
        let done = just_finished(m, id, record);
        lemma_trimmed(done);
        if m.records.contains_key(other) && !m.is_finished(other) && other != id {
            lemma_trimmed_keeps(done, other);
        }
    }
}

/// Whatever happens to a store, its parts agree, its limits stay the same and
/// none is exceeded.
pub proof fn law_steps_keep_stores_valid(before: MemoryModel, after: MemoryModel)
    requires
        before.valid(),
        store_step(before, after),
    ensures
        after.valid(),
        after.same_limits(before),
{
    if exists|id: TaskId, request: RequestModel, now: u64| #[trigger]
        accepts(before, after, id, request, now) {
        let (id, request, now) = choose|id: TaskId, request: RequestModel, now: u64| #[trigger]
            accepts(before, after, id, request, now);
        lemma_after_accept(before, id, request, now);
        lemma_making_room(before, request.payload.len());
    } else if exists|command: CommandModel, now: u64| #[trigger]
        transitions(before, after, command, now) {
        let (command, now) = choose|command: CommandModel, now: u64| #[trigger]
            transitions(before, after, command, now);
        lemma_updated(before, command.id.0, before.transition_record(command, now), 0);
    } else if exists|id: TaskId, expected_version: u64, now: u64| #[trigger]
        abandons(before, after, id, expected_version, now) {
        let (id, expected_version, now) = choose|id: TaskId, expected_version: u64, now: u64|
            #[trigger] abandons(before, after, id, expected_version, now);
        lemma_updated(before, id.0, before.abandon_record(id, now), 0);
    } else if after != before {
        let (gone, accepted_before_ms, max_rows) = choose|
            gone: Seq<TaskCursor>,
            accepted_before_ms: u64,
            max_rows: nat,
        | #[trigger]
            prunes(before, after, gone, accepted_before_ms, max_rows);
        lemma_gone(before, gone, accepted_before_ms, max_rows);
        lemma_forget_all_valid(before, gone);
    }
}

/// Whether a later record still stands for the same accepted task.
pub open spec fn same_task(earlier: RecordModel, later: RecordModel) -> bool {
    &&& later.request == earlier.request
    &&& later.life.id == earlier.life.id
    &&& later.life.accepted_at_ms == earlier.life.accepted_at_ms
    &&& later.life.state_version >= earlier.life.state_version
}

/// An unfinished task is still there after any step that does not finish it, and
/// its request never changes.
pub proof fn law_steps_keep_unfinished_work(before: MemoryModel, after: MemoryModel, id: u128)
    requires
        before.valid(),
        store_step(before, after),
        before.records.contains_key(id),
        !before.is_finished(id),
        !finishes(before, after, id),
    ensures
        after.records.contains_key(id),
        !after.is_finished(id),
        same_task(before.records[id], after.records[id]),
{
    if exists|new: TaskId, request: RequestModel, now: u64| #[trigger]
        accepts(before, after, new, request, now) {
        let (new, request, now) = choose|new: TaskId, request: RequestModel, now: u64| #[trigger]
            accepts(before, after, new, request, now);
        law_acceptance_keeps_unfinished_work(before, new, request, now, id);
    } else if exists|command: CommandModel, now: u64| #[trigger]
        transitions(before, after, command, now) {
        let (command, now) = choose|command: CommandModel, now: u64| #[trigger]
            transitions(before, after, command, now);
        lemma_updated(before, command.id.0, before.transition_record(command, now), id);
    } else if exists|other: TaskId, expected_version: u64, now: u64| #[trigger]
        abandons(before, after, other, expected_version, now) {
        let (other, expected_version, now) = choose|other: TaskId, expected_version: u64, now: u64|
            #[trigger] abandons(before, after, other, expected_version, now);
        lemma_updated(before, other.0, before.abandon_record(other, now), id);
    } else if after != before {
        let (gone, accepted_before_ms, max_rows) = choose|
            gone: Seq<TaskCursor>,
            accepted_before_ms: u64,
            max_rows: nat,
        | #[trigger]
            prunes(before, after, gone, accepted_before_ms, max_rows);
        law_pruning_keeps_unfinished_work(before, gone, accepted_before_ms, max_rows, id);
    }
}

/// Accepted work is never lost: however operations follow one another, a task is
/// retained with its request until a step finishes it, and all that time the
/// store keeps within its limits.
pub proof fn law_accepted_work_is_never_lost(history: Seq<MemoryModel>, id: u128, i: int, j: int)
    requires
        0 <= i <= j < history.len(),
        history[i].valid(),
        forall|k: int| i <= k < j ==> store_step(#[trigger] history[k], history[k + 1]),
        history[i].records.contains_key(id),
        !history[i].is_finished(id),
        forall|k: int| i <= k < j ==> !finishes(#[trigger] history[k], history[k + 1], id),
    ensures
        history[j].valid(),
        history[j].records.contains_key(id),
        !history[j].is_finished(id),
        same_task(history[i].records[id], history[j].records[id]),
    decreases j - i,
{
    if i < j {
        law_accepted_work_is_never_lost(history, id, i, j - 1);
        assert(store_step(history[j - 1], history[(j - 1) + 1]));
        assert(!finishes(history[j - 1], history[(j - 1) + 1], id));
        law_steps_keep_stores_valid(history[j - 1], history[j]);
        law_steps_keep_unfinished_work(history[j - 1], history[j], id);
    }
}

/// As long as a keyed task is retained, the identical request is answered with
/// its current record and changes nothing.
pub proof fn law_retained_requests_replay(m: MemoryModel, holder: u128, id: TaskId)
    requires
        m.valid(),
        m.records.contains_key(holder),
        m.records[holder].request.info.idempotency_key is Some,
        limits_error(m.records[holder].request) is None,
    ensures
        m.accept_error(id, m.records[holder].request) is None,
        m.replayed(m.records[holder].request) == Some(holder),
{
    let key = m.records[holder].request.info.idempotency_key->0;
    assert(m.holds_key(holder, key));
    lemma_holder(m, holder, key);
}

/// Dropping the oldest finished records keeps the order of the others.
proof fn lemma_trimmed_order(m: MemoryModel)
    requires
        m.consistent(),
    ensures
        keeps_order(m.finished, m.trimmed().finished),
    decreases m.finished.len(),
{
    if m.finished.len() > m.history_capacity {
        let oldest = m.finished[0];
        assert(m.is_finished(oldest));
        lemma_forget(m, oldest);
        lemma_without_keeps_order(m.finished, oldest);
        lemma_trimmed_order(m.forget(oldest));
    }
}

/// Making room keeps the order of the finished records that stay.
proof fn lemma_room_order(m: MemoryModel, requested: nat)
    requires
        m.consistent(),
    ensures
        keeps_order(m.finished, m.making_room(requested).finished),
    decreases m.finished.len(),
{
    if !(m.payload_bytes() + requested <= m.max_payload_bytes) && m.finished.len() > 0 {
        let oldest = m.finished[0];
        assert(m.is_finished(oldest));
        lemma_forget(m, oldest);
        lemma_without_keeps_order(m.finished, oldest);
        lemma_room_order(m.forget(oldest), requested);
    }
}

/// The finished list that a step leaves is the one before, or that one with a
/// task added at its end, from which some may be missing.
proof fn lemma_step_order(before: MemoryModel, after: MemoryModel) -> (list: Seq<u128>)
    requires
        before.valid(),
        store_step(before, after),
    ensures
        list == before.finished || list == before.finished.push(list.last()),
        keeps_order(list, after.finished),
{
    if exists|id: TaskId, request: RequestModel, now: u64| #[trigger]
        accepts(before, after, id, request, now) {
        let (id, request, now) = choose|id: TaskId, request: RequestModel, now: u64| #[trigger]
            accepts(before, after, id, request, now);
        lemma_room_order(before, request.payload.len());
        before.finished
    } else if exists|command: CommandModel, now: u64| #[trigger]
        transitions(before, after, command, now) {
        let (command, now) = choose|command: CommandModel, now: u64| #[trigger]
            transitions(before, after, command, now);
        lemma_updated_order(before, command.id.0, before.transition_record(command, now))
    } else if exists|id: TaskId, expected_version: u64, now: u64| #[trigger]
        abandons(before, after, id, expected_version, now) {
        let (id, expected_version, now) = choose|id: TaskId, expected_version: u64, now: u64|
            #[trigger] abandons(before, after, id, expected_version, now);
        lemma_updated_order(before, id.0, before.abandon_record(id, now))
    } else if after != before {
        let (gone, accepted_before_ms, max_rows) = choose|
            gone: Seq<TaskCursor>,
            accepted_before_ms: u64,
            max_rows: nat,
        | #[trigger]
            prunes(before, after, gone, accepted_before_ms, max_rows);
        lemma_gone(before, gone, accepted_before_ms, max_rows);
        lemma_forget_all_valid(before, gone);
        before.finished
    } else {
        before.finished
    }
}

proof fn lemma_updated_order(m: MemoryModel, id: u128, record: RecordModel) -> (list: Seq<u128>)
    requires
        m.valid(),
        m.records.contains_key(id),
        !m.is_finished(id),
        record.life.id == TaskId(id),
        record.life.is_timed(),
        record.request == m.records[id].request,
    ensures
        list == m.finished || list == m.finished.push(list.last()),
        keeps_order(list, m.updated(id, record).finished),
{
    if record.life.state.is_terminal() {
        lemma_change_record(m, id, record);
        lemma_trimmed_order(just_finished(m, id, record));
        m.finished.push(id)
    } else {
        m.finished
    }
}

/// The finished list is in the order in which tasks finished: whoever was
/// finished while another was not yet stands in front of it for as long as both
/// are retained.
pub proof fn law_finished_list_is_in_completion_order(
    history: Seq<MemoryModel>,
    first: u128,
    second: u128,
    i: int,
    j: int,
)
    requires
        0 <= i <= j < history.len(),
        history[i].valid(),
        forall|k: int| i <= k < j ==> store_step(#[trigger] history[k], history[k + 1]),
        forall|k: int| i <= k <= j ==> (#[trigger] history[k]).is_finished(first),
        !history[i].is_finished(second),
        history[j].is_finished(second),
    ensures
        precedes(history[j].finished, first, second),
    decreases j - i,
{
    lemma_history_valid(history, i, j - 1);
    let before = history[j - 1];
    let after = history[j];
    assert(store_step(history[j - 1], history[(j - 1) + 1]));
    law_steps_keep_stores_valid(before, after);
    let list = lemma_step_order(before, after);
    assert(history[j].is_finished(first));
    assert(after.finished.contains(first));
    assert(after.finished.contains(second));
    assert(list.contains(second));
    assert(history[j - 1].is_finished(first));
    let x = choose|x: int| 0 <= x < before.finished.len() && before.finished[x] == first;
    if before.is_finished(second) {
        law_finished_list_is_in_completion_order(history, first, second, i, j - 1);
        let (a, b) = choose|a: int, b: int|
            0 <= a < b < before.finished.len() && #[trigger] before.finished[a] == first
                && #[trigger] before.finished[b] == second;
        assert(list[a] == first && list[b] == second);
    } else {
        let y = choose|y: int| 0 <= y < list.len() && list[y] == second;
        if y < before.finished.len() {
            assert(before.is_finished(before.finished[y]));
        }
        assert(list[x] == first);
    }
    assert(precedes(list, first, second));
}

/// Every store of a history that starts valid is valid and has the same limits.
proof fn lemma_history_valid(history: Seq<MemoryModel>, i: int, j: int)
    requires
        0 <= i < history.len(),
        i - 1 <= j < history.len(),
        history[i].valid(),
        forall|k: int| i <= k < j ==> store_step(#[trigger] history[k], history[k + 1]),
    ensures
        i <= j ==> history[j].valid() && history[j].same_limits(history[i]),
    decreases j - i,
{
    if i < j {
        lemma_history_valid(history, i, j - 1);
        assert(store_step(history[j - 1], history[(j - 1) + 1]));
        law_steps_keep_stores_valid(history[j - 1], history[j]);
    }
}

/// What a command that takes effect leaves in a store: the changed record, and
/// all the others as they were. Where one finished record too many would be
/// retained, the one that finished first is dropped instead, its idempotency key
/// becomes free, and no other record is touched.
pub open spec fn keeps_the_newest(
    before: MemoryModel,
    after: MemoryModel,
    command: CommandModel,
    now: u64,
) -> bool {
    let id = command.id.0;
    let changed = before.records.insert(id, before.transition_record(command, now));
    let done = before.finished.push(id);
    if !command.state.is_terminal() {
        after.records == changed && after.finished == before.finished
    } else if before.finished.len() < before.history_capacity {
        after.records == changed && after.finished == done
    } else {
        &&& after.records == changed.remove(done[0])
        &&& after.finished == done.drop_first()
        &&& changed[done[0]].request.info.idempotency_key matches Some(key) ==> after.holder(
            key,
        ) is None
    }
}

/// However a store came about from an empty one, it retains at most
/// `history_capacity` finished records, and a transition keeps the newest of
/// them.
pub proof fn law_histories_keep_the_newest(
    history_capacity: usize,
    max_payload_bytes: usize,
    max_unfinished_records: usize,
    history: Seq<MemoryModel>,
    j: int,
    command: CommandModel,
    now: u64,
)
    requires
        0 < j < history.len(),
        history[0] == MemoryModel::empty(
            history_capacity,
            max_payload_bytes,
            max_unfinished_records,
        ),
        forall|k: int| 0 <= k < j ==> store_step(#[trigger] history[k], history[k + 1]),
        transitions(history[j - 1], history[j], command, now),
    ensures
        history[j].valid(),
        history[j].finished.len() <= history_capacity,
        keeps_the_newest(history[j - 1], history[j], command, now),
{
    assert(history[0].records.dom() =~= Set::<u128>::empty());
    assert(history[0].payload_bytes() == 0);
    assert(history[0].unfinished() == 0);
    lemma_history_valid(history, 0, j);
    lemma_history_valid(history, 0, j - 1);
    let m = history[j - 1];
    let id = command.id.0;
    let record = m.transition_record(command, now);
    assert(m.records[id].life.id == TaskId(id));
    assert(!m.is_finished(id));
    if command.state.is_terminal() {
        let done = just_finished(m, id, record);
        lemma_change_record(m, id, record);
        reveal_with_fuel(MemoryModel::trimmed, 2);
        if m.finished.len() >= m.history_capacity {
            let oldest = done.finished[0];
            assert(done.is_finished(oldest));
            lemma_forget(done, oldest);
            lemma_without_at(done.finished, oldest, 0);
            assert(done.finished.remove(0) =~= done.finished.drop_first());
            let after = done.forget(oldest);
            if done.key_of(oldest) is Some {
                let key = done.key_of(oldest)->0;
                assert forall|x: u128| !after.holds_key(x, key) by {
                    if after.holds_key(x, key) {
                        assert(done.records.contains_key(x));
                        assert(done.key_of(x) == done.key_of(oldest));
                    }
                }
            }
        }
    }
}

} // verus!
