//! What an in-memory task store holds, and how its operations change it.

use vstd::prelude::*;

use super::lifecycle::abandon_error;
use super::lifecycle::abandoned;
use super::lifecycle::advanced;
use super::lifecycle::command_error;
use super::lifecycle::counters_fit;
use super::lifecycle::revision_error;
use super::StoreErrorModel;
use crate::lists::lemma_without_at;
use crate::lists::without;
use crate::model::task_record::cursor_lt;
use crate::model::task_record::page_size;
use crate::model::task_record::CommandModel;
use crate::model::task_record::QueryModel;
use crate::model::task_record::RecordModel;
use crate::model::task_record::TaskCursor;
use crate::model::task_record::TaskStateKind;
use crate::model::task_request::limits_error;
use crate::model::task_request::RequestModel;
use crate::model::TaskId;
use crate::totals::lemma_total_agree;
use crate::totals::lemma_total_insert;
use crate::totals::lemma_total_remove;
use crate::totals::lemma_total_replace;
use crate::totals::total;

verus! {

/// Content of an in-memory task store.
#[verifier::ext_equal]
pub struct MemoryModel {
    /// Most finished records retained.
    pub history_capacity: usize,
    /// Most payload bytes retained.
    pub max_payload_bytes: usize,
    /// Most unfinished records retained.
    pub max_unfinished_records: usize,
    /// Retained records by the number of their identifier.
    pub records: Map<u128, RecordModel>,
    /// Identifiers of retained finished records, in the order they finished.
    pub finished: Seq<u128>,
}

/// Payload bytes of a record.
pub open spec fn payload_weight() -> spec_fn(RecordModel) -> nat {
    |r: RecordModel| r.request.payload.len()
}

/// One for each unfinished record.
pub open spec fn unfinished_weight() -> spec_fn(RecordModel) -> nat {
    |r: RecordModel|
        if r.life.state.is_terminal() {
            0nat
        } else {
            1nat
        }
}

/// Payload bytes of an unfinished record.
pub open spec fn unfinished_payload_weight() -> spec_fn(RecordModel) -> nat {
    |r: RecordModel|
        if r.life.state.is_terminal() {
            0nat
        } else {
            r.request.payload.len()
        }
}

/// One for each record whose state is of category `kind`.
pub open spec fn kind_weight(kind: TaskStateKind) -> spec_fn(RecordModel) -> nat {
    |r: RecordModel|
        if r.life.state.kind() == kind {
            1nat
        } else {
            0nat
        }
}

/// One for each finished record.
pub open spec fn finished_weight() -> spec_fn(RecordModel) -> nat {
    |r: RecordModel|
        if r.life.state.is_terminal() {
            1nat
        } else {
            0nat
        }
}

/// Whether `chosen` are the first `limit` positions of `all`, in history order.
pub open spec fn is_least(chosen: Seq<TaskCursor>, all: Set<TaskCursor>, limit: nat) -> bool {
    &&& all.finite()
    &&& chosen.len() == if all.len() < limit {
        all.len()
    } else {
        limit
    }
    &&& forall|i: int| 0 <= i < chosen.len() ==> all.contains(#[trigger] chosen[i])
    &&& forall|i: int, j: int|
        0 <= i < j < chosen.len() ==> cursor_lt(#[trigger] chosen[i], #[trigger] chosen[j])
    &&& forall|i: int, c: TaskCursor|
        #![trigger chosen[i], all.contains(c)]
        0 <= i < chosen.len() && all.contains(c) && !chosen.contains(c) ==> cursor_lt(chosen[i], c)
}

impl MemoryModel {
    /// An empty store with the given limits.
    pub open spec fn empty(
        history_capacity: usize,
        max_payload_bytes: usize,
        max_unfinished_records: usize,
    ) -> MemoryModel {
        MemoryModel {
            history_capacity,
            max_payload_bytes,
            max_unfinished_records,
            records: Map::empty(),
            finished: Seq::empty(),
        }
    }

    /// Whether two stores have the same limits.
    pub open spec fn same_limits(self, other: MemoryModel) -> bool {
        &&& self.history_capacity == other.history_capacity
        &&& self.max_payload_bytes == other.max_payload_bytes
        &&& self.max_unfinished_records == other.max_unfinished_records
    }

    /// Payload bytes of all retained records.
    pub open spec fn payload_bytes(self) -> nat {
        total(self.records, payload_weight())
    }

    /// Payload bytes of the retained unfinished records.
    pub open spec fn unfinished_payload_bytes(self) -> nat {
        total(self.records, unfinished_payload_weight())
    }

    /// Number of retained unfinished records.
    pub open spec fn unfinished(self) -> nat {
        total(self.records, unfinished_weight())
    }

    /// Number of retained records whose state is of category `kind`.
    pub open spec fn count(self, kind: TaskStateKind) -> nat {
        total(self.records, kind_weight(kind))
    }

    /// What every reachable store satisfies: its parts agree and no limit is
    /// exceeded.
    pub open spec fn valid(self) -> bool {
        &&& self.consistent()
        &&& self.finished.len() <= self.history_capacity
    }

    /// Records are filed under their own identifier and have a completion time
    /// exactly when they are finished, idempotency keys are not shared, the
    /// finished list names the finished records once each, and the payload and
    /// unfinished limits hold.
    pub open spec fn consistent(self) -> bool {
        &&& self.records.dom().finite()
        &&& forall|id: u128| #[trigger]
            self.records.contains_key(id) ==> self.records[id].life.id == TaskId(id)
                && self.records[id].life.is_timed()
        &&& forall|a: u128, b: u128|
            self.records.contains_key(a) && self.records.contains_key(b)
                && #[trigger] self.key_of(a) is Some && self.key_of(a) == #[trigger] self.key_of(b)
                ==> a == b
        &&& self.finished.no_duplicates()
        &&& forall|i: int| 0 <= i < self.finished.len() ==> self.is_finished(#[trigger] self.finished[i])
        &&& forall|id: u128| #[trigger] self.is_finished(id) ==> self.finished.contains(id)
        &&& self.payload_bytes() <= self.max_payload_bytes
        &&& self.unfinished() <= self.max_unfinished_records
    }

    /// Whether a finished record is retained under `id`.
    pub open spec fn is_finished(self, id: u128) -> bool {
        self.records.contains_key(id) && self.records[id].life.state.is_terminal()
    }

    /// The idempotency key of the record under `id`.
    pub open spec fn key_of(self, id: u128) -> Option<Seq<char>> {
        self.records[id].request.info.idempotency_key
    }

    /// Whether the record under `id` holds the idempotency key `key`.
    pub open spec fn holds_key(self, id: u128, key: Seq<char>) -> bool {
        self.records.contains_key(id) && self.key_of(id) == Some(key)
    }

    /// The record that holds the idempotency key `key`.
    pub open spec fn holder(self, key: Seq<char>) -> Option<u128> {
        if exists|id: u128| self.holds_key(id, key) {
            Some(choose|id: u128| self.holds_key(id, key))
        } else {
            None
        }
    }

    /// The record that a request replays, if its key is retained.
    pub open spec fn replayed(self, request: RequestModel) -> Option<u128> {
        match request.info.idempotency_key {
            Some(key) => self.holder(key),
            None => None,
        }
    }

    /// The store without the record under `id`.
    pub open spec fn forget(self, id: u128) -> MemoryModel {
        MemoryModel {
            records: self.records.remove(id),
            finished: without(self.finished, id),
            ..self
        }
    }

    /// The store without the records under `ids`.
    pub open spec fn forget_all(self, ids: Seq<TaskCursor>) -> MemoryModel
        decreases ids.len(),
    {
        if ids.len() == 0 {
            self
        } else {
            self.forget_all(ids.drop_last()).forget(ids.last().id.0)
        }
    }

    /// The store after dropping its oldest finished records until `requested`
    /// more payload bytes fit.
    pub open spec fn making_room(self, requested: nat) -> MemoryModel
        decreases self.finished.len(),
    {
        if self.payload_bytes() + requested <= self.max_payload_bytes || self.finished.len() == 0 {
            self
        } else {
            self.forget(self.finished[0]).making_room(requested)
        }
    }

    /// The store after dropping its oldest finished records until the history
    /// fits its capacity.
    pub open spec fn trimmed(self) -> MemoryModel
        decreases self.finished.len(),
    {
        if self.finished.len() <= self.history_capacity || self.finished.len() == 0 {
            self
        } else {
            self.forget(self.finished[0]).trimmed()
        }
    }

    /// The store with one more unfinished record.
    pub open spec fn with_record(self, id: u128, record: RecordModel) -> MemoryModel {
        MemoryModel { records: self.records.insert(id, record), ..self }
    }

    /// The store after the record under `id` changed to `record`.
    pub open spec fn updated(self, id: u128, record: RecordModel) -> MemoryModel {
        if record.life.state.is_terminal() {
            MemoryModel {
                records: self.records.insert(id, record),
                finished: self.finished.push(id),
                ..self
            }.trimmed()
        } else {
            self.with_record(id, record)
        }
    }

    /// Why a request is not accepted under `id`, if it is not.
    pub open spec fn accept_error(self, id: TaskId, request: RequestModel) -> Option<
        StoreErrorModel,
    > {
        if limits_error(request) is Some {
            Some(StoreErrorModel::InvalidRequest(limits_error(request)->0))
        } else if self.replayed(request) is Some {
            if self.records[self.replayed(request)->0].request == request {
                None
            } else {
                Some(StoreErrorModel::IdempotencyConflict)
            }
        } else if self.records.contains_key(id.0) {
            Some(StoreErrorModel::DuplicateTask)
        } else if self.unfinished() >= self.max_unfinished_records {
            Some(
                StoreErrorModel::UnfinishedRecordLimitExceeded {
                    limit: self.max_unfinished_records,
                },
            )
        } else if self.unfinished_payload_bytes() + request.payload.len()
            > self.max_payload_bytes {
            Some(
                StoreErrorModel::CapacityExceeded {
                    requested_bytes: request.payload.len() as usize,
                    available_bytes: (self.max_payload_bytes
                        - self.unfinished_payload_bytes()) as usize,
                },
            )
        } else {
            None
        }
    }

    /// The store after a new request is accepted under `id` at `now`.
    pub open spec fn after_accept(self, id: TaskId, request: RequestModel, now: u64) -> MemoryModel {
        self.making_room(request.payload.len()).with_record(
            id.0,
            RecordModel::accepted(id, request, now),
        )
    }

    /// Why a transition does not take effect, if it does not.
    pub open spec fn transition_error(self, command: CommandModel) -> Option<StoreErrorModel> {
        if command_error(command) is Some {
            command_error(command)
        } else if !self.records.contains_key(command.id.0) {
            Some(StoreErrorModel::NotFound)
        } else {
            revision_error(self.records[command.id.0].life, command)
        }
    }

    /// Whether the counters that a command raises, if it takes effect, can be
    /// raised.
    pub open spec fn can_count(self, command: CommandModel) -> bool {
        self.transition_error(command) is None ==> counters_fit(
            self.records[command.id.0].life,
            command,
        )
    }

    /// Whether the revision of a task that is abandoned can be raised.
    pub open spec fn can_abandon(self, id: TaskId, expected_version: u64) -> bool {
        self.abandon_error(id, expected_version) is None ==> expected_version < u64::MAX
    }

    /// The record that a transition at `now` leaves.
    pub open spec fn transition_record(self, command: CommandModel, now: u64) -> RecordModel {
        RecordModel {
            request: self.records[command.id.0].request,
            life: advanced(self.records[command.id.0].life, command, now),
        }
    }

    /// Why a blocked task is not abandoned, if it is not.
    pub open spec fn abandon_error(self, id: TaskId, expected_version: u64) -> Option<
        StoreErrorModel,
    > {
        if !self.records.contains_key(id.0) {
            Some(StoreErrorModel::NotFound)
        } else {
            abandon_error(self.records[id.0].life, expected_version)
        }
    }

    /// The record that abandoning a blocked task at `now` leaves.
    pub open spec fn abandon_record(self, id: TaskId, now: u64) -> RecordModel {
        RecordModel {
            request: self.records[id.0].request,
            life: abandoned(self.records[id.0].life, now),
        }
    }

    /// History positions of the records that a query selects.
    pub open spec fn matches(self, query: QueryModel) -> Set<TaskCursor> {
        Set::new(
            |c: TaskCursor|
                self.records.contains_key(c.id.0) && self.records[c.id.0].life.cursor() == c
                    && query.selects(self.records[c.id.0].request.info, self.records[c.id.0].life),
        )
    }

    /// Whether `records` and `next` answer a query: the first selected records
    /// in history order, and the position of the last when more follow.
    pub open spec fn is_page(
        self,
        query: QueryModel,
        records: Seq<RecordModel>,
        next: Option<TaskCursor>,
    ) -> bool {
        let all = self.matches(query);
        let size = page_size(query.limit) as nat;
        &&& is_least(cursors(records), all, size)
        &&& forall|i: int|
            0 <= i < records.len() ==> (#[trigger] records[i])
                == self.records[records[i].life.id.0]
        &&& next == if all.len() > size {
            Some(records.last().life.cursor())
        } else {
            None
        }
    }

    /// History positions of finished records accepted before a time.
    pub open spec fn expired(self, accepted_before_ms: u64) -> Set<TaskCursor> {
        Set::new(
            |c: TaskCursor|
                self.is_finished(c.id.0) && self.records[c.id.0].life.cursor() == c
                    && c.accepted_at_ms < accepted_before_ms,
        )
    }
}

/// History positions of a list of records.
pub open spec fn cursors(records: Seq<RecordModel>) -> Seq<TaskCursor> {
    Seq::new(records.len(), |i: int| records[i].life.cursor())
}

/// In a valid store a key is held by the record that has it.
pub proof fn lemma_holder(m: MemoryModel, id: u128, key: Seq<char>)
    requires
        m.consistent(),
        m.holds_key(id, key),
    ensures
        m.holder(key) == Some(id),
{
    let other = choose|x: u128| m.holds_key(x, key);
    assert(m.holds_key(other, key));
    assert(m.key_of(other) == m.key_of(id));
}

/// Forgetting a finished record keeps a store consistent, frees the record's payload
/// bytes and leaves the unfinished records alone.
pub proof fn lemma_forget(m: MemoryModel, id: u128)
    requires
        m.consistent(),
        m.is_finished(id),
    ensures
        m.forget(id).consistent(),
        m.forget(id).payload_bytes() + m.records[id].request.payload.len() == m.payload_bytes(),
        m.forget(id).unfinished() == m.unfinished(),
        m.forget(id).unfinished_payload_bytes() == m.unfinished_payload_bytes(),
        m.forget(id).finished.len() == m.finished.len() - 1,
{
    let next = m.forget(id);
    assert(m.finished.contains(id));
    let at = choose|i: int| 0 <= i < m.finished.len() && m.finished[i] == id;
    lemma_without_at(m.finished, id, at);
    lemma_total_remove(m.records, id, payload_weight());
    lemma_total_remove(m.records, id, unfinished_weight());
    lemma_total_remove(m.records, id, unfinished_payload_weight());
    assert forall|a: u128, b: u128|
        next.records.contains_key(a) && next.records.contains_key(b)
            && #[trigger] next.key_of(a) is Some && next.key_of(a) == #[trigger] next.key_of(
            b,
        ) implies a == b by {
        assert(m.records.contains_key(a) && m.records.contains_key(b));
        assert(m.key_of(a) is Some && m.key_of(a) == m.key_of(b));
    }
    assert forall|i: int| 0 <= i < next.finished.len() implies next.is_finished(
        #[trigger] next.finished[i],
    ) by {
        let k = if i < at {
            i
        } else {
            i + 1
        };
        assert(next.finished[i] == m.finished[k]);
        assert(m.is_finished(m.finished[k]));
        assert(m.finished[k] != m.finished[at]);
    }
    assert forall|x: u128| #[trigger] next.is_finished(x) implies next.finished.contains(x) by {
        assert(m.is_finished(x));
        let k = choose|k: int| 0 <= k < m.finished.len() && m.finished[k] == x;
        assert(k != at);
        if k < at {
            assert(next.finished[k] == x);
        } else {
            assert(next.finished[k - 1] == x);
        }
    }
    assert forall|x: u128| #[trigger] next.records.contains_key(x) implies next.records[x].life.id
        == TaskId(x) && next.records[x].life.is_timed() by {
        assert(m.records.contains_key(x));
    }
}

/// A store in which nothing is finished holds unfinished payloads only.
pub proof fn lemma_nothing_finished(m: MemoryModel)
    requires
        m.valid(),
        m.finished.len() == 0,
    ensures
        m.payload_bytes() == m.unfinished_payload_bytes(),
{
    assert forall|k: u128| #[trigger] m.records.contains_key(k) implies payload_weight()(
        m.records[k],
    ) == unfinished_payload_weight()(m.records[k]) by {
        if m.is_finished(k) {
            assert(m.finished.contains(k));
        }
    }
    lemma_total_agree(m.records, payload_weight(), unfinished_payload_weight());
}

/// Making room keeps a store valid, drops finished records only, and succeeds
/// whenever the unfinished payloads leave room.
pub proof fn lemma_making_room(m: MemoryModel, requested: nat)
    requires
        m.valid(),
    ensures
        m.making_room(requested).valid(),
        m.making_room(requested).unfinished() == m.unfinished(),
        m.making_room(requested).history_capacity == m.history_capacity,
        m.making_room(requested).max_payload_bytes == m.max_payload_bytes,
        m.making_room(requested).max_unfinished_records == m.max_unfinished_records,
        m.unfinished_payload_bytes() + requested <= m.max_payload_bytes ==> m.making_room(
            requested,
        ).payload_bytes() + requested <= m.max_payload_bytes,
        forall|id: u128| #[trigger]
            m.making_room(requested).records.contains_key(id) ==> m.records.contains_key(id)
                && m.making_room(requested).records[id] == m.records[id],
        forall|id: u128|
            m.records.contains_key(id) && !(#[trigger] m.is_finished(id)) ==> m.making_room(
                requested,
            ).records.contains_key(id),
    decreases m.finished.len(),
{
    if m.payload_bytes() + requested <= m.max_payload_bytes {
    } else if m.finished.len() == 0 {
        lemma_nothing_finished(m);
    } else {
        let oldest = m.finished[0];
        assert(m.is_finished(oldest));
        lemma_forget(m, oldest);
        lemma_making_room(m.forget(oldest), requested);
        assert forall|id: u128| #[trigger]
            m.making_room(requested).records.contains_key(id) implies m.records.contains_key(
            id,
        ) && m.making_room(requested).records[id] == m.records[id] by {
            assert(m.forget(oldest).making_room(requested).records.contains_key(id));
            assert(m.forget(oldest).records.contains_key(id));
        }
        assert forall|id: u128|
            m.records.contains_key(id) && !(#[trigger] m.is_finished(id)) implies m.making_room(
            requested,
        ).records.contains_key(id) by {
            assert(m.forget(oldest).records.contains_key(id));
            assert(!m.forget(oldest).is_finished(id));
        }
    }
}

/// Adding an unfinished record under a fresh identifier and a free key keeps a
/// store valid while the limits leave room.
pub proof fn lemma_with_record(m: MemoryModel, id: u128, record: RecordModel)
    requires
        m.valid(),
        !m.records.contains_key(id),
        record.life.id == TaskId(id),
        record.life.is_timed(),
        !record.life.state.is_terminal(),
        m.payload_bytes() + record.request.payload.len() <= m.max_payload_bytes,
        m.unfinished() < m.max_unfinished_records,
        record.request.info.idempotency_key is Some ==> m.holder(
            record.request.info.idempotency_key->0,
        ) is None,
    ensures
        m.with_record(id, record).valid(),
        m.with_record(id, record).payload_bytes() == m.payload_bytes()
            + record.request.payload.len(),
        m.with_record(id, record).unfinished() == m.unfinished() + 1,
{
    let next = m.with_record(id, record);
    lemma_total_insert(m.records, id, record, payload_weight());
    lemma_total_insert(m.records, id, record, unfinished_weight());
    assert forall|a: u128, b: u128|
        next.records.contains_key(a) && next.records.contains_key(b)
            && #[trigger] next.key_of(a) is Some && next.key_of(a) == #[trigger] next.key_of(
            b,
        ) implies a == b by {
        if a != id && b != id {
            assert(m.key_of(a) is Some && m.key_of(a) == m.key_of(b));
        } else if a != id {
            assert(m.holds_key(a, record.request.info.idempotency_key->0));
        } else if b != id {
            assert(m.holds_key(b, record.request.info.idempotency_key->0));
        }
    }
    assert forall|i: int| 0 <= i < next.finished.len() implies next.is_finished(
        #[trigger] next.finished[i],
    ) by {
        assert(m.is_finished(m.finished[i]));
    }
    assert forall|x: u128| #[trigger] next.is_finished(x) implies next.finished.contains(x) by {
        assert(m.is_finished(x));
    }
    assert forall|x: u128| #[trigger] next.records.contains_key(x) implies next.records[x].life.id
        == TaskId(x) && next.records[x].life.is_timed() by {
        if x != id {
            assert(m.records.contains_key(x));
        }
    }
}

/// The store right after the record under `id` finished, before its history is
/// cut back.
pub open spec fn just_finished(m: MemoryModel, id: u128, record: RecordModel) -> MemoryModel {
    MemoryModel { records: m.records.insert(id, record), finished: m.finished.push(id), ..m }
}

/// Changing an unfinished record keeps a store consistent.
pub proof fn lemma_change_record(m: MemoryModel, id: u128, record: RecordModel)
    requires
        m.consistent(),
        m.records.contains_key(id),
        !m.is_finished(id),
        record.life.id == TaskId(id),
        record.life.is_timed(),
        record.request == m.records[id].request,
    ensures
        !record.life.state.is_terminal() ==> {
            &&& m.with_record(id, record).consistent()
            &&& m.with_record(id, record).payload_bytes() == m.payload_bytes()
            &&& m.with_record(id, record).unfinished() == m.unfinished()
        },
        record.life.state.is_terminal() ==> {
            &&& just_finished(m, id, record).consistent()
            &&& just_finished(m, id, record).payload_bytes() == m.payload_bytes()
            &&& just_finished(m, id, record).unfinished() + 1 == m.unfinished()
        },
{
    lemma_total_replace(m.records, id, record, payload_weight());
    lemma_total_replace(m.records, id, record, unfinished_weight());
    let open = m.with_record(id, record);
    assert(!m.finished.contains(id));
    assert forall|a: u128, b: u128|
        open.records.contains_key(a) && open.records.contains_key(b)
            && #[trigger] open.key_of(a) is Some && open.key_of(a) == #[trigger] open.key_of(
            b,
        ) implies a == b by {
        assert(m.key_of(a) == open.key_of(a));
        assert(m.key_of(b) == open.key_of(b));
    }
    assert forall|x: u128| #[trigger] open.records.contains_key(x) implies open.records[x].life.id
        == TaskId(x) && open.records[x].life.is_timed() by {
        if x != id {
            assert(m.records.contains_key(x));
        }
    }
    if record.life.state.is_terminal() {
        let done = just_finished(m, id, record);
        assert forall|a: u128, b: u128|
            done.records.contains_key(a) && done.records.contains_key(b)
                && #[trigger] done.key_of(a) is Some && done.key_of(a) == #[trigger] done.key_of(
                b,
            ) implies a == b by {
            assert(m.key_of(a) == done.key_of(a));
            assert(m.key_of(b) == done.key_of(b));
        }
        assert forall|i: int| 0 <= i < done.finished.len() implies done.is_finished(
            #[trigger] done.finished[i],
        ) by {
            if i < m.finished.len() {
                assert(m.is_finished(m.finished[i]));
            }
        }
        assert forall|x: u128| #[trigger] done.is_finished(x) implies done.finished.contains(x) by {
            if x == id {
                assert(done.finished[m.finished.len() as int] == id);
            } else {
                assert(m.is_finished(x));
                let k = choose|k: int| 0 <= k < m.finished.len() && m.finished[k] == x;
                assert(done.finished[k] == x);
            }
        }
        assert(done.finished.no_duplicates());
    } else {
        assert forall|i: int| 0 <= i < open.finished.len() implies open.is_finished(
            #[trigger] open.finished[i],
        ) by {
            assert(m.is_finished(m.finished[i]));
        }
        assert forall|x: u128| #[trigger] open.is_finished(x) implies open.finished.contains(x) by {
            assert(m.is_finished(x));
        }
    }
}

/// Cutting the history back keeps a store consistent and makes it valid.
pub proof fn lemma_trimmed(m: MemoryModel)
    requires
        m.consistent(),
    ensures
        m.trimmed().valid(),
        m.trimmed().unfinished() == m.unfinished(),
        m.trimmed().payload_bytes() <= m.payload_bytes(),
        m.trimmed().history_capacity == m.history_capacity,
        m.trimmed().max_payload_bytes == m.max_payload_bytes,
        m.trimmed().max_unfinished_records == m.max_unfinished_records,
    decreases m.finished.len(),
{
    if m.finished.len() > m.history_capacity {
        assert(m.is_finished(m.finished[0]));
        lemma_forget(m, m.finished[0]);
        lemma_trimmed(m.forget(m.finished[0]));
    }
}

/// A complete choice holds everything there is.
pub proof fn lemma_least_complete(chosen: Seq<TaskCursor>, all: Set<TaskCursor>, limit: nat)
    requires
        is_least(chosen, all, limit),
        chosen.len() == all.len(),
    ensures
        forall|c: TaskCursor| all.contains(c) ==> chosen.contains(c),
{
    assert(chosen.no_duplicates());
    chosen.unique_seq_to_set();
    assert(chosen.to_set().subset_of(all)) by {
        assert forall|c: TaskCursor| chosen.to_set().contains(c) implies all.contains(c) by {
            let i = choose|i: int| 0 <= i < chosen.len() && chosen[i] == c;
            assert(all.contains(chosen[i]));
        }
    }
    vstd::set_lib::lemma_len_subset(chosen.to_set(), all);
    vstd::set_lib::lemma_subset_equality(chosen.to_set(), all);
    assert forall|c: TaskCursor| all.contains(c) implies chosen.contains(c) by {
        assert(chosen.to_set().contains(c));
    }
}

/// The first positions of a choice are the choice for a smaller limit.
pub proof fn lemma_least_prefix(chosen: Seq<TaskCursor>, all: Set<TaskCursor>, limit: nat, less: nat)
    requires
        is_least(chosen, all, limit),
        less <= limit,
    ensures
        chosen.len() <= less ==> is_least(chosen, all, less),
        less < chosen.len() ==> is_least(chosen.take(less as int), all, less),
{
    if less < chosen.len() {
        let part = chosen.take(less as int);
        assert forall|i: int, c: TaskCursor|
            #![trigger part[i], all.contains(c)]
            0 <= i < part.len() && all.contains(c) && !part.contains(c) implies cursor_lt(
            part[i],
            c,
        ) by {
            assert(part[i] == chosen[i]);
            if chosen.contains(c) {
                let k = choose|k: int| 0 <= k < chosen.len() && chosen[k] == c;
                if k < less {
                    assert(part[k] == c);
                }
                assert(cursor_lt(chosen[i], chosen[k]));
            } else {
                assert(cursor_lt(chosen[i], c));
            }
        }
        assert forall|i: int| 0 <= i < part.len() implies all.contains(#[trigger] part[i]) by {
            assert(all.contains(chosen[i]));
        }
        assert forall|i: int, j: int| 0 <= i < j < part.len() implies cursor_lt(
            #[trigger] part[i],
            #[trigger] part[j],
        ) by {
            assert(cursor_lt(chosen[i], chosen[j]));
        }
    }
}

/// There is only one choice.
pub proof fn lemma_least_unique(
    a: Seq<TaskCursor>,
    b: Seq<TaskCursor>,
    all: Set<TaskCursor>,
    limit: nat,
)
    requires
        is_least(a, all, limit),
        is_least(b, all, limit),
    ensures
        a == b,
{
    if a != b {
        assert(!(a =~= b));
        lemma_first_difference(a, b, 0);
        let i = choose|i: int|
            0 <= i < a.len() && a[i] != b[i] && forall|k: int| 0 <= k < i ==> a[k] == b[k];
        lemma_not_chosen_before(a, b, i);
        lemma_not_chosen_before(b, a, i);
        assert(all.contains(a[i]));
        assert(all.contains(b[i]));
        if cursor_lt(a[i], b[i]) {
            assert(cursor_lt(b[i], a[i]));
        } else {
            assert(cursor_lt(a[i], b[i]));
        }
    }
}

proof fn lemma_first_difference(a: Seq<TaskCursor>, b: Seq<TaskCursor>, from: int)
    requires
        a.len() == b.len(),
        a != b,
        0 <= from <= a.len(),
        forall|k: int| 0 <= k < from ==> a[k] == b[k],
    ensures
        exists|i: int|
            0 <= i < a.len() && a[i] != b[i] && forall|k: int| 0 <= k < i ==> a[k] == b[k],
    decreases a.len() - from,
{
    if from == a.len() {
        assert(a =~= b);
    } else if a[from] == b[from] {
        lemma_first_difference(a, b, from + 1);
    }
}

/// Where two increasing lists first differ, the smaller entry is missing from
/// the other list.
proof fn lemma_not_chosen_before(a: Seq<TaskCursor>, b: Seq<TaskCursor>, i: int)
    requires
        a.len() == b.len(),
        0 <= i < a.len(),
        a[i] != b[i],
        forall|k: int| 0 <= k < i ==> a[k] == b[k],
        forall|x: int, y: int|
            0 <= x < y < a.len() ==> cursor_lt(#[trigger] a[x], #[trigger] a[y]),
        forall|x: int, y: int|
            0 <= x < y < b.len() ==> cursor_lt(#[trigger] b[x], #[trigger] b[y]),
    ensures
        cursor_lt(a[i], b[i]) ==> !b.contains(a[i]),
{
    if cursor_lt(a[i], b[i]) && b.contains(a[i]) {
        let k = choose|k: int| 0 <= k < b.len() && b[k] == a[i];
        if k < i {
            assert(cursor_lt(a[k], a[i]));
        } else if k > i {
            assert(cursor_lt(b[i], b[k]));
        }
    }
}

} // verus!
