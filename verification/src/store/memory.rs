//! Volatile task history.

use std::collections::BTreeMap;

use vstd::prelude::*;

use super::lifecycle::check_command;
use super::lifecycle::StoredLifecycle;
use super::memory_model::finished_weight;
use super::memory_model::is_least;
use super::memory_model::just_finished;
use super::memory_model::kind_weight;
use super::memory_model::lemma_change_record;
use super::memory_model::lemma_forget;
use super::memory_model::lemma_holder;
use super::memory_model::lemma_least_complete;
use super::memory_model::lemma_least_prefix;
use super::memory_model::lemma_making_room;
use super::memory_model::lemma_nothing_finished;
use super::memory_model::lemma_with_record;
use super::memory_model::payload_weight;
use super::memory_model::unfinished_payload_weight;
use super::memory_model::MemoryModel;
use super::StoreError;
use super::StoreErrorModel;
use crate::keyed::keys_of;
use crate::lists::lemma_without_at;
use crate::model::name_map::lookup;
use crate::model::name_map::NameMap;
use crate::model::task_record::checked_page_size;
use crate::model::task_record::cursor_lt;
use crate::model::task_record::initial_record;
use crate::model::task_record::page_limit_error;
use crate::model::task_record::RecordModel;
use crate::model::AcceptOutcome;
use crate::model::OwnerEpoch;
use crate::model::StoreCapabilities;
use crate::model::StoredTaskPage;
use crate::model::TaskCursor;
use crate::model::TaskId;
use crate::model::TaskPage;
use crate::model::TaskQuery;
use crate::model::TaskRecord;
use crate::model::TaskRequest;
use crate::model::TaskState;
use crate::model::TaskStateCounts;
use crate::model::TaskStateKind;
use crate::model::TransitionCommand;
use crate::totals::lemma_listed_prefix;
use crate::totals::lemma_listed_step;
use crate::totals::lemma_total_listed;
use crate::totals::listed_total;
use crate::totals::total;

verus! {

broadcast use {vstd::std_specs::btree::group_btree_axioms, vstd::laws_cmp::group_laws_cmp};

/// Default number of nonterminal records retained by a memory store.
pub const DEFAULT_MAX_UNFINISHED_RECORDS: usize = 2_048;

/// Default number of payload bytes retained by a memory store.
pub const DEFAULT_MAX_PAYLOAD_BYTES: usize = 67_108_864;

/// Models of the records in a map.
spec fn record_models(records: Map<u128, TaskRecord>) -> Map<u128, RecordModel> {
    records.map_values(|r: TaskRecord| r@)
}

/// Records, indexes and counters behind a memory store.
#[derive(Debug)]
struct MemoryState {
    history_capacity: usize,
    max_payload_bytes: usize,
    max_unfinished_records: usize,
    records: BTreeMap<u128, TaskRecord>,
    idempotency: NameMap<u128>,
    terminal_order: Vec<u128>,
    retained_payload_bytes: usize,
    unfinished_records: usize,
}

impl MemoryState {
    spec fn model(&self) -> MemoryModel {
        MemoryModel {
            history_capacity: self.history_capacity,
            max_payload_bytes: self.max_payload_bytes,
            max_unfinished_records: self.max_unfinished_records,
            records: record_models(self.records@),
            finished: self.terminal_order@,
        }
    }

    /// The idempotency index names exactly the records that hold a key.
    spec fn indexed(&self) -> bool {
        let m = self.model();
        &&& forall|key: Seq<char>|
            (#[trigger] lookup(self.idempotency@, key)) is Some ==> m.holds_key(
                lookup(self.idempotency@, key)->0,
                key,
            )
        &&& forall|id: u128|
            (#[trigger] m.records.contains_key(id)) && m.key_of(id) is Some ==> lookup(
                self.idempotency@,
                m.key_of(id)->0,
            ) == Some(id)
    }

    /// Everything but the history capacity.
    spec fn settled(&self) -> bool {
        &&& self.model().consistent()
        &&& self.indexed()
        &&& self.retained_payload_bytes == self.model().payload_bytes()
        &&& self.unfinished_records == self.model().unfinished()
    }

    spec fn wf(&self) -> bool {
        self.settled() && self.model().valid()
    }

    fn new(
        history_capacity: usize,
        max_payload_bytes: usize,
        max_unfinished_records: usize,
    ) -> (state: Self)
        ensures
            state.wf(),
            state.model() == MemoryModel::empty(
                history_capacity,
                max_payload_bytes,
                max_unfinished_records,
            ),
    {
        let state = MemoryState {
            history_capacity,
            max_payload_bytes,
            max_unfinished_records,
            records: BTreeMap::new(),
            idempotency: NameMap::new(),
            terminal_order: Vec::new(),
            retained_payload_bytes: 0,
            unfinished_records: 0,
        };
        proof {
            assert(state.model().records =~= Map::<u128, RecordModel>::empty());
            assert(state.model().records.dom() =~= Set::<u128>::empty());
            assert(state.model().payload_bytes() == 0);
            assert(state.model().unfinished() == 0);
        }
        state
    }

    /// Finds the record that holds an idempotency key.
    fn find_key(&self, key: &str) -> (id: Option<u128>)
        requires
            self.settled(),
        ensures
            id == self.model().holder(key@),
    {
        match self.idempotency.get(key) {
            Some(id) => {
                proof {
                    assert(lookup(self.idempotency@, key@) == Some(*id));
                    lemma_holder(self.model(), *id, key@);
                }
                Some(*id)
            },
            None => {
                proof {
                    if exists|x: u128| self.model().holds_key(x, key@) {
                        let x = choose|x: u128| self.model().holds_key(x, key@);
                        assert(self.model().records.contains_key(x));
                    }
                }
                None
            },
        }
    }

    /// Removes a retained finished record and updates payload, key and history
    /// accounting.
    fn remove_record(&mut self, id: u128)
        requires
            old(self).settled(),
            old(self).model().is_finished(id),
        ensures
            final(self).settled(),
            final(self).model() == old(self).model().forget(id),
    {
        let ghost before = self.model();
        proof {
            lemma_forget(before, id);
            assert(before.finished.contains(id));
            assert(self.records@.contains_key(id));
        }
        match self.records.remove(&id) {
            Some(record) => {
                proof {
                    assert(record@ == before.records[id]);
                }
                self.retained_payload_bytes = self.retained_payload_bytes
                    - record.request.payload.len();
                match &record.request.idempotency_key {
                    Some(key) => {
                        let _removed = self.idempotency.remove(key.as_str());
                    },
                    None => {},
                }
                let mut at: usize = 0;
                let count: usize = self.terminal_order.len();
                while self.terminal_order[at] != id
                    invariant
                        at < count == self.terminal_order@.len(),
                        self.terminal_order@ == before.finished,
                        forall|k: int| 0 <= k < at ==> self.terminal_order@[k] != id,
                        before.finished.contains(id),
                    decreases self.terminal_order@.len() - at,
                {
                    proof {
                        let k = choose|k: int|
                            0 <= k < before.finished.len() && before.finished[k] == id;
                        assert(k > at);
                    }
                    at = at + 1;
                }
                let _removed_id: u128 = self.terminal_order.remove(at);
                proof {
                    lemma_without_at(before.finished, id, at as int);
                    assert(self.model().records =~= before.records.remove(id));
                    assert(self.model() =~= before.forget(id));
                    let m = self.model();
                    assert forall|key: Seq<char>|
                        (#[trigger] lookup(self.idempotency@, key)) is Some implies m.holds_key(
                        lookup(self.idempotency@, key)->0,
                        key,
                    ) by {
                        let holder = lookup(old(self).idempotency@, key);
                        assert(holder is Some);
                        assert(before.holds_key(holder->0, key));
                        if holder->0 == id {
                            assert(before.key_of(id) == Some(key));
                        }
                    }
                    assert forall|x: u128|
                        (#[trigger] m.records.contains_key(x)) && m.key_of(x) is Some implies lookup(
                        self.idempotency@,
                        m.key_of(x)->0,
                    ) == Some(x) by {
                        assert(before.records.contains_key(x));
                        assert(before.key_of(x) == m.key_of(x));
                        if before.key_of(id) == before.key_of(x) {
                            assert(x == id);
                        }
                    }
                }
            },
            None => {
                proof {
                    assert(false);
                }
            },
        }
    }

    /// Adds up the payload bytes of unfinished records.
    fn unfinished_payload(&self) -> (sum: usize)
        requires
            self.settled(),
        ensures
            sum == self.model().unfinished_payload_bytes(),
            sum <= self.retained_payload_bytes,
    {
        let ids = keys_of(&self.records);
        let ghost m = self.model();
        let ghost w = unfinished_payload_weight();
        proof {
            assert forall|k: u128| m.records.contains_key(k) <==> ids@.contains(k) by {
                assert(self.records@.contains_key(k) <==> ids@.contains(k));
            }
            lemma_total_listed(m.records, ids@, w);
            crate::totals::lemma_total_le(m.records, w, payload_weight());
        }
        let mut sum: usize = 0;
        let mut i: usize = 0;
        while i < ids.len()
            invariant
                i <= ids@.len(),
                m == self.model(),
                w == unfinished_payload_weight(),
                self.retained_payload_bytes == m.payload_bytes(),
                total(m.records, w) <= m.payload_bytes(),
                total(m.records, w) == listed_total(m.records, ids@, w),
                sum == listed_total(m.records, ids@.take(i as int), w),
                forall|k: u128| self.records@.contains_key(k) <==> ids@.contains(k),
            decreases ids@.len() - i,
        {
            proof {
                assert(ids@.contains(ids@[i as int]));
                lemma_listed_step(m.records, ids@, i as int, w);
                lemma_listed_prefix(m.records, ids@, i + 1, w);
            }
            match self.records.get(&ids[i]) {
                Some(record) => {
                    proof {
                        assert(record@ == m.records[ids@[i as int]]);
                    }
                    if !record.state.is_terminal() {
                        sum = sum + record.request.payload.len();
                    }
                },
                None => {},
            }
            i = i + 1;
        }
        proof {
            assert(ids@.take(i as int) =~= ids@);
        }
        sum
    }

    /// Drops the oldest finished records until `requested` more bytes fit.
    fn make_room(&mut self, requested: usize)
        requires
            old(self).wf(),
            old(self).model().unfinished_payload_bytes() + requested
                <= old(self).max_payload_bytes,
        ensures
            final(self).wf(),
            final(self).model() == old(self).model().making_room(requested as nat),
            final(self).model().payload_bytes() + requested <= final(self).max_payload_bytes,
    {
        let ghost target = self.model().making_room(requested as nat);
        proof {
            lemma_making_room(self.model(), requested as nat);
        }
        while self.retained_payload_bytes > self.max_payload_bytes - requested
            invariant
                self.wf(),
                requested <= self.max_payload_bytes,
                self.model().unfinished_payload_bytes() + requested <= self.max_payload_bytes,
                self.model().making_room(requested as nat) == target,
            decreases self.terminal_order@.len(),
        {
            proof {
                if self.terminal_order@.len() == 0 {
                    lemma_nothing_finished(self.model());
                }
                assert(self.model().is_finished(self.model().finished[0]));
                lemma_forget(self.model(), self.terminal_order@[0]);
            }
            let oldest = self.terminal_order[0];
            self.remove_record(oldest);
        }
    }

    fn accept(&mut self, id: TaskId, request: TaskRequest, now: u64) -> (result: Result<
        AcceptOutcome,
        StoreError,
    >)
        requires
            old(self).wf(),
        ensures
            final(self).wf(),
            accept_post(old(self).model(), final(self).model(), id, request@, now, result),
    {
        match request.validate_limits() {
            Ok(_) => {},
            Err(message) => {
                return Err(StoreError::InvalidRequest(message));
            },
        }
        match &request.idempotency_key {
            Some(key) => match self.find_key(key.as_str()) {
                Some(existing_id) => {
                    proof {
                        assert(self.model().holds_key(existing_id, key@));
                        assert(self.records@.contains_key(existing_id));
                    }
                    match self.records.get(&existing_id) {
                        Some(existing) => {
                            proof {
                                assert(existing@ == self.model().records[existing_id]);
                            }
                            if !existing.request.same(&request) {
                                return Err(StoreError::IdempotencyConflict);
                            }
                            return Ok(AcceptOutcome::Existing(existing.clone()));
                        },
                        None => {
                            return Err(StoreError::NotFound);
                        },
                    }
                },
                None => {},
            },
            None => {},
        }
        proof {
            assert(self.records@.contains_key(id.0) == self.model().records.contains_key(id.0));
        }
        if self.records.contains_key(&id.0) {
            return Err(StoreError::DuplicateTask);
        }
        if self.unfinished_records >= self.max_unfinished_records {
            return Err(
                StoreError::UnfinishedRecordLimitExceeded { limit: self.max_unfinished_records },
            );
        }
        let requested_bytes = request.payload.len();
        let minimum_retained = self.unfinished_payload();
        if requested_bytes > self.max_payload_bytes || minimum_retained > self.max_payload_bytes
            - requested_bytes {
            return Err(
                StoreError::CapacityExceeded {
                    requested_bytes,
                    available_bytes: self.max_payload_bytes - minimum_retained,
                },
            );
        }
        let ghost before = self.model();
        proof {
            lemma_making_room(before, requested_bytes as nat);
        }
        self.make_room(requested_bytes);
        let ghost room = self.model();
        let record = initial_record(id, request.clone(), now);
        proof {
            if request@.info.idempotency_key is Some {
                let key = request@.info.idempotency_key->0;
                assert forall|x: u128| !room.holds_key(x, key) by {
                    if room.holds_key(x, key) {
                        assert(before.holds_key(x, key));
                    }
                }
                assert(room.holder(key) is None);
                assert(lookup(self.idempotency@, key) is None) by {
                    if lookup(self.idempotency@, key) is Some {
                        assert(room.holds_key(lookup(self.idempotency@, key)->0, key));
                    }
                }
            }
            assert(!room.records.contains_key(id.0));
            lemma_with_record(room, id.0, record@);
        }
        let ghost index = self.idempotency@;
        match &request.idempotency_key {
            Some(key) => {
                let _replaced = self.idempotency.insert(key.clone(), id.0);
            },
            None => {},
        }
        self.retained_payload_bytes = self.retained_payload_bytes + requested_bytes;
        let _previous = self.records.insert(id.0, record.clone());
        self.unfinished_records = self.unfinished_records + 1;
        proof {
            let m = self.model();
            assert(m.records =~= room.records.insert(id.0, record@));
            assert(m =~= room.with_record(id.0, record@));
            assert forall|key: Seq<char>|
                (#[trigger] lookup(self.idempotency@, key)) is Some implies m.holds_key(
                lookup(self.idempotency@, key)->0,
                key,
            ) by {
                if request@.info.idempotency_key == Some(key) {
                    assert(lookup(self.idempotency@, key) == Some(id.0));
                } else {
                    assert(lookup(index, key) is Some);
                    assert(room.holds_key(lookup(index, key)->0, key));
                }
            }
            assert forall|x: u128|
                (#[trigger] m.records.contains_key(x)) && m.key_of(x) is Some implies lookup(
                self.idempotency@,
                m.key_of(x)->0,
            ) == Some(x) by {
                if x != id.0 {
                    assert(room.records.contains_key(x));
                    assert(room.key_of(x) == m.key_of(x));
                    assert(lookup(index, m.key_of(x)->0) == Some(x));
                }
            }
        }
        Ok(AcceptOutcome::Accepted(record))
    }

    /// Puts a changed record in place of the unfinished one under `id`, and
    /// keeps the finished history within its capacity.
    fn put_changed(&mut self, id: u128, record: TaskRecord)
        requires
            old(self).wf(),
            old(self).model().records.contains_key(id),
            !old(self).model().is_finished(id),
            record@.life.id == TaskId(id),
            record@.life.is_timed(),
            record@.request == old(self).model().records[id].request,
        ensures
            final(self).wf(),
            final(self).model() == old(self).model().updated(id, record@),
    {
        let ghost before = self.model();
        let ghost index = self.idempotency@;
        let ghost after = record@;
        let becomes_terminal = record.state.is_terminal();
        proof {
            lemma_change_record(before, id, after);
            assert(self.records@.contains_key(id));
        }
        let _previous = self.records.insert(id, record);
        proof {
            assert(self.model().records =~= before.records.insert(id, after));
        }
        if becomes_terminal {
            self.unfinished_records = self.unfinished_records - 1;
            self.terminal_order.push(id);
            let ghost done = just_finished(before, id, after);
            proof {
                assert(self.model() =~= done);
                self.lemma_index_kept(before, index);
            }
            while self.terminal_order.len() > self.history_capacity
                invariant
                    self.settled(),
                    self.model().trimmed() == done.trimmed(),
                decreases self.terminal_order@.len(),
            {
                let oldest = self.terminal_order[0];
                proof {
                    assert(self.model().is_finished(self.model().finished[0]));
                    lemma_forget(self.model(), oldest);
                }
                self.remove_record(oldest);
            }
        } else {
            proof {
                assert(self.model() =~= before.with_record(id, after));
                self.lemma_index_kept(before, index);
            }
        }
    }

    /// The idempotency index survives a change that keeps every record's key.
    proof fn lemma_index_kept(&self, before: MemoryModel, index: Seq<(Seq<char>, u128)>)
        requires
            self.idempotency@ == index,
            self.model().records.dom() =~= before.records.dom(),
            forall|x: u128| #[trigger] before.records.contains_key(x) ==> self.model().key_of(x)
                == before.key_of(x),
            forall|key: Seq<char>|
                (#[trigger] lookup(index, key)) is Some ==> before.holds_key(
                    lookup(index, key)->0,
                    key,
                ),
            forall|id: u128|
                (#[trigger] before.records.contains_key(id)) && before.key_of(id) is Some
                    ==> lookup(index, before.key_of(id)->0) == Some(id),
        ensures
            self.indexed(),
    {
        let m = self.model();
        assert forall|key: Seq<char>|
            (#[trigger] lookup(self.idempotency@, key)) is Some implies m.holds_key(
            lookup(self.idempotency@, key)->0,
            key,
        ) by {
            assert(before.holds_key(lookup(index, key)->0, key));
            assert(before.records.contains_key(lookup(index, key)->0));
            assert(before.records.dom().contains(lookup(index, key)->0));
        }
        assert forall|id: u128|
            (#[trigger] m.records.contains_key(id)) && m.key_of(id) is Some implies lookup(
            self.idempotency@,
            m.key_of(id)->0,
        ) == Some(id) by {
            assert(m.records.dom().contains(id));
            assert(before.records.contains_key(id));
        }
    }

    fn transition(&mut self, command: TransitionCommand, now: u64) -> (result: Result<
        TaskRecord,
        StoreError,
    >)
        requires
            old(self).wf(),
            old(self).model().can_count(command@),
        ensures
            final(self).wf(),
            match result {
                Ok(record) => {
                    let before = old(self).model();
                    &&& before.transition_error(command@) is None
                    &&& record@ == before.transition_record(command@, now)
                    &&& final(self).model() == before.updated(command.id.0, record@)
                },
                Err(e) => {
                    &&& old(self).model().transition_error(command@) == Some(e@)
                    &&& final(self).model() == old(self).model()
                },
            },
    {
        match check_command(&command) {
            Ok(_) => {},
            Err(error) => {
                return Err(error);
            },
        }
        let id = command.id.0;
        let ghost before = self.model();
        proof {
            assert(self.records@.contains_key(id) == before.records.contains_key(id));
        }
        let (life, request) = match self.records.get(&id) {
            Some(record) => {
                proof {
                    assert(record@ == before.records[id]);
                }
                (StoredLifecycle::from_record(record), record.request.clone())
            },
            None => {
                return Err(StoreError::NotFound);
            },
        };
        match life.check_revision(&command) {
            Ok(_) => {},
            Err(error) => {
                return Err(error);
            },
        }
        let record = life.advance(command, now).into_record(request);
        self.put_changed(id, record.clone());
        Ok(record)
    }

    fn abandon_blocked(&mut self, id: TaskId, expected_version: u64, now: u64) -> (result: Result<
        TaskRecord,
        StoreError,
    >)
        requires
            old(self).wf(),
            old(self).model().can_abandon(id, expected_version),
        ensures
            final(self).wf(),
            match result {
                Ok(record) => {
                    let before = old(self).model();
                    &&& before.abandon_error(id, expected_version) is None
                    &&& record@ == before.abandon_record(id, now)
                    &&& final(self).model() == before.updated(id.0, record@)
                },
                Err(e) => {
                    &&& old(self).model().abandon_error(id, expected_version) == Some(e@)
                    &&& final(self).model() == old(self).model()
                },
            },
    {
        let ghost before = self.model();
        proof {
            assert(self.records@.contains_key(id.0) == before.records.contains_key(id.0));
        }
        let (life, request) = match self.records.get(&id.0) {
            Some(record) => {
                proof {
                    assert(record@ == before.records[id.0]);
                }
                (StoredLifecycle::from_record(record), record.request.clone())
            },
            None => {
                return Err(StoreError::NotFound);
            },
        };
        match life.abandon(expected_version, now) {
            Ok(next) => {
                let record = next.into_record(request);
                self.put_changed(id.0, record.clone());
                Ok(record)
            },
            Err(error) => Err(error),
        }
    }

    fn list(&self, query: TaskQuery) -> (result: Result<TaskPage, StoreError>)
        requires
            self.wf(),
        ensures
            match result {
                Ok(page) => {
                    &&& page_limit_error(query.limit) is None
                    &&& self.model().is_page(query@, models_of(page.records@), page.next)
                },
                Err(e) => page_limit_error(query.limit) == Some(e@),
            },
    {
        let size: usize = match checked_page_size(query.limit) {
            Ok(size) => size,
            Err(error) => {
                return Err(error);
            },
        };
        let ghost m = self.model();
        let ghost all = m.matches(query@);
        let ghost mut seen = Set::<TaskCursor>::empty();
        let ids = keys_of(&self.records);
        let mut best: Vec<TaskCursor> = Vec::new();
        let mut i: usize = 0;
        while i < ids.len()
            invariant
                i <= ids@.len(),
                1 <= size <= 256,
                m == self.model(),
                m.consistent(),
                all == m.matches(query@),
                ids@.no_duplicates(),
                forall|k: u128| self.records@.contains_key(k) <==> ids@.contains(k),
                is_least(best@, seen, (size + 1) as nat),
                forall|c: TaskCursor|
                    #![trigger seen.contains(c)]
                    #![trigger all.contains(c)]
                    seen.contains(c) <==> all.contains(c) && ids@.take(i as int).contains(c.id.0),
            decreases ids@.len() - i,
        {
            proof {
                assert(ids@.contains(ids@[i as int]));
                lemma_take_grows(ids@, i as int);
                assert(m.records.contains_key(ids@[i as int]));
            }
            match self.records.get(&ids[i]) {
                Some(record) => {
                    proof {
                        assert(record@ == m.records[ids@[i as int]]);
                    }
                    let cursor = TaskCursor::new(record.accepted_at_ms, record.id);
                    if query.selects(record) {
                        proof {
                            assert(all.contains(cursor));
                            assert(!seen.contains(cursor));
                        }
                        keep_least(&mut best, cursor, size + 1, Ghost(seen));
                        proof {
                            let grown = seen.insert(cursor);
                            assert forall|c: TaskCursor|
                                #![trigger grown.contains(c)]
                                #![trigger all.contains(c)]
                                grown.contains(c) <==> all.contains(c) && ids@.take(
                                    i + 1,
                                ).contains(c.id.0) by {
                                assert(seen.contains(c) || !seen.contains(c));
                            }
                            seen = grown;
                        }
                    } else {
                        proof {
                            assert forall|c: TaskCursor|
                                #![trigger seen.contains(c)]
                                #![trigger all.contains(c)]
                                seen.contains(c) <==> all.contains(c) && ids@.take(
                                    i + 1,
                                ).contains(c.id.0) by {}
                        }
                    }
                },
                None => {},
            }
            i = i + 1;
        }
        proof {
            assert(ids@.take(i as int) =~= ids@);
            assert forall|c: TaskCursor| seen.contains(c) == all.contains(c) by {
                if all.contains(c) {
                    assert(self.records@.contains_key(c.id.0));
                }
            }
            assert(seen =~= all);
            lemma_least_prefix(best@, all, (size + 1) as nat, size as nat);
        }
        let has_more = best.len() > size;
        if has_more {
            best.truncate(size);
        }
        let next: Option<TaskCursor> = if has_more {
            Some(best[size - 1])
        } else {
            None
        };
        let records = self.load(&best);
        proof {
            let models = models_of(records@);
            assert(super::memory_model::cursors(models) =~= best@);
            if has_more {
                assert(models.last().life.cursor() == best@[size - 1]);
            }
        }
        Ok(TaskPage { records, next })
    }

    /// Copies the records at the given positions.
    fn load(&self, positions: &Vec<TaskCursor>) -> (records: Vec<TaskRecord>)
        requires
            forall|i: int|
                0 <= i < positions@.len() ==> self.model().records.contains_key(
                    (#[trigger] positions@[i]).id.0,
                ) && self.model().records[positions@[i].id.0].life.cursor() == positions@[i],
        ensures
            records@.len() == positions@.len(),
            forall|i: int|
                0 <= i < positions@.len() ==> (#[trigger] records@[i])@
                    == self.model().records[positions@[i].id.0],
    {
        let mut records: Vec<TaskRecord> = Vec::new();
        let mut i: usize = 0;
        while i < positions.len()
            invariant
                i <= positions@.len(),
                records@.len() == i,
                forall|k: int|
                    0 <= k < positions@.len() ==> self.model().records.contains_key(
                        (#[trigger] positions@[k]).id.0,
                    ),
                forall|k: int|
                    0 <= k < i ==> (#[trigger] records@[k])@
                        == self.model().records[positions@[k].id.0],
            decreases positions@.len() - i,
        {
            let id = positions[i].id.0;
            proof {
                assert(self.model().records.contains_key(positions@[i as int].id.0));
                assert(self.records@.contains_key(id));
            }
            match self.records.get(&id) {
                Some(record) => {
                    records.push(record.clone());
                },
                None => {
                    proof {
                        assert(false);
                    }
                },
            }
            i = i + 1;
        }
        records
    }

    fn count_states(&self) -> (counts: TaskStateCounts)
        requires
            self.wf(),
        ensures
            counts.queued == self.model().count(TaskStateKind::Queued),
            counts.running == self.model().count(TaskStateKind::Running),
            counts.blocked == self.model().count(TaskStateKind::Blocked),
            counts.terminal == total(self.model().records, finished_weight()),
    {
        let ids = keys_of(&self.records);
        let ghost m = self.model();
        let ghost queued = kind_weight(TaskStateKind::Queued);
        let ghost running = kind_weight(TaskStateKind::Running);
        let ghost blocked = kind_weight(TaskStateKind::Blocked);
        let ghost terminal = finished_weight();
        proof {
            assert forall|k: u128| m.records.contains_key(k) <==> ids@.contains(k) by {
                assert(self.records@.contains_key(k) <==> ids@.contains(k));
            }
            lemma_total_listed(m.records, ids@, queued);
            lemma_total_listed(m.records, ids@, running);
            lemma_total_listed(m.records, ids@, blocked);
            lemma_total_listed(m.records, ids@, terminal);
        }
        let mut counts = TaskStateCounts::default();
        let mut i: usize = 0;
        while i < ids.len()
            invariant
                i <= ids@.len(),
                m == self.model(),
                queued == kind_weight(TaskStateKind::Queued),
                running == kind_weight(TaskStateKind::Running),
                blocked == kind_weight(TaskStateKind::Blocked),
                terminal == finished_weight(),
                counts.queued <= i,
                counts.running <= i,
                counts.blocked <= i,
                counts.terminal <= i,
                counts.queued == listed_total(m.records, ids@.take(i as int), queued),
                counts.running == listed_total(m.records, ids@.take(i as int), running),
                counts.blocked == listed_total(m.records, ids@.take(i as int), blocked),
                counts.terminal == listed_total(m.records, ids@.take(i as int), terminal),
                forall|k: u128| self.records@.contains_key(k) <==> ids@.contains(k),
            decreases ids@.len() - i,
        {
            proof {
                assert(ids@.contains(ids@[i as int]));
                lemma_listed_step(m.records, ids@, i as int, queued);
                lemma_listed_step(m.records, ids@, i as int, running);
                lemma_listed_step(m.records, ids@, i as int, blocked);
                lemma_listed_step(m.records, ids@, i as int, terminal);
            }
            match self.records.get(&ids[i]) {
                Some(record) => {
                    proof {
                        assert(record@ == m.records[ids@[i as int]]);
                    }
                    match record.state {
                        TaskState::Queued => {
                            counts.queued = counts.queued + 1;
                        },
                        TaskState::Running => {
                            counts.running = counts.running + 1;
                        },
                        TaskState::Blocked { .. } => {
                            counts.blocked = counts.blocked + 1;
                        },
                        _ => {
                            counts.terminal = counts.terminal + 1;
                        },
                    }
                },
                None => {
                    proof {
                        assert(false);
                    }
                },
            }
            i = i + 1;
        }
        proof {
            assert(ids@.take(i as int) =~= ids@);
        }
        counts
    }

    fn prune_terminal_before(&mut self, accepted_before_ms: u64, max_rows: usize) -> (pruned: usize)
        requires
            old(self).wf(),
        ensures
            final(self).wf(),
            prune_post(
                old(self).model(),
                final(self).model(),
                accepted_before_ms,
                max_rows as nat,
                pruned as nat,
            ),
    {
        let ghost m = self.model();
        let ghost all = m.expired(accepted_before_ms);
        let ghost mut seen = Set::<TaskCursor>::empty();
        let ids = keys_of(&self.records);
        let mut best: Vec<TaskCursor> = Vec::new();
        let mut i: usize = 0;
        while i < ids.len()
            invariant
                i <= ids@.len(),
                m == self.model(),
                m.consistent(),
                self.wf(),
                all == m.expired(accepted_before_ms),
                ids@.no_duplicates(),
                forall|k: u128| self.records@.contains_key(k) <==> ids@.contains(k),
                is_least(best@, seen, max_rows as nat),
                forall|c: TaskCursor|
                    #![trigger seen.contains(c)]
                    #![trigger all.contains(c)]
                    seen.contains(c) <==> all.contains(c) && ids@.take(i as int).contains(c.id.0),
            decreases ids@.len() - i,
        {
            proof {
                assert(ids@.contains(ids@[i as int]));
                lemma_take_grows(ids@, i as int);
                assert(m.records.contains_key(ids@[i as int]));
            }
            match self.records.get(&ids[i]) {
                Some(record) => {
                    proof {
                        assert(record@ == m.records[ids@[i as int]]);
                    }
                    let cursor = TaskCursor::new(record.accepted_at_ms, record.id);
                    if record.state.is_terminal() && record.accepted_at_ms < accepted_before_ms {
                        proof {
                            assert(all.contains(cursor));
                            assert(!seen.contains(cursor));
                        }
                        keep_least(&mut best, cursor, max_rows, Ghost(seen));
                        proof {
                            let grown = seen.insert(cursor);
                            assert forall|c: TaskCursor|
                                #![trigger grown.contains(c)]
                                #![trigger all.contains(c)]
                                grown.contains(c) <==> all.contains(c) && ids@.take(
                                    i + 1,
                                ).contains(c.id.0) by {
                                assert(seen.contains(c) || !seen.contains(c));
                            }
                            seen = grown;
                        }
                    } else {
                        proof {
                            assert forall|c: TaskCursor|
                                #![trigger seen.contains(c)]
                                #![trigger all.contains(c)]
                                seen.contains(c) <==> all.contains(c) && ids@.take(
                                    i + 1,
                                ).contains(c.id.0) by {}
                        }
                    }
                },
                None => {},
            }
            i = i + 1;
        }
        proof {
            assert(ids@.take(i as int) =~= ids@);
            assert forall|c: TaskCursor| seen.contains(c) == all.contains(c) by {
                if all.contains(c) {
                    assert(self.records@.contains_key(c.id.0));
                }
            }
            assert(seen =~= all);
        }
        let ghost gone = best@;
        let mut done: usize = 0;
        proof {
            assert(gone.take(0) =~= Seq::<TaskCursor>::empty());
        }
        while done < best.len()
            invariant
                done <= best@.len(),
                best@ == gone,
                all == m.expired(accepted_before_ms),
                is_least(gone, all, max_rows as nat),
                self.settled(),
                self.terminal_order@.len() <= self.history_capacity,
                self.model() == m.forget_all(gone.take(done as int)),
                forall|k: int|
                    done <= k < gone.len() ==> self.model().is_finished(
                        (#[trigger] gone[k]).id.0,
                    ),
            decreases best@.len() - done,
        {
            let ghost now = self.model();
            proof {
                assert(now.is_finished(gone[done as int].id.0));
                lemma_forget(now, gone[done as int].id.0);
                let next = gone.take(done + 1);
                assert(next.drop_last() =~= gone.take(done as int));
                assert(next.last() == gone[done as int]);
            }
            self.remove_record(best[done].id.0);
            proof {
                assert forall|k: int| done + 1 <= k < gone.len() implies self.model().is_finished(
                    (#[trigger] gone[k]).id.0,
                ) by {
                    assert(now.is_finished(gone[k].id.0));
                    assert(cursor_lt(gone[done as int], gone[k]));
                    assert(all.contains(gone[done as int]));
                    assert(all.contains(gone[k]));
                }
            }
            done = done + 1;
        }
        proof {
            assert(gone.take(done as int) =~= gone);
        }
        best.len()
    }
}

/// What pruning does to a store and returns: the first expired records in
/// history order are forgotten, and counted.
pub open spec fn prune_post(
    before: MemoryModel,
    after: MemoryModel,
    accepted_before_ms: u64,
    max_rows: nat,
    pruned: nat,
) -> bool {
    exists|gone: Seq<TaskCursor>|
        #![trigger before.forget_all(gone)]
        {
            &&& is_least(gone, before.expired(accepted_before_ms), max_rows)
            &&& after == before.forget_all(gone)
            &&& pruned == gone.len()
        }
}

/// Contents of a list of records.
pub open spec fn models_of(records: Seq<TaskRecord>) -> Seq<RecordModel> {
    Seq::new(records.len(), |i: int| records[i]@)
}

proof fn lemma_take_grows(ids: Seq<u128>, n: int)
    requires
        0 <= n < ids.len(),
        ids.no_duplicates(),
    ensures
        forall|x: u128| #[trigger]
            ids.take(n + 1).contains(x) <==> ids.take(n).contains(x) || x == ids[n],
        !ids.take(n).contains(ids[n]),
{
    let longer = ids.take(n + 1);
    let shorter = ids.take(n);
    assert(longer =~= shorter.push(ids[n]));
    assert forall|x: u128| #[trigger]
        longer.contains(x) <==> shorter.contains(x) || x == ids[n] by {
        if shorter.contains(x) {
            let i = choose|i: int| 0 <= i < shorter.len() && shorter[i] == x;
            assert(longer[i] == x);
        }
        if x == ids[n] {
            assert(longer[n] == x);
        }
        if longer.contains(x) && x != ids[n] {
            let i = choose|i: int| 0 <= i < longer.len() && longer[i] == x;
            assert(shorter[i] == x);
        }
    }
}

/// Adds a position to the first `limit` positions seen so far.
fn keep_least(
    best: &mut Vec<TaskCursor>,
    key: TaskCursor,
    limit: usize,
    Ghost(all): Ghost<Set<TaskCursor>>,
)
    requires
        is_least(old(best)@, all, limit as nat),
        !all.contains(key),
    ensures
        is_least(final(best)@, all.insert(key), limit as nat),
{
    let ghost before = best@;
    let mut at: usize = best.len();
    while at > 0 && key.before(&best[at - 1])
        invariant
            at <= best@.len(),
            best@ == before,
            forall|k: int| at <= k < before.len() ==> cursor_lt(key, #[trigger] before[k]),
        decreases at,
    {
        at = at - 1;
    }
    let ghost grown = all.insert(key);
    proof {
        assert(!before.contains(key)) by {
            if before.contains(key) {
                let k = choose|k: int| 0 <= k < before.len() && before[k] == key;
                assert(all.contains(before[k]));
            }
        }
        assert forall|k: int| 0 <= k < at implies cursor_lt(#[trigger] before[k], key) by {
            assert(before[at - 1] != key);
            if k < at - 1 {
                assert(cursor_lt(before[k], before[at - 1]));
            }
        }
        if before.len() == all.len() {
            lemma_least_complete(before, all, limit as nat);
        }
    }
    if at == best.len() && best.len() >= limit {
        return;
    }
    best.insert(at, key);
    let ghost inserted = best@;
    proof {
        assert forall|i: int, j: int| 0 <= i < j < inserted.len() implies cursor_lt(
            #[trigger] inserted[i],
            #[trigger] inserted[j],
        ) by {
            let x = if i < at {
                i
            } else {
                i - 1
            };
            let y = if j < at {
                j
            } else {
                j - 1
            };
            if i == at {
                assert(cursor_lt(key, before[y]));
            } else if j == at {
                assert(cursor_lt(before[x], key));
            } else {
                assert(cursor_lt(before[x], before[y]));
            }
        }
        assert forall|i: int| 0 <= i < inserted.len() implies grown.contains(
            #[trigger] inserted[i],
        ) by {
            if i < at {
                assert(all.contains(before[i]));
            } else if i > at {
                assert(all.contains(before[i - 1]));
            }
        }
        assert(inserted[at as int] == key);
        assert forall|k: int| 0 <= k < before.len() implies inserted.contains(
            #[trigger] before[k],
        ) by {
            if k < at {
                assert(inserted[k] == before[k]);
            } else {
                assert(inserted[k + 1] == before[k]);
            }
        }
        assert forall|i: int, c: TaskCursor|
            #![trigger inserted[i], grown.contains(c)]
            0 <= i < inserted.len() && grown.contains(c) && !inserted.contains(
                c,
            ) implies cursor_lt(inserted[i], c) by {
            assert(c != key);
            assert(all.contains(c));
            assert(!before.contains(c)) by {
                if before.contains(c) {
                    let k = choose|k: int| 0 <= k < before.len() && before[k] == c;
                    assert(inserted.contains(before[k]));
                }
            }
            if i < at {
                assert(cursor_lt(before[i], c));
            } else if i > at {
                assert(cursor_lt(before[i - 1], c));
            } else {
                assert(before.len() == limit);
                assert(at < before.len());
                assert(cursor_lt(before[at as int], c));
                assert(cursor_lt(key, before[at as int]));
            }
        }
    }
    if best.len() > limit {
        let _dropped = best.pop();
        proof {
            assert(best@ =~= inserted.take(limit as int));
            assert(is_least(inserted, grown, (limit + 1) as nat));
            lemma_least_prefix(inserted, grown, (limit + 1) as nat, limit as nat);
        }
    }
}

/// What accepting a request does to a store and returns.
pub open spec fn accept_post(
    before: MemoryModel,
    after: MemoryModel,
    id: TaskId,
    request: crate::model::task_request::RequestModel,
    now: u64,
    result: Result<AcceptOutcome, StoreError>,
) -> bool {
    match result {
        Ok(AcceptOutcome::Accepted(record)) => {
            &&& before.accept_error(id, request) is None
            &&& before.replayed(request) is None
            &&& record@ == RecordModel::accepted(id, request, now)
            &&& after == before.after_accept(id, request, now)
        },
        Ok(AcceptOutcome::Existing(record)) => {
            &&& before.accept_error(id, request) is None
            &&& before.replayed(request) is Some
            &&& record@ == before.records[before.replayed(request)->0]
            &&& after == before
        },
        Err(e) => {
            &&& before.accept_error(id, request) == Some(e@)
            &&& after == before
        },
    }
}

/// Volatile task history with bounded retention for completed and unfinished
/// tasks.
#[derive(Debug)]
pub struct MemoryTaskStore {
    state: MemoryState,
}

impl View for MemoryTaskStore {
    type V = MemoryModel;

    closed spec fn view(&self) -> MemoryModel {
        self.state.model()
    }
}

impl MemoryTaskStore {
    #[verifier::type_invariant]
    closed spec fn well_formed(self) -> bool {
        self.state.wf()
    }

    /// Creates an in-memory store retaining at most `history_capacity` terminal
    /// records and [`DEFAULT_MAX_UNFINISHED_RECORDS`] nonterminal records.
    pub fn new(history_capacity: usize) -> (store: Self)
        ensures
            store@ == MemoryModel::empty(
                history_capacity,
                DEFAULT_MAX_PAYLOAD_BYTES,
                DEFAULT_MAX_UNFINISHED_RECORDS,
            ),
            store@.valid(),
    {
        Self::with_payload_budget(history_capacity, DEFAULT_MAX_PAYLOAD_BYTES)
    }

    /// Creates an in-memory store with an explicit payload budget and the
    /// default nonterminal-record limit.
    pub fn with_payload_budget(history_capacity: usize, max_payload_bytes: usize) -> (store: Self)
        ensures
            store@ == MemoryModel::empty(
                history_capacity,
                max_payload_bytes,
                DEFAULT_MAX_UNFINISHED_RECORDS,
            ),
            store@.valid(),
    {
        Self::with_limits(history_capacity, max_payload_bytes, DEFAULT_MAX_UNFINISHED_RECORDS)
    }

    /// Creates an in-memory store with explicit history, payload, and
    /// nonterminal-record limits.
    ///
    /// Nonterminal records are queued, running, and blocked tasks. When the
    /// limit is reached, new distinct tasks are rejected until an existing
    /// task becomes terminal. Idempotent replays of retained tasks remain
    /// available.
    pub fn with_limits(
        history_capacity: usize,
        max_payload_bytes: usize,
        max_unfinished_records: usize,
    ) -> (store: Self)
        ensures
            store@ == MemoryModel::empty(
                history_capacity,
                max_payload_bytes,
                max_unfinished_records,
            ),
            store@.valid(),
    {
        MemoryTaskStore {
            state: MemoryState::new(history_capacity, max_payload_bytes, max_unfinished_records),
        }
    }

    /// Reports that neither history nor unfinished tasks survive restart.
    pub fn capabilities(&self) -> (capabilities: StoreCapabilities)
        ensures
            capabilities == (StoreCapabilities {
                persistent_history: false,
                restart_recovery: false,
            }),
    {
        StoreCapabilities { persistent_history: false, restart_recovery: false }
    }

    /// Accepts a task at `now` or returns an existing identical idempotent task.
    ///
    /// The oldest finished records make way for the payload of a new task.
    pub fn accept(&mut self, id: TaskId, request: TaskRequest, now: u64) -> (result: Result<
        AcceptOutcome,
        StoreError,
    >)
        ensures
            old(self)@.valid(),
            final(self)@.valid(),
            accept_post(old(self)@, final(self)@, id, request@, now, result),
    {
        proof {
            use_type_invariant(&*self);
        }
        let mut state = MemoryState::new(0, 0, 0);
        std::mem::swap(&mut state, &mut self.state);
        let result = state.accept(id, request, now);
        std::mem::swap(&mut state, &mut self.state);
        result
    }

    /// Applies a lifecycle transition at `now` only when its expected revision
    /// matches.
    ///
    /// A task that finishes joins the end of the history, and the oldest
    /// finished records leave it while it exceeds its capacity.
    pub fn transition(&mut self, command: TransitionCommand, now: u64) -> (result: Result<
        TaskRecord,
        StoreError,
    >)
        requires
            old(self)@.can_count(command@),
        ensures
            old(self)@.valid(),
            final(self)@.valid(),
            match result {
                Ok(record) => {
                    &&& old(self)@.transition_error(command@) is None
                    &&& record@ == old(self)@.transition_record(command@, now)
                    &&& final(self)@ == old(self)@.updated(command.id.0, record@)
                },
                Err(e) => {
                    &&& old(self)@.transition_error(command@) == Some(e@)
                    &&& final(self)@ == old(self)@
                },
            },
    {
        proof {
            use_type_invariant(&*self);
        }
        let mut state = MemoryState::new(0, 0, 0);
        std::mem::swap(&mut state, &mut self.state);
        let result = state.transition(command, now);
        std::mem::swap(&mut state, &mut self.state);
        result
    }

    /// Cancels a blocked task at `now` when its revision still matches.
    pub fn abandon_blocked(&mut self, id: TaskId, expected_version: u64, now: u64) -> (result:
        Result<TaskRecord, StoreError>)
        requires
            old(self)@.can_abandon(id, expected_version),
        ensures
            old(self)@.valid(),
            final(self)@.valid(),
            match result {
                Ok(record) => {
                    &&& old(self)@.abandon_error(id, expected_version) is None
                    &&& record@ == old(self)@.abandon_record(id, now)
                    &&& final(self)@ == old(self)@.updated(id.0, record@)
                },
                Err(e) => {
                    &&& old(self)@.abandon_error(id, expected_version) == Some(e@)
                    &&& final(self)@ == old(self)@
                },
            },
    {
        proof {
            use_type_invariant(&*self);
        }
        let mut state = MemoryState::new(0, 0, 0);
        std::mem::swap(&mut state, &mut self.state);
        let result = state.abandon_blocked(id, expected_version, now);
        std::mem::swap(&mut state, &mut self.state);
        result
    }

    /// Finds a retained task by its caller-supplied idempotency key.
    pub fn get_by_idempotency_key(&self, key: &str) -> (found: Option<TaskRecord>)
        ensures
            self@.valid(),
            match found {
                Some(record) => self@.holder(key@) is Some && record@
                    == self@.records[self@.holder(key@)->0],
                None => self@.holder(key@) is None,
            },
    {
        proof {
            use_type_invariant(self);
        }
        match self.state.find_key(key) {
            Some(id) => {
                proof {
                    assert(self@.holds_key(id, key@));
                }
                self.get(TaskId(id))
            },
            None => None,
        }
    }

    /// Loads one task record by its stable identifier.
    pub fn get(&self, id: TaskId) -> (found: Option<TaskRecord>)
        ensures
            match found {
                Some(record) => self@.records.contains_key(id.0) && record@ == self@.records[id.0],
                None => !self@.records.contains_key(id.0),
            },
    {
        match self.state.records.get(&id.0) {
            Some(record) => Some(record.clone()),
            None => None,
        }
    }

    /// Lists a bounded page of task history, ordered by acceptance time, then
    /// task ID.
    pub fn list(&self, query: TaskQuery) -> (result: Result<TaskPage, StoreError>)
        ensures
            self@.valid(),
            match result {
                Ok(page) => {
                    &&& page_limit_error(query.limit) is None
                    &&& self@.is_page(query@, models_of(page.records@), page.next)
                },
                Err(e) => page_limit_error(query.limit) == Some(e@),
            },
    {
        proof {
            use_type_invariant(self);
        }
        self.state.list(query)
    }

    /// Counts every retained lifecycle state.
    pub fn count_states(&self) -> (counts: TaskStateCounts)
        ensures
            counts.queued == self@.count(TaskStateKind::Queued),
            counts.running == self@.count(TaskStateKind::Running),
            counts.blocked == self@.count(TaskStateKind::Blocked),
            counts.terminal == total(self@.records, finished_weight()),
    {
        proof {
            use_type_invariant(self);
        }
        self.state.count_states()
    }

    /// Reports whether queued and running records together exceed `limit`.
    pub fn has_unfinished_over_limit(&self, limit: usize) -> (over: bool)
        ensures
            over == (self@.count(TaskStateKind::Queued) + self@.count(TaskStateKind::Running)
                > limit),
    {
        let counts = self.count_states();
        counts.queued > limit || counts.running > limit - counts.queued
    }

    /// Deletes the first `max_rows` finished records, in history order, that
    /// were accepted before the given time, and returns how many.
    pub fn prune_terminal_before(&mut self, accepted_before_ms: u64, max_rows: usize) -> (pruned:
        usize)
        ensures
            old(self)@.valid(),
            final(self)@.valid(),
            prune_post(
                old(self)@,
                final(self)@,
                accepted_before_ms,
                max_rows as nat,
                pruned as nat,
            ),
    {
        proof {
            use_type_invariant(&*self);
        }
        let mut state = MemoryState::new(0, 0, 0);
        std::mem::swap(&mut state, &mut self.state);
        let result = state.prune_terminal_before(accepted_before_ms, max_rows);
        std::mem::swap(&mut state, &mut self.state);
        result
    }

    /// Refuses ownership: nothing here survives restart.
    pub fn acquire_owner(&self) -> (result: Result<OwnerEpoch, StoreError>)
        ensures
            result matches Err(e) && e@ == StoreErrorModel::UnsupportedCapability,
    {
        Err(StoreError::UnsupportedCapability)
    }

    /// Refuses recovery scans: nothing here survives restart.
    pub fn scan_unfinished(&self, _cursor: Option<TaskId>) -> (result: Result<
        StoredTaskPage,
        StoreError,
    >)
        ensures
            result matches Err(e) && e@ == StoreErrorModel::UnsupportedCapability,
    {
        Err(StoreError::UnsupportedCapability)
    }

    /// Refuses to release ownership, which is never held.
    pub fn release_owner(&self, _epoch: OwnerEpoch) -> (result: Result<(), StoreError>)
        ensures
            result matches Err(e) && e@ == StoreErrorModel::UnsupportedCapability,
    {
        Err(StoreError::UnsupportedCapability)
    }
}

} // verus!
