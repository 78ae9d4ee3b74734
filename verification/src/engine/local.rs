//! Accounting of CPU, GPU and named resources of one process.

use std::collections::BTreeMap;

use vstd::prelude::*;

use super::EngineError;
use super::PreparedExecution;
use super::PreparedModel;
use crate::model::name_map::law_name_order_is_canonical;
use crate::model::name_map::lemma_lookup_absent;
use crate::model::name_map::lemma_lookup_at;
use crate::model::name_map::lookup;
use crate::model::name_map::sorted_names;
use crate::model::name_map::NameMap;
use crate::model::resource::CapacityModel;
use crate::model::resource::DemandModel;
use crate::model::resource::SnapshotModel;
use crate::model::ResourceCapacity;
use crate::model::ResourceRequest;
use crate::model::ResourceSnapshot;
use crate::model::TaskId;
use crate::scheduling::fit::amount;
use crate::scheduling::fit::amount_of;
use crate::scheduling::fit::can_fit_capacity;
use crate::scheduling::fit::find_devices;
use crate::scheduling::fit::fits_capacity;
use crate::scheduling::fit::free_devices;
use crate::scheduling::fit::lemma_free_devices;
use crate::text::contains_text;
use crate::text::copy_texts;
use crate::text::texts;
use crate::totals::lemma_total_insert;
use crate::totals::lemma_total_remove;
use crate::totals::total;

verus! {

broadcast use {vstd::std_specs::btree::group_btree_axioms, vstd::laws_cmp::group_laws_cmp};

/// Resources held by one reservation.
#[derive(Debug)]
struct Allocation {
    cpu: u32,
    gpus: Vec<String>,
    custom: NameMap<u64>,
}

/// Content of a reservation.
#[verifier::ext_equal]
pub struct AllocationModel {
    pub cpu: u32,
    pub gpus: Seq<Seq<char>>,
    pub custom: Seq<(Seq<char>, u64)>,
}

impl View for Allocation {
    type V = AllocationModel;

    closed spec fn view(&self) -> AllocationModel {
        AllocationModel { cpu: self.cpu, gpus: texts(self.gpus@), custom: self.custom@ }
    }
}

/// Content of a [`LocalTaskExecutionEngine`].
#[verifier::ext_equal]
pub struct EngineModel {
    /// Configured limits.
    pub capacity: CapacityModel,
    /// CPU slots in use.
    pub cpu: u32,
    /// GPU devices in use.
    pub gpus: Seq<Seq<char>>,
    /// Named amounts in use.
    pub custom: Seq<(Seq<char>, u64)>,
    /// Token of the next reservation.
    pub next_token: u64,
    /// Reservations by token.
    pub allocations: Map<u64, AllocationModel>,
}

/// CPU slots of a reservation.
pub open spec fn cpu_weight() -> spec_fn(AllocationModel) -> nat {
    |a: AllocationModel| a.cpu as nat
}

/// Amount of a named resource in a reservation.
pub open spec fn custom_weight(name: Seq<char>) -> spec_fn(AllocationModel) -> nat {
    |a: AllocationModel| amount(a.custom, name)
}

/// Whether `after` is `before` with `extra` added name by name.
pub open spec fn is_sum(
    after: Seq<(Seq<char>, u64)>,
    before: Seq<(Seq<char>, u64)>,
    extra: Seq<(Seq<char>, u64)>,
) -> bool {
    &&& sorted_names(after)
    &&& forall|name: Seq<char>| #[trigger]
        lookup(after, name) == match lookup(extra, name) {
            Some(value) => Some((amount(before, name) + value) as u64),
            None => lookup(before, name),
        }
}

/// Whether `after` is `before` with `taken` subtracted name by name; amounts
/// that reach zero disappear.
pub open spec fn is_difference(
    after: Seq<(Seq<char>, u64)>,
    before: Seq<(Seq<char>, u64)>,
    taken: Seq<(Seq<char>, u64)>,
) -> bool {
    &&& sorted_names(after)
    &&& forall|name: Seq<char>| #[trigger]
        lookup(after, name) == match (lookup(taken, name), lookup(before, name)) {
            (Some(value), Some(used)) => if used <= value {
                None
            } else {
                Some((used - value) as u64)
            },
            _ => lookup(before, name),
        }
}

/// The devices of `used` that are not among `returned`, in order.
pub open spec fn still_used(used: Seq<Seq<char>>, returned: Seq<Seq<char>>) -> Seq<Seq<char>>
    decreases used.len(),
{
    if used.len() == 0 {
        used
    } else {
        let before = still_used(used.drop_last(), returned);
        if returned.contains(used.last()) {
            before
        } else {
            before.push(used.last())
        }
    }
}

impl EngineModel {
    /// The amount of a named resource that reservations hold.
    pub open spec fn held(self, name: Seq<char>) -> nat {
        total(self.allocations, custom_weight(name))
    }

    /// Whether reservation `token` holds the device `gpu`.
    pub open spec fn holds_gpu(self, token: u64, gpu: Seq<char>) -> bool {
        self.allocations.contains_key(token) && self.allocations[token].gpus.contains(gpu)
    }

    /// What every reachable engine satisfies: usage is what reservations hold,
    /// nothing exceeds capacity, and no device is held twice.
    pub open spec fn valid(self) -> bool {
        &&& self.allocations.dom().finite()
        &&& forall|t: u64| #[trigger]
            self.allocations.contains_key(t) ==> t < self.next_token && sorted_names(
                self.allocations[t].custom,
            )
        &&& sorted_names(self.capacity.custom)
        &&& sorted_names(self.capacity.gpus)
        &&& sorted_names(self.custom)
        &&& self.cpu == total(self.allocations, cpu_weight())
        &&& self.cpu <= self.capacity.cpu_slots
        &&& forall|name: Seq<char>| #[trigger] amount(self.custom, name) == self.held(name)
        &&& forall|name: Seq<char>| #[trigger]
            amount(self.custom, name) <= amount(self.capacity.custom, name)
        &&& self.gpus.no_duplicates()
        &&& forall|i: int|
            0 <= i < self.gpus.len() ==> lookup(
                self.capacity.gpus,
                #[trigger] self.gpus[i],
            ) is Some
        &&& forall|gpu: Seq<char>| #[trigger]
            self.gpus.contains(gpu) <==> exists|t: u64| self.holds_gpu(t, gpu)
        &&& forall|t: u64, u: u64, gpu: Seq<char>| #[trigger]
            self.holds_gpu(t, gpu) && #[trigger] self.holds_gpu(u, gpu) ==> t == u
    }

    /// Whether every named demand fits what is left right now.
    pub open spec fn custom_available(self, demand: Seq<(Seq<char>, u64)>) -> bool {
        forall|i: int|
            0 <= i < demand.len() ==> amount(self.custom, (#[trigger] demand[i]).0) + demand[i].1
                <= amount(self.capacity.custom, demand[i].0)
    }

    /// Why a reservation is refused, if it is.
    pub open spec fn prepare_error(self, demand: DemandModel) -> Option<EngineError> {
        if !fits_capacity(demand, self.capacity) {
            Some(EngineError::Unsatisfiable)
        } else if self.cpu + demand.cpu_slots > self.capacity.cpu_slots || free_devices(
            self.capacity.gpus,
            demand.gpu_labels,
            self.gpus,
        ).len() < demand.gpu_count || !self.custom_available(demand.custom) {
            Some(EngineError::TemporarilyUnavailable)
        } else {
            None
        }
    }

    /// The devices that a reservation gets: the first free ones in name order.
    pub open spec fn assigned(self, demand: DemandModel) -> Seq<Seq<char>> {
        free_devices(self.capacity.gpus, demand.gpu_labels, self.gpus).take(demand.gpu_count as int)
    }

    /// Whether `after` is this engine with the reservation added.
    pub open spec fn reserves(self, after: EngineModel, demand: DemandModel) -> bool {
        &&& after.capacity == self.capacity
        &&& after.cpu == self.cpu + demand.cpu_slots
        &&& after.gpus == self.gpus + self.assigned(demand)
        &&& is_sum(after.custom, self.custom, demand.custom)
        &&& after.next_token == self.next_token + 1
        &&& after.allocations == self.allocations.insert(
            self.next_token,
            AllocationModel {
                cpu: demand.cpu_slots,
                gpus: self.assigned(demand),
                custom: demand.custom,
            },
        )
    }

    /// Whether `after` is this engine with the reservation `token` given back.
    pub open spec fn releases(self, after: EngineModel, token: u64) -> bool {
        let allocation = self.allocations[token];
        &&& after.capacity == self.capacity
        &&& after.cpu == self.cpu - allocation.cpu
        &&& after.gpus == still_used(self.gpus, allocation.gpus)
        &&& is_difference(after.custom, self.custom, allocation.custom)
        &&& after.next_token == self.next_token
        &&& after.allocations == self.allocations.remove(token)
    }

    /// What the engine reports of itself.
    pub open spec fn snapshot(self) -> SnapshotModel {
        SnapshotModel {
            capacity: self.capacity,
            used_cpu_slots: self.cpu,
            used_gpus: self.gpus,
            used_custom: self.custom,
        }
    }
}

/// Giving devices back keeps the others, in order.
pub proof fn lemma_still_used(used: Seq<Seq<char>>, returned: Seq<Seq<char>>)
    ensures
        forall|gpu: Seq<char>| #[trigger]
            still_used(used, returned).contains(gpu) <==> used.contains(gpu) && !returned.contains(
                gpu,
            ),
        used.no_duplicates() ==> still_used(used, returned).no_duplicates(),
    decreases used.len(),
{
    let kept = still_used(used, returned);
    if used.len() == 0 {
    } else {
        let init = used.drop_last();
        let before = still_used(init, returned);
        lemma_still_used(init, returned);
        assert forall|gpu: Seq<char>| #[trigger]
            kept.contains(gpu) <==> used.contains(gpu) && !returned.contains(gpu) by {
            if kept.contains(gpu) {
                let i = choose|i: int| 0 <= i < kept.len() && kept[i] == gpu;
                if i < before.len() {
                    assert(before[i] == gpu);
                    assert(before.contains(gpu));
                    let j = choose|j: int| 0 <= j < init.len() && init[j] == gpu;
                    assert(used[j] == gpu);
                } else {
                    assert(used[used.len() - 1] == gpu);
                }
            }
            if used.contains(gpu) && !returned.contains(gpu) {
                let j = choose|j: int| 0 <= j < used.len() && used[j] == gpu;
                if j < init.len() {
                    assert(init[j] == gpu);
                    assert(before.contains(gpu));
                    let i = choose|i: int| 0 <= i < before.len() && before[i] == gpu;
                    assert(kept[i] == gpu);
                } else {
                    assert(kept[kept.len() - 1] == gpu);
                }
            }
        }
        if used.no_duplicates() {
            assert(init.no_duplicates()) by {
                assert forall|i: int, j: int|
                    0 <= i < init.len() && 0 <= j < init.len() && i != j implies init[i]
                    != init[j] by {
                    assert(used[i] != used[j]);
                }
            }
            assert(!before.contains(used.last())) by {
                if before.contains(used.last()) {
                    let j = choose|j: int| 0 <= j < init.len() && init[j] == used.last();
                    assert(used[j] == used[used.len() - 1]);
                }
            }
            assert(kept.no_duplicates()) by {
                assert forall|i: int, j: int|
                    0 <= i < kept.len() && 0 <= j < kept.len() && i != j implies kept[i]
                    != kept[j] by {
                    if i < before.len() && j < before.len() {
                        assert(before[i] != before[j]);
                    } else if i < before.len() {
                        assert(before.contains(before[i]));
                    } else if j < before.len() {
                        assert(before.contains(before[j]));
                    }
                }
            }
        }
    }
}

/// A reservation keeps an engine valid.
pub proof fn lemma_reserve(before: EngineModel, after: EngineModel, demand: DemandModel)
    requires
        before.valid(),
        before.next_token < u64::MAX,
        sorted_names(demand.custom),
        before.prepare_error(demand) is None,
        before.reserves(after, demand),
    ensures
        after.valid(),
{
    let token = before.next_token;
    let taken = before.assigned(demand);
    let allocation = AllocationModel {
        cpu: demand.cpu_slots,
        gpus: taken,
        custom: demand.custom,
    };
    let free = free_devices(before.capacity.gpus, demand.gpu_labels, before.gpus);
    lemma_free_devices(before.capacity.gpus, demand.gpu_labels, before.gpus);
    assert(!before.allocations.contains_key(token));
    lemma_total_insert(before.allocations, token, allocation, cpu_weight());
    assert forall|name: Seq<char>| #[trigger] amount(after.custom, name) == after.held(name)
        && amount(after.custom, name) <= amount(after.capacity.custom, name) by {
        lemma_total_insert(before.allocations, token, allocation, custom_weight(name));
        assert(amount(before.custom, name) == before.held(name));
        assert(amount(before.custom, name) <= amount(before.capacity.custom, name));
        assert(lookup(after.custom, name) == match lookup(demand.custom, name) {
            Some(value) => Some((amount(before.custom, name) + value) as u64),
            None => lookup(before.custom, name),
        });
        if lookup(demand.custom, name) is Some {
            let i = choose|i: int|
                0 <= i < demand.custom.len() && #[trigger] demand.custom[i].0 == name;
            lemma_lookup_at(demand.custom, i);
            assert(amount(before.custom, demand.custom[i].0) + demand.custom[i].1 <= amount(
                before.capacity.custom,
                demand.custom[i].0,
            ));
        }
    }
    assert forall|i: int| 0 <= i < taken.len() implies #[trigger] taken[i] == free[i] by {}
    assert(after.gpus.no_duplicates()) by {
        assert forall|i: int, j: int|
            0 <= i < after.gpus.len() && 0 <= j < after.gpus.len() && i != j implies after.gpus[i]
            != after.gpus[j] by {
            let n = before.gpus.len() as int;
            if i < n && j < n {
                assert(before.gpus[i] != before.gpus[j]);
            } else if i < n {
                assert(!before.gpus.contains(free[j - n]));
                assert(before.gpus.contains(before.gpus[i]));
            } else if j < n {
                assert(!before.gpus.contains(free[i - n]));
                assert(before.gpus.contains(before.gpus[j]));
            } else {
                assert(free[i - n] != free[j - n]);
            }
        }
    }
    assert forall|i: int| 0 <= i < after.gpus.len() implies lookup(
        after.capacity.gpus,
        #[trigger] after.gpus[i],
    ) is Some by {
        let n = before.gpus.len() as int;
        if i < n {
            assert(lookup(before.capacity.gpus, before.gpus[i]) is Some);
        } else {
            assert(lookup(before.capacity.gpus, free[i - n]) is Some);
        }
    }
    assert forall|gpu: Seq<char>| #[trigger]
        after.gpus.contains(gpu) <==> exists|t: u64| after.holds_gpu(t, gpu) by {
        if after.gpus.contains(gpu) {
            let i = choose|i: int| 0 <= i < after.gpus.len() && after.gpus[i] == gpu;
            let n = before.gpus.len() as int;
            if i < n {
                assert(before.gpus[i] == gpu);
                assert(before.gpus.contains(gpu));
                let t = choose|t: u64| before.holds_gpu(t, gpu);
                assert(after.holds_gpu(t, gpu));
            } else {
                assert(taken[i - n] == gpu);
                assert(after.holds_gpu(token, gpu));
            }
        }
        if exists|t: u64| after.holds_gpu(t, gpu) {
            let t = choose|t: u64| after.holds_gpu(t, gpu);
            if t == token {
                let i = choose|i: int| 0 <= i < taken.len() && taken[i] == gpu;
                assert(after.gpus[before.gpus.len() + i] == gpu);
            } else {
                assert(before.holds_gpu(t, gpu));
                assert(before.gpus.contains(gpu));
                let i = choose|i: int| 0 <= i < before.gpus.len() && before.gpus[i] == gpu;
                assert(after.gpus[i] == gpu);
            }
        }
    }
    assert forall|t: u64, u: u64, gpu: Seq<char>| #[trigger]
        after.holds_gpu(t, gpu) && #[trigger] after.holds_gpu(u, gpu) implies t == u by {
        if t != token && u != token {
            assert(before.holds_gpu(t, gpu) && before.holds_gpu(u, gpu));
        } else if t != u {
            let other = if t == token {
                u
            } else {
                t
            };
            assert(before.holds_gpu(other, gpu));
            assert(before.gpus.contains(gpu));
            let i = choose|i: int| 0 <= i < taken.len() && taken[i] == gpu;
            assert(!before.gpus.contains(free[i]));
        }
    }
}

/// Giving a reservation back keeps an engine valid.
pub proof fn lemma_release(before: EngineModel, after: EngineModel, token: u64)
    requires
        before.valid(),
        before.allocations.contains_key(token),
        before.releases(after, token),
    ensures
        after.valid(),
{
    let allocation = before.allocations[token];
    lemma_total_remove(before.allocations, token, cpu_weight());
    lemma_still_used(before.gpus, allocation.gpus);
    assert forall|name: Seq<char>| #[trigger] amount(after.custom, name) == after.held(name)
        && amount(after.custom, name) <= amount(after.capacity.custom, name) by {
        lemma_total_remove(before.allocations, token, custom_weight(name));
        assert(amount(before.custom, name) == before.held(name));
        assert(amount(before.custom, name) <= amount(before.capacity.custom, name));
        let left = lookup(after.custom, name);
    }
    assert forall|t: u64| #[trigger] after.allocations.contains_key(t) implies t < after.next_token
        && sorted_names(after.allocations[t].custom) by {
        assert(before.allocations.contains_key(t));
    }
    assert forall|i: int| 0 <= i < after.gpus.len() implies lookup(
        after.capacity.gpus,
        #[trigger] after.gpus[i],
    ) is Some by {
        assert(after.gpus.contains(after.gpus[i]));
        let j = choose|j: int| 0 <= j < before.gpus.len() && before.gpus[j] == after.gpus[i];
        assert(lookup(before.capacity.gpus, before.gpus[j]) is Some);
    }
    assert forall|gpu: Seq<char>| #[trigger]
        after.gpus.contains(gpu) <==> exists|t: u64| after.holds_gpu(t, gpu) by {
        if after.gpus.contains(gpu) {
            assert(before.gpus.contains(gpu));
            let t = choose|t: u64| before.holds_gpu(t, gpu);
            assert(t != token);
            assert(after.holds_gpu(t, gpu));
        }
        if exists|t: u64| after.holds_gpu(t, gpu) {
            let t = choose|t: u64| after.holds_gpu(t, gpu);
            assert(before.holds_gpu(t, gpu));
            assert(before.gpus.contains(gpu));
            if allocation.gpus.contains(gpu) {
                assert(before.holds_gpu(token, gpu));
            }
        }
    }
    assert forall|t: u64, u: u64, gpu: Seq<char>| #[trigger]
        after.holds_gpu(t, gpu) && #[trigger] after.holds_gpu(u, gpu) implies t == u by {
        assert(before.holds_gpu(t, gpu) && before.holds_gpu(u, gpu));
    }
}

/// What one process has reserved.
#[derive(Debug)]
struct Ledger {
    capacity: ResourceCapacity,
    cpu: u32,
    gpus: Vec<String>,
    custom: NameMap<u64>,
    next_token: u64,
    allocations: BTreeMap<u64, Allocation>,
}

impl Ledger {
    spec fn model(&self) -> EngineModel {
        EngineModel {
            capacity: self.capacity@,
            cpu: self.cpu,
            gpus: texts(self.gpus@),
            custom: self.custom@,
            next_token: self.next_token,
            allocations: self.allocations@.map_values(|a: Allocation| a@),
        }
    }

    fn new(capacity: ResourceCapacity) -> (ledger: Self)
        ensures
            ledger.model().valid(),
            ledger.model() == idle_engine(capacity@),
    {
        let sorted_gpus = capacity.gpus.len();
        let sorted_custom = capacity.custom.len();
        let ledger = Ledger {
            capacity,
            cpu: 0,
            gpus: Vec::new(),
            custom: NameMap::new(),
            next_token: 1,
            allocations: BTreeMap::new(),
        };
        proof {
            let m = ledger.model();
            assert(m.allocations =~= Map::<u64, AllocationModel>::empty());
            assert(m.allocations.dom() =~= Set::<u64>::empty());
            assert(m.gpus =~= Seq::<Seq<char>>::empty());
            assert forall|name: Seq<char>| #[trigger] amount(m.custom, name) == m.held(name)
                && amount(m.custom, name) <= amount(m.capacity.custom, name) by {
                lemma_lookup_absent(m.custom, name);
            }
            assert forall|gpu: Seq<char>| !(#[trigger] m.gpus.contains(gpu)) && !exists|t: u64|
                m.holds_gpu(t, gpu) by {}
        }
        ledger
    }

    /// Whether every named demand fits what is left right now.
    fn custom_available(&self, demand: &NameMap<u64>) -> (available: bool)
        ensures
            available == self.model().custom_available(demand@),
    {
        let mut i: usize = 0;
        while i < demand.len()
            invariant
                i <= demand@.len(),
                forall|k: int|
                    0 <= k < i ==> amount(self.custom@, (#[trigger] demand@[k]).0) + demand@[k].1
                        <= amount(self.capacity.custom@, demand@[k].0),
            decreases demand@.len() - i,
        {
            let used = amount_of(&self.custom, demand.name_at(i));
            let limit = amount_of(&self.capacity.custom, demand.name_at(i));
            let wanted = *demand.value_at(i);
            if used > limit || wanted > limit - used {
                proof {
                    let entry = demand@[i as int];
                    assert(amount(self.custom@, entry.0) + entry.1 > amount(
                        self.capacity.custom@,
                        entry.0,
                    ));
                }
                return false;
            }
            i = i + 1;
        }
        true
    }

    /// Adds every named demand to what is in use.
    fn add_custom(&mut self, demand: &NameMap<u64>)
        requires
            old(self).model().valid(),
            old(self).model().custom_available(demand@),
        ensures
            is_sum(final(self).custom@, old(self).custom@, demand@),
            final(self).capacity == old(self).capacity,
            final(self).cpu == old(self).cpu,
            final(self).gpus == old(self).gpus,
            final(self).next_token == old(self).next_token,
            final(self).allocations == old(self).allocations,
    {
        let ghost before = self.custom@;
        let ghost limits = self.capacity.custom@;
        let count = demand.len();
        let mut i: usize = 0;
        proof {
            assert forall|name: Seq<char>| lookup(demand@.take(0), name) is None by {
                lemma_lookup_absent(demand@.take(0), name);
            }
        }
        while i < count
            invariant
                i <= count == demand@.len(),
                sorted_names(demand@),
                is_sum(self.custom@, before, demand@.take(i as int)),
                forall|k: int|
                    0 <= k < demand@.len() ==> amount(before, (#[trigger] demand@[k]).0)
                        + demand@[k].1 <= amount(limits, demand@[k].0),
                self.capacity == old(self).capacity,
                self.cpu == old(self).cpu,
                self.gpus == old(self).gpus,
                self.next_token == old(self).next_token,
                self.allocations == old(self).allocations,
            decreases count - i,
        {
            let ghost sofar = self.custom@;
            let ghost entry = demand@[i as int];
            proof {
                lemma_take_lookup(demand@, i as int);
                assert(amount(before, entry.0) + entry.1 <= amount(limits, entry.0));
                assert(lookup(sofar, entry.0) == lookup(before, entry.0));
            }
            let used = amount_of(&self.custom, demand.name_at(i));
            let wanted = *demand.value_at(i);
            let _replaced = self.custom.insert(demand.name_at(i).to_owned(), used + wanted);
            proof {
                assert forall|name: Seq<char>| #[trigger]
                    lookup(self.custom@, name) == (match lookup(demand@.take(i + 1), name) {
                        Some(value) => Some((amount(before, name) + value) as u64),
                        None => lookup(before, name),
                    }) by {
                    if name != entry.0 {
                        assert(lookup(self.custom@, name) == lookup(sofar, name));
                    }
                }
            }
            i = i + 1;
        }
        proof {
            assert(demand@.take(i as int) =~= demand@);
        }
    }

    fn prepare(&mut self, id: TaskId, request: ResourceRequest) -> (result: Result<
        PreparedExecution<u64>,
        EngineError,
    >)
        requires
            old(self).model().valid(),
            old(self).model().prepare_error(request@) is None ==> old(self).next_token < u64::MAX,
        ensures
            final(self).model().valid(),
            prepare_post(old(self).model(), final(self).model(), id, request@, result),
    {
        let ghost before = self.model();
        let ghost demand = request@;
        if !can_fit_capacity(&request, &self.capacity) {
            return Err(EngineError::Unsatisfiable);
        }
        let found = find_devices(
            &self.capacity.gpus,
            &request.gpu_labels,
            &self.gpus,
            request.gpu_count as usize,
        );
        let available_custom = self.custom_available(&request.custom);
        if request.cpu_slots > self.capacity.cpu_slots - self.cpu || found.len()
            != request.gpu_count as usize || !available_custom {
            return Err(EngineError::TemporarilyUnavailable);
        }
        let sorted = request.custom.len();
        proof {
            assert(texts(found@) =~= before.assigned(demand));
        }
        self.add_custom(&request.custom);
        self.cpu = self.cpu + request.cpu_slots;
        let ghost used = self.gpus@;
        let mut i: usize = 0;
        while i < found.len()
            invariant
                i <= found@.len(),
                texts(self.gpus@) =~= texts(used) + texts(found@).take(i as int),
                self.capacity@ == before.capacity,
                self.cpu == before.cpu + demand.cpu_slots,
                is_sum(self.custom@, before.custom, demand.custom),
                self.next_token == before.next_token,
                self.allocations@.map_values(|a: Allocation| a@) == before.allocations,
            decreases found@.len() - i,
        {
            let ghost sofar = self.gpus@;
            self.gpus.push(found[i].clone());
            proof {
                assert(texts(self.gpus@) =~= texts(sofar).push(texts(found@)[i as int]));
                assert(texts(found@).take(i + 1) =~= texts(found@).take(i as int).push(
                    texts(found@)[i as int],
                ));
            }
            i = i + 1;
        }
        proof {
            assert(texts(found@).take(i as int) =~= texts(found@));
        }
        let token = self.next_token;
        self.next_token = token + 1;
        let assigned = copy_texts(&found);
        let _previous = self.allocations.insert(
            token,
            Allocation { cpu: request.cpu_slots, gpus: found, custom: request.custom },
        );
        proof {
            let after = self.model();
            assert(after.allocations =~= before.allocations.insert(
                before.next_token,
                AllocationModel {
                    cpu: demand.cpu_slots,
                    gpus: before.assigned(demand),
                    custom: demand.custom,
                },
            ));
            assert(before.reserves(after, demand));
            lemma_reserve(before, after, demand);
        }
        Ok(PreparedExecution::new(id, assigned, token))
    }

    /// Subtracts a reservation's named amounts from what is in use.
    fn subtract_custom(&mut self, taken: &NameMap<u64>)
        ensures
            is_difference(final(self).custom@, old(self).custom@, taken@),
            final(self).capacity == old(self).capacity,
            final(self).cpu == old(self).cpu,
            final(self).gpus == old(self).gpus,
            final(self).next_token == old(self).next_token,
            final(self).allocations == old(self).allocations,
    {
        let ghost before = self.custom@;
        let count = taken.len();
        let sorted = self.custom.len();
        let mut i: usize = 0;
        proof {
            assert forall|name: Seq<char>| lookup(taken@.take(0), name) is None by {
                lemma_lookup_absent(taken@.take(0), name);
            }
        }
        while i < count
            invariant
                i <= count == taken@.len(),
                sorted_names(taken@),
                is_difference(self.custom@, before, taken@.take(i as int)),
                self.capacity == old(self).capacity,
                self.cpu == old(self).cpu,
                self.gpus == old(self).gpus,
                self.next_token == old(self).next_token,
                self.allocations == old(self).allocations,
            decreases count - i,
        {
            let ghost sofar = self.custom@;
            let ghost entry = taken@[i as int];
            proof {
                lemma_take_lookup(taken@, i as int);
                assert(lookup(sofar, entry.0) == lookup(before, entry.0));
            }
            let given: u64 = *taken.value_at(i);
            let current: Option<u64> = match self.custom.get(taken.name_at(i)) {
                Some(value) => Some(*value),
                None => None,
            };
            match current {
                Some(used) => {
                    if used <= given {
                        let _removed = self.custom.remove(taken.name_at(i));
                    } else {
                        let _replaced = self.custom.insert(
                            taken.name_at(i).to_owned(),
                            used - given,
                        );
                    }
                },
                None => {},
            }
            proof {
                let part = taken@.take(i + 1);
                assert forall|name: Seq<char>| #[trigger]
                    lookup(self.custom@, name) == (match (
                        lookup(part, name),
                        lookup(before, name),
                    ) {
                        (Some(value), Some(used)) => if used <= value {
                            None
                        } else {
                            Some((used - value) as u64)
                        },
                        _ => lookup(before, name),
                    }) by {
                    if name != entry.0 {
                        assert(lookup(self.custom@, name) == lookup(sofar, name));
                    }
                }
            }
            i = i + 1;
        }
        proof {
            assert(taken@.take(i as int) =~= taken@);
        }
    }

    fn release(&mut self, token: u64)
        requires
            old(self).model().valid(),
        ensures
            final(self).model().valid(),
            release_post(old(self).model(), final(self).model(), token),
    {
        let ghost before = self.model();
        proof {
            assert(self.allocations@.contains_key(token) == before.allocations.contains_key(token));
        }
        match self.allocations.remove(&token) {
            Some(allocation) => {
                proof {
                    assert(allocation@ == before.allocations[token]);
                    lemma_total_remove(before.allocations, token, cpu_weight());
                }
                self.cpu = self.cpu - allocation.cpu;
                self.subtract_custom(&allocation.custom);
                let mut kept: Vec<String> = Vec::new();
                let ghost used = texts(self.gpus@);
                let mut i: usize = 0;
                proof {
                    assert(texts(kept@) =~= Seq::<Seq<char>>::empty());
                    assert(used.take(0) =~= Seq::<Seq<char>>::empty());
                }
                while i < self.gpus.len()
                    invariant
                        i <= self.gpus@.len(),
                        used == texts(self.gpus@),
                        texts(kept@) == still_used(used.take(i as int), texts(allocation.gpus@)),
                    decreases self.gpus@.len() - i,
                {
                    proof {
                        assert(used.take(i + 1).drop_last() =~= used.take(i as int));
                        assert(used.take(i + 1).last() == self.gpus@[i as int]@);
                    }
                    if !contains_text(&allocation.gpus, self.gpus[i].as_str()) {
                        let ghost sofar = kept@;
                        kept.push(self.gpus[i].clone());
                        proof {
                            assert(texts(kept@) =~= texts(sofar).push(self.gpus@[i as int]@));
                        }
                    }
                    i = i + 1;
                }
                proof {
                    assert(used.take(i as int) =~= used);
                }
                self.gpus = kept;
                proof {
                    let after = self.model();
                    assert(after.allocations =~= before.allocations.remove(token));
                    assert(before.releases(after, token));
                    lemma_release(before, after, token);
                }
            },
            None => {
                proof {
                    assert(self.allocations@ =~= old(self).allocations@);
                    assert(self.model() =~= before);
                }
            },
        }
    }
}

/// Looking up a name in a longer prefix.
proof fn lemma_take_lookup(entries: Seq<(Seq<char>, u64)>, n: int)
    requires
        sorted_names(entries),
        0 <= n < entries.len(),
    ensures
        forall|name: Seq<char>| #[trigger]
            lookup(entries.take(n + 1), name) == if name == entries[n].0 {
                Some(entries[n].1)
            } else {
                lookup(entries.take(n), name)
            },
        lookup(entries.take(n), entries[n].0) is None,
{
    let longer = entries.take(n + 1);
    let shorter = entries.take(n);
    assert forall|i: int, j: int| 0 <= i < j < longer.len() implies crate::text::text_lt(
        #[trigger] longer[i].0,
        #[trigger] longer[j].0,
    ) by {
        assert(crate::text::text_lt(entries[i].0, entries[j].0));
    }
    assert forall|i: int, j: int| 0 <= i < j < shorter.len() implies crate::text::text_lt(
        #[trigger] shorter[i].0,
        #[trigger] shorter[j].0,
    ) by {
        assert(crate::text::text_lt(entries[i].0, entries[j].0));
    }
    assert forall|i: int| 0 <= i < shorter.len() implies #[trigger] shorter[i].0
        != entries[n].0 by {
        assert(crate::text::text_lt(entries[i].0, entries[n].0));
        crate::text::lemma_text_lt_irreflexive(entries[n].0);
    }
    lemma_lookup_absent(shorter, entries[n].0);
    assert forall|name: Seq<char>| #[trigger]
        lookup(longer, name) == (if name == entries[n].0 {
            Some(entries[n].1)
        } else {
            lookup(shorter, name)
        }) by {
        if name == entries[n].0 {
            lemma_lookup_at(longer, n);
        } else if exists|i: int| 0 <= i < shorter.len() && #[trigger] shorter[i].0 == name {
            let i = choose|i: int| 0 <= i < shorter.len() && #[trigger] shorter[i].0 == name;
            lemma_lookup_at(shorter, i);
            assert(longer[i] == shorter[i]);
            lemma_lookup_at(longer, i);
        } else {
            lemma_lookup_absent(shorter, name);
            assert forall|i: int| 0 <= i < longer.len() implies #[trigger] longer[i].0
                != name by {
                if i < n {
                    assert(shorter[i].0 != name);
                }
            }
            lemma_lookup_absent(longer, name);
        }
    }
}

/// An engine that holds no reservation.
pub open spec fn idle_engine(capacity: CapacityModel) -> EngineModel {
    EngineModel {
        capacity,
        cpu: 0,
        gpus: Seq::empty(),
        custom: Seq::empty(),
        next_token: 1,
        allocations: Map::empty(),
    }
}

/// What preparing a task does to an engine and returns.
pub open spec fn prepare_post(
    before: EngineModel,
    after: EngineModel,
    id: TaskId,
    demand: DemandModel,
    result: Result<PreparedExecution<u64>, EngineError>,
) -> bool {
    match result {
        Ok(prepared) => {
            &&& before.prepare_error(demand) is None
            &&& prepared@ == (PreparedModel {
                id,
                assigned: before.assigned(demand),
                release: Some(before.next_token),
            })
            &&& before.reserves(after, demand)
        },
        Err(error) => before.prepare_error(demand) == Some(error) && after == before,
    }
}

/// What giving a reservation back does to an engine: an unknown token does
/// nothing.
pub open spec fn release_post(before: EngineModel, after: EngineModel, token: u64) -> bool {
    if before.allocations.contains_key(token) {
        before.releases(after, token)
    } else {
        after == before
    }
}

/// Single-process executor that atomically accounts for CPU, GPU, and custom
/// resources.
#[derive(Debug)]
pub struct LocalTaskExecutionEngine {
    ledger: Ledger,
}

impl View for LocalTaskExecutionEngine {
    type V = EngineModel;

    closed spec fn view(&self) -> EngineModel {
        self.ledger.model()
    }
}

impl LocalTaskExecutionEngine {
    #[verifier::type_invariant]
    closed spec fn well_formed(self) -> bool {
        self.ledger.model().valid()
    }

    /// Creates a local engine with explicit resource capacity.
    pub fn new(capacity: ResourceCapacity) -> (engine: Self)
        ensures
            engine@ == idle_engine(capacity@),
            engine@.valid(),
    {
        LocalTaskExecutionEngine { ledger: Ledger::new(capacity) }
    }

    /// Reports configured capacity and current reservations.
    pub fn capacity(&self) -> (snapshot: ResourceSnapshot)
        ensures
            snapshot@ == self@.snapshot(),
            self@.valid(),
    {
        proof {
            use_type_invariant(self);
        }
        ResourceSnapshot {
            capacity: self.ledger.capacity.clone(),
            used_cpu_slots: self.ledger.cpu,
            used_gpus: copy_texts(&self.ledger.gpus),
            used_custom: self.ledger.custom.clone(),
        }
    }

    /// Returns the token that the next reservation gets.
    pub fn next_token(&self) -> (token: u64)
        ensures
            token == self@.next_token,
    {
        self.ledger.next_token
    }

    /// Atomically reserves all task resources without starting handler code.
    ///
    /// Devices are assigned in name order. The prepared value carries the token
    /// that gives the reservation back.
    pub fn prepare(&mut self, id: TaskId, request: ResourceRequest) -> (result: Result<
        PreparedExecution<u64>,
        EngineError,
    >)
        requires
            old(self)@.prepare_error(request@) is None ==> old(self)@.next_token < u64::MAX,
        ensures
            old(self)@.valid(),
            final(self)@.valid(),
            prepare_post(old(self)@, final(self)@, id, request@, result),
    {
        proof {
            use_type_invariant(&*self);
        }
        let mut ledger = Ledger::new(ResourceCapacity::default());
        std::mem::swap(&mut ledger, &mut self.ledger);
        let result = ledger.prepare(id, request);
        std::mem::swap(&mut ledger, &mut self.ledger);
        result
    }

    /// Removes one reservation and returns its resources to the shared counters.
    pub fn release(&mut self, token: u64)
        ensures
            old(self)@.valid(),
            final(self)@.valid(),
            release_post(old(self)@, final(self)@, token),
    {
        proof {
            use_type_invariant(&*self);
        }
        let mut ledger = Ledger::new(ResourceCapacity::default());
        std::mem::swap(&mut ledger, &mut self.ledger);
        ledger.release(token);
        std::mem::swap(&mut ledger, &mut self.ledger);
    }
}

/// Giving a fresh reservation back leaves the same slots, devices and amounts in
/// use as before it was made. The engine then also reports the same as before,
/// unless a name that the reservation asked for was listed with nothing in use:
/// such a name is no longer listed.
pub proof fn law_release_undoes_prepare(
    before: EngineModel,
    held: EngineModel,
    after: EngineModel,
    demand: DemandModel,
)
    requires
        before.valid(),
        before.next_token < u64::MAX,
        sorted_names(demand.custom),
        before.prepare_error(demand) is None,
        before.reserves(held, demand),
        held.releases(after, before.next_token),
    ensures
        after.cpu == before.cpu,
        after.gpus == before.gpus,
        after.allocations == before.allocations,
        forall|name: Seq<char>| #[trigger]
            amount(after.custom, name) == amount(before.custom, name),
        (forall|name: Seq<char>|
            #![trigger lookup(before.custom, name)]
            lookup(demand.custom, name) is Some ==> lookup(before.custom, name) != Some(0u64))
            ==> after.snapshot() == before.snapshot(),
{
    lemma_reserve(before, held, demand);
    lemma_release(held, after, before.next_token);
    if forall|name: Seq<char>|
        #![trigger lookup(before.custom, name)]
        lookup(demand.custom, name) is Some ==> lookup(before.custom, name) != Some(0u64) {
        assert forall|name: Seq<char>| #[trigger]
            lookup(after.custom, name) == lookup(before.custom, name) by {
            let entry = lookup(before.custom, name);
            assert(lookup(held.custom, name) == match lookup(demand.custom, name) {
                Some(value) => Some((amount(before.custom, name) + value) as u64),
                None => entry,
            });
            if lookup(demand.custom, name) is Some {
                let i = choose|i: int|
                    0 <= i < demand.custom.len() && #[trigger] demand.custom[i].0 == name;
                assert(amount(before.custom, demand.custom[i].0) + demand.custom[i].1 <= amount(
                    before.capacity.custom,
                    demand.custom[i].0,
                ));
            }
        }
        law_name_order_is_canonical(after.custom, before.custom);
    }
    assert(!before.allocations.contains_key(before.next_token));
    assert(after.allocations =~= before.allocations);
    assert forall|name: Seq<char>| #[trigger] amount(after.custom, name) == amount(
        before.custom,
        name,
    ) by {
        assert(amount(after.custom, name) == after.held(name));
        assert(amount(before.custom, name) == before.held(name));
    }
    let taken = before.assigned(demand);
    let free = free_devices(before.capacity.gpus, demand.gpu_labels, before.gpus);
    lemma_free_devices(before.capacity.gpus, demand.gpu_labels, before.gpus);
    assert forall|i: int| 0 <= i < before.gpus.len() implies !taken.contains(
        #[trigger] before.gpus[i],
    ) by {
        if taken.contains(before.gpus[i]) {
            let k = choose|k: int| 0 <= k < taken.len() && taken[k] == before.gpus[i];
            assert(!before.gpus.contains(free[k]));
        }
    }
    lemma_still_used_concat(before.gpus, taken, taken.len() as int);
    assert(taken.take(taken.len() as int) =~= taken);
}

/// Giving back exactly what was added leaves what was there before.
proof fn lemma_still_used_concat(used: Seq<Seq<char>>, taken: Seq<Seq<char>>, n: int)
    requires
        0 <= n <= taken.len(),
        forall|i: int| 0 <= i < used.len() ==> !taken.contains(#[trigger] used[i]),
    ensures
        still_used(used + taken.take(n), taken) == used,
    decreases n + used.len(),
{
    let all = used + taken.take(n);
    if n > 0 {
        assert(all.drop_last() =~= used + taken.take(n - 1));
        assert(all.last() == taken[n - 1]);
        lemma_still_used_concat(used, taken, n - 1);
    } else {
        assert(all =~= used);
        if used.len() > 0 {
            let init = used.drop_last();
            assert forall|i: int| 0 <= i < init.len() implies !taken.contains(
                #[trigger] init[i],
            ) by {
                assert(!taken.contains(used[i]));
            }
            lemma_still_used_concat(init, taken, 0);
            assert(init + taken.take(0) =~= init);
            assert(!taken.contains(used[used.len() - 1]));
            assert(init.push(used.last()) =~= used);
        }
    }
}

/// No device is assigned to two reservations at once.
pub proof fn law_devices_are_exclusive(engine: EngineModel, t: u64, u: u64, gpu: Seq<char>)
    requires
        engine.valid(),
        engine.holds_gpu(t, gpu),
        engine.holds_gpu(u, gpu),
    ensures
        t == u,
{
}

/// Usage never exceeds the configured capacity, and a new reservation only gets
/// devices with the labels it asked for.
pub proof fn law_reservations_stay_within_capacity(
    before: EngineModel,
    after: EngineModel,
    demand: DemandModel,
)
    requires
        before.valid(),
        before.next_token < u64::MAX,
        sorted_names(demand.custom),
        before.prepare_error(demand) is None,
        before.reserves(after, demand),
    ensures
        after.cpu <= after.capacity.cpu_slots,
        forall|name: Seq<char>| #[trigger]
            amount(after.custom, name) <= amount(after.capacity.custom, name),
        before.assigned(demand).len() == demand.gpu_count,
        forall|i: int|
            0 <= i < demand.gpu_count ==> lookup(
                before.capacity.gpus,
                #[trigger] before.assigned(demand)[i],
            ) is Some && crate::scheduling::fit::has_labels(
                lookup(before.capacity.gpus, before.assigned(demand)[i])->0,
                demand.gpu_labels,
            ),
{
    lemma_reserve(before, after, demand);
    let free = free_devices(before.capacity.gpus, demand.gpu_labels, before.gpus);
    lemma_free_devices(before.capacity.gpus, demand.gpu_labels, before.gpus);
    assert forall|i: int| 0 <= i < demand.gpu_count implies lookup(
        before.capacity.gpus,
        #[trigger] before.assigned(demand)[i],
    ) is Some && crate::scheduling::fit::has_labels(
        lookup(before.capacity.gpus, before.assigned(demand)[i])->0,
        demand.gpu_labels,
    ) by {
        assert(before.assigned(demand)[i] == free[i]);
    }
}

} // verus!
