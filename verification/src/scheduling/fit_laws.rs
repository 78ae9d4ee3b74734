//! What it means that a demand fits, in terms of devices, labels and amounts.

use vstd::prelude::*;

use super::fair_fifo::first_starved;
use super::fair_fifo::ids_where;
use super::fair_fifo::inspected;
use super::fair_fifo::is_fair_order;
use super::fair_fifo::QueuedModel;
use super::fit::amount;
use super::fit::can_fit_capacity;
use super::fit::fits_capacity;
use super::fit::fits_now;
use super::fit::free_devices;
use super::fit::has_labels;
use super::fit::is_free;
use super::fit::likely_fits;
use super::FairFifoPolicy;
use super::QueueSnapshot;
use super::QueuedTask;
use super::SchedulingPolicy;
use crate::engine::local::EngineModel;
use crate::model::name_map::lookup;
use crate::model::resource::CapacityModel;
use crate::model::resource::DemandModel;
use crate::model::resource::SnapshotModel;
use crate::model::ResourceCapacity;
use crate::model::ResourceRequest;
use crate::model::ResourceSnapshot;
use crate::model::TaskId;

verus! {

/// Whether `picks` name different devices that are not in use and carry every
/// wanted label.
pub open spec fn offers(
    devices: Seq<(Seq<char>, Seq<Seq<char>>)>,
    used: Seq<Seq<char>>,
    wanted: Seq<Seq<char>>,
    picks: Seq<int>,
) -> bool {
    &&& picks.no_duplicates()
    &&& forall|i: int|
        0 <= i < picks.len() ==> {
            &&& 0 <= #[trigger] picks[i] < devices.len()
            &&& !used.contains(devices[picks[i]].0)
            &&& forall|w: int|
                0 <= w < wanted.len() ==> devices[picks[i]].1.contains(#[trigger] wanted[w])
        }
}

/// Whether `count` different devices are not in use and carry every wanted label.
pub open spec fn has_devices(
    devices: Seq<(Seq<char>, Seq<Seq<char>>)>,
    used: Seq<Seq<char>>,
    wanted: Seq<Seq<char>>,
    count: nat,
) -> bool {
    exists|picks: Seq<int>| #[trigger] offers(devices, used, wanted, picks) && picks.len() >= count
}

/// Positions of the free devices.
spec fn free_set(
    devices: Seq<(Seq<char>, Seq<Seq<char>>)>,
    wanted: Seq<Seq<char>>,
    used: Seq<Seq<char>>,
) -> Set<int> {
    Set::new(|i: int| 0 <= i < devices.len() && is_free(devices[i], wanted, used))
}

proof fn lemma_free_set(
    devices: Seq<(Seq<char>, Seq<Seq<char>>)>,
    wanted: Seq<Seq<char>>,
    used: Seq<Seq<char>>,
) -> (picks: Seq<int>)
    ensures
        free_set(devices, wanted, used).finite(),
        free_set(devices, wanted, used).len() == free_devices(devices, wanted, used).len(),
        picks.len() == free_devices(devices, wanted, used).len(),
        picks.no_duplicates(),
        forall|i: int|
            0 <= i < picks.len() ==> free_set(devices, wanted, used).contains(#[trigger] picks[i]),
    decreases devices.len(),
{
    let all = free_set(devices, wanted, used);
    if devices.len() == 0 {
        assert(all =~= Set::<int>::empty());
        Seq::empty()
    } else {
        let shorter = devices.drop_last();
        let last = devices.len() - 1;
        let inner = lemma_free_set(shorter, wanted, used);
        let fewer = free_set(shorter, wanted, used);
        if is_free(devices.last(), wanted, used) {
            assert(all =~= fewer.insert(last));
            assert(!fewer.contains(last));
            let picks = inner.push(last);
            assert forall|i: int, j: int|
                0 <= i < picks.len() && 0 <= j < picks.len() && i != j implies picks[i]
                != picks[j] by {
                if i < inner.len() {
                    assert(fewer.contains(inner[i]));
                }
                if j < inner.len() {
                    assert(fewer.contains(inner[j]));
                }
            }
            assert forall|i: int| 0 <= i < picks.len() implies all.contains(#[trigger] picks[i]) by {
                if i < inner.len() {
                    assert(fewer.contains(inner[i]));
                }
            }
            picks
        } else {
            assert(all =~= fewer);
            inner
        }
    }
}

proof fn lemma_offers(
    devices: Seq<(Seq<char>, Seq<Seq<char>>)>,
    used: Seq<Seq<char>>,
    wanted: Seq<Seq<char>>,
    picks: Seq<int>,
)
    ensures
        offers(devices, used, wanted, picks) <==> picks.no_duplicates() && forall|i: int|
            0 <= i < picks.len() ==> free_set(devices, wanted, used).contains(#[trigger] picks[i]),
{
    let all = free_set(devices, wanted, used);
    if offers(devices, used, wanted, picks) {
        assert forall|i: int| 0 <= i < picks.len() implies all.contains(#[trigger] picks[i]) by {}
    }
    if picks.no_duplicates() && forall|i: int|
        0 <= i < picks.len() ==> all.contains(#[trigger] picks[i]) {
        assert forall|i: int| 0 <= i < picks.len() implies {
            &&& 0 <= #[trigger] picks[i] < devices.len()
            &&& !used.contains(devices[picks[i]].0)
            &&& forall|w: int|
                0 <= w < wanted.len() ==> devices[picks[i]].1.contains(#[trigger] wanted[w])
        } by {
            assert(all.contains(picks[i]));
        }
    }
}

/// Enough devices are free exactly when enough can be named.
pub proof fn lemma_has_devices(
    devices: Seq<(Seq<char>, Seq<Seq<char>>)>,
    used: Seq<Seq<char>>,
    wanted: Seq<Seq<char>>,
    count: nat,
)
    ensures
        has_devices(devices, used, wanted, count) <==> count <= free_devices(
            devices,
            wanted,
            used,
        ).len(),
{
    let all = free_set(devices, wanted, used);
    let found = lemma_free_set(devices, wanted, used);
    lemma_offers(devices, used, wanted, found);
    if has_devices(devices, used, wanted, count) {
        let picks = choose|picks: Seq<int>| #[trigger]
            offers(devices, used, wanted, picks) && picks.len() >= count;
        lemma_offers(devices, used, wanted, picks);
        picks.unique_seq_to_set();
        assert(picks.to_set().subset_of(all)) by {
            assert forall|x: int| picks.to_set().contains(x) implies all.contains(x) by {
                let i = choose|i: int| 0 <= i < picks.len() && picks[i] == x;
                assert(all.contains(picks[i]));
            }
        }
        vstd::set_lib::lemma_len_subset(picks.to_set(), all);
    }
}

/// Whether a list gives this amount under a name: an entry of it, or nothing.
pub open spec fn gives_amount(amounts: Seq<(Seq<char>, u64)>, name: Seq<char>, value: nat) -> bool {
    if exists|i: int| 0 <= i < amounts.len() && #[trigger] amounts[i].0 == name {
        exists|i: int|
            0 <= i < amounts.len() && #[trigger] amounts[i].0 == name && amounts[i].1 == value
    } else {
        value == 0
    }
}

/// The amount under a name is that of its entry, and zero without one.
pub proof fn law_amounts_are_those_of_the_entries(amounts: Seq<(Seq<char>, u64)>, name: Seq<char>)
    ensures
        gives_amount(amounts, name, amount(amounts, name)),
{
}

/// Whether what is left holds a demand: CPU slots, devices with the wanted labels
/// that are not in use, and every named amount.
pub open spec fn is_left(demand: DemandModel, resources: SnapshotModel) -> bool {
    &&& demand.cpu_slots > 0 ==> resources.used_cpu_slots + demand.cpu_slots
        <= resources.capacity.cpu_slots
    &&& has_devices(
        resources.capacity.gpus,
        resources.used_gpus,
        demand.gpu_labels,
        demand.gpu_count as nat,
    )
    &&& forall|k: int|
        0 <= k < demand.custom.len() && (#[trigger] demand.custom[k]).1 > 0 ==> amount(
            resources.used_custom,
            demand.custom[k].0,
        ) + demand.custom[k].1 <= amount(resources.capacity.custom, demand.custom[k].0)
}

/// Whether a list has an entry of this name.
pub open spec fn is_listed(amounts: Seq<(Seq<char>, u64)>, name: Seq<char>) -> bool {
    exists|i: int| 0 <= i < amounts.len() && #[trigger] amounts[i].0 == name
}

/// Whether an engine of this capacity could hold a demand if nothing else ran:
/// CPU slots, devices with the wanted labels, and every named amount, of a name
/// that the engine knows.
pub open spec fn could_hold(demand: DemandModel, capacity: CapacityModel) -> bool {
    &&& demand.cpu_slots <= capacity.cpu_slots
    &&& has_devices(capacity.gpus, Seq::empty(), demand.gpu_labels, demand.gpu_count as nat)
    &&& forall|k: int|
        0 <= k < demand.custom.len() ==> is_listed(
            capacity.custom,
            (#[trigger] demand.custom[k]).0,
        ) && demand.custom[k].1 <= amount(capacity.custom, demand.custom[k].0)
}

proof fn lemma_is_left(demand: DemandModel, resources: SnapshotModel)
    ensures
        likely_fits(demand, resources) <==> is_left(demand, resources),
{
    lemma_has_devices(
        resources.capacity.gpus,
        resources.used_gpus,
        demand.gpu_labels,
        demand.gpu_count as nat,
    );
}

/// What fits a capacity is what it could hold.
pub proof fn lemma_could_hold(demand: DemandModel, capacity: CapacityModel)
    ensures
        fits_capacity(demand, capacity) <==> could_hold(demand, capacity),
{
    lemma_has_devices(capacity.gpus, Seq::empty(), demand.gpu_labels, demand.gpu_count as nat);
    if fits_capacity(demand, capacity) {
        assert forall|k: int| 0 <= k < demand.custom.len() implies is_listed(
            capacity.custom,
            (#[trigger] demand.custom[k]).0,
        ) && demand.custom[k].1 <= amount(capacity.custom, demand.custom[k].0) by {
            assert(lookup(capacity.custom, demand.custom[k].0) is Some);
        }
    }
    if could_hold(demand, capacity) {
        assert forall|k: int| 0 <= k < demand.custom.len() implies lookup(
            capacity.custom,
            (#[trigger] demand.custom[k]).0,
        ) is Some && demand.custom[k].1 <= amount(capacity.custom, demand.custom[k].0) by {
            assert(is_listed(capacity.custom, demand.custom[k].0));
        }
    }
}

/// A demand looks startable exactly when its CPU slots, devices and amounts are
/// left.
pub proof fn law_demands_fit_what_is_left(
    request: ResourceRequest,
    resources: ResourceSnapshot,
    fits: bool,
)
    requires
        call_ensures(fits_now, (&request, &resources), fits),
    ensures
        fits <==> is_left(request@, resources@),
{
    lemma_is_left(request@, resources@);
}

/// A demand can ever be satisfied exactly when the whole capacity could hold it.
pub proof fn law_demands_fit_capacity(
    request: ResourceRequest,
    capacity: ResourceCapacity,
    fits: bool,
)
    requires
        call_ensures(can_fit_capacity, (&request, &capacity), fits),
    ensures
        fits <==> could_hold(request@, capacity@),
{
    lemma_could_hold(request@, capacity@);
}

/// While nothing starves, the candidates are the inspected tasks that fit what is
/// left, in queue order, and then those that can never run, in queue order.
pub proof fn law_open_queues_are_ordered_by_fit(
    order: Seq<TaskId>,
    tasks: Seq<QueuedModel>,
    limit: u32,
    resources: SnapshotModel,
)
    requires
        is_fair_order(order, tasks, limit, resources),
        forall|k: int| 0 <= k < tasks.len() ==> (#[trigger] tasks[k]).bypasses < limit,
    ensures
        order == tasks.filter(|t: QueuedModel| is_left(t.resources, resources)).map_values(
            |t: QueuedModel| t.id,
        ) + tasks.filter(
            |t: QueuedModel| !could_hold(t.resources, resources.capacity),
        ).map_values(|t: QueuedModel| t.id),
{
    let fits = |t: QueuedModel| likely_fits(t.resources, resources);
    let hopeless = |t: QueuedModel| !fits_capacity(t.resources, resources.capacity);
    let left = |t: QueuedModel| is_left(t.resources, resources);
    let never = |t: QueuedModel| !could_hold(t.resources, resources.capacity);
    assert forall|t: QueuedModel| #[trigger] fits(t) == left(t) by {
        lemma_is_left(t.resources, resources);
    }
    assert forall|t: QueuedModel| #[trigger] hopeless(t) == never(t) by {
        lemma_could_hold(t.resources, resources.capacity);
    }
    lemma_ids_filter(tasks, fits, left);
    lemma_ids_filter(tasks, hopeless, never);
}

proof fn lemma_ids_filter(
    tasks: Seq<QueuedModel>,
    keep: spec_fn(QueuedModel) -> bool,
    same: spec_fn(QueuedModel) -> bool,
)
    requires
        forall|t: QueuedModel| #[trigger] keep(t) == same(t),
    ensures
        ids_where(tasks, keep) == tasks.filter(same).map_values(|t: QueuedModel| t.id),
    decreases tasks.len(),
{
    reveal(Seq::filter);
    let listed = tasks.filter(same).map_values(|t: QueuedModel| t.id);
    if tasks.len() > 0 {
        let shorter = tasks.drop_last();
        lemma_ids_filter(shorter, keep, same);
        assert(keep(tasks.last()) == same(tasks.last()));
        if same(tasks.last()) {
            assert(tasks.filter(same) =~= shorter.filter(same).push(tasks.last()));
            assert(listed =~= shorter.filter(same).map_values(|t: QueuedModel| t.id).push(
                tasks.last().id,
            ));
        } else {
            assert(tasks.filter(same) =~= shorter.filter(same));
        }
    } else {
        assert(listed =~= Seq::empty());
    }
}

/// A task whose CPU slots, devices and amounts are left is a candidate while
/// nothing starves.
pub proof fn law_tasks_that_fit_are_candidates(
    order: Seq<TaskId>,
    tasks: Seq<QueuedModel>,
    limit: u32,
    resources: SnapshotModel,
    at: int,
    picks: Seq<int>,
)
    requires
        is_fair_order(order, tasks, limit, resources),
        forall|k: int| 0 <= k < tasks.len() ==> (#[trigger] tasks[k]).bypasses < limit,
        0 <= at < tasks.len(),
        resources.used_cpu_slots + tasks[at].resources.cpu_slots <= resources.capacity.cpu_slots,
        offers(
            resources.capacity.gpus,
            resources.used_gpus,
            tasks[at].resources.gpu_labels,
            picks,
        ),
        picks.len() >= tasks[at].resources.gpu_count,
        forall|k: int|
            0 <= k < tasks[at].resources.custom.len() ==> amount(
                resources.used_custom,
                (#[trigger] tasks[at].resources.custom[k]).0,
            ) + tasks[at].resources.custom[k].1 <= amount(
                resources.capacity.custom,
                tasks[at].resources.custom[k].0,
            ),
    ensures
        order.contains(tasks[at].id),
{
    assert(has_devices(
        resources.capacity.gpus,
        resources.used_gpus,
        tasks[at].resources.gpu_labels,
        tasks[at].resources.gpu_count as nat,
    ));
    lemma_is_left(tasks[at].resources, resources);
    super::fair_fifo::law_startable_tasks_are_candidates(order, tasks, limit, resources, at);
}

/// What an engine would reserve right now is a candidate while nothing starves.
pub proof fn law_reservable_tasks_are_candidates(
    engine: EngineModel,
    order: Seq<TaskId>,
    tasks: Seq<QueuedModel>,
    limit: u32,
    at: int,
)
    requires
        is_fair_order(order, tasks, limit, engine.snapshot()),
        forall|k: int| 0 <= k < tasks.len() ==> (#[trigger] tasks[k]).bypasses < limit,
        0 <= at < tasks.len(),
        engine.prepare_error(tasks[at].resources) is None,
    ensures
        order.contains(tasks[at].id),
{
    let demand = tasks[at].resources;
    assert forall|k: int| 0 <= k < demand.custom.len() && (#[trigger] demand.custom[k]).1
        > 0 implies amount(engine.custom, demand.custom[k].0) + demand.custom[k].1 <= amount(
        engine.capacity.custom,
        demand.custom[k].0,
    ) by {}
    assert(likely_fits(demand, engine.snapshot()));
    super::fair_fifo::law_startable_tasks_are_candidates(
        order,
        tasks,
        limit,
        engine.snapshot(),
        at,
    );
}

/// A starved task is the only candidate, the first of them if there are several.
pub proof fn law_the_first_starved_task_comes_alone(
    order: Seq<TaskId>,
    tasks: Seq<QueuedModel>,
    limit: u32,
    resources: SnapshotModel,
    at: int,
)
    requires
        is_fair_order(order, tasks, limit, resources),
        0 <= at < tasks.len(),
        tasks[at].bypasses >= limit,
        forall|k: int| 0 <= k < at ==> (#[trigger] tasks[k]).bypasses < limit,
    ensures
        order.len() == 1,
        order[0] == tasks[at].id,
{
    assert(first_starved(tasks, limit, at));
    let x = choose|x: int| first_starved(tasks, limit, x) && order == seq![tasks[x].id];
    if x < at {
        assert(tasks[x].bypasses < limit);
    } else if at < x {
        assert(tasks[at].bypasses < limit);
    }
}

/// A cycle inspects the first tasks of the queue, as many as its budget says and
/// at least one.
pub proof fn law_cycles_inspect_the_front(tasks: Seq<QueuedModel>, scan_budget: usize, i: int)
    requires
        0 <= i < tasks.len(),
    ensures
        i < inspected(tasks, scan_budget).len() <==> i < scan_budget || i == 0,
        i < inspected(tasks, scan_budget).len() ==> inspected(tasks, scan_budget)[i] == tasks[i],
        inspected(tasks, scan_budget).len() <= tasks.len(),
{
}

/// A device carries the wanted labels exactly when it lists each of them.
pub proof fn law_labels_are_listed(labels: Seq<Seq<char>>, wanted: Seq<Seq<char>>)
    ensures
        has_labels(labels, wanted) <==> wanted.to_set().subset_of(labels.to_set()),
{
    if has_labels(labels, wanted) {
        assert forall|label: Seq<char>| wanted.to_set().contains(
            label,
        ) implies labels.to_set().contains(label) by {
            let w = choose|w: int| 0 <= w < wanted.len() && wanted[w] == label;
            assert(labels.contains(wanted[w]));
        }
    }
    if wanted.to_set().subset_of(labels.to_set()) {
        assert forall|w: int| 0 <= w < wanted.len() implies labels.contains(#[trigger] wanted[w]) by {
            assert(wanted.to_set().contains(wanted[w]));
        }
    }
}

/// The fair policy looks at the front of the queue, as far as the budget goes and
/// at one task at least. The first task there that was bypassed too often comes
/// alone; while there is none, what fits now comes first and then what can never
/// run, each in queue order.
pub proof fn law_the_fair_policy_orders_candidates(
    policy: FairFifoPolicy,
    queue: QueueSnapshot,
    resources: ResourceSnapshot,
    order: Vec<TaskId>,
    count: int,
)
    requires
        call_ensures(FairFifoPolicy::order, (&policy, &queue, &resources), order),
        count == vstd::math::min(
            queue.tasks@.len() as int,
            vstd::math::max(queue.scan_budget as int, 1),
        ),
    ensures
        ({
            let front = queue.tasks@.take(count).map_values(|t: QueuedTask| t@);
            &&& (forall|k: int|
                0 <= k < front.len() ==> (#[trigger] front[k]).bypasses < policy.max_bypasses)
                ==> order@ == front.filter(
                |t: QueuedModel| is_left(t.resources, resources@),
            ).map_values(|t: QueuedModel| t.id) + front.filter(
                |t: QueuedModel| !could_hold(t.resources, resources@.capacity),
            ).map_values(|t: QueuedModel| t.id)
            &&& forall|at: int|
                0 <= at < front.len() && (#[trigger] front[at]).bypasses >= policy.max_bypasses && (
                forall|k: int|
                    0 <= k < at ==> (#[trigger] front[k]).bypasses < policy.max_bypasses)
                    ==> order@ == seq![front[at].id]
        }),
{
    let front = queue.tasks@.take(count).map_values(|t: QueuedTask| t@);
    let seen = inspected(super::fair_fifo::queued_models(queue.tasks@), queue.scan_budget);
    assert(seen =~= front);
    if forall|k: int| 0 <= k < front.len() ==> (#[trigger] front[k]).bypasses < policy.max_bypasses {
        law_open_queues_are_ordered_by_fit(order@, front, policy.max_bypasses, resources@);
    }
    assert forall|at: int|
        0 <= at < front.len() && (#[trigger] front[at]).bypasses >= policy.max_bypasses && (forall|
            k: int,
        |
            0 <= k < at ==> (#[trigger] front[k]).bypasses < policy.max_bypasses) implies order@
        == seq![front[at].id] by {
        law_the_first_starved_task_comes_alone(
            order@,
            front,
            policy.max_bypasses,
            resources@,
            at,
        );
        assert(order@ =~= seq![front[at].id]);
    }
}

/// The fair policy lets a task be bypassed as often as it is told, and 8 times
/// unless told otherwise.
pub proof fn law_fair_policies_bound_bypasses(
    max_bypasses: u32,
    policy: FairFifoPolicy,
    standard: FairFifoPolicy,
)
    requires
        call_ensures(FairFifoPolicy::new, (max_bypasses,), policy),
        call_ensures(FairFifoPolicy::default, (), standard),
    ensures
        policy.max_bypasses == max_bypasses,
        standard.max_bypasses == 8,
{
}

} // verus!
