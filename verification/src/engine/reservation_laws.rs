//! What reservations take and give back, told of slots, devices and amounts.

use vstd::prelude::*;

use super::local::prepare_post;
use super::local::release_post;
use super::local::still_used;
use super::local::EngineModel;
use super::local::LocalTaskExecutionEngine;
use super::EngineError;
use super::PreparedExecution;
use crate::model::name_map::lookup;
use crate::model::resource::DemandModel;
use crate::model::ResourceCapacity;
use crate::model::ResourceSnapshot;
use crate::model::TaskId;
use crate::scheduling::fit::amount;
use crate::scheduling::fit::free_devices;
use crate::scheduling::fit::is_free;
use crate::scheduling::fit_laws::could_hold;
use crate::scheduling::fit_laws::has_devices;
use crate::scheduling::fit_laws::lemma_could_hold;
use crate::scheduling::fit_laws::lemma_has_devices;

verus! {

/// Whether an engine has this much left at the moment.
pub open spec fn can_spare(engine: EngineModel, demand: DemandModel) -> bool {
    &&& engine.cpu + demand.cpu_slots <= engine.capacity.cpu_slots
    &&& has_devices(
        engine.capacity.gpus,
        engine.gpus,
        demand.gpu_labels,
        demand.gpu_count as nat,
    )
    &&& forall|i: int|
        0 <= i < demand.custom.len() ==> amount(engine.custom, (#[trigger] demand.custom[i]).0)
            + demand.custom[i].1 <= amount(engine.capacity.custom, demand.custom[i].0)
}

/// A reservation succeeds exactly when the engine could hold the demand at all and
/// can spare it now. A demand beyond the capacity can never be satisfied; one that
/// is not left at the moment is unavailable for the time being; and a refusal
/// changes nothing.
pub proof fn law_reservations_succeed_when_resources_are_left(
    before: EngineModel,
    after: EngineModel,
    id: TaskId,
    demand: DemandModel,
    result: Result<PreparedExecution<u64>, EngineError>,
)
    requires
        prepare_post(before, after, id, demand, result),
    ensures
        result is Ok <==> could_hold(demand, before.capacity) && can_spare(before, demand),
        !could_hold(demand, before.capacity) ==> result == Err::<PreparedExecution<u64>, _>(
            EngineError::Unsatisfiable,
        ),
        could_hold(demand, before.capacity) && !can_spare(before, demand) ==> result == Err::<
            PreparedExecution<u64>,
            _,
        >(EngineError::TemporarilyUnavailable),
        result is Err ==> after == before,
{
    lemma_could_hold(demand, before.capacity);
    lemma_has_devices(
        before.capacity.gpus,
        before.gpus,
        demand.gpu_labels,
        demand.gpu_count as nat,
    );
}

/// Names of the devices that are not in use and carry every wanted label, in name
/// order.
pub open spec fn free_names(engine: EngineModel, wanted: Seq<Seq<char>>) -> Seq<Seq<char>> {
    engine.capacity.gpus.filter(
        |device: (Seq<char>, Seq<Seq<char>>)|
            !engine.gpus.contains(device.0) && forall|w: int|
                0 <= w < wanted.len() ==> device.1.contains(#[trigger] wanted[w]),
    ).map_values(|device: (Seq<char>, Seq<Seq<char>>)| device.0)
}

proof fn lemma_free_names(
    devices: Seq<(Seq<char>, Seq<Seq<char>>)>,
    wanted: Seq<Seq<char>>,
    used: Seq<Seq<char>>,
    keep: spec_fn((Seq<char>, Seq<Seq<char>>)) -> bool,
)
    requires
        forall|d: (Seq<char>, Seq<Seq<char>>)| #[trigger] keep(d) == is_free(d, wanted, used),
    ensures
        free_devices(devices, wanted, used) == devices.filter(keep).map_values(
            |device: (Seq<char>, Seq<Seq<char>>)| device.0,
        ),
    decreases devices.len(),
{
    reveal(Seq::filter);
    let name = |device: (Seq<char>, Seq<Seq<char>>)| device.0;
    if devices.len() > 0 {
        let shorter = devices.drop_last();
        lemma_free_names(shorter, wanted, used, keep);
        let kept = shorter.filter(keep);
        if keep(devices.last()) {
            assert(devices.filter(keep) == kept.push(devices.last()));
            assert(kept.push(devices.last()).map_values(name) =~= kept.map_values(name).push(
                devices.last().0,
            ));
        }
    }
    assert(free_devices(devices, wanted, used) =~= devices.filter(keep).map_values(name));
}

/// A reservation is made under a new token, for the task that asked, and takes
/// what it asked for: its CPU slots, the first of the free devices with the wanted
/// labels, and every amount that it names. Other reservations stay.
pub proof fn law_reservations_take_what_they_ask_for(
    before: EngineModel,
    after: EngineModel,
    id: TaskId,
    demand: DemandModel,
    prepared: PreparedExecution<u64>,
    name: Seq<char>,
)
    requires
        before.valid(),
        prepare_post(before, after, id, demand, Ok(prepared)),
    ensures
        prepared@.id == id,
        prepared@.release matches Some(token) && {
            &&& !before.allocations.contains_key(token)
            &&& after.allocations.remove(token) == before.allocations
            &&& after.allocations.contains_key(token)
            &&& after.allocations[token].cpu == demand.cpu_slots
            &&& after.allocations[token].gpus == prepared@.assigned
            &&& after.allocations[token].custom == demand.custom
            &&& token < after.next_token
        },
        prepared@.assigned.len() == demand.gpu_count,
        prepared@.assigned.is_prefix_of(free_names(before, demand.gpu_labels)),
        after.cpu == before.cpu + demand.cpu_slots,
        before.gpus.is_prefix_of(after.gpus),
        after.gpus.len() == before.gpus.len() + demand.gpu_count,
        forall|gpu: Seq<char>| #[trigger]
            after.gpus.contains(gpu) <==> before.gpus.contains(gpu) || prepared@.assigned.contains(
                gpu,
            ),
        amount(after.custom, name) == amount(before.custom, name) + amount(demand.custom, name),
        after.capacity == before.capacity,
{
    let wanted = demand.gpu_labels;
    let keep = |device: (Seq<char>, Seq<Seq<char>>)|
        !before.gpus.contains(device.0) && forall|w: int|
            0 <= w < wanted.len() ==> device.1.contains(#[trigger] wanted[w]);
    lemma_free_names(before.capacity.gpus, wanted, before.gpus, keep);
    assert(free_names(before, wanted) == free_devices(before.capacity.gpus, wanted, before.gpus));
    if before.allocations.contains_key(before.next_token) {
        assert(before.next_token < before.next_token);
    }
    assert(after.allocations.remove(before.next_token) =~= before.allocations);
    assert(before.gpus =~= after.gpus.take(before.gpus.len() as int));
    let added = prepared@.assigned;
    assert forall|gpu: Seq<char>| #[trigger]
        after.gpus.contains(gpu) <==> before.gpus.contains(gpu) || added.contains(gpu) by {
        if before.gpus.contains(gpu) {
            let i = choose|i: int| 0 <= i < before.gpus.len() && before.gpus[i] == gpu;
            assert(after.gpus[i] == gpu);
        }
        if added.contains(gpu) {
            let i = choose|i: int| 0 <= i < added.len() && added[i] == gpu;
            assert(after.gpus[before.gpus.len() + i] == gpu);
        }
        if after.gpus.contains(gpu) {
            let i = choose|i: int| 0 <= i < after.gpus.len() && after.gpus[i] == gpu;
            if i < before.gpus.len() {
                assert(before.gpus[i] == gpu);
            } else {
                assert(added[i - before.gpus.len()] == gpu);
            }
        }
    }
    assert(lookup(after.custom, name) == match lookup(demand.custom, name) {
        Some(value) => Some((amount(before.custom, name) + value) as u64),
        None => lookup(before.custom, name),
    });
    if lookup(demand.custom, name) is Some {
        let i = choose|i: int|
            0 <= i < demand.custom.len() && #[trigger] demand.custom[i].0 == name;
        assert(demand.custom[i].0 == name);
        assert(amount(before.custom, demand.custom[i].0) + demand.custom[i].1 <= amount(
            before.capacity.custom,
            demand.custom[i].0,
        ));
    }
}

proof fn lemma_still_used_filters(used: Seq<Seq<char>>, returned: Seq<Seq<char>>)
    ensures
        still_used(used, returned) == used.filter(|gpu: Seq<char>| !returned.contains(gpu)),
    decreases used.len(),
{
    reveal(Seq::filter);
    if used.len() > 0 {
        lemma_still_used_filters(used.drop_last(), returned);
    }
}

/// Giving a reservation back frees its CPU slots, its devices and its amounts, and
/// leaves the other reservations alone; a token that holds nothing, as one that
/// was given back already, does nothing.
pub proof fn law_releases_give_back_what_was_taken(
    before: EngineModel,
    after: EngineModel,
    token: u64,
    name: Seq<char>,
)
    requires
        before.valid(),
        release_post(before, after, token),
    ensures
        !before.allocations.contains_key(token) ==> after == before,
        before.allocations.contains_key(token) ==> {
            let given = before.allocations[token];
            &&& after.cpu + given.cpu == before.cpu
            &&& after.gpus == before.gpus.filter(|gpu: Seq<char>| !given.gpus.contains(gpu))
            &&& amount(after.custom, name) + amount(given.custom, name) == amount(
                before.custom,
                name,
            )
            &&& after.capacity == before.capacity
            &&& after.next_token == before.next_token
        },
        !after.allocations.contains_key(token),
        after.allocations == before.allocations.remove(token),
{
    if before.allocations.contains_key(token) {
        let given = before.allocations[token];
        lemma_still_used_filters(before.gpus, given.gpus);
        crate::totals::lemma_total_remove(
            before.allocations,
            token,
            super::local::custom_weight(name),
        );
        assert(amount(before.custom, name) == before.held(name));
        assert(amount(given.custom, name) <= amount(before.custom, name));
        assert(lookup(after.custom, name) == match (
            lookup(given.custom, name),
            lookup(before.custom, name),
        ) {
            (Some(value), Some(used)) => if used <= value {
                None
            } else {
                Some((used - value) as u64)
            },
            _ => lookup(before.custom, name),
        });
    } else {
        assert(before.allocations.remove(token) =~= before.allocations);
    }
}

/// A new engine has nothing in use, and an engine reports its capacity and what
/// is in use.
pub proof fn law_engines_report_what_is_in_use(
    capacity: ResourceCapacity,
    fresh: LocalTaskExecutionEngine,
    engine: LocalTaskExecutionEngine,
    report: ResourceSnapshot,
)
    requires
        call_ensures(LocalTaskExecutionEngine::new, (capacity,), fresh),
        call_ensures(LocalTaskExecutionEngine::capacity, (&engine,), report),
    ensures
        fresh@.capacity == capacity@,
        fresh@.cpu == 0,
        fresh@.gpus.len() == 0,
        fresh@.custom.len() == 0,
        fresh@.allocations.dom() == Set::<u64>::empty(),
        report@.capacity == engine@.capacity,
        report@.used_cpu_slots == engine@.cpu,
        report@.used_gpus == engine@.gpus,
        report@.used_custom == engine@.custom,
{
}

/// What engine errors say.
pub proof fn law_engine_errors_are_described(error: EngineError, text: String)
    requires
        call_ensures(EngineError::message, (&error,), text),
    ensures
        error is TemporarilyUnavailable ==> text@
            == "requested resources are temporarily unavailable"@,
        error is Unsatisfiable ==> text@
            == "requested resources cannot be satisfied by this engine"@,
        error is Closed ==> text@ == "task execution engine is shut down"@,
{
}

} // verus!
