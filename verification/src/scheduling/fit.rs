//! Whether resource demands fit a capacity or what is left of it.

use vstd::prelude::*;

use crate::model::name_map::lemma_lookup_at;
use crate::model::name_map::lookup;
use crate::model::name_map::sorted_names;
use crate::model::name_map::NameMap;
use crate::model::resource::CapacityModel;
use crate::model::resource::DemandModel;
use crate::model::resource::SnapshotModel;
use crate::model::ResourceCapacity;
use crate::model::ResourceRequest;
use crate::model::ResourceSnapshot;
use crate::text::contains_text;
use crate::text::texts;

verus! {

/// Whether a device carries every wanted label.
pub open spec fn has_labels(labels: Seq<Seq<char>>, wanted: Seq<Seq<char>>) -> bool {
    forall|i: int| 0 <= i < wanted.len() ==> labels.contains(#[trigger] wanted[i])
}

/// Whether a device carries the wanted labels and is not in use.
pub open spec fn is_free(
    device: (Seq<char>, Seq<Seq<char>>),
    wanted: Seq<Seq<char>>,
    used: Seq<Seq<char>>,
) -> bool {
    !used.contains(device.0) && has_labels(device.1, wanted)
}

/// Names of the devices, in name order, that carry the wanted labels and are
/// not in use.
pub open spec fn free_devices(
    devices: Seq<(Seq<char>, Seq<Seq<char>>)>,
    wanted: Seq<Seq<char>>,
    used: Seq<Seq<char>>,
) -> Seq<Seq<char>>
    decreases devices.len(),
{
    if devices.len() == 0 {
        Seq::empty()
    } else {
        let before = free_devices(devices.drop_last(), wanted, used);
        if is_free(devices.last(), wanted, used) {
            before.push(devices.last().0)
        } else {
            before
        }
    }
}

/// The amount stored under a name, zero when there is none.
pub open spec fn amount(amounts: Seq<(Seq<char>, u64)>, name: Seq<char>) -> nat {
    match lookup(amounts, name) {
        Some(value) => value as nat,
        None => 0,
    }
}

/// Whether every named demand is known and within its limit.
pub open spec fn custom_within(
    demand: Seq<(Seq<char>, u64)>,
    limits: Seq<(Seq<char>, u64)>,
) -> bool {
    forall|i: int|
        0 <= i < demand.len() ==> lookup(limits, (#[trigger] demand[i]).0) is Some && demand[i].1
            <= amount(limits, demand[i].0)
}

/// Whether every named demand fits what is left of its limit.
pub open spec fn custom_left(
    demand: Seq<(Seq<char>, u64)>,
    limits: Seq<(Seq<char>, u64)>,
    used: Seq<(Seq<char>, u64)>,
) -> bool {
    forall|i: int|
        0 <= i < demand.len() ==> (#[trigger] demand[i]).1 <= amount(limits, demand[i].0) - amount(
            used,
            demand[i].0,
        ) || demand[i].1 == 0
}

/// Whether a capacity can ever satisfy a demand.
pub open spec fn fits_capacity(demand: DemandModel, capacity: CapacityModel) -> bool {
    &&& demand.cpu_slots <= capacity.cpu_slots
    &&& demand.gpu_count <= free_devices(capacity.gpus, demand.gpu_labels, Seq::empty()).len()
    &&& custom_within(demand.custom, capacity.custom)
}

/// Whether what is left of a capacity looks sufficient for a demand.
pub open spec fn likely_fits(demand: DemandModel, resources: SnapshotModel) -> bool {
    &&& demand.cpu_slots == 0 || demand.cpu_slots <= resources.capacity.cpu_slots
        - resources.used_cpu_slots
    &&& demand.gpu_count <= free_devices(
        resources.capacity.gpus,
        demand.gpu_labels,
        resources.used_gpus,
    ).len()
    &&& custom_left(demand.custom, resources.capacity.custom, resources.used_custom)
}

/// Whether `labels` hold every wanted label.
pub fn all_labels(labels: &Vec<String>, wanted: &Vec<String>) -> (all: bool)
    ensures
        all == has_labels(texts(labels@), texts(wanted@)),
{
    let mut i: usize = 0;
    while i < wanted.len()
        invariant
            i <= wanted@.len(),
            forall|k: int| 0 <= k < i ==> texts(labels@).contains(#[trigger] texts(wanted@)[k]),
        decreases wanted@.len() - i,
    {
        if !contains_text(labels, wanted[i].as_str()) {
            proof {
                assert(!texts(labels@).contains(texts(wanted@)[i as int]));
            }
            return false;
        }
        i = i + 1;
    }
    true
}

/// Lists the first `limit` devices, in name order, that carry the wanted labels
/// and are not in use.
pub fn find_devices(
    devices: &NameMap<Vec<String>>,
    wanted: &Vec<String>,
    used: &Vec<String>,
    limit: usize,
) -> (found: Vec<String>)
    ensures
        texts(found@) == free_devices(devices@, texts(wanted@), texts(used@)).take(
            found@.len() as int,
        ),
        found@.len() <= limit,
        found@.len() < limit ==> found@.len() == free_devices(
            devices@,
            texts(wanted@),
            texts(used@),
        ).len(),
        found@.len() <= free_devices(devices@, texts(wanted@), texts(used@)).len(),
{
    let ghost w = texts(wanted@);
    let ghost u = texts(used@);
    let mut found: Vec<String> = Vec::new();
    let mut i: usize = 0;
    proof {
        assert(devices@.take(0) =~= Seq::<(Seq<char>, Seq<Seq<char>>)>::empty());
        assert(texts(found@) =~= Seq::<Seq<char>>::empty());
    }
    while i < devices.len() && found.len() < limit
        invariant
            i <= devices@.len(),
            w == texts(wanted@),
            u == texts(used@),
            found@.len() <= limit,
            texts(found@) == free_devices(devices@.take(i as int), w, u),
        decreases devices@.len() - i,
    {
        proof {
            assert(devices@.take(i + 1).drop_last() =~= devices@.take(i as int));
            assert(devices@.take(i + 1).last() == devices@[i as int]);
        }
        if !contains_text(used, devices.name_at(i)) && all_labels(devices.value_at(i), wanted) {
            let ghost before = found@;
            found.push(devices.name_at(i).to_owned());
            proof {
                assert(texts(found@) =~= texts(before).push(devices@[i as int].0));
            }
        }
        i = i + 1;
    }
    proof {
        assert(texts(found@).len() == found@.len());
        lemma_free_prefix(devices@, i as int, w, u);
        assert(devices@.take(devices@.len() as int) =~= devices@);
        if i == devices@.len() {
            assert(texts(found@) =~= free_devices(devices@, w, u).take(found@.len() as int));
        }
    }
    found
}

/// The free devices of a prefix are a prefix of the free devices.
proof fn lemma_free_prefix(
    devices: Seq<(Seq<char>, Seq<Seq<char>>)>,
    n: int,
    wanted: Seq<Seq<char>>,
    used: Seq<Seq<char>>,
)
    requires
        0 <= n <= devices.len(),
    ensures
        free_devices(devices.take(n), wanted, used).len() <= free_devices(
            devices,
            wanted,
            used,
        ).len(),
        free_devices(devices.take(n), wanted, used) == free_devices(devices, wanted, used).take(
            free_devices(devices.take(n), wanted, used).len() as int,
        ),
    decreases devices.len(),
{
    let part = free_devices(devices.take(n), wanted, used);
    let whole = free_devices(devices, wanted, used);
    if n == devices.len() {
        assert(devices.take(n) =~= devices);
        assert(whole.take(whole.len() as int) =~= whole);
    } else {
        lemma_free_prefix(devices.drop_last(), n, wanted, used);
        assert(devices.drop_last().take(n) =~= devices.take(n));
        let inner = free_devices(devices.drop_last(), wanted, used);
        assert(whole.take(part.len() as int) =~= inner.take(part.len() as int));
    }
}

/// Free devices are devices with the wanted labels, not in use.
pub proof fn lemma_free_devices(
    devices: Seq<(Seq<char>, Seq<Seq<char>>)>,
    wanted: Seq<Seq<char>>,
    used: Seq<Seq<char>>,
)
    requires
        sorted_names(devices),
    ensures
        forall|i: int|
            0 <= i < free_devices(devices, wanted, used).len() ==> !used.contains(
                #[trigger] free_devices(devices, wanted, used)[i],
            ) && lookup(devices, free_devices(devices, wanted, used)[i]) is Some && has_labels(
                lookup(devices, free_devices(devices, wanted, used)[i])->0,
                wanted,
            ),
        free_devices(devices, wanted, used).no_duplicates(),
    decreases devices.len(),
{
    if devices.len() > 0 {
        let shorter = devices.drop_last();
        assert forall|i: int, j: int| 0 <= i < j < shorter.len() implies crate::text::text_lt(
            #[trigger] shorter[i].0,
            #[trigger] shorter[j].0,
        ) by {
            assert(crate::text::text_lt(devices[i].0, devices[j].0));
        }
        lemma_free_devices(shorter, wanted, used);
        let inner = free_devices(shorter, wanted, used);
        let whole = free_devices(devices, wanted, used);
        lemma_lookup_at(devices, devices.len() - 1);
        assert forall|i: int| 0 <= i < inner.len() implies lookup(devices, #[trigger] inner[i])
            == lookup(shorter, inner[i]) && inner[i] != devices.last().0 by {
            let k = choose|k: int| 0 <= k < shorter.len() && #[trigger] shorter[k].0 == inner[i];
            assert(lookup(shorter, inner[i]) is Some);
            lemma_lookup_at(shorter, k);
            lemma_lookup_at(devices, k);
            assert(devices[k] == shorter[k]);
            assert(crate::text::text_lt(devices[k].0, devices[devices.len() - 1].0));
            crate::text::lemma_text_lt_irreflexive(inner[i]);
        }
        assert forall|i: int| 0 <= i < whole.len() implies !used.contains(#[trigger] whole[i])
            && lookup(devices, whole[i]) is Some && has_labels(
            lookup(devices, whole[i])->0,
            wanted,
        ) by {
            if i < inner.len() {
                assert(whole[i] == inner[i]);
                assert(lookup(devices, inner[i]) == lookup(shorter, inner[i]));
            }
        }
    }
}

/// Reads an amount, zero when there is none.
pub fn amount_of(amounts: &NameMap<u64>, name: &str) -> (value: u64)
    ensures
        value == amount(amounts@, name@),
{
    match amounts.get(name) {
        Some(value) => *value,
        None => 0,
    }
}

/// Whether a capacity can ever satisfy a demand.
pub fn can_fit_capacity(request: &ResourceRequest, capacity: &ResourceCapacity) -> (fits: bool)
    ensures
        fits == fits_capacity(request@, capacity@),
{
    if request.cpu_slots > capacity.cpu_slots {
        return false;
    }
    let nothing: Vec<String> = Vec::new();
    proof {
        assert(texts(nothing@) =~= Seq::<Seq<char>>::empty());
    }
    let found = find_devices(
        &capacity.gpus,
        &request.gpu_labels,
        &nothing,
        request.gpu_count as usize,
    );
    if found.len() < request.gpu_count as usize {
        return false;
    }
    let mut i: usize = 0;
    while i < request.custom.len()
        invariant
            i <= request.custom@.len(),
            forall|k: int|
                0 <= k < i ==> lookup(capacity.custom@, (#[trigger] request.custom@[k]).0) is Some
                    && request.custom@[k].1 <= amount(capacity.custom@, request.custom@[k].0),
        decreases request.custom@.len() - i,
    {
        match capacity.custom.get(request.custom.name_at(i)) {
            Some(limit) => {
                if *request.custom.value_at(i) > *limit {
                    proof {
                        let entry = request.custom@[i as int];
                        assert(entry.1 > amount(capacity.custom@, entry.0));
                    }
                    return false;
                }
            },
            None => {
                proof {
                    let entry = request.custom@[i as int];
                    assert(lookup(capacity.custom@, entry.0) is None);
                }
                return false;
            },
        }
        i = i + 1;
    }
    true
}

/// Whether what is left of a capacity looks sufficient for a demand.
pub fn fits_now(request: &ResourceRequest, resources: &ResourceSnapshot) -> (fits: bool)
    ensures
        fits == likely_fits(request@, resources@),
{
    let left: u32 = if resources.capacity.cpu_slots > resources.used_cpu_slots {
        resources.capacity.cpu_slots - resources.used_cpu_slots
    } else {
        0
    };
    if request.cpu_slots > left {
        return false;
    }
    let found = find_devices(
        &resources.capacity.gpus,
        &request.gpu_labels,
        &resources.used_gpus,
        request.gpu_count as usize,
    );
    if found.len() < request.gpu_count as usize {
        return false;
    }
    let mut i: usize = 0;
    while i < request.custom.len()
        invariant
            i <= request.custom@.len(),
            forall|k: int|
                0 <= k < i ==> (#[trigger] request.custom@[k]).1 <= amount(
                    resources.capacity.custom@,
                    request.custom@[k].0,
                ) - amount(resources.used_custom@, request.custom@[k].0)
                    || request.custom@[k].1 == 0,
        decreases request.custom@.len() - i,
    {
        let limit = amount_of(&resources.capacity.custom, request.custom.name_at(i));
        let used = amount_of(&resources.used_custom, request.custom.name_at(i));
        let wanted = *request.custom.value_at(i);
        let free: u64 = if limit > used {
            limit - used
        } else {
            0
        };
        if wanted > free {
            proof {
                let entry = request.custom@[i as int];
                assert(entry.1 == wanted);
            }
            return false;
        }
        i = i + 1;
    }
    true
}

} // verus!
