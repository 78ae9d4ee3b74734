//! How names are ordered and found, and how identifiers and demands are written.

use vstd::prelude::*;
use vstd::utf8::encode_utf8;

use super::id_order::law_id_text_keeps_id_order;
use super::name_map::lemma_lookup_at;
use super::name_map::lookup;
use super::name_map::sorted_names;
use super::name_map::NameMap;
use super::name_map::Value;
use super::task_id::hex_digit_at;
use super::task_id::text_position;
use super::ResourceCapacity;
use super::ResourceRequest;
use super::TaskId;
use crate::text_laws::lemma_text_parts;
use crate::text_laws::parts_at;

verus! {

/// Whether one text precedes another at the first byte where they part.
pub open spec fn comes_before(a: Seq<char>, b: Seq<char>) -> bool {
    exists|n: int| parts_at(encode_utf8(a), encode_utf8(b), n)
}

/// Names are in order exactly when each one precedes every later one at the first
/// byte where they part.
pub proof fn law_names_are_in_text_order<M>(entries: Seq<(Seq<char>, M)>)
    ensures
        sorted_names(entries) <==> forall|i: int, j: int|
            0 <= i < j < entries.len() ==> comes_before(
                (#[trigger] entries[i]).0,
                (#[trigger] entries[j]).0,
            ),
{
    assert forall|i: int, j: int| 0 <= i < j < entries.len() implies (comes_before(
        (#[trigger] entries[i]).0,
        (#[trigger] entries[j]).0,
    ) <==> crate::text::text_lt(entries[i].0, entries[j].0)) by {
        lemma_text_parts(entries[i].0, entries[j].0);
    }
}

/// A name finds a value exactly when the two stand together in an entry.
pub proof fn law_names_find_their_value<M>(
    entries: Seq<(Seq<char>, M)>,
    name: Seq<char>,
    value: M,
)
    requires
        sorted_names(entries),
    ensures
        lookup(entries, name) == Some(value) <==> entries.contains((name, value)),
        lookup(entries, name) is None <==> forall|i: int|
            0 <= i < entries.len() ==> (#[trigger] entries[i]).0 != name,
{
    if entries.contains((name, value)) {
        let i = choose|i: int| 0 <= i < entries.len() && entries[i] == (name, value);
        lemma_lookup_at(entries, i);
        assert(entries[i].0 == name);
    }
    if lookup(entries, name) is Some {
        let i = choose|i: int| 0 <= i < entries.len() && #[trigger] entries[i].0 == name;
        assert(entries[i].0 == name);
        lemma_lookup_at(entries, i);
        assert(entries[i] == (name, entries[i].1));
    }
}

/// A map of names shows what is in it: a name finds its value, positions are in
/// name order, and two maps are the same when they show the same.
pub proof fn law_maps_show_their_entries<V: Value>(
    map: NameMap<V>,
    other: NameMap<V>,
    fresh: NameMap<V>,
    name: &str,
    found: Option<&V>,
    len: usize,
    index: usize,
    shown: &str,
    value: &V,
    same: bool,
)
    requires
        index < map@.len(),
        call_ensures(NameMap::<V>::new, (), fresh),
        call_ensures(NameMap::<V>::get, (&map, name), found),
        call_ensures(NameMap::<V>::len, (&map,), len),
        call_ensures(NameMap::<V>::name_at, (&map, index), shown),
        call_ensures(NameMap::<V>::value_at, (&map, index), value),
        call_ensures(NameMap::<V>::same_map, (&map, &other), same),
    ensures
        fresh@.len() == 0,
        len == map@.len(),
        map@[index as int] == (shown@, value.model()),
        found matches Some(v) ==> map@.contains((name@, v.model())),
        found is None ==> forall|i: int|
            0 <= i < map@.len() ==> (#[trigger] map@[i]).0 != name@,
        same <==> map@.len() == other@.len() && forall|i: int|
            0 <= i < map@.len() ==> #[trigger] map@[i] == other@[i],
{
    assert(sorted_names(map@));
    if let Some(v) = found {
        law_names_find_their_value(map@, name@, v.model());
    }
    if found is None {
        assert forall|i: int| 0 <= i < map@.len() implies (#[trigger] map@[i]).0 != name@ by {
            lemma_lookup_at(map@, i);
        }
    }
    if map@.len() == other@.len() && forall|i: int|
        0 <= i < map@.len() ==> #[trigger] map@[i] == other@[i] {
        assert(map@ =~= other@);
    }
}

/// An identifier is written with 36 characters: hexadecimal digits in lower case,
/// in groups of 8, 4, 4, 4 and 12 between hyphens. Smaller identifiers are written
/// as smaller texts.
pub proof fn law_ids_are_written_in_groups(id: TaskId, text: String, other: TaskId, later: String)
    requires
        call_ensures(TaskId::text, (&id,), text),
        call_ensures(TaskId::text, (&other,), later),
    ensures
        text@.len() == 36,
        forall|i: int|
            0 <= i < 36 ==> (#[trigger] text@[i] == '-' <==> i == 8 || i == 13 || i == 18 || i
                == 23),
        forall|i: int|
            0 <= i < 36 && #[trigger] text@[i] != '-' ==> '0' <= text@[i] <= '9' || 'a' <= text@[i]
                <= 'f',
        id.0 < other.0 <==> comes_before(text@, later@),
{
    law_id_text_keeps_id_order(id, other);
    lemma_text_parts(text@, later@);
    assert forall|i: int| 0 <= i < 36 implies (#[trigger] text@[i] == '-' <==> i == 8 || i == 13
        || i == 18 || i == 23) && (text@[i] != '-' ==> '0' <= text@[i] <= '9' || 'a' <= text@[i]
        <= 'f') by {
        if !(i == 8 || i == 13 || i == 18 || i == 23) {
            let digit = hex_digit_at(id.0, text_position(i));
            assert(digit < 16);
        }
    }
}

/// A demand asks for nothing unless told otherwise, and a capacity has nothing.
pub proof fn law_default_resources_are_nothing(
    demand: ResourceRequest,
    capacity: ResourceCapacity,
)
    requires
        call_ensures(ResourceRequest::default, (), demand),
        call_ensures(ResourceCapacity::default, (), capacity),
    ensures
        demand.cpu_slots == 0 && demand.gpu_count == 0,
        demand.gpu_labels@.len() == 0 && demand.custom@.len() == 0,
        capacity.cpu_slots == 0 && capacity.gpus@.len() == 0 && capacity.custom@.len() == 0,
{
    assert(demand@.gpu_labels.len() == demand.gpu_labels@.len());
}

/// Demands are the same when they agree in CPU slots, devices, labels and amounts.
pub proof fn law_same_demands_agree(a: ResourceRequest, b: ResourceRequest, same: bool)
    requires
        call_ensures(ResourceRequest::same, (&a, &b), same),
    ensures
        same <==> {
            &&& a.cpu_slots == b.cpu_slots
            &&& a.gpu_count == b.gpu_count
            &&& a.gpu_labels@.len() == b.gpu_labels@.len()
            &&& forall|i: int|
                0 <= i < a.gpu_labels@.len() ==> (#[trigger] a.gpu_labels@[i])@
                    == b.gpu_labels@[i]@
            &&& a.custom@ == b.custom@
        },
{
    let left = a@.gpu_labels;
    let right = b@.gpu_labels;
    assert(left.len() == a.gpu_labels@.len() && right.len() == b.gpu_labels@.len());
    if same {
        assert forall|i: int| 0 <= i < a.gpu_labels@.len() implies (#[trigger] a.gpu_labels@[i])@
            == b.gpu_labels@[i]@ by {
            assert(left[i] == right[i]);
        }
    } else if left.len() == right.len() && forall|i: int|
        0 <= i < a.gpu_labels@.len() ==> (#[trigger] a.gpu_labels@[i])@ == b.gpu_labels@[i]@ {
        assert forall|i: int| 0 <= i < left.len() implies left[i] == right[i] by {
            assert(a.gpu_labels@[i]@ == b.gpu_labels@[i]@);
        }
        assert(left =~= right);
    }
}

} // verus!
