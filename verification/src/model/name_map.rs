//! Values found by name and kept in name order.

use vstd::prelude::*;

use crate::text::copy_texts;
use crate::text::lemma_text_lt_irreflexive;
use crate::text::lemma_text_lt_total;
use crate::text::lemma_text_lt_transitive;
use crate::text::same_text;
use crate::text::same_texts;
use crate::text::text_less;
use crate::text::text_lt;
use crate::text::texts;

verus! {

/// A value that can be copied and compared through its model.
pub trait Value: Sized {
    /// Mathematical content of the value.
    type Model;

    /// The content of this value.
    spec fn model(&self) -> Self::Model;

    /// Copies the value.
    fn duplicate(&self) -> (res: Self)
        ensures
            res.model() == self.model(),
    ;

    /// Compares the contents of two values.
    fn same(&self, other: &Self) -> (res: bool)
        ensures
            res == (self.model() == other.model()),
    ;
}

impl Value for u64 {
    type Model = u64;

    open spec fn model(&self) -> u64 {
        *self
    }

    fn duplicate(&self) -> (res: u64) {
        *self
    }

    fn same(&self, other: &u64) -> (res: bool) {
        *self == *other
    }
}

impl Value for u128 {
    type Model = u128;

    open spec fn model(&self) -> u128 {
        *self
    }

    fn duplicate(&self) -> (res: u128) {
        *self
    }

    fn same(&self, other: &u128) -> (res: bool) {
        *self == *other
    }
}

impl Value for String {
    type Model = Seq<char>;

    open spec fn model(&self) -> Seq<char> {
        self@
    }

    fn duplicate(&self) -> (res: String) {
        self.clone()
    }

    fn same(&self, other: &String) -> (res: bool) {
        same_text(self.as_str(), other.as_str())
    }
}

impl Value for Vec<String> {
    type Model = Seq<Seq<char>>;

    open spec fn model(&self) -> Seq<Seq<char>> {
        texts(self@)
    }

    fn duplicate(&self) -> (res: Vec<String>) {
        copy_texts(self)
    }

    fn same(&self, other: &Vec<String>) -> (res: bool) {
        same_texts(self, other)
    }
}

/// Whether the names of `entries` are strictly increasing.
pub open spec fn sorted_names<M>(entries: Seq<(Seq<char>, M)>) -> bool {
    forall|i: int, j: int|
        0 <= i < j < entries.len() ==> text_lt(#[trigger] entries[i].0, #[trigger] entries[j].0)
}

/// The value stored under `name`, if any.
pub open spec fn lookup<M>(entries: Seq<(Seq<char>, M)>, name: Seq<char>) -> Option<M> {
    if exists|i: int| 0 <= i < entries.len() && #[trigger] entries[i].0 == name {
        let i = choose|i: int| 0 <= i < entries.len() && #[trigger] entries[i].0 == name;
        Some(entries[i].1)
    } else {
        None
    }
}

/// In name order an entry is what its name is mapped to.
pub proof fn lemma_lookup_at<M>(entries: Seq<(Seq<char>, M)>, i: int)
    requires
        sorted_names(entries),
        0 <= i < entries.len(),
    ensures
        lookup(entries, entries[i].0) == Some(entries[i].1),
{
    let name = entries[i].0;
    let j = choose|j: int| 0 <= j < entries.len() && #[trigger] entries[j].0 == name;
    assert(entries[i].0 == name);
    lemma_text_lt_irreflexive(name);
}

/// A name that no entry has is mapped to nothing.
pub proof fn lemma_lookup_absent<M>(entries: Seq<(Seq<char>, M)>, name: Seq<char>)
    requires
        forall|i: int| 0 <= i < entries.len() ==> #[trigger] entries[i].0 != name,
    ensures
        lookup(entries, name) is None,
{
}

/// Two name-ordered lists that map the same names to the same values are equal.
pub proof fn law_name_order_is_canonical<M>(a: Seq<(Seq<char>, M)>, b: Seq<(Seq<char>, M)>)
    requires
        sorted_names(a),
        sorted_names(b),
        forall|name: Seq<char>| #[trigger] lookup(a, name) == lookup(b, name),
    ensures
        a == b,
    decreases a.len(),
{
    if a.len() == 0 {
        if b.len() > 0 {
            lemma_lookup_at(b, 0);
            assert(lookup(a, b[0].0) is None);
        }
        assert(a =~= b);
    } else if b.len() == 0 {
        lemma_lookup_at(a, 0);
        assert(lookup(b, a[0].0) is None);
    } else {
        let x = a.last();
        let y = b.last();
        lemma_lookup_at(a, a.len() - 1);
        lemma_lookup_at(b, b.len() - 1);
        lemma_text_lt_total(x.0, y.0);
        if x.0 != y.0 {
            if text_lt(x.0, y.0) {
                lemma_above_all_absent(a, y.0);
            } else {
                lemma_above_all_absent(b, x.0);
            }
        }
        assert(x.0 == y.0);
        assert(x == y);
        let a0 = a.drop_last();
        let b0 = b.drop_last();
        assert forall|name: Seq<char>| #[trigger] lookup(a0, name) == lookup(b0, name) by {
            lemma_lookup_drop_last(a, name);
            lemma_lookup_drop_last(b, name);
            assert(lookup(a, name) == lookup(b, name));
        }
        law_name_order_is_canonical(a0, b0);
        assert(a =~= a0.push(x));
        assert(b =~= b0.push(y));
    }
}

proof fn lemma_above_all_absent<M>(a: Seq<(Seq<char>, M)>, name: Seq<char>)
    requires
        sorted_names(a),
        a.len() > 0,
        text_lt(a.last().0, name),
    ensures
        lookup(a, name) is None,
{
    assert forall|i: int| 0 <= i < a.len() implies #[trigger] a[i].0 != name by {
        lemma_text_lt_irreflexive(name);
        if i < a.len() - 1 {
            assert(text_lt(a[i].0, a[a.len() - 1].0));
            lemma_text_lt_transitive(a[i].0, a.last().0, name);
        }
    }
    lemma_lookup_absent(a, name);
}

proof fn lemma_lookup_drop_last<M>(a: Seq<(Seq<char>, M)>, name: Seq<char>)
    requires
        sorted_names(a),
        a.len() > 0,
    ensures
        sorted_names(a.drop_last()),
        lookup(a.drop_last(), name) == if name == a.last().0 {
            None
        } else {
            lookup(a, name)
        },
{
    let a0 = a.drop_last();
    assert forall|i: int, j: int| 0 <= i < j < a0.len() implies text_lt(
        #[trigger] a0[i].0,
        #[trigger] a0[j].0,
    ) by {
        assert(text_lt(a[i].0, a[j].0));
    }
    if name == a.last().0 {
        assert forall|i: int| 0 <= i < a0.len() implies #[trigger] a0[i].0 != name by {
            assert(text_lt(a[i].0, a[a.len() - 1].0));
            lemma_text_lt_irreflexive(name);
        }
        lemma_lookup_absent(a0, name);
    } else if exists|i: int| 0 <= i < a.len() && #[trigger] a[i].0 == name {
        let i = choose|i: int| 0 <= i < a.len() && #[trigger] a[i].0 == name;
        lemma_lookup_at(a, i);
        assert(a0[i] == a[i]);
        lemma_lookup_at(a0, i);
    } else {
        lemma_lookup_absent(a, name);
        assert forall|i: int| 0 <= i < a0.len() implies #[trigger] a0[i].0 != name by {
            assert(a[i].0 != name);
        }
        lemma_lookup_absent(a0, name);
    }
}

/// A map from names to values, kept in name order without duplicates.
#[derive(Debug)]
pub struct NameMap<V> {
    entries: Vec<(String, V)>,
}

impl<V: Value> View for NameMap<V> {
    type V = Seq<(Seq<char>, V::Model)>;

    closed spec fn view(&self) -> Seq<(Seq<char>, V::Model)> {
        Seq::new(self.entries@.len(), |i: int| (self.entries@[i].0@, self.entries@[i].1.model()))
    }
}

impl<V> NameMap<V> {
    #[verifier::type_invariant]
    closed spec fn in_name_order(self) -> bool {
        forall|i: int, j: int|
            0 <= i < j < self.entries@.len() ==> text_lt(
                (#[trigger] self.entries@[i]).0@,
                (#[trigger] self.entries@[j]).0@,
            )
    }
}

impl<V: Value> NameMap<V> {
    /// Creates an empty map.
    pub fn new() -> (map: Self)
        ensures
            map@ == Seq::<(Seq<char>, V::Model)>::empty(),
            sorted_names(map@),
    {
        let map = NameMap { entries: Vec::new() };
        proof {
            assert(map@ =~= Seq::<(Seq<char>, V::Model)>::empty());
        }
        map
    }

    /// Returns the number of names.
    pub fn len(&self) -> (len: usize)
        ensures
            len == self@.len(),
            sorted_names(self@),
    {
        proof {
            use_type_invariant(self);
        }
        self.entries.len()
    }

    /// Returns the name at position `index` in name order.
    pub fn name_at(&self, index: usize) -> (name: &str)
        requires
            index < self@.len(),
        ensures
            name@ == self@[index as int].0,
    {
        self.entries[index].0.as_str()
    }

    /// Returns the value at position `index` in name order.
    pub fn value_at(&self, index: usize) -> (value: &V)
        requires
            index < self@.len(),
        ensures
            value.model() == self@[index as int].1,
    {
        &self.entries[index].1
    }

    /// Finds the first position whose name does not precede `name`.
    fn position(&self, name: &str) -> (index: usize)
        ensures
            index <= self@.len(),
            forall|k: int| 0 <= k < index ==> text_lt(#[trigger] self@[k].0, name@),
            forall|k: int| index <= k < self@.len() ==> !text_lt(#[trigger] self@[k].0, name@),
    {
        proof {
            use_type_invariant(self);
        }
        let mut low: usize = 0;
        let mut high: usize = self.entries.len();
        while low < high
            invariant
                low <= high <= self@.len(),
                self@.len() == self.entries@.len(),
                sorted_names(self@),
                forall|k: int| 0 <= k < low ==> text_lt(#[trigger] self@[k].0, name@),
                forall|k: int| high <= k < self@.len() ==> !text_lt(#[trigger] self@[k].0, name@),
            decreases high - low,
        {
            let middle: usize = low + (high - low) / 2;
            if text_less(self.entries[middle].0.as_str(), name) {
                proof {
                    assert(text_lt(self@[middle as int].0, name@));
                    assert forall|k: int| 0 <= k < middle + 1 implies text_lt(
                        #[trigger] self@[k].0,
                        name@,
                    ) by {
                        if k < middle {
                            lemma_text_lt_transitive(self@[k].0, self@[middle as int].0, name@);
                        }
                    }
                }
                low = middle + 1;
            } else {
                proof {
                    assert(!text_lt(self@[middle as int].0, name@));
                    assert forall|k: int| middle <= k < self@.len() implies !text_lt(
                        #[trigger] self@[k].0,
                        name@,
                    ) by {
                        if middle < k && text_lt(self@[k].0, name@) {
                            lemma_text_lt_transitive(self@[middle as int].0, self@[k].0, name@);
                        }
                    }
                }
                high = middle;
            }
        }
        low
    }

    /// Returns the value stored under `name`.
    pub fn get(&self, name: &str) -> (value: Option<&V>)
        ensures
            match value {
                Some(v) => lookup(self@, name@) == Some(v.model()),
                None => lookup(self@, name@) is None,
            },
    {
        proof {
            use_type_invariant(self);
        }
        let index = self.position(name);
        if index < self.entries.len() && same_text(self.entries[index].0.as_str(), name) {
            proof {
                assert(self@[index as int].0 == name@);
                lemma_lookup_at(self@, index as int);
            }
            Some(&self.entries[index].1)
        } else {
            proof {
                assert forall|k: int| 0 <= k < self@.len() implies #[trigger] self@[k].0
                    != name@ by {
                    lemma_text_lt_irreflexive(name@);
                    if index < k && self@[k].0 == name@ {
                        assert(text_lt(self@[index as int].0, self@[k].0));
                    }
                }
                lemma_lookup_absent(self@, name@);
            }
            None
        }
    }

    /// Stores `value` under `name` and returns the value it replaces.
    pub fn insert(&mut self, name: String, value: V) -> (previous: Option<V>)
        ensures
            sorted_names(final(self)@),
            forall|other: Seq<char>| #[trigger]
                lookup(final(self)@, other) == if other == name@ {
                    Some(value.model())
                } else {
                    lookup(old(self)@, other)
                },
            match previous {
                Some(v) => lookup(old(self)@, name@) == Some(v.model()),
                None => lookup(old(self)@, name@) is None,
            },
            final(self)@.len() == old(self)@.len() + (if lookup(old(self)@, name@) is None {
                1int
            } else {
                0int
            }),
    {
        proof {
            use_type_invariant(&*self);
        }
        let ghost before = self@;
        let ghost key = name@;
        let ghost model = value.model();
        let index = self.position(name.as_str());
        let mut entries: Vec<(String, V)> = Vec::new();
        std::mem::swap(&mut entries, &mut self.entries);
        let ghost start = entries@;
        let previous: Option<V>;
        if index < entries.len() && same_text(entries[index].0.as_str(), name.as_str()) {
            proof {
                assert(before[index as int].0 == key);
                lemma_lookup_at(before, index as int);
            }
            let replaced = entries.remove(index);
            entries.insert(index, (name, value));
            previous = Some(replaced.1);
            proof {
                assert(entries@ =~= start.update(index as int, entries@[index as int]));
            }
        } else {
            proof {
                assert forall|k: int| 0 <= k < before.len() implies #[trigger] before[k].0
                    != key by {
                    lemma_text_lt_irreflexive(key);
                    if index < k && before[k].0 == key {
                        assert(text_lt(before[index as int].0, before[k].0));
                    }
                }
                lemma_lookup_absent(before, key);
                if index < before.len() {
                    lemma_text_lt_total(before[index as int].0, key);
                }
            }
            entries.insert(index, (name, value));
            previous = None;
        }
        proof {
            let models = Seq::new(entries@.len(), |i: int| (entries@[i].0@, entries@[i].1.model()));
            let fresh = lookup(before, key) is None;
            assert forall|k: int| 0 <= k < models.len() implies #[trigger] models[k] == (if k
                < index {
                before[k]
            } else if k == index {
                (key, model)
            } else if fresh {
                before[k - 1]
            } else {
                before[k]
            }) by {}
            assert forall|i: int, j: int| 0 <= i < j < entries@.len() implies text_lt(
                (#[trigger] entries@[i]).0@,
                (#[trigger] entries@[j]).0@,
            ) by {
                let a = models[i];
                let b = models[j];
                assert(sorted_names(before));
                if j == index {
                    assert(text_lt(before[i].0, key));
                } else if i == index {
                    if fresh {
                        assert(!text_lt(before[index as int].0, key));
                        assert(text_lt(key, before[index as int].0));
                        if j - 1 > index {
                            assert(text_lt(before[index as int].0, before[j - 1].0));
                            lemma_text_lt_transitive(key, before[index as int].0, before[j - 1].0);
                        }
                    } else {
                        assert(text_lt(before[index as int].0, before[j].0));
                    }
                } else {
                    let x = if fresh && i > index {
                        i - 1
                    } else {
                        i
                    };
                    let y = if fresh && j > index {
                        j - 1
                    } else {
                        j
                    };
                    assert(text_lt(before[x].0, before[y].0));
                }
            }
            assert(sorted_names(models));
            assert forall|other: Seq<char>| #[trigger]
                lookup(models, other) == (if other == key {
                    Some(model)
                } else {
                    lookup(before, other)
                }) by {
                if other == key {
                    lemma_lookup_at(models, index as int);
                } else if exists|i: int| 0 <= i < before.len() && #[trigger] before[i].0 == other {
                    let i = choose|i: int| 0 <= i < before.len() && #[trigger] before[i].0 == other;
                    lemma_lookup_at(before, i);
                    let k = if fresh && i >= index {
                        i + 1
                    } else {
                        i
                    };
                    assert(models[k] == before[i]);
                    lemma_lookup_at(models, k);
                } else {
                    lemma_lookup_absent(before, other);
                    assert forall|k: int| 0 <= k < models.len() implies #[trigger] models[k].0
                        != other by {}
                    lemma_lookup_absent(models, other);
                }
            }
        }
        std::mem::swap(&mut entries, &mut self.entries);
        previous
    }

    /// Removes `name` and returns its value.
    pub fn remove(&mut self, name: &str) -> (removed: Option<V>)
        ensures
            sorted_names(final(self)@),
            forall|other: Seq<char>| #[trigger]
                lookup(final(self)@, other) == if other == name@ {
                    None
                } else {
                    lookup(old(self)@, other)
                },
            match removed {
                Some(v) => lookup(old(self)@, name@) == Some(v.model()),
                None => lookup(old(self)@, name@) is None,
            },
            lookup(old(self)@, name@) is None ==> final(self)@ == old(self)@,
    {
        proof {
            use_type_invariant(&*self);
        }
        let ghost before = self@;
        let index = self.position(name);
        if index < self.entries.len() && same_text(self.entries[index].0.as_str(), name) {
            proof {
                assert(before[index as int].0 == name@);
                lemma_lookup_at(before, index as int);
            }
            let mut entries: Vec<(String, V)> = Vec::new();
            std::mem::swap(&mut entries, &mut self.entries);
            let removed = entries.remove(index);
            proof {
                let models = Seq::new(
                    entries@.len(),
                    |i: int| (entries@[i].0@, entries@[i].1.model()),
                );
                assert forall|k: int| 0 <= k < models.len() implies #[trigger] models[k] == (if k
                    < index {
                    before[k]
                } else {
                    before[k + 1]
                }) by {}
                assert forall|i: int, j: int| 0 <= i < j < entries@.len() implies text_lt(
                    (#[trigger] entries@[i]).0@,
                    (#[trigger] entries@[j]).0@,
                ) by {
                    let a = models[i];
                    let b = models[j];
                }
                assert(sorted_names(models));
                assert forall|other: Seq<char>| #[trigger]
                    lookup(models, other) == (if other == name@ {
                        None
                    } else {
                        lookup(before, other)
                    }) by {
                    if other == name@ {
                        lemma_text_lt_irreflexive(other);
                        assert forall|k: int| 0 <= k < models.len() implies #[trigger] models[k].0
                            != other by {
                            if k < index {
                                assert(text_lt(before[k].0, before[index as int].0));
                            } else {
                                assert(text_lt(before[index as int].0, before[k + 1].0));
                            }
                        }
                        lemma_lookup_absent(models, other);
                    } else if exists|i: int|
                        0 <= i < before.len() && #[trigger] before[i].0 == other {
                        let i = choose|i: int|
                            0 <= i < before.len() && #[trigger] before[i].0 == other;
                        lemma_lookup_at(before, i);
                        let k = if i > index {
                            i - 1
                        } else {
                            i
                        };
                        assert(models[k] == before[i]);
                        lemma_lookup_at(models, k);
                    } else {
                        lemma_lookup_absent(before, other);
                        assert forall|k: int| 0 <= k < models.len() implies #[trigger] models[k].0
                            != other by {}
                        lemma_lookup_absent(models, other);
                    }
                }
            }
            std::mem::swap(&mut entries, &mut self.entries);
            Some(removed.1)
        } else {
            proof {
                assert forall|k: int| 0 <= k < before.len() implies #[trigger] before[k].0
                    != name@ by {
                    lemma_text_lt_irreflexive(name@);
                    if index < k && before[k].0 == name@ {
                        assert(text_lt(before[index as int].0, before[k].0));
                    }
                }
                lemma_lookup_absent(before, name@);
                assert forall|other: Seq<char>| #[trigger]
                    lookup(self@, other) == (if other == name@ {
                        None
                    } else {
                        lookup(before, other)
                    }) by {}
            }
            None
        }
    }

    /// Whether two maps hold the same values under the same names.
    pub fn same_map(&self, other: &Self) -> (same: bool)
        ensures
            same == (self@ == other@),
    {
        if self.entries.len() != other.entries.len() {
            proof {
                assert(self@.len() != other@.len());
            }
            return false;
        }
        let mut i: usize = 0;
        while i < self.entries.len()
            invariant
                i <= self.entries@.len(),
                self.entries@.len() == other.entries@.len(),
                forall|k: int| 0 <= k < i ==> self@[k] == other@[k],
            decreases self.entries@.len() - i,
        {
            if !same_text(self.entries[i].0.as_str(), other.entries[i].0.as_str())
                || !self.entries[i].1.same(&other.entries[i].1) {
                proof {
                    assert(self@[i as int] != other@[i as int]);
                }
                return false;
            }
            i = i + 1;
        }
        proof {
            assert(self@ =~= other@);
        }
        true
    }
}

impl<V: Value> Clone for NameMap<V> {
    fn clone(&self) -> (res: Self)
        ensures
            res@ == self@,
    {
        proof {
            use_type_invariant(self);
        }
        let mut entries: Vec<(String, V)> = Vec::new();
        let mut i: usize = 0;
        while i < self.entries.len()
            invariant
                i <= self.entries@.len(),
                entries@.len() == i,
                forall|k: int|
                    0 <= k < i ==> (#[trigger] entries@[k]).0@ == self.entries@[k].0@
                        && entries@[k].1.model() == self.entries@[k].1.model(),
            decreases self.entries@.len() - i,
        {
            entries.push((self.entries[i].0.clone(), self.entries[i].1.duplicate()));
            i = i + 1;
        }
        let res = NameMap { entries };
        proof {
            assert(res@ =~= self@);
        }
        res
    }
}

impl<V: Value> Default for NameMap<V> {
    fn default() -> (map: Self)
        ensures
            map@ == Seq::<(Seq<char>, V::Model)>::empty(),
    {
        NameMap::new()
    }
}

} // verus!
