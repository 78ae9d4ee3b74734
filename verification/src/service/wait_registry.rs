//! Which tasks somebody waits for.

use std::collections::BTreeMap;

use vstd::prelude::*;

use crate::keyed::keys_of;
use crate::keyed::lists_keys;
use crate::model::TaskId;

verus! {

broadcast use {vstd::std_specs::btree::group_btree_axioms, vstd::laws_cmp::group_laws_cmp};

#[derive(Debug)]
struct Entry<N> {
    notify: N,
    subscribers: usize,
}

/// Notifiers and their subscriber counts.
#[derive(Debug)]
struct Entries<N> {
    entries: BTreeMap<u128, Entry<N>>,
}

impl<N> View for Entries<N> {
    type V = Map<u128, (N, usize)>;

    closed spec fn view(&self) -> Map<u128, (N, usize)> {
        self.entries@.map_values(|e: Entry<N>| (e.notify, e.subscribers))
    }
}

impl<N> Entries<N> {
    /// Creates a registry without subscribers.
    fn new() -> (registry: Self)
        ensures
            registry@ == Map::<u128, (N, usize)>::empty(),
    {
        let registry = Entries { entries: BTreeMap::new() };
        proof {
            assert(registry@ =~= Map::<u128, (N, usize)>::empty());
        }
        registry
    }

    /// Adds a subscriber of a task. Subscribers of one task share its notifier;
    /// `fresh` becomes the notifier of a task that had none.
    fn subscribe(&mut self, id: TaskId, fresh: N)
        requires
            old(self)@.contains_key(id.0) ==> old(self)@[id.0].1 < usize::MAX,
        ensures
            final(self)@ == if old(self)@.contains_key(id.0) {
                old(self)@.insert(
                    id.0,
                    (old(self)@[id.0].0, (old(self)@[id.0].1 + 1) as usize),
                )
            } else {
                old(self)@.insert(id.0, (fresh, 1usize))
            },
    {
        let ghost before = self@;
        proof {
            assert(self.entries@.contains_key(id.0) == before.contains_key(id.0));
        }
        match self.entries.remove(&id.0) {
            Some(entry) => {
                proof {
                    assert((entry.notify, entry.subscribers) == before[id.0]);
                }
                let _previous = self.entries.insert(
                    id.0,
                    Entry { notify: entry.notify, subscribers: entry.subscribers + 1 },
                );
                proof {
                    assert(self@ =~= before.insert(
                        id.0,
                        (before[id.0].0, (before[id.0].1 + 1) as usize),
                    ));
                }
            },
            None => {
                let _previous = self.entries.insert(
                    id.0,
                    Entry { notify: fresh, subscribers: 1 },
                );
                proof {
                    assert(self@ =~= before.insert(id.0, (fresh, 1usize)));
                }
            },
        }
    }

    /// Removes a subscriber of a task; the last one takes the notifier along.
    fn unsubscribe(&mut self, id: TaskId)
        requires
            old(self)@.contains_key(id.0) ==> old(self)@[id.0].1 > 0,
        ensures
            final(self)@ == if !old(self)@.contains_key(id.0) {
                old(self)@
            } else if old(self)@[id.0].1 == 1 {
                old(self)@.remove(id.0)
            } else {
                old(self)@.insert(
                    id.0,
                    (old(self)@[id.0].0, (old(self)@[id.0].1 - 1) as usize),
                )
            },
    {
        let ghost before = self@;
        proof {
            assert(self.entries@.contains_key(id.0) == before.contains_key(id.0));
        }
        match self.entries.remove(&id.0) {
            Some(entry) => {
                proof {
                    assert((entry.notify, entry.subscribers) == before[id.0]);
                }
                if entry.subscribers > 1 {
                    let _previous = self.entries.insert(
                        id.0,
                        Entry { notify: entry.notify, subscribers: entry.subscribers - 1 },
                    );
                    proof {
                        assert(self@ =~= before.insert(
                            id.0,
                            (before[id.0].0, (before[id.0].1 - 1) as usize),
                        ));
                    }
                } else {
                    proof {
                        assert(self@ =~= before.remove(id.0));
                    }
                }
            },
            None => {
                proof {
                    assert(self@ =~= before);
                }
            },
        }
    }

    /// Returns the notifier of a task that has subscribers.
    fn notifier(&self, id: TaskId) -> (found: Option<&N>)
        ensures
            match found {
                Some(notify) => self@.contains_key(id.0) && *notify == self@[id.0].0,
                None => !self@.contains_key(id.0),
            },
    {
        proof {
            assert(self.entries@.contains_key(id.0) == self@.contains_key(id.0));
        }
        match self.entries.get(&id.0) {
            Some(entry) => Some(&entry.notify),
            None => None,
        }
    }

    /// Returns how many subscribers a task has.
    fn subscribers(&self, id: TaskId) -> (count: usize)
        ensures
            count == if self@.contains_key(id.0) {
                self@[id.0].1
            } else {
                0
            },
    {
        proof {
            assert(self.entries@.contains_key(id.0) == self@.contains_key(id.0));
        }
        match self.entries.get(&id.0) {
            Some(entry) => entry.subscribers,
            None => 0,
        }
    }

    /// Lists the tasks that have subscribers.
    fn waited_for(&self) -> (ids: Vec<u128>)
        ensures
            lists_keys(ids@, self@),
    {
        let ids = keys_of(&self.entries);
        proof {
            assert forall|k: u128| #![trigger self@.contains_key(k)] #![trigger ids@.contains(k)]
                self@.contains_key(k) <==> ids@.contains(k) by {
                assert(self.entries@.contains_key(k) <==> ids@.contains(k));
            }
        }
        ids
    }
}

/// Notifiers `N` of the tasks that have subscribers.
#[derive(Debug)]
pub struct TaskWaitRegistry<N> {
    inner: Entries<N>,
}

impl<N> View for TaskWaitRegistry<N> {
    type V = Map<u128, (N, usize)>;

    closed spec fn view(&self) -> Map<u128, (N, usize)> {
        self.inner@
    }
}

/// Whether every listed task has a subscriber.
pub open spec fn all_subscribed<N>(entries: Map<u128, (N, usize)>) -> bool {
    forall|id: u128| #[trigger] entries.contains_key(id) ==> entries[id].1 > 0
}

impl<N> TaskWaitRegistry<N> {
    #[verifier::type_invariant]
    closed spec fn listed(self) -> bool {
        all_subscribed(self.inner@)
    }

    /// Creates a registry without subscribers.
    pub fn new() -> (registry: Self)
        ensures
            registry@ == Map::<u128, (N, usize)>::empty(),
            all_subscribed(registry@),
    {
        TaskWaitRegistry { inner: Entries::new() }
    }

    /// Adds a subscriber of a task. Subscribers of one task share its notifier;
    /// `fresh` becomes the notifier of a task that had none.
    pub fn subscribe(&mut self, id: TaskId, fresh: N)
        requires
            old(self)@.contains_key(id.0) ==> old(self)@[id.0].1 < usize::MAX,
        ensures
            all_subscribed(old(self)@),
            all_subscribed(final(self)@),
            final(self)@ == if old(self)@.contains_key(id.0) {
                old(self)@.insert(
                    id.0,
                    (old(self)@[id.0].0, (old(self)@[id.0].1 + 1) as usize),
                )
            } else {
                old(self)@.insert(id.0, (fresh, 1usize))
            },
    {
        proof {
            use_type_invariant(&*self);
        }
        let mut inner = Entries::new();
        std::mem::swap(&mut inner, &mut self.inner);
        inner.subscribe(id, fresh);
        std::mem::swap(&mut inner, &mut self.inner);
    }

    /// Removes a subscriber of a task; the last one takes the notifier along.
    pub fn unsubscribe(&mut self, id: TaskId)
        ensures
            all_subscribed(old(self)@),
            all_subscribed(final(self)@),
            final(self)@ == if !old(self)@.contains_key(id.0) {
                old(self)@
            } else if old(self)@[id.0].1 == 1 {
                old(self)@.remove(id.0)
            } else {
                old(self)@.insert(
                    id.0,
                    (old(self)@[id.0].0, (old(self)@[id.0].1 - 1) as usize),
                )
            },
    {
        proof {
            use_type_invariant(&*self);
        }
        let mut inner = Entries::new();
        std::mem::swap(&mut inner, &mut self.inner);
        inner.unsubscribe(id);
        std::mem::swap(&mut inner, &mut self.inner);
    }

    /// Returns the notifier of a task that has subscribers.
    pub fn notifier(&self, id: TaskId) -> (found: Option<&N>)
        ensures
            match found {
                Some(notify) => self@.contains_key(id.0) && *notify == self@[id.0].0,
                None => !self@.contains_key(id.0),
            },
    {
        self.inner.notifier(id)
    }

    /// Returns how many subscribers a task has: none exactly when it is not
    /// listed.
    pub fn subscribers(&self, id: TaskId) -> (count: usize)
        ensures
            all_subscribed(self@),
            count == if self@.contains_key(id.0) {
                self@[id.0].1
            } else {
                0
            },
    {
        proof {
            use_type_invariant(self);
        }
        self.inner.subscribers(id)
    }

    /// Lists the tasks that have subscribers.
    pub fn waited_for(&self) -> (ids: Vec<u128>)
        ensures
            lists_keys(ids@, self@),
    {
        self.inner.waited_for()
    }
}

/// A task is waited for as long as it has subscribers: subscribing and
/// unsubscribing leaves the other subscribers, and the last one leaves nothing.
pub proof fn law_subscriptions_are_counted<N>(entries: Map<u128, (N, usize)>, id: u128, fresh: N)
    requires
        all_subscribed(entries),
        entries.contains_key(id) ==> entries[id].1 < usize::MAX,
    ensures
        ({
            let subscribed = if entries.contains_key(id) {
                entries.insert(id, (entries[id].0, (entries[id].1 + 1) as usize))
            } else {
                entries.insert(id, (fresh, 1usize))
            };
            let left = if subscribed[id].1 == 1 {
                subscribed.remove(id)
            } else {
                subscribed.insert(id, (subscribed[id].0, (subscribed[id].1 - 1) as usize))
            };
            left == entries
        }),
{
    let subscribed = if entries.contains_key(id) {
        entries.insert(id, (entries[id].0, (entries[id].1 + 1) as usize))
    } else {
        entries.insert(id, (fresh, 1usize))
    };
    let left = if subscribed[id].1 == 1 {
        subscribed.remove(id)
    } else {
        subscribed.insert(id, (subscribed[id].0, (subscribed[id].1 - 1) as usize))
    };
    assert(left =~= entries);
}

/// A registry finds the notifier of a task and counts its subscribers exactly while
/// it has any, lists the tasks that have some, and begins with none.
pub proof fn law_waited_tasks_have_subscribers<N>(
    registry: TaskWaitRegistry<N>,
    fresh: TaskWaitRegistry<N>,
    id: TaskId,
    found: Option<&N>,
    count: usize,
    ids: Vec<u128>,
)
    requires
        call_ensures(TaskWaitRegistry::<N>::new, (), fresh),
        call_ensures(TaskWaitRegistry::<N>::notifier, (&registry, id), found),
        call_ensures(TaskWaitRegistry::<N>::subscribers, (&registry, id), count),
        call_ensures(TaskWaitRegistry::<N>::waited_for, (&registry,), ids),
    ensures
        fresh@.dom() == Set::<u128>::empty(),
        found is Some <==> count > 0,
        found matches Some(notify) ==> *notify == registry@[id.0].0,
        registry@.contains_key(id.0) ==> count == registry@[id.0].1,
        ids@.contains(id.0) <==> count > 0,
        ids@.no_duplicates(),
{
    assert(registry@.contains_key(id.0) <==> ids@.contains(id.0));
}

} // verus!
