//! In which order tasks wait for the scheduler.

use vstd::prelude::*;

use super::scheduler_queue::due;
use super::scheduler_queue::earlier;
use super::scheduler_queue::lemma_prefixes;
use super::scheduler_queue::lemma_restored_ready;
use super::scheduler_queue::without_delayed;
use super::scheduler_queue::without_ready;
use super::scheduler_queue::QueueModel;
use super::scheduler_queue::SchedulerQueue;
use crate::model::TaskId;
use crate::scheduling::fair_fifo::QueuedModel;

verus! {

/// A task without a deadline waits behind all ready tasks. A task with one waits
/// among the retries, behind those that are due no later and before those that are
/// due later. Nothing else moves.
pub proof fn law_tasks_wait_behind_their_equals(queue: QueueModel, task: QueuedModel) -> (at: int)
    requires
        queue.valid(),
    ensures
        task.retry_not_before_ms is None ==> {
            &&& queue.pushed(task).ready == queue.ready.push(task)
            &&& queue.pushed(task).delayed == queue.delayed
        },
        task.retry_not_before_ms matches Some(deadline) ==> {
            &&& 0 <= at <= queue.delayed.len()
            &&& queue.pushed(task).ready == queue.ready
            &&& queue.pushed(task).delayed == queue.delayed.insert(at, (deadline, task))
            &&& forall|i: int| 0 <= i < at ==> (#[trigger] queue.delayed[i]).0 <= deadline
            &&& forall|i: int|
                at <= i < queue.delayed.len() ==> (#[trigger] queue.delayed[i]).0 > deadline
        },
{
    match task.retry_not_before_ms {
        None => 0,
        Some(deadline) => {
            lemma_prefixes(queue.delayed, deadline);
            let at = due(queue.delayed, deadline) as int;
            assert forall|i: int| at <= i < queue.delayed.len() implies (
            #[trigger] queue.delayed[i]).0 > deadline by {
                if i > at {
                    assert(queue.delayed[at].0 <= queue.delayed[i].0);
                }
            }
            at
        },
    }
}

/// A task that comes back waits before its equals: in front of all ready tasks, or
/// among the retries in front of those that are due no earlier.
pub proof fn law_returned_tasks_wait_before_their_equals(
    queue: QueueModel,
    task: QueuedModel,
) -> (at: int)
    requires
        queue.valid(),
    ensures
        task.retry_not_before_ms is None ==> {
            &&& queue.unshifted(task).ready.len() == queue.ready.len() + 1
            &&& queue.unshifted(task).ready[0] == task
            &&& queue.unshifted(task).ready.drop_first() == queue.ready
            &&& queue.unshifted(task).delayed == queue.delayed
        },
        task.retry_not_before_ms matches Some(deadline) ==> {
            &&& 0 <= at <= queue.delayed.len()
            &&& queue.unshifted(task).ready == queue.ready
            &&& queue.unshifted(task).delayed == queue.delayed.insert(at, (deadline, task))
            &&& forall|i: int| 0 <= i < at ==> (#[trigger] queue.delayed[i]).0 < deadline
            &&& forall|i: int|
                at <= i < queue.delayed.len() ==> (#[trigger] queue.delayed[i]).0 >= deadline
        },
{
    match task.retry_not_before_ms {
        None => {
            assert(queue.unshifted(task).ready.drop_first() =~= queue.ready);
            0
        },
        Some(deadline) => {
            lemma_prefixes(queue.delayed, deadline);
            let at = earlier(queue.delayed, deadline) as int;
            assert forall|i: int| at <= i < queue.delayed.len() implies (
            #[trigger] queue.delayed[i]).0 >= deadline by {
                if i > at {
                    assert(queue.delayed[at].0 <= queue.delayed[i].0);
                }
            }
            at
        },
    }
}

/// Several tasks that come back keep their order: the first is put back last, and
/// ready ones stand together in front of the ready tasks.
pub proof fn law_returned_tasks_keep_their_order(queue: QueueModel, tasks: Seq<QueuedModel>)
    ensures
        tasks.len() == 0 ==> queue.restored(tasks) == queue,
        tasks.len() > 0 ==> queue.restored(tasks) == queue.restored(tasks.drop_first()).unshifted(
            tasks[0],
        ),
        (forall|i: int| 0 <= i < tasks.len() ==> (#[trigger] tasks[i]).retry_not_before_ms is None)
            ==> queue.restored(tasks).ready == tasks + queue.ready && queue.restored(tasks).delayed
            == queue.delayed,
    decreases tasks.len(),
{
    if tasks.len() > 0 {
        let init = tasks.drop_last();
        let next = queue.unshifted(tasks.last());
        law_returned_tasks_keep_their_order(next, init);
        if init.len() > 0 {
            assert(init.drop_first() =~= tasks.drop_first().drop_last());
            assert(tasks.drop_first().last() == tasks.last());
            assert(init[0] == tasks[0]);
        } else {
            assert(tasks.drop_first() =~= Seq::empty());
        }
    }
    if forall|i: int| 0 <= i < tasks.len() ==> (#[trigger] tasks[i]).retry_not_before_ms is None {
        lemma_restored_ready(queue, tasks);
    }
}

/// A window takes as many tasks as its budget allows, and one at least: first the
/// retries that are due, by deadline, without their deadlines, and then ready tasks
/// from the front. A retry that is due is left behind only where the window is full
/// of retries, and a ready task only where it is full. What was not taken stays.
pub proof fn law_windows_take_due_retries_then_ready_tasks(
    queue: QueueModel,
    budget: usize,
    now_ms: u64,
) -> (retries: int)
    requires
        queue.valid(),
    ensures
        ({
            let window = queue.window(budget, now_ms);
            let after = queue.after_window(budget, now_ms);
            let most = vstd::math::max(budget as int, 1);
            let ready = window.len() - retries;
            &&& 0 <= retries <= window.len() <= most
            &&& retries <= queue.delayed.len() && ready <= queue.ready.len()
            &&& forall|i: int|
                0 <= i < retries ==> {
                    &&& (#[trigger] queue.delayed[i]).0 <= now_ms
                    &&& window[i].id == queue.delayed[i].1.id
                    &&& window[i].resources == queue.delayed[i].1.resources
                    &&& window[i].bypasses == queue.delayed[i].1.bypasses
                    &&& window[i].retry_not_before_ms is None
                }
            &&& window.skip(retries) == queue.ready.take(ready)
            &&& after.delayed == queue.delayed.skip(retries)
            &&& after.ready == queue.ready.skip(ready)
            &&& retries < most ==> forall|i: int|
                retries <= i < queue.delayed.len() ==> (#[trigger] queue.delayed[i]).0 > now_ms
            &&& window.len() < most ==> ready == queue.ready.len()
        }),
{
    lemma_prefixes(queue.delayed, now_ms);
    let retries = queue.window_delayed(budget, now_ms) as int;
    let window = queue.window(budget, now_ms);
    let ready = window.len() - retries;
    assert(window.skip(retries) =~= queue.ready.take(ready));
    let at = due(queue.delayed, now_ms) as int;
    assert forall|i: int| at <= i < queue.delayed.len() implies (#[trigger] queue.delayed[i]).0
        > now_ms by {
        if i > at {
            assert(queue.delayed[at].0 <= queue.delayed[i].0);
        }
    }
    retries
}

/// Whether a list holds a task of this identifier.
pub open spec fn is_among(tasks: Seq<QueuedModel>, id: TaskId) -> bool {
    exists|i: int| 0 <= i < tasks.len() && (#[trigger] tasks[i]).id == id
}

/// The delayed tasks of a queue.
pub open spec fn retries_of(queue: QueueModel) -> Seq<QueuedModel> {
    queue.delayed.map_values(|entry: (u64, QueuedModel)| entry.1)
}

/// Removing a task takes out the first one of its identifier, a ready one before a
/// delayed one, and leaves all others in order.
pub proof fn law_removal_takes_one_task(queue: QueueModel, id: TaskId) -> (at: int)
    requires
        queue.holds(id),
    ensures
        is_among(queue.ready, id) || is_among(retries_of(queue), id),
        is_among(queue.ready, id) ==> {
            &&& 0 <= at < queue.ready.len() && queue.ready[at].id == id
            &&& forall|i: int| 0 <= i < at ==> (#[trigger] queue.ready[i]).id != id
            &&& queue.removed(id).ready == queue.ready.remove(at)
            &&& queue.removed(id).delayed == queue.delayed
        },
        !is_among(queue.ready, id) ==> {
            &&& 0 <= at < queue.delayed.len() && queue.delayed[at].1.id == id
            &&& forall|i: int| 0 <= i < at ==> (#[trigger] queue.delayed[i]).1.id != id
            &&& queue.removed(id).delayed == queue.delayed.remove(at)
            &&& queue.removed(id).ready == queue.ready
        },
{
    if is_among(queue.ready, id) {
        lemma_first_ready(queue.ready, id)
    } else {
        let i = choose|i: int| 0 <= i < queue.delayed.len() && #[trigger] queue.delayed[i].1.id
            == id;
        assert(retries_of(queue)[i].id == id);
        lemma_first_delayed(queue.delayed, id)
    }
}

proof fn lemma_first_ready(tasks: Seq<QueuedModel>, id: TaskId) -> (at: int)
    requires
        is_among(tasks, id),
    ensures
        0 <= at < tasks.len() && tasks[at].id == id,
        forall|i: int| 0 <= i < at ==> (#[trigger] tasks[i]).id != id,
        without_ready(tasks, id) == tasks.remove(at),
    decreases tasks.len(),
{
    if tasks[0].id == id {
        assert(tasks.drop_first() =~= tasks.remove(0));
        0
    } else {
        let rest = tasks.drop_first();
        let i = choose|i: int| 0 <= i < tasks.len() && (#[trigger] tasks[i]).id == id;
        assert(rest[i - 1].id == id);
        let at = lemma_first_ready(rest, id);
        assert(seq![tasks[0]] + rest.remove(at) =~= tasks.remove(at + 1));
        assert forall|k: int| 0 <= k < at + 1 implies (#[trigger] tasks[k]).id != id by {
            if k > 0 {
                assert(rest[k - 1].id != id);
            }
        }
        at + 1
    }
}

proof fn lemma_first_delayed(tasks: Seq<(u64, QueuedModel)>, id: TaskId) -> (at: int)
    requires
        exists|i: int| 0 <= i < tasks.len() && #[trigger] tasks[i].1.id == id,
    ensures
        0 <= at < tasks.len() && tasks[at].1.id == id,
        forall|i: int| 0 <= i < at ==> (#[trigger] tasks[i]).1.id != id,
        without_delayed(tasks, id) == tasks.remove(at),
    decreases tasks.len(),
{
    if tasks[0].1.id == id {
        assert(tasks.drop_first() =~= tasks.remove(0));
        0
    } else {
        let rest = tasks.drop_first();
        let i = choose|i: int| 0 <= i < tasks.len() && #[trigger] tasks[i].1.id == id;
        assert(rest[i - 1].1.id == id);
        let at = lemma_first_delayed(rest, id);
        assert(seq![tasks[0]] + rest.remove(at) =~= tasks.remove(at + 1));
        assert forall|k: int| 0 <= k < at + 1 implies (#[trigger] tasks[k]).1.id != id by {
            if k > 0 {
                assert(rest[k - 1].1.id != id);
            }
        }
        at + 1
    }
}

/// A task waits exactly when it is among the ready tasks or the retries.
pub proof fn law_waiting_tasks_are_ready_or_delayed(queue: QueueModel, id: TaskId)
    ensures
        queue.holds(id) <==> is_among(queue.ready, id) || is_among(retries_of(queue), id),
{
    let later = retries_of(queue);
    if is_among(later, id) {
        let i = choose|i: int| 0 <= i < later.len() && (#[trigger] later[i]).id == id;
        assert(queue.delayed[i].1.id == id);
    }
    if queue.holds(id) && !is_among(queue.ready, id) {
        let i = choose|i: int| 0 <= i < queue.delayed.len() && #[trigger] queue.delayed[i].1.id
            == id;
        assert(later[i].id == id);
    }
}

/// A queue tells its earliest deadline, whether it is empty and how many tasks
/// wait in it; a new one is empty.
pub proof fn law_queues_tell_what_waits(
    queue: SchedulerQueue,
    fresh: SchedulerQueue,
    deadline: Option<u64>,
    empty: bool,
    len: usize,
)
    requires
        queue@.ready.len() + queue@.delayed.len() <= usize::MAX,
        call_ensures(SchedulerQueue::new, (), fresh),
        call_ensures(SchedulerQueue::next_deadline, (&queue,), deadline),
        call_ensures(SchedulerQueue::is_empty, (&queue,), empty),
        call_ensures(SchedulerQueue::len, (&queue,), len),
    ensures
        fresh@.ready.len() == 0 && fresh@.delayed.len() == 0,
        deadline is Some <==> queue@.delayed.len() > 0,
        deadline matches Some(first) ==> first == queue@.delayed[0].0 && forall|i: int|
            0 <= i < queue@.delayed.len() ==> first <= (#[trigger] queue@.delayed[i]).0,
        empty <==> queue@.ready.len() == 0 && queue@.delayed.len() == 0,
        len == queue@.ready.len() + queue@.delayed.len(),
{
    if let Some(first) = deadline {
        assert forall|i: int| 0 <= i < queue@.delayed.len() implies first <= (
        #[trigger] queue@.delayed[i]).0 by {
            if i > 0 {
                assert(queue@.delayed[0].0 <= queue@.delayed[i].0);
            }
        }
    }
}

} // verus!
