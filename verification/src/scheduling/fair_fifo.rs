//! First-in-first-out ordering with bounded bypassing.

use vstd::prelude::*;

use super::fit::can_fit_capacity;
use super::fit::fits_capacity;
use super::fit::fits_now;
use super::fit::likely_fits;
use super::QueueSnapshot;
use super::SchedulingPolicy;
use crate::model::resource::DemandModel;
use crate::model::resource::SnapshotModel;
use crate::model::ResourceRequest;
use crate::model::ResourceSnapshot;
use crate::model::TaskId;

verus! {

/// Queue entry metadata needed to keep a frequently bypassed request
/// progressing.
#[derive(Debug)]
pub struct QueuedTask {
    /// Stable task identity.
    pub id: TaskId,
    /// Resource requirements used to determine likely fit.
    pub resources: ResourceRequest,
    /// Earliest start of a delayed retry.
    pub retry_not_before_ms: Option<u64>,
    /// Number of scheduling cycles in which a later task started first.
    pub bypasses: u32,
}

/// Content of a [`QueuedTask`].
#[verifier::ext_equal]
pub struct QueuedModel {
    pub id: TaskId,
    pub resources: DemandModel,
    pub retry_not_before_ms: Option<u64>,
    pub bypasses: u32,
}

impl View for QueuedTask {
    type V = QueuedModel;

    open spec fn view(&self) -> QueuedModel {
        QueuedModel {
            id: self.id,
            resources: self.resources@,
            retry_not_before_ms: self.retry_not_before_ms,
            bypasses: self.bypasses,
        }
    }
}

impl Clone for QueuedTask {
    fn clone(&self) -> (res: Self)
        ensures
            res@ == self@,
    {
        QueuedTask {
            id: self.id,
            resources: self.resources.clone(),
            retry_not_before_ms: self.retry_not_before_ms,
            bypasses: self.bypasses,
        }
    }
}

/// Contents of a list of queue entries.
pub open spec fn queued_models(tasks: Seq<QueuedTask>) -> Seq<QueuedModel> {
    Seq::new(tasks.len(), |i: int| tasks[i]@)
}

/// Copies a list of queue entries.
pub fn copy_queued(tasks: &Vec<QueuedTask>) -> (res: Vec<QueuedTask>)
    ensures
        queued_models(res@) == queued_models(tasks@),
{
    let mut res: Vec<QueuedTask> = Vec::new();
    let mut i: usize = 0;
    while i < tasks.len()
        invariant
            i <= tasks@.len(),
            res@.len() == i,
            forall|k: int| 0 <= k < i ==> (#[trigger] res@[k])@ == tasks@[k]@,
        decreases tasks@.len() - i,
    {
        res.push(tasks[i].clone());
        i = i + 1;
    }
    proof {
        assert(queued_models(res@) =~= queued_models(tasks@));
    }
    res
}

/// FIFO-first scheduler with bounded bypass and a configurable starvation
/// limit.
#[derive(Debug, Clone, Copy)]
pub struct FairFifoPolicy {
    /// Bypasses after which a task is tried alone.
    pub max_bypasses: u32,
}

impl FairFifoPolicy {
    /// Creates a policy that stops bypassing a head task after `max_bypasses`.
    pub fn new(max_bypasses: u32) -> (policy: Self)
        ensures
            policy.max_bypasses == max_bypasses,
    {
        FairFifoPolicy { max_bypasses }
    }
}

impl Default for FairFifoPolicy {
    fn default() -> (policy: Self)
        ensures
            policy.max_bypasses == 8,
    {
        FairFifoPolicy::new(8)
    }
}

/// The tasks that one scheduling cycle inspects.
pub open spec fn inspected(tasks: Seq<QueuedModel>, scan_budget: usize) -> Seq<QueuedModel> {
    let budget = if scan_budget == 0 {
        1int
    } else {
        scan_budget as int
    };
    if tasks.len() <= budget {
        tasks
    } else {
        tasks.take(budget)
    }
}

/// Identifiers of the tasks that satisfy `keep`, in queue order.
pub open spec fn ids_where(
    tasks: Seq<QueuedModel>,
    keep: spec_fn(QueuedModel) -> bool,
) -> Seq<TaskId>
    decreases tasks.len(),
{
    if tasks.len() == 0 {
        Seq::empty()
    } else {
        let before = ids_where(tasks.drop_last(), keep);
        if keep(tasks.last()) {
            before.push(tasks.last().id)
        } else {
            before
        }
    }
}

/// Position of the first task that was bypassed at least `limit` times.
pub open spec fn first_starved(tasks: Seq<QueuedModel>, limit: u32, at: int) -> bool {
    &&& 0 <= at < tasks.len()
    &&& tasks[at].bypasses >= limit
    &&& forall|k: int| 0 <= k < at ==> (#[trigger] tasks[k]).bypasses < limit
}

/// Candidates when nothing starves: tasks that look startable now, then tasks
/// that no capacity of this engine can ever hold.
pub open spec fn open_order(tasks: Seq<QueuedModel>, resources: SnapshotModel) -> Seq<TaskId> {
    ids_where(tasks, |t: QueuedModel| likely_fits(t.resources, resources)) + ids_where(
        tasks,
        |t: QueuedModel| !fits_capacity(t.resources, resources.capacity),
    )
}

/// Whether `order` is the candidate order of the fair policy.
pub open spec fn is_fair_order(
    order: Seq<TaskId>,
    tasks: Seq<QueuedModel>,
    limit: u32,
    resources: SnapshotModel,
) -> bool {
    if exists|at: int| first_starved(tasks, limit, at) {
        exists|at: int| first_starved(tasks, limit, at) && order == seq![tasks[at].id]
    } else {
        order == open_order(tasks, resources)
    }
}

impl SchedulingPolicy for FairFifoPolicy {
    fn order(&self, queue: &QueueSnapshot, resources: &ResourceSnapshot) -> (order: Vec<TaskId>)
        ensures
            is_fair_order(
                order@,
                inspected(queued_models(queue.tasks@), queue.scan_budget),
                self.max_bypasses,
                resources@,
            ),
    {
        let budget: usize = if queue.scan_budget == 0 {
            1
        } else {
            queue.scan_budget
        };
        let count: usize = if queue.tasks.len() <= budget {
            queue.tasks.len()
        } else {
            budget
        };
        let ghost tasks = inspected(queued_models(queue.tasks@), queue.scan_budget);
        let mut i: usize = 0;
        while i < count
            invariant
                i <= count == tasks.len(),
                count <= queue.tasks@.len(),
                tasks == inspected(queued_models(queue.tasks@), queue.scan_budget),
                forall|k: int| 0 <= k < count ==> #[trigger] tasks[k] == queue.tasks@[k]@,
                forall|k: int| 0 <= k < i ==> (#[trigger] tasks[k]).bypasses < self.max_bypasses,
            decreases count - i,
        {
            proof {
                assert(tasks[i as int] == queue.tasks@[i as int]@);
            }
            if queue.tasks[i].bypasses >= self.max_bypasses {
                let order = vec![queue.tasks[i].id];
                proof {
                    assert(first_starved(tasks, self.max_bypasses, i as int));
                    assert(order@ =~= seq![tasks[i as int].id]);
                }
                return order;
            }
            i = i + 1;
        }
        let ghost fits = |t: QueuedModel| likely_fits(t.resources, resources@);
        let ghost hopeless = |t: QueuedModel| !fits_capacity(t.resources, resources@.capacity);
        let mut order: Vec<TaskId> = Vec::new();
        let mut j: usize = 0;
        proof {
            assert(tasks.take(0) =~= Seq::<QueuedModel>::empty());
        }
        while j < count
            invariant
                j <= count == tasks.len(),
                count <= queue.tasks@.len(),
                forall|k: int| 0 <= k < count ==> #[trigger] tasks[k] == queue.tasks@[k]@,
                fits == (|t: QueuedModel| likely_fits(t.resources, resources@)),
                order@ == ids_where(tasks.take(j as int), fits),
            decreases count - j,
        {
            proof {
                assert(tasks.take(j + 1).drop_last() =~= tasks.take(j as int));
                assert(tasks[j as int] == queue.tasks@[j as int]@);
            }
            if fits_now(&queue.tasks[j].resources, resources) {
                order.push(queue.tasks[j].id);
            }
            j = j + 1;
        }
        let ghost startable = order@;
        let mut h: usize = 0;
        proof {
            assert(tasks.take(count as int) =~= tasks);
            assert(order@ =~= startable + ids_where(tasks.take(0), hopeless));
        }
        while h < count
            invariant
                h <= count == tasks.len(),
                count <= queue.tasks@.len(),
                forall|k: int| 0 <= k < count ==> #[trigger] tasks[k] == queue.tasks@[k]@,
                hopeless == (|t: QueuedModel| !fits_capacity(t.resources, resources@.capacity)),
                order@ == startable + ids_where(tasks.take(h as int), hopeless),
            decreases count - h,
        {
            proof {
                assert(tasks.take(h + 1).drop_last() =~= tasks.take(h as int));
                assert(tasks[h as int] == queue.tasks@[h as int]@);
            }
            if !can_fit_capacity(&queue.tasks[h].resources, &resources.capacity) {
                let ghost before = order@;
                order.push(queue.tasks[h].id);
                proof {
                    assert(order@ =~= startable + ids_where(tasks.take(h as int), hopeless).push(
                        tasks[h as int].id,
                    ));
                }
            }
            h = h + 1;
        }
        proof {
            assert(tasks.take(count as int) =~= tasks);
            assert(!exists|at: int| first_starved(tasks, self.max_bypasses, at));
        }
        order
    }
}

/// A task that was bypassed often enough is tried before everything behind it:
/// while the first such task waits, it is the only candidate.
pub proof fn law_starved_task_is_tried_alone(
    order: Seq<TaskId>,
    tasks: Seq<QueuedModel>,
    limit: u32,
    resources: SnapshotModel,
    at: int,
)
    requires
        is_fair_order(order, tasks, limit, resources),
        first_starved(tasks, limit, at),
    ensures
        order == seq![tasks[at].id],
{
    let other = choose|x: int| first_starved(tasks, limit, x) && order == seq![tasks[x].id];
    if other < at {
        assert(tasks[other].bypasses < limit);
    } else if at < other {
        assert(tasks[at].bypasses < limit);
    }
}

/// Every candidate is one of the inspected tasks.
pub proof fn law_candidates_come_from_the_queue(
    order: Seq<TaskId>,
    tasks: Seq<QueuedModel>,
    limit: u32,
    resources: SnapshotModel,
    id: TaskId,
)
    requires
        is_fair_order(order, tasks, limit, resources),
        order.contains(id),
    ensures
        exists|k: int| 0 <= k < tasks.len() && #[trigger] tasks[k].id == id,
{
    if exists|at: int| first_starved(tasks, limit, at) {
        let at = choose|x: int| first_starved(tasks, limit, x) && order == seq![tasks[x].id];
        assert(tasks[at].id == id);
    } else {
        let fits = |t: QueuedModel| likely_fits(t.resources, resources);
        let hopeless = |t: QueuedModel| !fits_capacity(t.resources, resources.capacity);
        let k = choose|k: int| 0 <= k < order.len() && order[k] == id;
        let first = ids_where(tasks, fits);
        if k < first.len() {
            assert(first[k] == id);
            lemma_ids_where(tasks, fits, id);
        } else {
            assert(ids_where(tasks, hopeless)[k - first.len()] == id);
            lemma_ids_where(tasks, hopeless, id);
        }
    }
}

/// What is listed satisfies the condition, and everything that does is listed.
pub proof fn lemma_ids_where(tasks: Seq<QueuedModel>, keep: spec_fn(QueuedModel) -> bool, id: TaskId)
    ensures
        ids_where(tasks, keep).contains(id) <==> exists|k: int|
            0 <= k < tasks.len() && #[trigger] tasks[k].id == id && keep(tasks[k]),
    decreases tasks.len(),
{
    if tasks.len() > 0 {
        let shorter = tasks.drop_last();
        let inner = ids_where(shorter, keep);
        let whole = ids_where(tasks, keep);
        lemma_ids_where(shorter, keep, id);
        if whole.contains(id) {
            let k = choose|k: int| 0 <= k < whole.len() && whole[k] == id;
            if k < inner.len() {
                assert(inner[k] == id);
                let n = choose|n: int|
                    0 <= n < shorter.len() && #[trigger] shorter[n].id == id && keep(shorter[n]);
                assert(tasks[n].id == id);
            } else {
                assert(tasks[tasks.len() - 1].id == id);
            }
        }
        if exists|k: int| 0 <= k < tasks.len() && #[trigger] tasks[k].id == id && keep(tasks[k]) {
            let k = choose|k: int|
                0 <= k < tasks.len() && #[trigger] tasks[k].id == id && keep(tasks[k]);
            if k < shorter.len() {
                assert(shorter[k].id == id);
                let n = choose|n: int| 0 <= n < inner.len() && inner[n] == id;
                assert(whole[n] == id);
            } else {
                assert(whole[whole.len() - 1] == id);
            }
        }
    }
}

/// A task that looks startable now is never passed over while nothing starves.
pub proof fn law_startable_tasks_are_candidates(
    order: Seq<TaskId>,
    tasks: Seq<QueuedModel>,
    limit: u32,
    resources: SnapshotModel,
    at: int,
)
    requires
        is_fair_order(order, tasks, limit, resources),
        0 <= at < tasks.len(),
        likely_fits(tasks[at].resources, resources),
        forall|k: int| 0 <= k < tasks.len() ==> (#[trigger] tasks[k]).bypasses < limit,
    ensures
        order.contains(tasks[at].id),
{
    let fits = |t: QueuedModel| likely_fits(t.resources, resources);
    assert(fits(tasks[at]));
    lemma_ids_where(tasks, fits, tasks[at].id);
    let first = ids_where(tasks, fits);
    let k = choose|k: int| 0 <= k < first.len() && first[k] == tasks[at].id;
    assert(open_order(tasks, resources)[k] == tasks[at].id);
}

} // verus!
