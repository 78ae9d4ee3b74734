//! Tasks that wait to be scheduled.

use std::collections::VecDeque;

use vstd::prelude::*;

use crate::model::TaskId;
use crate::scheduling::fair_fifo::queued_models;
use crate::scheduling::fair_fifo::QueuedModel;
use crate::scheduling::QueuedTask;

verus! {

broadcast use vstd::std_specs::vecdeque::group_vec_dequeue_axioms;

/// Content of a [`SchedulerQueue`].
#[verifier::ext_equal]
pub struct QueueModel {
    /// Tasks without a deadline, in the order they are taken.
    pub ready: Seq<QueuedModel>,
    /// Deadlines and their tasks, in the order they are taken.
    pub delayed: Seq<(u64, QueuedModel)>,
}

/// Number of entries from the start whose deadline is at most `limit`.
pub open spec fn due(delayed: Seq<(u64, QueuedModel)>, limit: u64) -> nat
    decreases delayed.len(),
{
    if delayed.len() == 0 || delayed[0].0 > limit {
        0
    } else {
        1 + due(delayed.drop_first(), limit)
    }
}

/// Number of entries from the start whose deadline is below `limit`.
pub open spec fn earlier(delayed: Seq<(u64, QueuedModel)>, limit: u64) -> nat
    decreases delayed.len(),
{
    if delayed.len() == 0 || delayed[0].0 >= limit {
        0
    } else {
        1 + earlier(delayed.drop_first(), limit)
    }
}

/// A task whose deadline has passed.
pub open spec fn released(task: QueuedModel) -> QueuedModel {
    QueuedModel { retry_not_before_ms: None, ..task }
}

/// Tasks of the first `n` delayed entries, their deadlines passed.
pub open spec fn released_tasks(delayed: Seq<(u64, QueuedModel)>, n: nat) -> Seq<QueuedModel> {
    Seq::new(n, |i: int| released(delayed[i].1))
}

/// The smaller of two numbers.
pub open spec fn smaller(a: nat, b: nat) -> nat {
    if a < b {
        a
    } else {
        b
    }
}

impl QueueModel {
    /// A queue without tasks.
    pub open spec fn empty() -> QueueModel {
        QueueModel { ready: Seq::empty(), delayed: Seq::empty() }
    }

    /// Number of waiting tasks.
    pub open spec fn len(self) -> nat {
        self.ready.len() + self.delayed.len()
    }

    /// Whether delayed tasks stand in deadline order.
    pub open spec fn in_order(self) -> bool {
        forall|i: int, j: int|
            0 <= i < j < self.delayed.len() ==> (#[trigger] self.delayed[i]).0 <= (
            #[trigger] self.delayed[j]).0
    }

    /// What holds of every queue: delayed tasks stand in deadline order under
    /// their own deadlines, and ready tasks have none.
    pub open spec fn valid(self) -> bool {
        &&& self.in_order()
        &&& forall|i: int|
            0 <= i < self.ready.len() ==> (#[trigger] self.ready[i]).retry_not_before_ms is None
        &&& forall|i: int|
            0 <= i < self.delayed.len() ==> (#[trigger] self.delayed[i]).1.retry_not_before_ms
                == Some(self.delayed[i].0)
    }

    /// The queue with a task added behind its equals.
    pub open spec fn pushed(self, task: QueuedModel) -> QueueModel {
        match task.retry_not_before_ms {
            Some(deadline) => QueueModel {
                delayed: self.delayed.insert(due(self.delayed, deadline) as int, (deadline, task)),
                ..self
            },
            None => QueueModel { ready: self.ready.push(task), ..self },
        }
    }

    /// The queue with a task added in front of its equals.
    pub open spec fn unshifted(self, task: QueuedModel) -> QueueModel {
        match task.retry_not_before_ms {
            Some(deadline) => QueueModel {
                delayed: self.delayed.insert(
                    earlier(self.delayed, deadline) as int,
                    (deadline, task),
                ),
                ..self
            },
            None => QueueModel { ready: seq![task] + self.ready, ..self },
        }
    }

    /// The queue with tasks added in front of their equals, the first foremost.
    pub open spec fn restored(self, tasks: Seq<QueuedModel>) -> QueueModel
        decreases tasks.len(),
    {
        if tasks.len() == 0 {
            self
        } else {
            self.unshifted(tasks.last()).restored(tasks.drop_last())
        }
    }

    /// How many delayed tasks a window takes.
    pub open spec fn window_delayed(self, budget: usize, now_ms: u64) -> nat {
        smaller(window_size(budget), due(self.delayed, now_ms))
    }

    /// How many ready tasks a window takes.
    pub open spec fn window_ready(self, budget: usize, now_ms: u64) -> nat {
        smaller(
            (window_size(budget) - self.window_delayed(budget, now_ms)) as nat,
            self.ready.len(),
        )
    }

    /// The tasks of a window: those whose deadline has passed, then ready ones.
    pub open spec fn window(self, budget: usize, now_ms: u64) -> Seq<QueuedModel> {
        released_tasks(self.delayed, self.window_delayed(budget, now_ms)) + self.ready.take(
            self.window_ready(budget, now_ms) as int,
        )
    }

    /// The queue after a window was taken.
    pub open spec fn after_window(self, budget: usize, now_ms: u64) -> QueueModel {
        QueueModel {
            ready: self.ready.skip(self.window_ready(budget, now_ms) as int),
            delayed: self.delayed.skip(self.window_delayed(budget, now_ms) as int),
        }
    }

    /// Whether the task with this identifier waits.
    pub open spec fn holds(self, id: TaskId) -> bool {
        holds_ready(self.ready, id) || holds_delayed(self.delayed, id)
    }

    /// The queue without the first task of this identifier.
    pub open spec fn removed(self, id: TaskId) -> QueueModel {
        if holds_ready(self.ready, id) {
            QueueModel { ready: without_ready(self.ready, id), ..self }
        } else {
            QueueModel { delayed: without_delayed(self.delayed, id), ..self }
        }
    }

    /// The earliest deadline.
    pub open spec fn next_deadline(self) -> Option<u64> {
        if self.delayed.len() == 0 {
            None
        } else {
            Some(self.delayed[0].0)
        }
    }
}

/// Number of tasks that a window of this budget may hold.
pub open spec fn window_size(budget: usize) -> nat {
    if budget == 0 {
        1
    } else {
        budget as nat
    }
}

/// Whether a task of this identifier is in the list.
pub open spec fn holds_ready(tasks: Seq<QueuedModel>, id: TaskId) -> bool {
    exists|i: int| 0 <= i < tasks.len() && #[trigger] tasks[i].id == id
}

/// Whether a delayed task of this identifier is in the list.
pub open spec fn holds_delayed(tasks: Seq<(u64, QueuedModel)>, id: TaskId) -> bool {
    exists|i: int| 0 <= i < tasks.len() && #[trigger] tasks[i].1.id == id
}

/// The list without its first task of this identifier.
pub open spec fn without_ready(tasks: Seq<QueuedModel>, id: TaskId) -> Seq<QueuedModel>
    decreases tasks.len(),
{
    if tasks.len() == 0 {
        tasks
    } else if tasks[0].id == id {
        tasks.drop_first()
    } else {
        seq![tasks[0]] + without_ready(tasks.drop_first(), id)
    }
}

/// The list without its first delayed task of this identifier.
pub open spec fn without_delayed(tasks: Seq<(u64, QueuedModel)>, id: TaskId) -> Seq<
    (u64, QueuedModel),
>
    decreases tasks.len(),
{
    if tasks.len() == 0 {
        tasks
    } else if tasks[0].1.id == id {
        tasks.drop_first()
    } else {
        seq![tasks[0]] + without_delayed(tasks.drop_first(), id)
    }
}

proof fn lemma_without_ready(tasks: Seq<QueuedModel>, id: TaskId, at: int)
    requires
        0 <= at < tasks.len(),
        tasks[at].id == id,
        forall|k: int| 0 <= k < at ==> (#[trigger] tasks[k]).id != id,
    ensures
        without_ready(tasks, id) == tasks.remove(at),
    decreases tasks.len(),
{
    if at == 0 {
        assert(tasks.drop_first() =~= tasks.remove(0));
    } else {
        assert(tasks[0].id != id);
        let rest = tasks.drop_first();
        assert forall|k: int| 0 <= k < at - 1 implies (#[trigger] rest[k]).id != id by {
            assert(tasks[k + 1].id != id);
        }
        lemma_without_ready(rest, id, at - 1);
        assert(seq![tasks[0]] + rest.remove(at - 1) =~= tasks.remove(at));
    }
}

proof fn lemma_without_delayed(tasks: Seq<(u64, QueuedModel)>, id: TaskId, at: int)
    requires
        0 <= at < tasks.len(),
        tasks[at].1.id == id,
        forall|k: int| 0 <= k < at ==> (#[trigger] tasks[k]).1.id != id,
    ensures
        without_delayed(tasks, id) == tasks.remove(at),
    decreases tasks.len(),
{
    if at == 0 {
        assert(tasks.drop_first() =~= tasks.remove(0));
    } else {
        assert(tasks[0].1.id != id);
        let rest = tasks.drop_first();
        assert forall|k: int| 0 <= k < at - 1 implies (#[trigger] rest[k]).1.id != id by {
            assert(tasks[k + 1].1.id != id);
        }
        lemma_without_delayed(rest, id, at - 1);
        assert(seq![tasks[0]] + rest.remove(at - 1) =~= tasks.remove(at));
    }
}

proof fn lemma_due(delayed: Seq<(u64, QueuedModel)>, limit: u64, at: int)
    requires
        0 <= at <= delayed.len(),
        forall|k: int| 0 <= k < at ==> (#[trigger] delayed[k]).0 <= limit,
        at < delayed.len() ==> delayed[at].0 > limit,
    ensures
        due(delayed, limit) == at,
    decreases delayed.len(),
{
    if at > 0 {
        assert(delayed[0].0 <= limit);
        let rest = delayed.drop_first();
        assert forall|k: int| 0 <= k < at - 1 implies (#[trigger] rest[k]).0 <= limit by {
            assert(delayed[k + 1].0 <= limit);
        }
        lemma_due(rest, limit, at - 1);
    }
}

proof fn lemma_earlier(delayed: Seq<(u64, QueuedModel)>, limit: u64, at: int)
    requires
        0 <= at <= delayed.len(),
        forall|k: int| 0 <= k < at ==> (#[trigger] delayed[k]).0 < limit,
        at < delayed.len() ==> delayed[at].0 >= limit,
    ensures
        earlier(delayed, limit) == at,
    decreases delayed.len(),
{
    if at > 0 {
        assert(delayed[0].0 < limit);
        let rest = delayed.drop_first();
        assert forall|k: int| 0 <= k < at - 1 implies (#[trigger] rest[k]).0 < limit by {
            assert(delayed[k + 1].0 < limit);
        }
        lemma_earlier(rest, limit, at - 1);
    }
}

/// What `due` and `earlier` count.
pub proof fn lemma_prefixes(delayed: Seq<(u64, QueuedModel)>, limit: u64)
    ensures
        due(delayed, limit) <= delayed.len(),
        earlier(delayed, limit) <= delayed.len(),
        forall|k: int| 0 <= k < due(delayed, limit) ==> (#[trigger] delayed[k]).0 <= limit,
        due(delayed, limit) < delayed.len() ==> delayed[due(delayed, limit) as int].0 > limit,
        forall|k: int| 0 <= k < earlier(delayed, limit) ==> (#[trigger] delayed[k]).0 < limit,
        earlier(delayed, limit) < delayed.len() ==> delayed[earlier(delayed, limit) as int].0
            >= limit,
    decreases delayed.len(),
{
    if delayed.len() > 0 {
        let rest = delayed.drop_first();
        lemma_prefixes(rest, limit);
        assert forall|k: int| 0 <= k < due(delayed, limit) implies (#[trigger] delayed[k]).0
            <= limit by {
            if k > 0 {
                assert(rest[k - 1] == delayed[k]);
            }
        }
        assert forall|k: int| 0 <= k < earlier(delayed, limit) implies (#[trigger] delayed[k]).0
            < limit by {
            if k > 0 {
                assert(rest[k - 1] == delayed[k]);
            }
        }
    }
}

/// Ready tasks, and retries in deadline order.
#[derive(Debug)]
struct QueueState {
    ready: VecDeque<QueuedTask>,
    delayed: VecDeque<(u64, QueuedTask)>,
}

impl View for QueueState {
    type V = QueueModel;

    closed spec fn view(&self) -> QueueModel {
        QueueModel {
            ready: queued_models(self.ready@),
            delayed: Seq::new(
                self.delayed@.len(),
                |i: int| (self.delayed@[i].0, self.delayed@[i].1@),
            ),
        }
    }
}

impl QueueState {
    /// Creates an empty scheduler queue.
    fn new() -> (queue: Self)
        ensures
            queue@ == QueueModel::empty(),
    {
        let queue = QueueState { ready: VecDeque::new(), delayed: VecDeque::new() };
        proof {
            assert(queue@ =~= QueueModel::empty());
        }
        queue
    }

    /// Adds a task to the ready queue or behind the retries of its deadline.
    fn push(&mut self, task: QueuedTask)
        ensures
            final(self)@ == old(self)@.pushed(task@),
    {
        let ghost before = self@;
        let ghost added = task@;
        match task.retry_not_before_ms {
            Some(deadline) => {
                let mut at: usize = 0;
                while at < self.delayed.len() && self.delayed[at].0 <= deadline
                    invariant
                        at <= self.delayed@.len(),
                        before == self@,
                        forall|k: int| 0 <= k < at ==> (#[trigger] before.delayed[k]).0 <= deadline,
                    decreases self.delayed@.len() - at,
                {
                    at = at + 1;
                }
                proof {
                    lemma_due(before.delayed, deadline, at as int);
                }
                self.delayed.insert(at, (deadline, task));
                proof {
                    assert(self@.delayed =~= before.delayed.insert(at as int, (deadline, added)));
                }
            },
            None => {
                self.ready.push_back(task);
                proof {
                    assert(self@.ready =~= before.ready.push(added));
                }
            },
        }
    }

    /// Takes at most `budget` due tasks in FIFO order for one scheduling pass.
    fn take_window(&mut self, budget: usize, now_ms: u64) -> (window: Vec<QueuedTask>)
        ensures
            queued_models(window@) == old(self)@.window(budget, now_ms),
            final(self)@ == old(self)@.after_window(budget, now_ms),
    {
        let ghost before = self@;
        let size: usize = if budget == 0 {
            1
        } else {
            budget
        };
        let mut window: Vec<QueuedTask> = Vec::new();
        proof {
            lemma_prefixes(before.delayed, now_ms);
            assert(before.delayed.skip(0) =~= before.delayed);
        }
        while window.len() < size && self.delayed.len() > 0 && self.delayed[0].0 <= now_ms
            invariant
                window@.len() <= size,
                size == window_size(budget),
                self@.ready == before.ready,
                window@.len() <= before.delayed.len(),
                self@.delayed == before.delayed.skip(window@.len() as int),
                queued_models(window@) =~= released_tasks(before.delayed, window@.len()),
                forall|k: int|
                    0 <= k < window@.len() ==> (#[trigger] before.delayed[k]).0 <= now_ms,
            decreases size - window@.len(),
        {
            let ghost taken = window@;
            let ghost head = self.delayed@[0];
            let ghost waiting = self@.delayed;
            proof {
                assert(self@.delayed.len() == self.delayed@.len());
                assert(before.delayed.skip(taken.len() as int)[0]
                    == before.delayed[taken.len() as int]);
            }
            match self.delayed.pop_front() {
                Some(entry) => {
                    let mut task = entry.1;
                    task.retry_not_before_ms = None;
                    window.push(task);
                    proof {
                        assert(self@.delayed =~= waiting.skip(1));
                        assert(waiting.skip(1) =~= before.delayed.skip(window@.len() as int));
                        assert(queued_models(window@) =~= queued_models(taken).push(
                            released(head.1@),
                        ));
                    }
                },
                None => {
                    proof {
                        assert(false);
                    }
                },
            }
        }
        let ghost from_delayed = window@;
        proof {
            let n = window@.len() as int;
            if n < size {
                if n < before.delayed.len() {
                    assert(self@.delayed[0] == before.delayed[n]);
                }
                lemma_due(before.delayed, now_ms, n);
            } else {
                lemma_due_at_least(before.delayed, now_ms, n);
            }
            assert(n == before.window_delayed(budget, now_ms));
            assert(before.ready.skip(0) =~= before.ready);
            assert(before.ready.take(0) =~= Seq::<QueuedModel>::empty());
        }
        while window.len() < size && self.ready.len() > 0
            invariant
                from_delayed.len() <= window@.len() <= size,
                size == window_size(budget),
                window@.len() - from_delayed.len() <= before.ready.len(),
                self@.delayed == before.delayed.skip(from_delayed.len() as int),
                self@.ready == before.ready.skip(window@.len() - from_delayed.len()),
                queued_models(window@) =~= queued_models(from_delayed) + before.ready.take(
                    window@.len() - from_delayed.len(),
                ),
            decreases size - window@.len(),
        {
            let ghost taken = window@;
            let ghost head = self.ready@[0];
            let ghost waiting = self@.ready;
            let ghost r = taken.len() - from_delayed.len();
            proof {
                assert(self@.ready.len() == self.ready@.len());
                assert(before.ready.skip(r)[0] == before.ready[r]);
            }
            match self.ready.pop_front() {
                Some(task) => {
                    window.push(task);
                    proof {
                        assert(self@.ready =~= waiting.skip(1));
                        assert(waiting.skip(1) =~= before.ready.skip(r + 1));
                        assert(before.ready.take(r + 1) =~= before.ready.take(r).push(
                            before.ready[r],
                        ));
                        assert(queued_models(window@) =~= queued_models(taken).push(head@));
                    }
                },
                None => {
                    proof {
                        assert(false);
                    }
                },
            }
        }
        proof {
            let r = window@.len() - from_delayed.len();
            assert(r == before.window_ready(budget, now_ms));
        }
        window
    }

    /// Restores unstarted tasks at the front while preserving their order.
    fn restore_front(&mut self, tasks: Vec<QueuedTask>)
        ensures
            final(self)@ == old(self)@.restored(queued_models(tasks@)),
    {
        let ghost all = queued_models(tasks@);
        let ghost target = self@.restored(all);
        let mut tasks = tasks;
        proof {
            assert(all.take(all.len() as int) =~= all);
        }
        while tasks.len() > 0
            invariant
                tasks@.len() <= all.len(),
                queued_models(tasks@) == all.take(tasks@.len() as int),
                self@.restored(all.take(tasks@.len() as int)) == target,
            decreases tasks@.len(),
        {
            let ghost n = tasks@.len() as int;
            let ghost before = self@;
            let ghost last = tasks@[n - 1];
            proof {
                assert(all.take(n).drop_last() =~= all.take(n - 1));
                assert(all.take(n).last() == last@) by {
                    assert(queued_models(tasks@)[n - 1] == last@);
                }
            }
            match tasks.pop() {
                Some(task) => {
                    proof {
                        assert(queued_models(tasks@) =~= all.take(n - 1)) by {
                            assert forall|k: int| 0 <= k < n - 1 implies queued_models(
                                tasks@,
                            )[k] == all.take(n - 1)[k] by {
                                assert(all.take(n)[k] == all[k]);
                            }
                        }
                    }
                    self.push_front(task);
                },
                None => {
                    proof {
                        assert(false);
                    }
                },
            }
        }
        proof {
            assert(all.take(0) =~= Seq::<QueuedModel>::empty());
        }
    }

    fn push_front(&mut self, task: QueuedTask)
        ensures
            final(self)@ == old(self)@.unshifted(task@),
    {
        let ghost before = self@;
        let ghost added = task@;
        match task.retry_not_before_ms {
            Some(deadline) => {
                let mut at: usize = 0;
                while at < self.delayed.len() && self.delayed[at].0 < deadline
                    invariant
                        at <= self.delayed@.len(),
                        before == self@,
                        forall|k: int| 0 <= k < at ==> (#[trigger] before.delayed[k]).0 < deadline,
                    decreases self.delayed@.len() - at,
                {
                    at = at + 1;
                }
                proof {
                    lemma_earlier(before.delayed, deadline, at as int);
                }
                self.delayed.insert(at, (deadline, task));
                proof {
                    assert(self@.delayed =~= before.delayed.insert(at as int, (deadline, added)));
                }
            },
            None => {
                self.ready.push_front(task);
                proof {
                    assert(self@.ready =~= seq![added] + before.ready);
                }
            },
        }
    }

    /// Removes one queued task by ID from either scheduling class.
    fn remove(&mut self, id: TaskId) -> (found: bool)
        ensures
            found == old(self)@.holds(id),
            final(self)@ == if found {
                old(self)@.removed(id)
            } else {
                old(self)@
            },
    {
        let ghost before = self@;
        let mut i: usize = 0;
        while i < self.ready.len()
            invariant
                i <= self.ready@.len(),
                self@ == before,
                before == old(self)@,
                forall|k: int| 0 <= k < i ==> (#[trigger] before.ready[k]).id != id,
            decreases self.ready@.len() - i,
        {
            if self.ready[i].id == id {
                proof {
                    assert(before.ready[i as int].id == id);
                    lemma_without_ready(before.ready, id, i as int);
                }
                let _removed = self.ready.remove(i);
                proof {
                    assert(self@.ready =~= before.ready.remove(i as int));
                    assert(self@.delayed =~= before.delayed);
                }
                return true;
            }
            i = i + 1;
        }
        let mut j: usize = 0;
        while j < self.delayed.len()
            invariant
                j <= self.delayed@.len(),
                self@ == before,
                before == old(self)@,
                !holds_ready(before.ready, id),
                forall|k: int| 0 <= k < j ==> (#[trigger] before.delayed[k]).1.id != id,
            decreases self.delayed@.len() - j,
        {
            if self.delayed[j].1.id == id {
                proof {
                    assert(before.delayed[j as int].1.id == id);
                    lemma_without_delayed(before.delayed, id, j as int);
                }
                let _removed = self.delayed.remove(j);
                proof {
                    assert(self@.delayed =~= before.delayed.remove(j as int));
                }
                return true;
            }
            j = j + 1;
        }
        false
    }

    /// Returns the earliest pending retry deadline.
    fn next_deadline(&self) -> (deadline: Option<u64>)
        ensures
            deadline == self@.next_deadline(),
    {
        if self.delayed.len() == 0 {
            None
        } else {
            Some(self.delayed[0].0)
        }
    }

    /// Returns whether no ready or delayed tasks are retained.
    fn is_empty(&self) -> (empty: bool)
        ensures
            empty == (self@.len() == 0),
    {
        self.ready.len() == 0 && self.delayed.len() == 0
    }

    /// Returns the number of tasks in both scheduling classes.
    fn len(&self) -> (len: usize)
        requires
            self@.len() <= usize::MAX,
        ensures
            len == self@.len(),
    {
        self.ready.len() + self.delayed.len()
    }
}

/// Queue of ready tasks and of retries that wait for their deadline. Retries
/// stand in deadline order under their own deadlines at all times.
#[derive(Debug)]
pub struct SchedulerQueue {
    state: QueueState,
}

impl View for SchedulerQueue {
    type V = QueueModel;

    closed spec fn view(&self) -> QueueModel {
        self.state@
    }
}

impl SchedulerQueue {
    #[verifier::type_invariant]
    closed spec fn ordered(self) -> bool {
        self.state@.valid()
    }

    /// Creates an empty scheduler queue.
    pub fn new() -> (queue: Self)
        ensures
            queue@ == QueueModel::empty(),
            queue@.valid(),
    {
        SchedulerQueue { state: QueueState::new() }
    }

    /// Adds a task to the ready queue or behind the retries of its deadline.
    pub fn push(&mut self, task: QueuedTask)
        ensures
            old(self)@.valid(),
            final(self)@.valid(),
            final(self)@ == old(self)@.pushed(task@),
    {
        proof {
            use_type_invariant(&*self);
            law_pushing_keeps_queues_valid(self@, task@);
        }
        let mut state = QueueState::new();
        std::mem::swap(&mut state, &mut self.state);
        state.push(task);
        std::mem::swap(&mut state, &mut self.state);
    }

    /// Takes at most `budget` due tasks in FIFO order for one scheduling pass.
    pub fn take_window(&mut self, budget: usize, now_ms: u64) -> (window: Vec<QueuedTask>)
        ensures
            old(self)@.valid(),
            final(self)@.valid(),
            queued_models(window@) == old(self)@.window(budget, now_ms),
            forall|i: int|
                0 <= i < window@.len() ==> (#[trigger] window@[i]).retry_not_before_ms is None,
            final(self)@ == old(self)@.after_window(budget, now_ms),
    {
        proof {
            use_type_invariant(&*self);
            lemma_after_window_valid(self@, budget, now_ms);
        }
        let mut state = QueueState::new();
        std::mem::swap(&mut state, &mut self.state);
        let window = state.take_window(budget, now_ms);
        proof {
            assert forall|i: int| 0 <= i < window@.len() implies (
            #[trigger] window@[i]).retry_not_before_ms is None by {
                assert(queued_models(window@)[i].retry_not_before_ms is None);
            }
        }
        std::mem::swap(&mut state, &mut self.state);
        window
    }

    /// Restores unstarted tasks at the front while preserving their order.
    pub fn restore_front(&mut self, tasks: Vec<QueuedTask>)
        ensures
            old(self)@.valid(),
            final(self)@.valid(),
            final(self)@ == old(self)@.restored(queued_models(tasks@)),
    {
        proof {
            use_type_invariant(&*self);
            lemma_restored_valid(self@, queued_models(tasks@));
        }
        let mut state = QueueState::new();
        std::mem::swap(&mut state, &mut self.state);
        state.restore_front(tasks);
        std::mem::swap(&mut state, &mut self.state);
    }

    /// Removes one queued task by ID from either scheduling class.
    pub fn remove(&mut self, id: TaskId) -> (found: bool)
        ensures
            old(self)@.valid(),
            final(self)@.valid(),
            found == old(self)@.holds(id),
            final(self)@ == if found {
                old(self)@.removed(id)
            } else {
                old(self)@
            },
    {
        proof {
            use_type_invariant(&*self);
            lemma_removed_valid(self@, id);
        }
        let mut state = QueueState::new();
        std::mem::swap(&mut state, &mut self.state);
        let found = state.remove(id);
        std::mem::swap(&mut state, &mut self.state);
        found
    }

    /// Returns the earliest pending retry deadline.
    pub fn next_deadline(&self) -> (deadline: Option<u64>)
        ensures
            self@.valid(),
            deadline == self@.next_deadline(),
    {
        proof {
            use_type_invariant(self);
        }
        self.state.next_deadline()
    }

    /// Returns whether no ready or delayed tasks are retained.
    pub fn is_empty(&self) -> (empty: bool)
        ensures
            empty == (self@.len() == 0),
    {
        self.state.is_empty()
    }

    /// Returns the number of tasks in both scheduling classes.
    pub fn len(&self) -> (len: usize)
        requires
            self@.len() <= usize::MAX,
        ensures
            len == self@.len(),
    {
        self.state.len()
    }
}

/// Taking a window leaves a queue valid, and nothing in it has a deadline.
proof fn lemma_after_window_valid(queue: QueueModel, budget: usize, now_ms: u64)
    requires
        queue.valid(),
    ensures
        queue.after_window(budget, now_ms).valid(),
        forall|i: int|
            0 <= i < queue.window(budget, now_ms).len() ==> (#[trigger] queue.window(
                budget,
                now_ms,
            )[i]).retry_not_before_ms is None,
{
    lemma_prefixes(queue.delayed, now_ms);
    let n = queue.window_delayed(budget, now_ms) as int;
    let left = queue.after_window(budget, now_ms);
    assert forall|i: int, j: int| 0 <= i < j < left.delayed.len() implies (
    #[trigger] left.delayed[i]).0 <= (#[trigger] left.delayed[j]).0 by {
        assert(queue.delayed[i + n].0 <= queue.delayed[j + n].0);
    }
    assert forall|i: int| 0 <= i < left.delayed.len() implies (
    #[trigger] left.delayed[i]).1.retry_not_before_ms == Some(left.delayed[i].0) by {
        assert(left.delayed[i] == queue.delayed[i + n]);
    }
    let r = queue.window_ready(budget, now_ms) as int;
    assert forall|i: int| 0 <= i < left.ready.len() implies (
    #[trigger] left.ready[i]).retry_not_before_ms is None by {
        assert(left.ready[i] == queue.ready[i + r]);
    }
    let window = queue.window(budget, now_ms);
    assert forall|i: int| 0 <= i < window.len() implies (
    #[trigger] window[i]).retry_not_before_ms is None by {
        if i >= n {
            assert(window[i] == queue.ready[i - n]);
        }
    }
}

/// Putting tasks back leaves a queue valid.
proof fn lemma_restored_valid(queue: QueueModel, tasks: Seq<QueuedModel>)
    requires
        queue.valid(),
    ensures
        queue.restored(tasks).valid(),
    decreases tasks.len(),
{
    if tasks.len() > 0 {
        law_pushing_keeps_queues_valid(queue, tasks.last());
        lemma_restored_valid(queue.unshifted(tasks.last()), tasks.drop_last());
    }
}

/// Finds the first ready task of an identifier.
proof fn lemma_first_ready(tasks: Seq<QueuedModel>, id: TaskId, from: int) -> (at: int)
    requires
        0 <= from <= tasks.len(),
        holds_ready(tasks, id),
        forall|k: int| 0 <= k < from ==> (#[trigger] tasks[k]).id != id,
    ensures
        0 <= at < tasks.len(),
        tasks[at].id == id,
        forall|k: int| 0 <= k < at ==> (#[trigger] tasks[k]).id != id,
    decreases tasks.len() - from,
{
    if tasks[from].id == id {
        from
    } else {
        lemma_first_ready(tasks, id, from + 1)
    }
}

/// Finds the first delayed task of an identifier.
proof fn lemma_first_delayed(tasks: Seq<(u64, QueuedModel)>, id: TaskId, from: int) -> (at: int)
    requires
        0 <= from <= tasks.len(),
        holds_delayed(tasks, id),
        forall|k: int| 0 <= k < from ==> (#[trigger] tasks[k]).1.id != id,
    ensures
        0 <= at < tasks.len(),
        tasks[at].1.id == id,
        forall|k: int| 0 <= k < at ==> (#[trigger] tasks[k]).1.id != id,
    decreases tasks.len() - from,
{
    if tasks[from].1.id == id {
        from
    } else {
        lemma_first_delayed(tasks, id, from + 1)
    }
}

/// Removing a task leaves a queue valid.
proof fn lemma_removed_valid(queue: QueueModel, id: TaskId)
    requires
        queue.valid(),
    ensures
        queue.holds(id) ==> queue.removed(id).valid(),
{
    if holds_ready(queue.ready, id) {
        let at = lemma_first_ready(queue.ready, id, 0);
        lemma_without_ready(queue.ready, id, at);
        let left = queue.removed(id);
        assert forall|i: int| 0 <= i < left.ready.len() implies (
        #[trigger] left.ready[i]).retry_not_before_ms is None by {
            let x = if i < at {
                i
            } else {
                i + 1
            };
            assert(left.ready[i] == queue.ready[x]);
        }
    } else if holds_delayed(queue.delayed, id) {
        let at = lemma_first_delayed(queue.delayed, id, 0);
        lemma_without_delayed(queue.delayed, id, at);
        let left = queue.removed(id);
        assert(left.delayed == queue.delayed.remove(at));
        assert forall|i: int, j: int| 0 <= i < j < left.delayed.len() implies (
        #[trigger] left.delayed[i]).0 <= (#[trigger] left.delayed[j]).0 by {
            let x = if i < at {
                i
            } else {
                i + 1
            };
            let y = if j < at {
                j
            } else {
                j + 1
            };
            assert(queue.delayed[x].0 <= queue.delayed[y].0);
        }
        assert forall|i: int| 0 <= i < left.delayed.len() implies (
        #[trigger] left.delayed[i]).1.retry_not_before_ms == Some(left.delayed[i].0) by {
            let x = if i < at {
                i
            } else {
                i + 1
            };
            assert(left.delayed[i] == queue.delayed[x]);
        }
    }
}

/// No more entries are due than there are.
pub proof fn lemma_due_bounds(delayed: Seq<(u64, QueuedModel)>, limit: u64)
    ensures
        due(delayed, limit) <= delayed.len(),
    decreases delayed.len(),
{
    if delayed.len() > 0 && delayed[0].0 <= limit {
        lemma_due_bounds(delayed.drop_first(), limit);
    }
}

proof fn lemma_due_at_least(delayed: Seq<(u64, QueuedModel)>, limit: u64, n: int)
    requires
        0 <= n <= delayed.len(),
        forall|k: int| 0 <= k < n ==> (#[trigger] delayed[k]).0 <= limit,
    ensures
        due(delayed, limit) >= n,
    decreases delayed.len(),
{
    if n > 0 {
        assert(delayed[0].0 <= limit);
        let rest = delayed.drop_first();
        assert forall|k: int| 0 <= k < n - 1 implies (#[trigger] rest[k]).0 <= limit by {
            assert(delayed[k + 1].0 <= limit);
        }
        lemma_due_at_least(rest, limit, n - 1);
    }
}

/// Putting back a window of ready tasks undoes taking it.
pub proof fn law_restoring_a_ready_window_undoes_it(queue: QueueModel, budget: usize, now_ms: u64)
    requires
        queue.valid(),
        queue.window_delayed(budget, now_ms) == 0,
    ensures
        queue.after_window(budget, now_ms).restored(queue.window(budget, now_ms)) == queue,
{
    let n = queue.window_ready(budget, now_ms) as int;
    let rest = queue.after_window(budget, now_ms);
    assert(queue.window(budget, now_ms) =~= queue.ready.take(n));
    assert(rest.delayed =~= queue.delayed);
    assert forall|i: int| 0 <= i < n implies (#[trigger] queue.ready.take(
        n,
    )[i]).retry_not_before_ms is None by {
        assert(queue.ready[i].retry_not_before_ms is None);
    }
    lemma_restored_ready(rest, queue.ready.take(n));
    assert(queue.ready.take(n) + queue.ready.skip(n) =~= queue.ready);
}

/// Tasks without a deadline come back in front of all ready tasks, in order.
pub proof fn lemma_restored_ready(queue: QueueModel, tasks: Seq<QueuedModel>)
    requires
        forall|i: int|
            0 <= i < tasks.len() ==> (#[trigger] tasks[i]).retry_not_before_ms is None,
    ensures
        queue.restored(tasks) == (QueueModel { ready: tasks + queue.ready, ..queue }),
    decreases tasks.len(),
{
    if tasks.len() == 0 {
        assert(tasks + queue.ready =~= queue.ready);
    } else {
        let init = tasks.drop_last();
        assert(tasks[tasks.len() - 1].retry_not_before_ms is None);
        assert forall|i: int| 0 <= i < init.len() implies (
        #[trigger] init[i]).retry_not_before_ms is None by {
            assert(tasks[i].retry_not_before_ms is None);
        }
        lemma_restored_ready(queue.unshifted(tasks.last()), init);
        assert(init + (seq![tasks.last()] + queue.ready) =~= tasks + queue.ready);
    }
}

/// Pushing, restoring, taking and removing account for every task.
pub proof fn law_queue_accounts_for_every_task(
    queue: QueueModel,
    task: QueuedModel,
    tasks: Seq<QueuedModel>,
    budget: usize,
    now_ms: u64,
    id: TaskId,
)
    ensures
        queue.pushed(task).len() == queue.len() + 1,
        queue.restored(tasks).len() == queue.len() + tasks.len(),
        queue.after_window(budget, now_ms).len() + queue.window(budget, now_ms).len()
            == queue.len(),
        queue.window(budget, now_ms).len() <= window_size(budget),
        queue.holds(id) ==> queue.removed(id).len() == queue.len() - 1,
{
    lemma_prefixes(queue.delayed, now_ms);
    if task.retry_not_before_ms is Some {
        lemma_prefixes(queue.delayed, task.retry_not_before_ms->0);
    }
    lemma_restored_len(queue, tasks);
    lemma_without_len(queue, id);
}

proof fn lemma_restored_len(queue: QueueModel, tasks: Seq<QueuedModel>)
    ensures
        queue.restored(tasks).len() == queue.len() + tasks.len(),
    decreases tasks.len(),
{
    if tasks.len() > 0 {
        if tasks.last().retry_not_before_ms is Some {
            lemma_prefixes(queue.delayed, tasks.last().retry_not_before_ms->0);
        }
        lemma_restored_len(queue.unshifted(tasks.last()), tasks.drop_last());
    }
}

proof fn lemma_without_len(queue: QueueModel, id: TaskId)
    ensures
        queue.holds(id) ==> queue.removed(id).len() == queue.len() - 1,
{
    if holds_ready(queue.ready, id) {
        lemma_without_ready_len(queue.ready, id);
    } else if holds_delayed(queue.delayed, id) {
        lemma_without_delayed_len(queue.delayed, id);
    }
}

proof fn lemma_without_ready_len(tasks: Seq<QueuedModel>, id: TaskId)
    requires
        holds_ready(tasks, id),
    ensures
        without_ready(tasks, id).len() == tasks.len() - 1,
    decreases tasks.len(),
{
    if tasks[0].id != id {
        let i = choose|i: int| 0 <= i < tasks.len() && #[trigger] tasks[i].id == id;
        assert(tasks.drop_first()[i - 1].id == id);
        lemma_without_ready_len(tasks.drop_first(), id);
    }
}

proof fn lemma_without_delayed_len(tasks: Seq<(u64, QueuedModel)>, id: TaskId)
    requires
        holds_delayed(tasks, id),
    ensures
        without_delayed(tasks, id).len() == tasks.len() - 1,
    decreases tasks.len(),
{
    if tasks[0].1.id != id {
        let i = choose|i: int| 0 <= i < tasks.len() && #[trigger] tasks[i].1.id == id;
        assert(tasks.drop_first()[i - 1].1.id == id);
        lemma_without_delayed_len(tasks.drop_first(), id);
    }
}

/// Pushing keeps retries in deadline order, so that the first one is the next
/// to become due, and ready tasks apart from them.
pub proof fn law_pushing_keeps_queues_valid(queue: QueueModel, task: QueuedModel)
    requires
        queue.valid(),
    ensures
        queue.pushed(task).valid(),
        queue.unshifted(task).valid(),
{
    if task.retry_not_before_ms is Some {
        let deadline = task.retry_not_before_ms->0;
        lemma_prefixes(queue.delayed, deadline);
        let a = queue.pushed(task);
        let at = due(queue.delayed, deadline) as int;
        assert forall|i: int, j: int| 0 <= i < j < a.delayed.len() implies (
        #[trigger] a.delayed[i]).0 <= (#[trigger] a.delayed[j]).0 by {
            lemma_insert_order(queue.delayed, at, (deadline, task), i, j);
        }
        let b = queue.unshifted(task);
        let bt = earlier(queue.delayed, deadline) as int;
        assert forall|i: int, j: int| 0 <= i < j < b.delayed.len() implies (
        #[trigger] b.delayed[i]).0 <= (#[trigger] b.delayed[j]).0 by {
            lemma_insert_order(queue.delayed, bt, (deadline, task), i, j);
        }
        lemma_insert_deadlines(queue.delayed, at, (deadline, task));
        lemma_insert_deadlines(queue.delayed, bt, (deadline, task));
    }
}

proof fn lemma_insert_deadlines(
    delayed: Seq<(u64, QueuedModel)>,
    at: int,
    entry: (u64, QueuedModel),
)
    requires
        0 <= at <= delayed.len(),
        forall|i: int|
            0 <= i < delayed.len() ==> (#[trigger] delayed[i]).1.retry_not_before_ms == Some(
                delayed[i].0,
            ),
        entry.1.retry_not_before_ms == Some(entry.0),
    ensures
        forall|i: int|
            0 <= i <= delayed.len() ==> (#[trigger] delayed.insert(
                at,
                entry,
            )[i]).1.retry_not_before_ms == Some(delayed.insert(at, entry)[i].0),
{
    let more = delayed.insert(at, entry);
    assert forall|i: int| 0 <= i <= delayed.len() implies (
    #[trigger] more[i]).1.retry_not_before_ms == Some(more[i].0) by {
        if i < at {
            assert(more[i] == delayed[i]);
        } else if i > at {
            assert(more[i] == delayed[i - 1]);
        }
    }
}

proof fn lemma_insert_order(
    delayed: Seq<(u64, QueuedModel)>,
    at: int,
    entry: (u64, QueuedModel),
    i: int,
    j: int,
)
    requires
        0 <= at <= delayed.len(),
        forall|x: int, y: int|
            0 <= x < y < delayed.len() ==> (#[trigger] delayed[x]).0 <= (#[trigger] delayed[y]).0,
        forall|k: int| 0 <= k < at ==> (#[trigger] delayed[k]).0 <= entry.0,
        at < delayed.len() ==> delayed[at].0 >= entry.0,
        0 <= i < j <= delayed.len(),
    ensures
        delayed.insert(at, entry)[i].0 <= delayed.insert(at, entry)[j].0,
{
    let x = if i < at {
        i
    } else {
        i - 1
    };
    let y = if j < at {
        j
    } else {
        j - 1
    };
    if i == at {
        if y > at {
            assert(delayed[at].0 <= delayed[y].0);
        }
    } else if j == at {
        assert(delayed[x].0 <= entry.0);
    } else {
        assert(delayed[x].0 <= delayed[y].0);
    }
}

/// Due retries leave by deadline: a window takes the earliest of them, in
/// deadline order, and none that is not due.
pub proof fn law_due_retries_leave_by_deadline(
    queue: QueueModel,
    budget: usize,
    now_ms: u64,
    i: int,
    j: int,
)
    requires
        queue.valid(),
        0 <= i < queue.window_delayed(budget, now_ms),
        i <= j < queue.delayed.len(),
    ensures
        queue.window(budget, now_ms)[i] == released(queue.delayed[i].1),
        queue.delayed[i].0 <= now_ms,
        queue.delayed[i].0 <= queue.delayed[j].0,
{
    lemma_prefixes(queue.delayed, now_ms);
    if i < j {
        assert(queue.delayed[i].0 <= queue.delayed[j].0);
    }
}

/// In deadline order no retry is due before the next deadline.
pub proof fn law_nothing_is_due_before_the_next_deadline(queue: QueueModel, i: int)
    requires
        queue.valid(),
        0 <= i < queue.delayed.len(),
    ensures
        queue.next_deadline() is Some,
        queue.next_deadline()->0 <= queue.delayed[i].0,
{
    if i > 0 {
        assert(queue.delayed[0].0 <= queue.delayed[i].0);
    }
}

} // verus!
