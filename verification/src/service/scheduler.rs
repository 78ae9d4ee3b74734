//! One pass of the scheduler over a window of waiting tasks.
//!
//! The pass is driven from outside: each method takes what a store, an engine
//! or a handler registry answered and says what to ask next.

use vstd::prelude::*;

use super::admission_gate::Phase;
use super::control::command_for;
use super::control::make_command;
use super::service_core::CoreModel;
use super::service_core::ServiceCore;
use super::service_core::StoreFault;
use crate::engine::EngineError;
use crate::handler::TaskHandlerRegistry;
use crate::model::task_record::CommandModel;
use crate::model::task_record::LifeModel;
use crate::model::task_record::RecordModel;
use crate::model::task_record::StateModel;
use crate::model::task_request::MAX_TASK_DIAGNOSTIC_MESSAGE_BYTES;
use crate::model::TaskId;
use crate::model::TaskRecord;
use crate::model::TaskState;
use crate::model::TransitionCommand;
use crate::scheduling::fair_fifo::copy_queued;
use crate::scheduling::fair_fifo::queued_models;
use crate::scheduling::fair_fifo::QueuedModel;
use crate::scheduling::QueueSnapshot;
use crate::scheduling::QueuedTask;
use crate::store::StoreError;
use crate::text::copy_texts;
use crate::text::join2;
use crate::text::join3;
use crate::text::texts;
use crate::text::truncate_utf8;
use crate::text::truncated;

verus! {

/// One pass over a window of waiting tasks.
#[derive(Debug)]
pub struct SchedulerRound {
    tasks: Vec<QueuedTask>,
    positions: Vec<TaskId>,
    activated: Vec<usize>,
    order: Vec<TaskId>,
    next: usize,
    started: bool,
}

/// Content of a [`SchedulerRound`].
#[verifier::ext_equal]
pub struct RoundModel {
    /// Window tasks that were not picked, and those that were put back.
    pub tasks: Seq<QueuedModel>,
    /// Identifiers of the window in their original order.
    pub positions: Seq<TaskId>,
    /// Original positions of the tasks that started.
    pub activated: Seq<usize>,
    /// Candidates in the order that the policy prefers.
    pub order: Seq<TaskId>,
    /// How many candidates were considered.
    pub next: nat,
    /// Whether an attempt runs that was started in this pass.
    pub started: bool,
}

impl View for SchedulerRound {
    type V = RoundModel;

    closed spec fn view(&self) -> RoundModel {
        RoundModel {
            tasks: queued_models(self.tasks@),
            positions: self.positions@,
            activated: self.activated@,
            order: self.order@,
            next: self.next as nat,
            started: self.started,
        }
    }
}

/// How a pass begins.
#[derive(Debug)]
pub enum RoundStart {
    /// The scheduler ends.
    Stop,
    /// Nothing is due: wait for a change or for the deadline.
    Idle {
        /// Earliest pending retry deadline.
        deadline: Option<u64>,
    },
    /// These tasks are due.
    Run(SchedulerRound),
}

/// What a pass asks next.
#[derive(Debug)]
pub enum CandidateStep<S> {
    /// Read the task.
    Load(QueuedTask),
    /// Find the handler of the task.
    Resolve {
        /// The candidate.
        task: QueuedTask,
        /// Its record.
        record: TaskRecord,
    },
    /// Reserve an execution slot and the task's resources.
    Prepare {
        /// The candidate.
        task: QueuedTask,
        /// Its record.
        record: TaskRecord,
    },
    /// Apply this command that blocks the task.
    Block {
        /// The candidate.
        task: QueuedTask,
        /// The command.
        command: TransitionCommand,
    },
    /// Apply this command that starts the task.
    Start {
        /// The candidate.
        task: QueuedTask,
        /// The command.
        command: TransitionCommand,
    },
    /// Run the handler of this started attempt.
    Activate(TaskRecord),
    /// Go on with the next candidate.
    Next {
        /// Where to send the final state of a process-local task.
        finalize: Option<(S, TaskState)>,
    },
    /// Consider no more candidates.
    Finish,
    /// The scheduler ends; unstarted tasks are back in the queue.
    Stop {
        /// A storage fault recorded on the way.
        fault: Option<StoreFault<S>>,
    },
}

/// What follows a failed activation.
#[derive(Debug)]
pub enum ActivationStep<S> {
    /// Apply this command that blocks the task.
    Block {
        /// The record that the command is for.
        record: TaskRecord,
        /// The command.
        command: TransitionCommand,
    },
    /// The task changed meanwhile: read it again.
    Reload,
    /// Go on with the next candidate.
    Next {
        /// Where to send the final state of a process-local task.
        finalize: Option<(S, TaskState)>,
    },
    /// The scheduler ends; unstarted tasks are back in the queue.
    Stop {
        /// The storage fault that was recorded.
        fault: StoreFault<S>,
    },
}

/// What follows the read of a task whose attempt was activated.
#[derive(Debug)]
pub enum ConfirmStep<S> {
    /// The attempt runs; observe its end.
    Running {
        /// Whether cancellation was requested before the attempt was known.
        signal: bool,
    },
    /// The scheduler ends; unstarted tasks are back in the queue.
    Stop {
        /// The storage fault that was recorded.
        fault: StoreFault<S>,
    },
}

impl RoundModel {
    /// Whether the window still holds the task.
    pub open spec fn holds(self, id: TaskId) -> bool {
        exists|i: int| 0 <= i < self.tasks.len() && #[trigger] self.tasks[i].id == id
    }

    /// The window with a task put back at its end.
    pub open spec fn put_back(self, task: QueuedModel) -> RoundModel {
        RoundModel { tasks: self.tasks.push(task), ..self }
    }

    /// The pass after its tasks were handed back.
    pub open spec fn emptied(self) -> RoundModel {
        RoundModel { tasks: Seq::empty(), ..self }
    }

    /// How often the policy's candidates from `from` on are unknown before one
    /// is found in the window.
    pub open spec fn upcoming(self, from: nat) -> nat
        decreases self.order.len() - from,
    {
        if from >= self.order.len() || self.holds(self.order[from as int]) {
            from
        } else {
            self.upcoming(from + 1)
        }
    }

    /// Whether a task stood at `i` in the window. Where a window names a task
    /// more than once, its last place counts.
    pub open spec fn stood_at(self, id: TaskId, i: int) -> bool {
        &&& 0 <= i < self.positions.len()
        &&& self.positions[i] == id
        &&& forall|k: int| i < k < self.positions.len() ==> self.positions[k] != id
    }

    /// Whether a task that started stood behind this one in the window.
    pub open spec fn was_bypassed(self, id: TaskId) -> bool {
        exists|i: int, k: int| #[trigger]
            self.stood_at(id, i) && 0 <= k < self.activated.len() && i
                < #[trigger] self.activated[k]
    }

    /// A task left in the window after the pass.
    pub open spec fn aged(self, task: QueuedModel) -> QueuedModel {
        if self.was_bypassed(task.id) {
            QueuedModel {
                bypasses: if task.bypasses == u32::MAX {
                    u32::MAX
                } else {
                    (task.bypasses + 1) as u32
                },
                ..task
            }
        } else {
            task
        }
    }

    /// The tasks left in the window after the pass.
    pub open spec fn leftover(self) -> Seq<QueuedModel> {
        Seq::new(self.tasks.len(), |i: int| self.aged(self.tasks[i]))
    }
}

impl<H, S, C> CoreModel<H, S, C> {
    /// The service after tasks came back in front of the queue.
    pub open spec fn regained(self, tasks: Seq<QueuedModel>) -> Self {
        CoreModel { queue: self.queue.restored(tasks), ..self }
    }

    /// The service after a handler was dropped.
    pub open spec fn unhandled(self, id: TaskId) -> Self {
        CoreModel { handlers: self.handlers.remove(id.0), ..self }
    }
}

/// Where the final state of a process-local task goes.
pub open spec fn delivery<H, S, C>(
    core: CoreModel<H, S, C>,
    id: TaskId,
    state: StateModel,
    finalize: Option<(S, TaskState)>,
) -> bool {
    match finalize {
        Some((sender, told)) => core.sender(id) == Some(sender) && told@ == state,
        None => core.sender(id) is None,
    }
}

/// The command that blocks a task for a reason.
pub open spec fn block_command(life: LifeModel, reason: Seq<char>) -> CommandModel {
    command_for(
        life,
        StateModel::Blocked {
            reason: truncated(reason, MAX_TASK_DIAGNOSTIC_MESSAGE_BYTES as nat),
        },
        None,
        None,
        Seq::empty(),
        life.cancel_requested,
    )
}

/// Creates the command that blocks a task for a reason.
pub fn make_block_command(record: &TaskRecord, reason: &str) -> (command: TransitionCommand)
    ensures
        command@ == block_command(record@.life, reason@),
{
    let nothing: Vec<String> = Vec::new();
    proof {
        assert(texts(nothing@) =~= Seq::<Seq<char>>::empty());
    }
    make_command(
        record,
        TaskState::Blocked { reason: truncate_utf8(reason, MAX_TASK_DIAGNOSTIC_MESSAGE_BYTES) },
        None,
        None,
        nothing,
        record.cancel_requested,
    )
}

/// Why a task without a handler is blocked.
pub open spec fn missing_handler(record: RecordModel) -> Seq<char> {
    "missing handler "@ + record.request.info.task_type + "@"@ + record.request.info.handler_version
}

/// Why a task whose activation failed is blocked.
pub open spec fn activation_failure(error: EngineError) -> Seq<char> {
    "engine activation failed: "@ + error.text()
}

/// What beginning a pass leads to.
pub open spec fn round_start_post<H, S, C>(
    before: CoreModel<H, S, C>,
    after: CoreModel<H, S, C>,
    now_ms: u64,
    start: RoundStart,
) -> bool {
    let budget = before.settings.scan_budget;
    let window = before.queue.window(budget, now_ms);
    let rest = CoreModel { queue: before.queue.after_window(budget, now_ms), ..before };
    if before.fault is Some {
        start is Stop && after == before
    } else if window.len() == 0 {
        &&& after == rest
        &&& if before.gate.phase == Phase::Closed && rest.queue.len() == 0 {
            start is Stop
        } else {
            start matches RoundStart::Idle { deadline } && deadline == rest.queue.next_deadline()
        }
    } else {
        &&& start matches RoundStart::Run(round) && round@ == (RoundModel {
            tasks: window,
            positions: Seq::new(window.len(), |i: int| window[i].id),
            activated: Seq::empty(),
            order: Seq::empty(),
            next: 0,
            started: false,
        })
        &&& after == rest
    }
}

/// What asking for the next candidate leads to.
pub open spec fn next_post<H, S, C>(
    core: CoreModel<H, S, C>,
    after: CoreModel<H, S, C>,
    round: RoundModel,
    left: RoundModel,
    step: CandidateStep<S>,
) -> bool {
    let at = round.upcoming(round.next);
    if round.next >= round.order.len() {
        step is Finish && after == core && left == round
    } else if core.fault is Some {
        &&& step matches CandidateStep::Stop { fault } && fault is None
        &&& after == core.regained(round.tasks)
        &&& left == round.emptied()
    } else if at >= round.order.len() {
        step is Finish && after == core && left == (RoundModel { next: at, ..round })
    } else {
        &&& after == core
        &&& step matches CandidateStep::Load(task) && exists|i: int|
            {
                &&& 0 <= i < round.tasks.len()
                &&& #[trigger] round.tasks[i] == task@
                &&& task@.id == round.order[at as int]
                &&& forall|k: int| 0 <= k < i ==> (#[trigger] round.tasks[k]).id != task@.id
                &&& left == (RoundModel {
                    tasks: round.tasks.remove(i),
                    next: at + 1,
                    ..round
                })
            }
    }
}

/// What reading a candidate leads to.
pub open spec fn loaded_post<H, S, C>(
    core: CoreModel<H, S, C>,
    after: CoreModel<H, S, C>,
    round: RoundModel,
    left: RoundModel,
    task: QueuedModel,
    found: Result<Option<TaskRecord>, StoreError>,
    now_ms: u64,
    step: CandidateStep<S>,
) -> bool {
    match found {
        Ok(None) => {
            &&& step matches CandidateStep::Next { finalize } && finalize is None
            &&& after == core.slot_freed().unhandled(task.id)
            &&& left == round
        },
        Err(error) => {
            &&& step matches CandidateStep::Stop { fault } && fault matches Some(asked)
                && core.asks(error@.message(), asked)
            &&& after == core.faulted(error@.message()).regained(round.put_back(task).tasks)
            &&& left == round.emptied()
        },
        Ok(Some(record)) => {
            let life = record@.life;
            if core.fault is Some {
                &&& step matches CandidateStep::Stop { fault } && fault is None
                &&& after == core.regained(round.put_back(task).tasks)
                &&& left == round.emptied()
            } else if life.state is Queued && life.retry_not_before_ms is Some
                && life.retry_not_before_ms->0 > now_ms {
                &&& step matches CandidateStep::Next { finalize } && finalize is None
                &&& after == core
                &&& left == round.put_back(
                    QueuedModel { retry_not_before_ms: life.retry_not_before_ms, ..task },
                )
            } else if life.state is Queued {
                &&& step matches CandidateStep::Resolve { task: kept, record: read } && kept@
                    == task && read@ == record@
                &&& after == core
                &&& left == round
            } else if life.state is Running {
                &&& step matches CandidateStep::Next { finalize } && finalize is None
                &&& after == core.slot_freed().unhandled(task.id)
                &&& left == round
            } else {
                &&& step matches CandidateStep::Next { finalize } && delivery(
                    core,
                    task.id,
                    life.state,
                    finalize,
                )
                &&& after == core.slot_freed().unhandled(task.id).unsent(task.id)
                &&& left == round
            }
        },
    }
}

/// What the store's answer to a blocking command leads to.
pub open spec fn blocked_post<H, S, C>(
    core: CoreModel<H, S, C>,
    after: CoreModel<H, S, C>,
    round: RoundModel,
    left: RoundModel,
    task: QueuedModel,
    updated: Result<TaskRecord, StoreError>,
    step: CandidateStep<S>,
) -> bool {
    match updated {
        Ok(record) => {
            &&& step matches CandidateStep::Next { finalize } && delivery(
                core,
                record@.life.id,
                record@.life.state,
                finalize,
            )
            &&& after == core.unsent(record@.life.id).slot_freed()
            &&& left == round
        },
        Err(error) => if error@ is NotFound {
            &&& step matches CandidateStep::Next { finalize } && finalize is None
            &&& after == core.slot_freed()
            &&& left == round
        } else if error@ is Conflict {
            &&& step matches CandidateStep::Next { finalize } && finalize is None
            &&& after == core
            &&& left == round.put_back(task)
        } else {
            &&& step matches CandidateStep::Stop { fault } && fault matches Some(asked)
                && core.asks(error@.message(), asked)
            &&& after == core.faulted(error@.message()).regained(round.put_back(task).tasks)
            &&& left == round.emptied()
        },
    }
}

/// What the engine's answer to a reservation leads to.
pub open spec fn prepared_post<H, S, C>(
    core: CoreModel<H, S, C>,
    after: CoreModel<H, S, C>,
    round: RoundModel,
    left: RoundModel,
    task: QueuedModel,
    record: RecordModel,
    assigned: Result<Seq<Seq<char>>, EngineError>,
    step: CandidateStep<S>,
) -> bool {
    match assigned {
        Err(EngineError::TemporarilyUnavailable) => {
            &&& step matches CandidateStep::Next { finalize } && finalize is None
            &&& after == core
            &&& left == round.put_back(task)
        },
        Err(EngineError::Unsatisfiable) => {
            &&& step matches CandidateStep::Block { task: kept, command } && kept@ == task
                && command@ == block_command(record.life, "resource request is unsatisfiable"@)
            &&& after == core
            &&& left == round
        },
        Err(EngineError::Closed) => {
            &&& step is Finish
            &&& after == core
            &&& left == round.put_back(task)
        },
        Ok(devices) => if core.fault is Some {
            &&& step matches CandidateStep::Stop { fault } && fault is None
            &&& after == core.regained(round.put_back(task).tasks)
            &&& left == round.emptied()
        } else {
            &&& step matches CandidateStep::Start { task: kept, command } && kept@ == task
                && command@ == command_for(
                record.life,
                StateModel::Running,
                None,
                None,
                devices,
                false,
            )
            &&& after == core
            &&& left == round
        },
    }
}

/// What the store's answer to a starting command leads to.
pub open spec fn started_post<H, S, C>(
    core: CoreModel<H, S, C>,
    after: CoreModel<H, S, C>,
    round: RoundModel,
    left: RoundModel,
    task: QueuedModel,
    updated: Result<TaskRecord, StoreError>,
    step: CandidateStep<S>,
) -> bool {
    match updated {
        Ok(running) => if core.fault is Some {
            &&& step matches CandidateStep::Stop { fault } && fault is None
            &&& after == core.slot_freed().regained(round.tasks)
            &&& left == round.emptied()
        } else {
            &&& step matches CandidateStep::Activate(record) && record@ == running@
            &&& after == core.slot_freed().unhandled(task.id)
            &&& left == round
        },
        Err(error) => if error@ is NotFound || error@ is Conflict {
            &&& step matches CandidateStep::Next { finalize } && finalize is None
            &&& after == core.slot_freed()
            &&& left == round
        } else {
            &&& step matches CandidateStep::Stop { fault } && fault matches Some(asked)
                && core.asks(error@.message(), asked)
            &&& after == core.faulted(error@.message()).regained(round.put_back(task).tasks)
            &&& left == round.emptied()
        },
    }
}

/// Whether a cancellation that was requested before the attempt was known still
/// concerns it.
pub open spec fn cancelled_early(running: LifeModel, found: Option<TaskRecord>) -> bool {
    found matches Some(record) && record@.life.attempt == running.attempt
        && record@.life.state is Running && record@.life.cancel_requested
}

/// What the search for a candidate's handler leads to.
pub open spec fn resolved_post<S>(
    task: QueuedModel,
    record: RecordModel,
    found: bool,
    step: CandidateStep<S>,
) -> bool {
    if found {
        step matches CandidateStep::Prepare { task: kept, record: read } && kept@ == task && read@
            == record
    } else {
        step matches CandidateStep::Block { task: kept, command } && kept@ == task && command@
            == block_command(record.life, missing_handler(record))
    }
}

/// What the read of a task whose attempt was activated leads to.
pub open spec fn confirmed_post<H, S, C>(
    core: CoreModel<H, S, C>,
    after: CoreModel<H, S, C>,
    round: RoundModel,
    left: RoundModel,
    running: LifeModel,
    found: Result<Option<TaskRecord>, StoreError>,
    step: ConfirmStep<S>,
) -> bool {
    match found {
        Ok(latest) => {
            &&& step matches ConfirmStep::Running { signal } && signal == cancelled_early(
                running,
                latest,
            )
            &&& after == core
            &&& left == (RoundModel { started: true, ..round })
        },
        Err(error) => {
            let forgotten = CoreModel {
                cancellations: core.cancellations.remove(running.id.0),
                ..core
            };
            &&& step matches ConfirmStep::Stop { fault } && forgotten.asks(error@.message(), fault)
            &&& after == forgotten.faulted(error@.message()).regained(round.tasks)
            &&& left == round.emptied()
        },
    }
}

/// What a failed activation of a started attempt leads to.
pub open spec fn activation_failed_post<S>(
    running: RecordModel,
    error: EngineError,
    step: ActivationStep<S>,
) -> bool {
    step matches ActivationStep::Block { record, command } && record@ == running && command@
        == block_command(running.life, activation_failure(error))
}

/// What the store's answer to blocking a task whose activation failed leads to.
pub open spec fn activation_blocked_post<H, S, C>(
    core: CoreModel<H, S, C>,
    after: CoreModel<H, S, C>,
    round: RoundModel,
    left: RoundModel,
    updated: Result<TaskRecord, StoreError>,
    step: ActivationStep<S>,
) -> bool {
    match updated {
        Ok(record) => {
            &&& step matches ActivationStep::Next { finalize } && delivery(
                core,
                record@.life.id,
                record@.life.state,
                finalize,
            )
            &&& after == core.unsent(record@.life.id)
            &&& left == round
        },
        Err(error) => if error@ is Conflict {
            &&& step is Reload
            &&& after == core
            &&& left == round
        } else {
            &&& step matches ActivationStep::Stop { fault } && core.asks(error@.message(), fault)
            &&& after == core.faulted(error@.message()).regained(round.tasks)
            &&& left == round.emptied()
        },
    }
}

/// What another read of a task whose activation failed leads to.
pub open spec fn activation_reloaded_post<H, S, C>(
    core: CoreModel<H, S, C>,
    after: CoreModel<H, S, C>,
    round: RoundModel,
    left: RoundModel,
    attempt: u32,
    error: EngineError,
    found: Result<Option<TaskRecord>, StoreError>,
    step: ActivationStep<S>,
) -> bool {
    match found {
        Ok(latest) => {
            &&& after == core
            &&& left == round
            &&& match latest {
                Some(record) if record@.life.attempt == attempt && record@.life.state is Running => {
                    activation_failed_post(record@, error, step)
                },
                _ => step matches ActivationStep::Next { finalize } && finalize is None,
            }
        },
        Err(failed) => {
            &&& step matches ActivationStep::Stop { fault } && core.asks(failed@.message(), fault)
            &&& after == core.faulted(failed@.message()).regained(round.tasks)
            &&& left == round.emptied()
        },
    }
}

impl SchedulerRound {
    /// Begins a pass over the tasks that are due at `now_ms`.
    pub fn start<H, S, C>(service: &mut ServiceCore<H, S, C>, now_ms: u64) -> (start: RoundStart)
        ensures
            round_start_post(old(service)@, final(service)@, now_ms, start),
    {
        if service.is_faulted() {
            return RoundStart::Stop;
        }
        let tasks = service.take_window(now_ms);
        if tasks.len() == 0 {
            if service.is_closed() && service.queue_is_empty() {
                return RoundStart::Stop;
            }
            return RoundStart::Idle { deadline: service.next_deadline() };
        }
        let ghost window = queued_models(tasks@);
        let mut positions: Vec<TaskId> = Vec::new();
        let mut i: usize = 0;
        while i < tasks.len()
            invariant
                i <= tasks@.len(),
                window == queued_models(tasks@),
                positions@.len() == i,
                forall|k: int| 0 <= k < i ==> positions@[k] == window[k].id,
            decreases tasks@.len() - i,
        {
            positions.push(tasks[i].id);
            i = i + 1;
        }
        proof {
            assert(positions@ =~= Seq::new(window.len(), |i: int| window[i].id));
        }
        RoundStart::Run(
            SchedulerRound {
                tasks,
                positions,
                activated: Vec::new(),
                order: Vec::new(),
                next: 0,
                started: false,
            },
        )
    }

    /// Shows the window to a policy.
    pub fn snapshot(&self, scan_budget: usize) -> (snapshot: QueueSnapshot)
        ensures
            queued_models(snapshot.tasks@) == self@.tasks,
            snapshot.scan_budget == scan_budget,
    {
        QueueSnapshot { tasks: copy_queued(&self.tasks), scan_budget }
    }

    /// Takes the policy's candidates.
    pub fn consider(&mut self, order: Vec<TaskId>)
        ensures
            final(self)@ == (RoundModel { order: order@, next: 0, ..old(self)@ }),
    {
        self.order = order;
        self.next = 0;
    }

    /// Finds the window position of a task.
    fn find(&self, id: TaskId) -> (at: Option<usize>)
        ensures
            match at {
                Some(i) => {
                    &&& i < self.tasks@.len()
                    &&& self@.tasks[i as int].id == id
                    &&& forall|k: int| 0 <= k < i ==> (#[trigger] self@.tasks[k]).id != id
                },
                None => !self@.holds(id),
            },
    {
        let mut i: usize = 0;
        while i < self.tasks.len()
            invariant
                i <= self.tasks@.len(),
                forall|k: int| 0 <= k < i ==> (#[trigger] self@.tasks[k]).id != id,
            decreases self.tasks@.len() - i,
        {
            if self.tasks[i].id == id {
                return Some(i);
            }
            i = i + 1;
        }
        None
    }

    /// Hands unstarted tasks back to the front of the queue.
    fn hand_back<H, S, C>(&mut self, service: &mut ServiceCore<H, S, C>)
        ensures
            final(service)@ == old(service)@.regained(old(self)@.tasks),
            final(self)@ == old(self)@.emptied(),
    {
        let mut tasks: Vec<QueuedTask> = Vec::new();
        std::mem::swap(&mut tasks, &mut self.tasks);
        service.restore_front(tasks);
        proof {
            assert(self@.tasks =~= Seq::<QueuedModel>::empty());
        }
    }

    /// Puts a candidate back at the end of the window.
    fn put_back(&mut self, task: QueuedTask)
        ensures
            final(self)@ == old(self)@.put_back(task@),
    {
        let ghost before = self@;
        let ghost added = task@;
        self.tasks.push(task);
        proof {
            assert(self@.tasks =~= before.tasks.push(added));
        }
    }

    /// Picks the next candidate that the window holds.
    pub fn next<H, S, C>(&mut self, service: &mut ServiceCore<H, S, C>) -> (step: CandidateStep<S>)
        ensures
            next_post(old(service)@, final(service)@, old(self)@, final(self)@, step),
    {
        let ghost start = self@;
        if self.next >= self.order.len() {
            return CandidateStep::Finish;
        }
        if service.is_faulted() {
            self.hand_back(service);
            return CandidateStep::Stop { fault: None };
        }
        let ghost kept = service@;
        while self.next < self.order.len()
            invariant
                self.next <= self.order@.len(),
                self@ == (RoundModel { next: self.next as nat, ..start }),
                start.upcoming(start.next) == start.upcoming(self.next as nat),
                start == old(self)@,
                start.next < start.order.len(),
                service@ == kept,
                kept == old(service)@,
                kept.fault is None,
            decreases self.order@.len() - self.next,
        {
            let id = self.order[self.next];
            match self.find(id) {
                Some(i) => {
                    let ghost before = self@;
                    proof {
                        assert(before.tasks[i as int].id == id);
                        assert(start.holds(id));
                    }
                    self.next = self.next + 1;
                    let task = self.tasks.remove(i);
                    proof {
                        assert(self@.tasks =~= before.tasks.remove(i as int));
                        assert(start.tasks[i as int] == task@);
                        assert(self@ == (RoundModel {
                            tasks: start.tasks.remove(i as int),
                            next: start.upcoming(start.next) + 1,
                            ..start
                        }));
                    }
                    return CandidateStep::Load(task);
                },
                None => {},
            }
            self.next = self.next + 1;
        }
        CandidateStep::Finish
    }

    /// Decides what follows the read of a candidate.
    pub fn loaded<H, S, C>(
        &mut self,
        service: &mut ServiceCore<H, S, C>,
        task: QueuedTask,
        found: Result<Option<TaskRecord>, StoreError>,
        now_ms: u64,
    ) -> (step: CandidateStep<S>)
        ensures
            loaded_post(
                old(service)@,
                final(service)@,
                old(self)@,
                final(self)@,
                task@,
                found,
                now_ms,
                step,
            ),
    {
        let record = match found {
            Ok(Some(record)) => record,
            Ok(None) => {
                service.release_queue_slot();
                service.drop_handler(task.id);
                return CandidateStep::Next { finalize: None };
            },
            Err(error) => {
                self.put_back(task);
                let fault = service.pause_on_store_fault(&error);
                self.hand_back(service);
                return CandidateStep::Stop { fault: Some(fault) };
            },
        };
        if service.is_faulted() {
            self.put_back(task);
            self.hand_back(service);
            return CandidateStep::Stop { fault: None };
        }
        if matches!(record.state, TaskState::Queued) {
            match record.retry_not_before_ms {
                Some(deadline) => {
                    if deadline > now_ms {
                        let mut delayed = task;
                        delayed.retry_not_before_ms = Some(deadline);
                        self.put_back(delayed);
                        return CandidateStep::Next { finalize: None };
                    }
                },
                None => {},
            }
            return CandidateStep::Resolve { task, record };
        }
        service.release_queue_slot();
        service.drop_handler(task.id);
        if record.state.is_terminal() || matches!(record.state, TaskState::Blocked { .. }) {
            let finalize = match service.take_finalization(task.id) {
                Some(sender) => Some((sender, record.state)),
                None => None,
            };
            return CandidateStep::Next { finalize };
        }
        CandidateStep::Next { finalize: None }
    }

    /// Decides what follows the search for a candidate's handler.
    pub fn resolved<S>(&mut self, task: QueuedTask, record: TaskRecord, found: bool) -> (step:
        CandidateStep<S>)
        ensures
            final(self)@ == old(self)@,
            resolved_post(task@, record@, found, step),
    {
        if found {
            return CandidateStep::Prepare { task, record };
        }
        let head = join3("missing handler ", record.request.task_type.as_str(), "@");
        let reason = join2(head.as_str(), record.request.handler_version.as_str());
        let command = make_block_command(&record, reason.as_str());
        CandidateStep::Block { task, command }
    }

    /// Decides what follows the store's answer to a blocking command.
    pub fn blocked<H, S, C>(
        &mut self,
        service: &mut ServiceCore<H, S, C>,
        task: QueuedTask,
        updated: Result<TaskRecord, StoreError>,
    ) -> (step: CandidateStep<S>)
        ensures
            blocked_post(
                old(service)@,
                final(service)@,
                old(self)@,
                final(self)@,
                task@,
                updated,
                step,
            ),
    {
        match updated {
            Ok(record) => {
                let finalize = match service.take_finalization(record.id) {
                    Some(sender) => Some((sender, record.state)),
                    None => None,
                };
                service.release_queue_slot();
                CandidateStep::Next { finalize }
            },
            Err(StoreError::NotFound) => {
                service.release_queue_slot();
                CandidateStep::Next { finalize: None }
            },
            Err(StoreError::Conflict) => {
                self.put_back(task);
                CandidateStep::Next { finalize: None }
            },
            Err(error) => {
                self.put_back(task);
                let fault = service.pause_on_store_fault(&error);
                self.hand_back(service);
                CandidateStep::Stop { fault: Some(fault) }
            },
        }
    }

    /// Ends the search when every execution slot is taken.
    pub fn no_slot<S>(&mut self, task: QueuedTask) -> (step: CandidateStep<S>)
        ensures
            step is Finish,
            final(self)@ == old(self)@.put_back(task@),
    {
        self.put_back(task);
        CandidateStep::Finish
    }

    /// Decides what follows the engine's answer to a reservation.
    pub fn prepared<H, S, C>(
        &mut self,
        service: &mut ServiceCore<H, S, C>,
        task: QueuedTask,
        record: &TaskRecord,
        assigned: Result<&Vec<String>, EngineError>,
    ) -> (step: CandidateStep<S>)
        ensures
            prepared_post(
                old(service)@,
                final(service)@,
                old(self)@,
                final(self)@,
                task@,
                record@,
                match assigned {
                    Ok(devices) => Ok(texts(devices@)),
                    Err(error) => Err(error),
                },
                step,
            ),
    {
        match assigned {
            Err(EngineError::TemporarilyUnavailable) => {
                self.put_back(task);
                CandidateStep::Next { finalize: None }
            },
            Err(EngineError::Unsatisfiable) => {
                let command = make_block_command(record, "resource request is unsatisfiable");
                CandidateStep::Block { task, command }
            },
            Err(EngineError::Closed) => {
                self.put_back(task);
                CandidateStep::Finish
            },
            Ok(devices) => {
                if service.is_faulted() {
                    self.put_back(task);
                    self.hand_back(service);
                    return CandidateStep::Stop { fault: None };
                }
                let command = make_command(
                    record,
                    TaskState::Running,
                    None,
                    None,
                    copy_texts(devices),
                    false,
                );
                CandidateStep::Start { task, command }
            },
        }
    }

    /// Decides what follows the store's answer to a starting command.
    pub fn started<H, S, C>(
        &mut self,
        service: &mut ServiceCore<H, S, C>,
        task: QueuedTask,
        updated: Result<TaskRecord, StoreError>,
    ) -> (step: CandidateStep<S>)
        ensures
            started_post(
                old(service)@,
                final(service)@,
                old(self)@,
                final(self)@,
                task@,
                updated,
                step,
            ),
    {
        match updated {
            Ok(running) => {
                service.release_queue_slot();
                if service.is_faulted() {
                    self.hand_back(service);
                    return CandidateStep::Stop { fault: None };
                }
                service.drop_handler(task.id);
                CandidateStep::Activate(running)
            },
            Err(StoreError::Conflict) => {
                service.release_queue_slot();
                CandidateStep::Next { finalize: None }
            },
            Err(StoreError::NotFound) => {
                service.release_queue_slot();
                CandidateStep::Next { finalize: None }
            },
            Err(error) => {
                self.put_back(task);
                let fault = service.pause_on_store_fault(&error);
                self.hand_back(service);
                CandidateStep::Stop { fault: Some(fault) }
            },
        }
    }

    /// Notes that an attempt was activated under `signal`. The task is read
    /// again next, because cancellation may have been requested meanwhile.
    pub fn activated<H, S, C>(
        &mut self,
        service: &mut ServiceCore<H, S, C>,
        running: &TaskRecord,
        signal: C,
    )
        ensures
            final(service)@ == (CoreModel {
                cancellations: old(service)@.cancellations.insert(
                    running@.life.id.0,
                    (running@.life.attempt, signal),
                ),
                ..old(service)@
            }),
            activated_post(old(self)@, final(self)@, running@.life.id),
    {
        service.keep_cancellation(running.id, running.attempt, signal);
        match self.position_of(running.id) {
            Some(i) => {
                self.activated.push(i);
                proof {
                    assert(old(self)@.stood_at(running@.life.id, i as int));
                    assert(old(self)@.positions[i as int] == running@.life.id);
                    assert(self@ == (RoundModel {
                        activated: old(self)@.activated.push(i),
                        ..old(self)@
                    }));
                }
            },
            None => {},
        }
    }

    /// Finds where a task stood in the window.
    fn position_of(&self, id: TaskId) -> (at: Option<usize>)
        ensures
            match at {
                Some(i) => self@.stood_at(id, i as int),
                None => forall|k: int| 0 <= k < self@.positions.len() ==> self@.positions[k] != id,
            },
    {
        let mut i: usize = self.positions.len();
        while i > 0
            invariant
                i <= self.positions@.len(),
                forall|k: int| i <= k < self.positions@.len() ==> self@.positions[k] != id,
            decreases i,
        {
            i = i - 1;
            if self.positions[i] == id {
                return Some(i);
            }
        }
        None
    }

    /// Decides what follows the read of a task whose attempt was activated.
    pub fn confirmed<H, S, C>(
        &mut self,
        service: &mut ServiceCore<H, S, C>,
        running: &TaskRecord,
        found: Result<Option<TaskRecord>, StoreError>,
    ) -> (step: ConfirmStep<S>)
        ensures
            confirmed_post(
                old(service)@,
                final(service)@,
                old(self)@,
                final(self)@,
                running@.life,
                found,
                step,
            ),
    {
        match found {
            Ok(latest) => {
                let signal = match &latest {
                    Some(record) => record.attempt == running.attempt && matches!(
                        record.state,
                        TaskState::Running
                    ) && record.cancel_requested,
                    None => false,
                };
                self.started = true;
                ConfirmStep::Running { signal }
            },
            Err(error) => {
                service.drop_cancellation(running.id);
                let fault = service.pause_on_store_fault(&error);
                self.hand_back(service);
                ConfirmStep::Stop { fault }
            },
        }
    }

    /// Decides what follows a failed activation of a started attempt.
    pub fn activation_failed<S>(&mut self, running: TaskRecord, error: EngineError) -> (step:
        ActivationStep<S>)
        ensures
            final(self)@ == old(self)@,
            activation_failed_post(running@, error, step),
    {
        let reason = join2("engine activation failed: ", error.message().as_str());
        let command = make_block_command(&running, reason.as_str());
        ActivationStep::Block { record: running, command }
    }

    /// Decides what follows the store's answer to blocking a task whose
    /// activation failed.
    pub fn activation_blocked<H, S, C>(
        &mut self,
        service: &mut ServiceCore<H, S, C>,
        updated: Result<TaskRecord, StoreError>,
    ) -> (step: ActivationStep<S>)
        ensures
            activation_blocked_post(
                old(service)@,
                final(service)@,
                old(self)@,
                final(self)@,
                updated,
                step,
            ),
    {
        match updated {
            Ok(record) => {
                let finalize = match service.take_finalization(record.id) {
                    Some(sender) => Some((sender, record.state)),
                    None => None,
                };
                ActivationStep::Next { finalize }
            },
            Err(StoreError::Conflict) => ActivationStep::Reload,
            Err(error) => {
                let fault = service.pause_on_store_fault(&error);
                self.hand_back(service);
                ActivationStep::Stop { fault }
            },
        }
    }

    /// Decides what follows another read of a task whose activation failed.
    pub fn activation_reloaded<H, S, C>(
        &mut self,
        service: &mut ServiceCore<H, S, C>,
        attempt: u32,
        error: EngineError,
        found: Result<Option<TaskRecord>, StoreError>,
    ) -> (step: ActivationStep<S>)
        ensures
            activation_reloaded_post(
                old(service)@,
                final(service)@,
                old(self)@,
                final(self)@,
                attempt,
                error,
                found,
                step,
            ),
    {
        match found {
            Ok(Some(record)) => {
                if record.attempt == attempt && matches!(record.state, TaskState::Running) {
                    self.activation_failed(record, error)
                } else {
                    ActivationStep::Next { finalize: None }
                }
            },
            Ok(None) => ActivationStep::Next { finalize: None },
            Err(failed) => {
                let fault = service.pause_on_store_fault(&failed);
                self.hand_back(service);
                ActivationStep::Stop { fault }
            },
        }
    }

    /// Whether a task that started stood behind this one in the window.
    fn bypassed(&self, id: TaskId) -> (bypassed: bool)
        ensures
            bypassed == self@.was_bypassed(id),
    {
        match self.position_of(id) {
            Some(i) => {
                let mut k: usize = 0;
                while k < self.activated.len()
                    invariant
                        self@.stood_at(id, i as int),
                        k <= self.activated@.len(),
                        forall|n: int| 0 <= n < k ==> i >= #[trigger] self.activated@[n],
                    decreases self.activated@.len() - k,
                {
                    if self.activated[k] > i {
                        proof {
                            assert(i < self@.activated[k as int]);
                        }
                        return true;
                    }
                    k = k + 1;
                }
                proof {
                    assert forall|p: int, n: int| #[trigger]
                        self@.stood_at(id, p) && 0 <= n < self@.activated.len() implies p
                        >= #[trigger] self@.activated[n] by {
                        assert(p == i);
                        assert(i >= self.activated@[n]);
                    }
                }
                false
            },
            None => false,
        }
    }

    /// Ends the pass: tasks that a later one overtook age, and unstarted tasks
    /// return to the front of the queue. Returns whether an attempt was started.
    pub fn finish<H, S, C>(self, service: &mut ServiceCore<H, S, C>) -> (started: bool)
        ensures
            started == self@.started,
            final(service)@ == old(service)@.regained(self@.leftover()),
    {
        let mut aged: Vec<QueuedTask> = Vec::new();
        let mut i: usize = 0;
        while i < self.tasks.len()
            invariant
                i <= self.tasks@.len(),
                aged@.len() == i,
                forall|k: int| 0 <= k < i ==> (#[trigger] aged@[k])@ == self@.aged(self@.tasks[k]),
            decreases self.tasks@.len() - i,
        {
            let mut task = self.tasks[i].clone();
            if self.bypassed(task.id) && task.bypasses < u32::MAX {
                task.bypasses = task.bypasses + 1;
            }
            aged.push(task);
            i = i + 1;
        }
        proof {
            assert(queued_models(aged@) =~= self@.leftover());
        }
        service.restore_front(aged);
        self.started
    }
}

/// What noting an activated attempt does to a pass.
pub open spec fn activated_post(before: RoundModel, after: RoundModel, id: TaskId) -> bool {
    if before.positions.contains(id) {
        exists|i: usize| #[trigger]
            before.stood_at(id, i as int) && after == (RoundModel {
                activated: before.activated.push(i),
                ..before
            })
    } else {
        after == before
    }
}

/// Finds the handler of a task: the one kept for a process-local task, else the
/// one registered for the exact type and version.
pub fn find_handler<'a, H, S, C>(
    service: &'a ServiceCore<H, S, C>,
    registry: &'a TaskHandlerRegistry<H>,
    record: &TaskRecord,
) -> (handler: Option<&'a H>)
    ensures
        ({
            let id = record@.life.id;
            let key = (
                record@.request.info.task_type,
                record@.request.info.handler_version,
            );
            match handler {
                Some(found) => if service@.handlers.contains_key(id.0) {
                    *found == service@.handlers[id.0]
                } else {
                    registry@.contains_key(key) && *found == registry@[key].0
                },
                None => !service@.handlers.contains_key(id.0) && !registry@.contains_key(key),
            }
        }),
{
    match service.local_handler(record.id) {
        Some(found) => Some(found),
        None => registry.resolve(
            record.request.task_type.as_str(),
            record.request.handler_version.as_str(),
        ),
    }
}

/// Milliseconds after which a pass that started nothing is repeated when no
/// retry is pending.
pub const PASS_INTERVAL_MS: u64 = 40;

/// How long an idle scheduler waits for a change: until the deadline, or for as
/// long as it takes when there is none.
pub fn idle_wait_ms(deadline: Option<u64>, now_ms: u64) -> (wait: Option<u64>)
    ensures
        match deadline {
            Some(at) => wait == Some(
                if at > now_ms {
                    (at - now_ms) as u64
                } else {
                    0
                },
            ),
            None => wait is None,
        },
{
    match deadline {
        Some(at) => Some(at.saturating_sub(now_ms)),
        None => None,
    }
}

/// How long the scheduler waits for a change after a pass that started nothing.
pub fn pass_wait_ms(deadline: Option<u64>, now_ms: u64) -> (wait: u64)
    ensures
        wait == match deadline {
            Some(at) => if at > now_ms {
                at - now_ms
            } else {
                0
            },
            None => PASS_INTERVAL_MS as int,
        },
{
    match idle_wait_ms(deadline, now_ms) {
        Some(wait) => wait,
        None => PASS_INTERVAL_MS,
    }
}

/// Waiting positions in use beyond the tasks that wait in the queue and in the
/// window.
pub open spec fn spare<H, S, C>(core: CoreModel<H, S, C>, round: RoundModel) -> int {
    core.queue_count - core.queue.len() - round.tasks.len()
}

/// Candidates that a step hands out.
pub open spec fn in_hand<S>(step: CandidateStep<S>) -> int {
    match step {
        CandidateStep::Load(_)
        | CandidateStep::Resolve { .. }
        | CandidateStep::Prepare { .. }
        | CandidateStep::Block { .. }
        | CandidateStep::Start { .. } => 1,
        _ => 0,
    }
}

proof fn lemma_regained_len<H, S, C>(core: CoreModel<H, S, C>, tasks: Seq<QueuedModel>)
    ensures
        core.regained(tasks).queue.len() == core.queue.len() + tasks.len(),
{
    super::scheduler_queue::law_queue_accounts_for_every_task(
        core.queue,
        QueuedModel {
            id: TaskId(0),
            resources: crate::model::resource::no_demand(),
            retry_not_before_ms: None,
            bypasses: 0,
        },
        tasks,
        0,
        0,
        TaskId(0),
    );
}

/// Picking a candidate neither loses nor invents a waiting task.
pub proof fn law_picking_keeps_positions<H, S, C>(
    core: CoreModel<H, S, C>,
    after: CoreModel<H, S, C>,
    round: RoundModel,
    left: RoundModel,
    step: CandidateStep<S>,
)
    requires
        next_post(core, after, round, left, step),
    ensures
        spare(after, left) - in_hand(step) == spare(core, round),
{
    lemma_regained_len(core, round.tasks);
}

/// A waiting position is given up exactly when its task leaves the queue for
/// good; a candidate that is put back keeps its position.
pub proof fn law_reading_keeps_positions<H, S, C>(
    core: CoreModel<H, S, C>,
    after: CoreModel<H, S, C>,
    round: RoundModel,
    left: RoundModel,
    task: QueuedModel,
    found: Result<Option<TaskRecord>, StoreError>,
    now_ms: u64,
    step: CandidateStep<S>,
)
    requires
        core.queue_count > 0,
        loaded_post(core, after, round, left, task, found, now_ms, step),
    ensures
        spare(after, left) - in_hand(step) == spare(core, round) - 1,
{
    lemma_regained_len(core, round.put_back(task).tasks);
    if let Err(error) = found {
        lemma_regained_len(core.faulted(error@.message()), round.put_back(task).tasks);
    }
}

/// Blocking a candidate gives its position up unless the candidate is put back.
pub proof fn law_blocking_keeps_positions<H, S, C>(
    core: CoreModel<H, S, C>,
    after: CoreModel<H, S, C>,
    round: RoundModel,
    left: RoundModel,
    task: QueuedModel,
    updated: Result<TaskRecord, StoreError>,
    step: CandidateStep<S>,
)
    requires
        core.queue_count > 0,
        blocked_post(core, after, round, left, task, updated, step),
    ensures
        spare(after, left) - in_hand(step) == spare(core, round) - 1,
{
    if let Err(error) = updated {
        lemma_regained_len(core.faulted(error@.message()), round.put_back(task).tasks);
    }
}

/// A candidate without resources keeps its position.
pub proof fn law_reserving_keeps_positions<H, S, C>(
    core: CoreModel<H, S, C>,
    after: CoreModel<H, S, C>,
    round: RoundModel,
    left: RoundModel,
    task: QueuedModel,
    record: RecordModel,
    assigned: Result<Seq<Seq<char>>, EngineError>,
    step: CandidateStep<S>,
)
    requires
        prepared_post(core, after, round, left, task, record, assigned, step),
    ensures
        spare(after, left) - in_hand(step) == spare(core, round) - 1,
{
    lemma_regained_len(core, round.put_back(task).tasks);
}

/// A started candidate gives its position up, and so does one that changed
/// meanwhile; otherwise it is put back.
pub proof fn law_starting_keeps_positions<H, S, C>(
    core: CoreModel<H, S, C>,
    after: CoreModel<H, S, C>,
    round: RoundModel,
    left: RoundModel,
    task: QueuedModel,
    updated: Result<TaskRecord, StoreError>,
    step: CandidateStep<S>,
)
    requires
        core.queue_count > 0,
        started_post(core, after, round, left, task, updated, step),
    ensures
        spare(after, left) - in_hand(step) == spare(core, round) - 1,
{
    lemma_regained_len(core.slot_freed(), round.tasks);
    if let Err(error) = updated {
        lemma_regained_len(core.faulted(error@.message()), round.put_back(task).tasks);
    }
}

/// Only tasks that read as queued, and whose retry is due, ever get as far as
/// their handler.
pub proof fn law_only_due_queued_tasks_are_resolved<H, S, C>(
    core: CoreModel<H, S, C>,
    after: CoreModel<H, S, C>,
    round: RoundModel,
    left: RoundModel,
    task: QueuedModel,
    found: Result<Option<TaskRecord>, StoreError>,
    now_ms: u64,
    step: CandidateStep<S>,
)
    requires
        loaded_post(core, after, round, left, task, found, now_ms, step),
    ensures
        step matches CandidateStep::Resolve { task: kept, record } ==> record@.life.state is Queued
            && core.fault is None && (record@.life.retry_not_before_ms matches Some(deadline)
            ==> deadline <= now_ms),
{
}

/// After a pass a task has aged by one exactly when a task behind it started,
/// so counted bypasses never exceed the passes in which that happened.
pub proof fn law_overtaken_tasks_age(round: RoundModel, i: int)
    requires
        0 <= i < round.tasks.len(),
        round.tasks[i].bypasses < u32::MAX,
    ensures
        round.leftover()[i].id == round.tasks[i].id,
        round.leftover()[i].bypasses == round.tasks[i].bypasses + (if round.was_bypassed(
            round.tasks[i].id,
        ) {
            1int
        } else {
            0int
        }),
{
}

} // verus!
