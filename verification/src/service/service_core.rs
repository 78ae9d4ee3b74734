//! State that the operations of one service share.

use std::collections::BTreeMap;

use vstd::prelude::*;

use super::admission_budget::AdmissionBudget;
use super::admission_budget::AdmissionReservation;
use super::admission_budget::BudgetModel;
use super::admission_gate::AdmissionGate;
use super::admission_gate::GateModel;
use super::admission_gate::Phase;
use super::error::outcome;
use super::error::ServiceErrorModel;
use super::error::TaskServiceError;
use super::retry_policy::RetryPolicy;
use super::scheduler_queue::QueueModel;
use super::scheduler_queue::SchedulerQueue;
use crate::keyed::drain_values;
use crate::keyed::lists_values;
use crate::model::OwnerEpoch;
use crate::model::TaskId;
use crate::scheduling::fair_fifo::queued_models;
use crate::scheduling::fair_fifo::QueuedModel;
use crate::scheduling::QueuedTask;
use crate::store::StoreError;
use crate::store::StoreErrorModel;

verus! {

broadcast use {vstd::std_specs::btree::group_btree_axioms, vstd::laws_cmp::group_laws_cmp};

/// Limits and policies of a service.
#[derive(Debug, Clone, Copy)]
pub struct ServiceSettings {
    /// Maximum number of waiting tasks.
    pub queue_capacity: usize,
    /// Maximum number of candidates inspected in each scheduler cycle.
    pub scan_budget: usize,
    /// Maximum number of attempts that run at once.
    pub max_running_tasks: usize,
    /// Maximum execution attempts of a task.
    pub max_attempts: u32,
    /// Delay between retryable attempts.
    pub retry_policy: RetryPolicy,
    /// Ownership generation of a recoverable store.
    pub owner: Option<OwnerEpoch>,
}

/// Signal belonging to one specific execution attempt of a task.
#[derive(Debug)]
struct RunningCancellation<C> {
    attempt: u32,
    signal: C,
}

/// Shared state of one service: waiting tasks and their slots, process-local
/// handlers `H` and result senders `S`, cancellation signals `C` of running
/// attempts, admission, and the first storage fault.
#[derive(Debug)]
pub struct ServiceCore<H, S, C> {
    settings: ServiceSettings,
    queue: SchedulerQueue,
    queue_count: usize,
    running: usize,
    local_handlers: BTreeMap<u128, H>,
    local_finalizations: BTreeMap<u128, S>,
    cancellations: BTreeMap<u128, RunningCancellation<C>>,
    admission: AdmissionGate,
    budget: AdmissionBudget,
    store_fault: Option<String>,
}

/// Content of a [`ServiceCore`].
#[verifier::ext_equal]
pub struct CoreModel<H, S, C> {
    /// Limits and policies.
    pub settings: ServiceSettings,
    /// Tasks that wait to be scheduled.
    pub queue: QueueModel,
    /// Waiting positions in use.
    pub queue_count: usize,
    /// Execution slots in use.
    pub running: usize,
    /// Handlers of process-local tasks that wait.
    pub handlers: Map<u128, H>,
    /// Where the final states of process-local tasks are sent.
    pub finalizations: Map<u128, S>,
    /// Attempt and signal of each running task.
    pub cancellations: Map<u128, (u32, C)>,
    /// Admission and shutdown.
    pub gate: GateModel,
    /// Submissions in flight.
    pub budget: BudgetModel,
    /// First storage failure.
    pub fault: Option<Seq<char>>,
}

impl<H, S, C> View for ServiceCore<H, S, C> {
    type V = CoreModel<H, S, C>;

    closed spec fn view(&self) -> CoreModel<H, S, C> {
        CoreModel {
            settings: self.settings,
            queue: self.queue@,
            queue_count: self.queue_count,
            running: self.running,
            handlers: self.local_handlers@,
            finalizations: self.local_finalizations@,
            cancellations: self.cancellations@.map_values(
                |c: RunningCancellation<C>| (c.attempt, c.signal),
            ),
            gate: self.admission@,
            budget: self.budget@,
            fault: match self.store_fault {
                Some(text) => Some(text@),
                None => None,
            },
        }
    }
}

/// What a newly recorded storage fault asks for.
#[derive(Debug)]
pub struct StoreFault<S> {
    /// The first failure, which every waiter is told.
    pub diagnostic: String,
    /// Process-local tasks to be told that the store is unavailable.
    pub finalizations: Vec<S>,
    /// Whether this fault begins shutdown, so that its coordinator is to be
    /// started.
    pub coordinates: bool,
}

impl<H, S, C> CoreModel<H, S, C> {
    /// A service at rest with recovered tasks waiting.
    pub open spec fn starting(
        settings: ServiceSettings,
        queue: QueueModel,
        queue_count: usize,
        max_payload_bytes: usize,
        max_submissions: usize,
    ) -> Self {
        CoreModel {
            settings,
            queue,
            queue_count,
            running: 0,
            handlers: Map::empty(),
            finalizations: Map::empty(),
            cancellations: Map::empty(),
            gate: GateModel { phase: Phase::Open, active: 0, result: None },
            budget: BudgetModel {
                max_payload_bytes,
                max_submissions,
                submissions: 0,
                payload_bytes: 0,
            },
            fault: None,
        }
    }

    /// One more operation inside admission.
    pub open spec fn entered(self) -> Self {
        CoreModel {
            gate: GateModel { active: (self.gate.active + 1) as usize, ..self.gate },
            ..self
        }
    }

    /// One operation fewer inside admission.
    pub open spec fn left(self) -> Self {
        CoreModel {
            gate: GateModel { active: (self.gate.active - 1) as usize, ..self.gate },
            ..self
        }
    }

    /// Whether a waiting position is free.
    pub open spec fn has_slot(self) -> bool {
        self.queue_count < self.settings.queue_capacity
    }

    /// One more waiting position in use.
    pub open spec fn slot_taken(self) -> Self {
        CoreModel { queue_count: (self.queue_count + 1) as usize, ..self }
    }

    /// One waiting position fewer in use.
    pub open spec fn slot_freed(self) -> Self {
        CoreModel {
            queue_count: if self.queue_count == 0 {
                0
            } else {
                (self.queue_count - 1) as usize
            },
            ..self
        }
    }

    /// A task waiting behind its equals.
    pub open spec fn waiting(self, task: QueuedModel) -> Self {
        CoreModel { queue: self.queue.pushed(task), ..self }
    }

    /// The diagnostic that stands after a failure.
    pub open spec fn first_fault(self, diagnostic: Seq<char>) -> Seq<char> {
        match self.fault {
            Some(first) => first,
            None => diagnostic,
        }
    }

    /// The service after a storage failure: the first failure stands, nothing
    /// is admitted, and no process-local task is kept.
    pub open spec fn faulted(self, diagnostic: Seq<char>) -> Self {
        CoreModel {
            fault: Some(self.first_fault(diagnostic)),
            finalizations: Map::empty(),
            handlers: Map::empty(),
            gate: self.gate.closing(),
            ..self
        }
    }

    /// Whether `fault` is what recording a failure asks for.
    pub open spec fn asks(self, diagnostic: Seq<char>, fault: StoreFault<S>) -> bool {
        &&& fault.diagnostic@ == self.first_fault(diagnostic)
        &&& lists_values(fault.finalizations@, self.finalizations)
        &&& fault.coordinates == (self.gate.phase == Phase::Open)
    }

    /// The service after an operation met a store error: an operational failure
    /// is recorded, other errors concern the operation alone.
    pub open spec fn after_error(self, error: StoreErrorModel) -> Self {
        if error is Failure {
            self.faulted(error.message())
        } else {
            self
        }
    }

    /// Whether `fault` is what an operation's store error asks for.
    pub open spec fn asks_after_error(
        self,
        error: StoreErrorModel,
        fault: Option<StoreFault<S>>,
    ) -> bool {
        match fault {
            Some(asked) => error is Failure && self.asks(error.message(), asked),
            None => !(error is Failure),
        }
    }

    /// Why a fault refuses an operation, if it does.
    pub open spec fn fault_error(self) -> Option<ServiceErrorModel> {
        match self.fault {
            Some(first) => Some(ServiceErrorModel::StoreUnavailable(first)),
            None => None,
        }
    }

    /// Why an operation may not begin, if it may not.
    pub open spec fn entry_error(self) -> Option<ServiceErrorModel> {
        if self.gate.phase != Phase::Open {
            Some(ServiceErrorModel::ShuttingDown)
        } else {
            None
        }
    }

    /// Why an operation that needs a working store may not begin, if it may not.
    pub open spec fn admission_error(self) -> Option<ServiceErrorModel> {
        if self.fault is Some {
            self.fault_error()
        } else {
            self.entry_error()
        }
    }

    /// Whether the running attempt of a task is this one.
    pub open spec fn runs(self, id: TaskId, attempt: u32) -> bool {
        self.cancellations.contains_key(id.0) && self.cancellations[id.0].0 == attempt
    }
}

impl<H, S, C> ServiceCore<H, S, C> {
    /// Creates a service with recovered tasks waiting, each holding a waiting
    /// position.
    pub fn new(
        settings: ServiceSettings,
        queue: SchedulerQueue,
        queue_count: usize,
        max_payload_bytes: usize,
        max_submissions: usize,
    ) -> (core: Self)
        ensures
            core@ == CoreModel::<H, S, C>::starting(
                settings,
                queue@,
                queue_count,
                max_payload_bytes,
                max_submissions,
            ),
    {
        let core = ServiceCore {
            settings,
            queue,
            queue_count,
            running: 0,
            local_handlers: BTreeMap::new(),
            local_finalizations: BTreeMap::new(),
            cancellations: BTreeMap::new(),
            admission: AdmissionGate::new(),
            budget: AdmissionBudget::new(max_payload_bytes, max_submissions),
            store_fault: None,
        };
        proof {
            assert(core@.cancellations =~= Map::<u128, (u32, C)>::empty());
        }
        core
    }

    /// Returns the limits and policies.
    pub fn settings(&self) -> (settings: &ServiceSettings)
        ensures
            *settings == self@.settings,
    {
        &self.settings
    }

    /// Returns the diagnostic that suspended storage-dependent progress, if any.
    pub fn last_store_error(&self) -> (fault: Option<String>)
        ensures
            match fault {
                Some(text) => self@.fault == Some(text@),
                None => self@.fault is None,
            },
    {
        match &self.store_fault {
            Some(text) => Some(text.clone()),
            None => None,
        }
    }

    /// Returns whether a storage failure was recorded.
    pub fn is_faulted(&self) -> (faulted: bool)
        ensures
            faulted == self@.fault is Some,
    {
        self.store_fault.is_some()
    }

    /// Returns the number of waiting positions in use.
    pub fn queue_count(&self) -> (count: usize)
        ensures
            count == self@.queue_count,
    {
        self.queue_count
    }

    /// Returns the number of execution slots in use.
    pub fn running_count(&self) -> (count: usize)
        ensures
            count == self@.running,
    {
        self.running
    }

    /// Returns the earliest pending retry deadline.
    pub fn next_deadline(&self) -> (deadline: Option<u64>)
        ensures
            deadline == self@.queue.next_deadline(),
    {
        self.queue.next_deadline()
    }

    /// Returns whether no task waits in the queue.
    pub fn queue_is_empty(&self) -> (empty: bool)
        ensures
            empty == (self@.queue.len() == 0),
    {
        self.queue.is_empty()
    }

    /// Attempts to reserve bounded admission capacity before detaching a
    /// worker.
    pub fn reserve_admission(&mut self, payload_bytes: usize) -> (result: Result<
        AdmissionReservation,
        TaskServiceError,
    >)
        ensures
            match result {
                Ok(reservation) => {
                    &&& old(self)@.budget.reserve_error(payload_bytes) is None
                    &&& reservation.bytes() == payload_bytes
                    &&& final(self)@ == (CoreModel {
                        budget: old(self)@.budget.reserved(payload_bytes),
                        ..old(self)@
                    })
                },
                Err(error) => {
                    &&& old(self)@.budget.reserve_error(payload_bytes) is Some
                    &&& error@ == old(self)@.budget.reserve_error(payload_bytes)->0.reported()
                    &&& final(self)@ == old(self)@
                },
            },
    {
        match self.budget.try_reserve(payload_bytes) {
            Ok(reservation) => Ok(reservation),
            Err(error) => Err(error.into_service_error()),
        }
    }

    /// Returns whether an admission reservation of this size is held.
    pub fn holds_admission(&self, reservation: &AdmissionReservation) -> (held: bool)
        ensures
            held == self@.budget.can_release(reservation.bytes()),
    {
        self.budget.holds(reservation)
    }

    /// Gives an admission reservation back.
    pub fn release_admission(&mut self, reservation: AdmissionReservation)
        requires
            old(self)@.budget.can_release(reservation.bytes()),
        ensures
            final(self)@ == (CoreModel {
                budget: old(self)@.budget.released(reservation.bytes()),
                ..old(self)@
            }),
    {
        self.budget.release(reservation);
    }

    /// Enters the admission gate.
    pub fn enter(&mut self) -> (result: Result<(), TaskServiceError>)
        requires
            old(self)@.entry_error() is None ==> old(self)@.gate.active < usize::MAX,
        ensures
            match old(self)@.entry_error() {
                None => result is Ok && final(self)@ == old(self)@.entered(),
                Some(error) => outcome(result) == Err::<(), ServiceErrorModel>(error)
                    && final(self)@ == old(self)@,
            },
    {
        self.admission.enter()
    }

    /// Enters the admission gate unless a storage failure was recorded.
    pub fn enter_healthy(&mut self) -> (result: Result<(), TaskServiceError>)
        requires
            old(self)@.admission_error() is None ==> old(self)@.gate.active < usize::MAX,
        ensures
            match old(self)@.admission_error() {
                None => result is Ok && final(self)@ == old(self)@.entered(),
                Some(error) => outcome(result) == Err::<(), ServiceErrorModel>(error)
                    && final(self)@ == old(self)@,
            },
    {
        match self.last_store_error() {
            Some(text) => Err(TaskServiceError::StoreUnavailable(text)),
            None => self.admission.enter(),
        }
    }

    /// Leaves the admission gate.
    pub fn leave(&mut self)
        requires
            old(self)@.gate.active > 0,
        ensures
            final(self)@ == old(self)@.left(),
    {
        self.admission.leave();
    }

    /// Returns the number of operations inside the admission gate.
    pub fn active(&self) -> (active: usize)
        ensures
            active == self@.gate.active,
    {
        self.admission.active()
    }

    /// Reports whether shutdown has published its final result.
    pub fn is_closed(&self) -> (closed: bool)
        ensures
            closed == (self@.gate.phase == Phase::Closed),
    {
        self.admission.is_closed()
    }

    /// Starts shutdown and returns whether this call owns its coordination.
    pub fn begin_shutdown(&mut self) -> (owner: bool)
        ensures
            owner == (old(self)@.gate.phase == Phase::Open),
            final(self)@ == (CoreModel { gate: old(self)@.gate.closing(), ..old(self)@ }),
    {
        self.admission.close()
    }

    /// Publishes the shutdown result, once.
    pub fn finish_shutdown(&mut self, result: Result<(), TaskServiceError>)
        ensures
            final(self)@ == (CoreModel {
                gate: old(self)@.gate.finished(outcome(result)),
                ..old(self)@
            }),
    {
        self.admission.finish_close(result);
    }

    /// Returns the published shutdown result.
    pub fn shutdown_result(&self) -> (result: Option<Result<(), TaskServiceError>>)
        ensures
            match result {
                Some(value) => self@.gate.result == Some(outcome(value)),
                None => self@.gate.result is None,
            },
    {
        self.admission.close_result()
    }

    /// Takes one waiting position when capacity remains.
    pub fn reserve_queue_slot(&mut self) -> (reserved: bool)
        ensures
            reserved == old(self)@.has_slot(),
            final(self)@ == if reserved {
                old(self)@.slot_taken()
            } else {
                old(self)@
            },
    {
        if self.queue_count < self.settings.queue_capacity {
            self.queue_count = self.queue_count + 1;
            true
        } else {
            false
        }
    }

    /// Frees one waiting position.
    pub fn release_queue_slot(&mut self)
        ensures
            final(self)@ == old(self)@.slot_freed(),
    {
        if self.queue_count > 0 {
            self.queue_count = self.queue_count - 1;
        }
    }

    /// Takes one execution slot when fewer than the maximum are in use.
    pub fn acquire_running_slot(&mut self) -> (acquired: bool)
        ensures
            acquired == (old(self)@.running < old(self)@.settings.max_running_tasks),
            final(self)@ == if acquired {
                CoreModel { running: (old(self)@.running + 1) as usize, ..old(self)@ }
            } else {
                old(self)@
            },
    {
        if self.running < self.settings.max_running_tasks {
            self.running = self.running + 1;
            true
        } else {
            false
        }
    }

    /// Gives an execution slot back.
    pub fn release_running_slot(&mut self)
        requires
            old(self)@.running > 0,
        ensures
            final(self)@ == (CoreModel { running: (old(self)@.running - 1) as usize, ..old(self)@ }),
    {
        self.running = self.running - 1;
    }

    /// Adds a task behind its equals.
    pub fn push(&mut self, task: QueuedTask)
        ensures
            final(self)@ == old(self)@.waiting(task@),
    {
        self.queue.push(task);
    }

    /// Removes a waiting task.
    pub fn remove_waiting(&mut self, id: TaskId) -> (found: bool)
        ensures
            found == old(self)@.queue.holds(id),
            final(self)@ == if found {
                CoreModel { queue: old(self)@.queue.removed(id), ..old(self)@ }
            } else {
                old(self)@
            },
    {
        self.queue.remove(id)
    }

    /// Takes the tasks of one scheduling pass out of the queue.
    pub fn take_window(&mut self, now_ms: u64) -> (window: Vec<QueuedTask>)
        ensures
            queued_models(window@) == old(self)@.queue.window(
                old(self)@.settings.scan_budget,
                now_ms,
            ),
            forall|i: int|
                0 <= i < window@.len() ==> (#[trigger] window@[i]).retry_not_before_ms is None,
            final(self)@ == (CoreModel {
                queue: old(self)@.queue.after_window(old(self)@.settings.scan_budget, now_ms),
                ..old(self)@
            }),
    {
        self.queue.take_window(self.settings.scan_budget, now_ms)
    }

    /// Puts unstarted tasks back in front of the queue.
    pub fn restore_front(&mut self, tasks: Vec<QueuedTask>)
        ensures
            final(self)@ == (CoreModel {
                queue: old(self)@.queue.restored(queued_models(tasks@)),
                ..old(self)@
            }),
    {
        self.queue.restore_front(tasks);
    }

    /// Keeps the handler of a waiting process-local task.
    pub fn keep_handler(&mut self, id: TaskId, handler: H)
        ensures
            final(self)@ == (CoreModel {
                handlers: old(self)@.handlers.insert(id.0, handler),
                ..old(self)@
            }),
    {
        let _previous = self.local_handlers.insert(id.0, handler);
    }

    /// Returns the handler of a waiting process-local task.
    pub fn local_handler(&self, id: TaskId) -> (handler: Option<&H>)
        ensures
            match handler {
                Some(found) => self@.handlers.contains_key(id.0) && *found
                    == self@.handlers[id.0],
                None => !self@.handlers.contains_key(id.0),
            },
    {
        self.local_handlers.get(&id.0)
    }

    /// Drops the handler of a process-local task.
    pub fn drop_handler(&mut self, id: TaskId)
        ensures
            final(self)@ == (CoreModel {
                handlers: old(self)@.handlers.remove(id.0),
                ..old(self)@
            }),
    {
        let _removed = self.local_handlers.remove(&id.0);
    }

    /// Keeps the sender of a process-local task's final state.
    pub fn keep_finalization(&mut self, id: TaskId, sender: S)
        ensures
            final(self)@ == (CoreModel {
                finalizations: old(self)@.finalizations.insert(id.0, sender),
                ..old(self)@
            }),
    {
        let _previous = self.local_finalizations.insert(id.0, sender);
    }

    /// Returns whether a process-local task still awaits its final state.
    pub fn awaits_finalization(&self, id: TaskId) -> (awaits: bool)
        ensures
            awaits == self@.finalizations.contains_key(id.0),
    {
        self.local_finalizations.contains_key(&id.0)
    }

    /// Takes the sender of a process-local task's final state.
    pub fn take_finalization(&mut self, id: TaskId) -> (sender: Option<S>)
        ensures
            sender == old(self)@.sender(id),
            final(self)@ == old(self)@.unsent(id),
    {
        let ghost before = self@;
        let sender = self.local_finalizations.remove(&id.0);
        proof {
            if sender is None {
                assert(self@.finalizations =~= before.finalizations.remove(id.0));
            }
        }
        sender
    }

    /// Remembers the signal of a started attempt.
    pub fn keep_cancellation(&mut self, id: TaskId, attempt: u32, signal: C)
        ensures
            final(self)@ == (CoreModel {
                cancellations: old(self)@.cancellations.insert(id.0, (attempt, signal)),
                ..old(self)@
            }),
    {
        let ghost before = self@.cancellations;
        let _previous = self.cancellations.insert(id.0, RunningCancellation { attempt, signal });
        proof {
            assert(self@.cancellations =~= before.insert(id.0, (attempt, signal)));
        }
    }

    /// Forgets the signal of a task.
    pub fn drop_cancellation(&mut self, id: TaskId)
        ensures
            final(self)@ == (CoreModel {
                cancellations: old(self)@.cancellations.remove(id.0),
                ..old(self)@
            }),
    {
        let ghost before = self@.cancellations;
        let _removed = self.cancellations.remove(&id.0);
        proof {
            assert(self@.cancellations =~= before.remove(id.0));
        }
    }

    /// Returns the signal of a running attempt.
    pub fn cancellation(&self, id: TaskId, attempt: u32) -> (signal: Option<&C>)
        ensures
            match signal {
                Some(found) => self@.runs(id, attempt) && *found == self@.cancellations[id.0].1,
                None => !self@.runs(id, attempt),
            },
    {
        proof {
            assert(self.cancellations@.contains_key(id.0) == self@.cancellations.contains_key(
                id.0,
            ));
        }
        match self.cancellations.get(&id.0) {
            Some(current) => if current.attempt == attempt {
                Some(&current.signal)
            } else {
                None
            },
            None => None,
        }
    }

    /// Records the first storage failure and closes admission.
    pub fn record_store_fault(&mut self, diagnostic: String) -> (fault: StoreFault<S>)
        ensures
            old(self)@.asks(diagnostic@, fault),
            final(self)@ == old(self)@.faulted(diagnostic@),
    {
        let first: String = match &self.store_fault {
            Some(text) => text.clone(),
            None => diagnostic,
        };
        let shown = first.clone();
        self.store_fault = Some(first);
        let finalizations = drain_values(&mut self.local_finalizations);
        self.local_handlers.clear();
        let coordinates = self.admission.close();
        StoreFault { diagnostic: shown, finalizations, coordinates }
    }

    /// Latches a worker-side store error, whatever it is.
    pub fn pause_on_store_fault(&mut self, error: &StoreError) -> (fault: StoreFault<S>)
        ensures
            old(self)@.asks(error@.message(), fault),
            final(self)@ == old(self)@.faulted(error@.message()),
    {
        self.record_store_fault(error.message())
    }

    /// Converts a store error and latches operational failures while preserving
    /// ordinary conflicts and not-found results for the calling operation.
    pub fn handle_store_error(&mut self, error: StoreError) -> (parts: (
        TaskServiceError,
        Option<StoreFault<S>>,
    ))
        ensures
            parts.0@ == ServiceErrorModel::Store(error@),
            old(self)@.asks_after_error(error@, parts.1),
            final(self)@ == old(self)@.after_error(error@),
    {
        if matches!(error, StoreError::Failure(_)) {
            let fault = self.record_store_fault(error.message());
            (TaskServiceError::Store(error), Some(fault))
        } else {
            (TaskServiceError::Store(error), None)
        }
    }
}

impl<H, S, C> ServiceCore<H, S, C> {
    /// Converts the result of a store call, and latches an operational failure.
    pub fn settle<T>(&mut self, result: Result<T, StoreError>) -> (parts: (
        Result<T, TaskServiceError>,
        Option<StoreFault<S>>,
    ))
        ensures
            settled(old(self)@, final(self)@, result, parts.0, parts.1),
    {
        match result {
            Ok(value) => (Ok(value), None),
            Err(error) => {
                let (failure, fault) = self.handle_store_error(error);
                (Err(failure), fault)
            },
        }
    }
}

/// What converting the result of a store call leads to.
pub open spec fn settled<H, S, C, T>(
    before: CoreModel<H, S, C>,
    after: CoreModel<H, S, C>,
    result: Result<T, StoreError>,
    converted: Result<T, TaskServiceError>,
    fault: Option<StoreFault<S>>,
) -> bool {
    match result {
        Ok(value) => converted == Ok::<T, TaskServiceError>(value) && fault is None && after
            == before,
        Err(error) => {
            &&& converted matches Err(e) && e@ == ServiceErrorModel::Store(error@)
            &&& before.asks_after_error(error@, fault)
            &&& after == before.after_error(error@)
        },
    }
}

impl<H, S, C> CoreModel<H, S, C> {
    /// Where a process-local task's final state is sent, if anywhere.
    pub open spec fn sender(self, id: TaskId) -> Option<S> {
        if self.finalizations.contains_key(id.0) {
            Some(self.finalizations[id.0])
        } else {
            None
        }
    }

    /// The service after a process-local task's sender was taken.
    pub open spec fn unsent(self, id: TaskId) -> Self {
        CoreModel { finalizations: self.finalizations.remove(id.0), ..self }
    }
}

/// The first storage failure stands, and once one is recorded nothing that needs
/// a working store may begin.
pub proof fn law_first_fault_stands<H, S, C>(
    core: CoreModel<H, S, C>,
    first: Seq<char>,
    second: Seq<char>,
)
    requires
        core.fault is None,
    ensures
        core.faulted(first).fault == Some(first),
        core.faulted(first).faulted(second).fault == Some(first),
        core.faulted(first).admission_error() == Some(ServiceErrorModel::StoreUnavailable(first)),
        core.faulted(first).entry_error() == Some(ServiceErrorModel::ShuttingDown),
{
}

} // verus!
