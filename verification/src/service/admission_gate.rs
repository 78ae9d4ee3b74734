//! Admission against one service-wide shutdown result.

use vstd::prelude::*;

use super::error::outcome;
use super::error::ServiceErrorModel;
use super::error::TaskServiceError;

verus! {

#[derive(Debug)]
enum CloseFailure {
    Other(String),
    Store(String),
    Scheduler(String),
    NotificationClose(String),
}

/// How far a gate has closed.
#[derive(Debug, Clone, Copy, PartialEq, Eq, Structural)]
pub enum Phase {
    /// New operations enter.
    Open,
    /// Nothing enters any more; the shutdown result is not known yet.
    Closing,
    /// The shutdown result is published.
    Closed,
}

/// Serializes admission against shutdown and tracks operations already inside.
#[derive(Debug)]
pub struct AdmissionGate {
    phase: Phase,
    active: usize,
    close_result: Option<Result<(), CloseFailure>>,
}

/// Content of an [`AdmissionGate`].
#[verifier::ext_equal]
pub struct GateModel {
    /// How far admission has closed.
    pub phase: Phase,
    /// Operations inside.
    pub active: usize,
    /// What every caller of shutdown is told.
    pub result: Option<Result<(), ServiceErrorModel>>,
}

/// What callers of shutdown are told for the coordinator's result.
pub open spec fn published(result: Result<(), ServiceErrorModel>) -> Result<
    (),
    ServiceErrorModel,
> {
    match result {
        Ok(_) => Ok(()),
        Err(ServiceErrorModel::NotificationClose(message)) => Err(
            ServiceErrorModel::NotificationClose(message),
        ),
        Err(ServiceErrorModel::StoreUnavailable(message)) => Err(
            ServiceErrorModel::StoreUnavailable(message),
        ),
        Err(ServiceErrorModel::SchedulerUnavailable(message)) => Err(
            ServiceErrorModel::SchedulerUnavailable(message),
        ),
        Err(other) => Err(ServiceErrorModel::StoreUnavailable(other.message())),
    }
}

impl CloseFailure {
    spec fn reported(self) -> ServiceErrorModel {
        match self {
            CloseFailure::Other(message) => ServiceErrorModel::StoreUnavailable(message@),
            CloseFailure::Store(message) => ServiceErrorModel::StoreUnavailable(message@),
            CloseFailure::Scheduler(message) => ServiceErrorModel::SchedulerUnavailable(message@),
            CloseFailure::NotificationClose(message) => ServiceErrorModel::NotificationClose(
                message@,
            ),
        }
    }
}

impl View for AdmissionGate {
    type V = GateModel;

    closed spec fn view(&self) -> GateModel {
        GateModel {
            phase: self.phase,
            active: self.active,
            result: match self.close_result {
                None => None,
                Some(Ok(_)) => Some(Ok(())),
                Some(Err(failure)) => Some(Err(failure.reported())),
            },
        }
    }
}

impl GateModel {
    /// Whether a result is published exactly when admission is closed.
    pub open spec fn valid(self) -> bool {
        self.phase == Phase::Closed <==> self.result is Some
    }

    /// Admission after shutdown begins.
    pub open spec fn closing(self) -> GateModel {
        if self.phase == Phase::Open {
            GateModel { phase: Phase::Closing, ..self }
        } else {
            self
        }
    }

    /// Admission after the coordinator finished with `result`.
    pub open spec fn finished(self, result: Result<(), ServiceErrorModel>) -> GateModel {
        if self.phase == Phase::Closed {
            self
        } else {
            GateModel { phase: Phase::Closed, result: Some(published(result)), ..self }
        }
    }
}

impl AdmissionGate {
    /// Creates an open gate with no in-flight operations.
    pub fn new() -> (gate: Self)
        ensures
            gate@ == (GateModel { phase: Phase::Open, active: 0, result: None }),
            gate@.valid(),
    {
        AdmissionGate { phase: Phase::Open, active: 0, close_result: None }
    }

    /// Enters before the first storage operation, or rejects a closed gate.
    pub fn enter(&mut self) -> (result: Result<(), TaskServiceError>)
        requires
            old(self)@.phase == Phase::Open ==> old(self)@.active < usize::MAX,
        ensures
            old(self)@.phase == Phase::Open ==> result is Ok && final(self)@ == (GateModel {
                active: (old(self)@.active + 1) as usize,
                ..old(self)@
            }),
            old(self)@.phase != Phase::Open ==> outcome(result) == Err::<(), ServiceErrorModel>(
                ServiceErrorModel::ShuttingDown,
            ) && final(self)@ == old(self)@,
    {
        if self.phase != Phase::Open {
            return Err(TaskServiceError::ShuttingDown);
        }
        self.active = self.active + 1;
        Ok(())
    }

    /// Leaves after all side effects of an entered operation finished.
    pub fn leave(&mut self)
        requires
            old(self)@.active > 0,
        ensures
            final(self)@ == (GateModel { active: (old(self)@.active - 1) as usize, ..old(self)@ }),
    {
        self.active = self.active - 1;
    }

    /// Starts closing and returns whether this call owns shutdown coordination.
    pub fn close(&mut self) -> (owner: bool)
        ensures
            owner == (old(self)@.phase == Phase::Open),
            final(self)@ == old(self)@.closing(),
    {
        if self.phase != Phase::Open {
            return false;
        }
        self.phase = Phase::Closing;
        true
    }

    /// Reports whether shutdown has published its final result.
    pub fn is_closed(&self) -> (closed: bool)
        ensures
            closed == (self@.phase == Phase::Closed),
    {
        self.phase == Phase::Closed
    }

    /// Reports whether every entered operation has left.
    pub fn is_idle(&self) -> (idle: bool)
        ensures
            idle == (self@.active == 0),
    {
        self.active == 0
    }

    /// Returns the number of operations inside.
    pub fn active(&self) -> (active: usize)
        ensures
            active == self@.active,
    {
        self.active
    }

    /// Publishes the coordinator result, once.
    pub fn finish_close(&mut self, result: Result<(), TaskServiceError>)
        ensures
            final(self)@ == old(self)@.finished(outcome(result)),
    {
        if self.phase == Phase::Closed {
            return;
        }
        self.close_result = Some(
            match result {
                Ok(_) => Ok(()),
                Err(TaskServiceError::NotificationClose(message)) => Err(
                    CloseFailure::NotificationClose(message),
                ),
                Err(TaskServiceError::StoreUnavailable(message)) => Err(
                    CloseFailure::Store(message),
                ),
                Err(TaskServiceError::SchedulerUnavailable(message)) => Err(
                    CloseFailure::Scheduler(message),
                ),
                Err(other) => Err(CloseFailure::Other(other.message())),
            },
        );
        self.phase = Phase::Closed;
    }

    /// Returns the completed shutdown diagnosis, the same to each caller.
    pub fn close_result(&self) -> (result: Option<Result<(), TaskServiceError>>)
        ensures
            match result {
                Some(value) => self@.result == Some(outcome(value)),
                None => self@.result is None,
            },
    {
        match &self.close_result {
            None => None,
            Some(Ok(_)) => Some(Ok(())),
            Some(Err(failure)) => Some(
                Err(
                    match failure {
                        CloseFailure::Other(message) => TaskServiceError::StoreUnavailable(
                            message.clone(),
                        ),
                        CloseFailure::Store(message) => TaskServiceError::StoreUnavailable(
                            message.clone(),
                        ),
                        CloseFailure::Scheduler(message) => TaskServiceError::SchedulerUnavailable(
                            message.clone(),
                        ),
                        CloseFailure::NotificationClose(message) => {
                            TaskServiceError::NotificationClose(message.clone())
                        },
                    },
                ),
            ),
        }
    }
}

/// One call of a gate and what it answered.
pub enum GateEvent {
    /// Somebody asked to enter.
    Enter {
        /// Whether it was admitted.
        admitted: bool,
    },
    /// An admitted operation left.
    Leave,
    /// Shutdown was begun.
    Close {
        /// Whether this call owns its coordination.
        owner: bool,
    },
    /// The coordinator finished.
    Finish {
        /// Its result.
        result: Result<(), ServiceErrorModel>,
    },
}

/// What one call does to a gate.
pub open spec fn gate_event(before: GateModel, event: GateEvent, after: GateModel) -> bool {
    match event {
        GateEvent::Enter { admitted } => {
            &&& admitted == (before.phase == Phase::Open)
            &&& if admitted {
                before.active < usize::MAX && after == (GateModel {
                    active: (before.active + 1) as usize,
                    ..before
                })
            } else {
                after == before
            }
        },
        GateEvent::Leave => before.active > 0 && after == (GateModel {
            active: (before.active - 1) as usize,
            ..before
        }),
        GateEvent::Close { owner } => owner == (before.phase == Phase::Open) && after
            == before.closing(),
        GateEvent::Finish { result } => after == before.finished(result),
    }
}

/// Whether a new gate goes through `states` when `events` happen.
pub open spec fn is_gate_history(events: Seq<GateEvent>, states: Seq<GateModel>) -> bool {
    &&& states.len() == events.len() + 1
    &&& states[0] == (GateModel { phase: Phase::Open, active: 0, result: None })
    &&& forall|k: int|
        0 <= k < events.len() ==> gate_event(states[k], #[trigger] events[k], states[k + 1])
}

/// Whether shutdown was begun, or finished, by one of the first `n` calls.
pub open spec fn is_begun(events: Seq<GateEvent>, n: nat) -> bool
    decreases n,
{
    n > 0 && (is_begun(events, (n - 1) as nat) || events[n - 1] is Close || events[n
        - 1] is Finish)
}

/// The first result that the coordinator gave in the first `n` calls, if any.
pub open spec fn first_result(events: Seq<GateEvent>, n: nat) -> Option<
    Result<(), ServiceErrorModel>,
>
    decreases n,
{
    if n == 0 {
        None
    } else if first_result(events, (n - 1) as nat) is Some {
        first_result(events, (n - 1) as nat)
    } else {
        match events[n - 1] {
            GateEvent::Finish { result } => Some(result),
            _ => None,
        }
    }
}

/// How many operations of the first `n` calls entered and have not left.
pub open spec fn inside(events: Seq<GateEvent>, n: nat) -> int
    decreases n,
{
    if n == 0 {
        0
    } else {
        inside(events, (n - 1) as nat) + match events[n - 1] {
            GateEvent::Enter { admitted: true } => 1int,
            GateEvent::Leave => -1int,
            _ => 0int,
        }
    }
}

/// A gate after any calls: it is open exactly until the first call that begins or
/// finishes shutdown, closed exactly from the first result on, tells everybody
/// that first result, and counts what entered and has not left, whether or not
/// shutdown began meanwhile.
pub proof fn law_gate_follows_its_history(events: Seq<GateEvent>, states: Seq<GateModel>, n: nat)
    requires
        is_gate_history(events, states),
        n <= events.len(),
    ensures
        states[n as int].phase == Phase::Open <==> !is_begun(events, n),
        states[n as int].phase == Phase::Closed <==> first_result(events, n) is Some,
        states[n as int].result == match first_result(events, n) {
            Some(result) => Some(published(result)),
            None => None,
        },
        states[n as int].active == inside(events, n),
    decreases n,
{
    if n > 0 {
        law_gate_follows_its_history(events, states, (n - 1) as nat);
        let k = n - 1;
        assert(gate_event(states[k], events[k], states[k + 1]));
    }
}

proof fn lemma_begun_stays(events: Seq<GateEvent>, i: nat, j: nat)
    requires
        i <= j,
        is_begun(events, i),
    ensures
        is_begun(events, j),
    decreases j,
{
    if i < j {
        lemma_begun_stays(events, i, (j - 1) as nat);
    }
}

/// The first call that begins shutdown owns it and no later one does; everybody
/// is admitted before it and nobody from then on. Shutdown is not finished before
/// it is begun.
pub proof fn law_first_close_owns_shutdown(
    events: Seq<GateEvent>,
    states: Seq<GateModel>,
    first: int,
    k: int,
)
    requires
        is_gate_history(events, states),
        0 <= first < events.len(),
        events[first] is Close,
        !is_begun(events, first as nat),
        0 <= k < events.len(),
    ensures
        events[k] matches GateEvent::Close { owner } ==> owner == (k == first),
        events[k] matches GateEvent::Enter { admitted } ==> admitted == (k < first),
        k > first ==> states[k].phase != Phase::Open,
{
    law_gate_follows_its_history(events, states, k as nat);
    assert(gate_event(states[k], events[k], states[k + 1]));
    if k < first {
        if is_begun(events, (k + 1) as nat) {
            lemma_begun_stays(events, (k + 1) as nat, first as nat);
        }
        if is_begun(events, k as nat) {
            lemma_begun_stays(events, k as nat, first as nat);
        }
    } else if k > first {
        assert(is_begun(events, (first + 1) as nat));
        lemma_begun_stays(events, (first + 1) as nat, k as nat);
    }
}

/// Once shutdown begins nothing ever enters again, whatever is published.
pub proof fn law_nothing_enters_after_shutdown_begins(
    gate: GateModel,
    result: Result<(), ServiceErrorModel>,
)
    ensures
        gate.closing().phase != Phase::Open,
        gate.closing().finished(result).phase == Phase::Closed,
        gate.closing().closing() == gate.closing(),
{
}

/// The first published result stands, and every later caller is told the same.
pub proof fn law_first_shutdown_result_stands(
    gate: GateModel,
    first: Result<(), ServiceErrorModel>,
    second: Result<(), ServiceErrorModel>,
)
    requires
        gate.valid(),
        gate.result is None,
    ensures
        gate.finished(first).result == Some(published(first)),
        gate.finished(first).finished(second) == gate.finished(first),
        gate.finished(first).valid(),
{
}

} // verus!
