//! What holds of a service however its operations follow one another.

use vstd::prelude::*;

use super::admission_gate::Phase;
use super::attempts::finish_loaded_post;
use super::attempts::finish_transitioned_post;
use super::attempts::EndModel;
use super::attempts::FinishStep;
use super::control::abandon_post;
use super::control::cancel_loaded_post;
use super::control::cancel_transitioned_post;
use super::control::counted_post;
use super::control::drain_post;
use super::control::retry_loaded_post;
use super::control::retry_transitioned_post;
use super::control::wait_loaded_post;
use super::control::CancelDone;
use super::control::CancelStep;
use super::control::DrainStep;
use super::control::RecordReply;
use super::control::RetryStep;
use super::control::WaitStep;
use super::error::ServiceErrorModel;
use super::scheduler::activation_blocked_post;
use super::scheduler::activation_reloaded_post;
use super::scheduler::blocked_post;
use super::scheduler::confirmed_post;
use super::scheduler::loaded_post;
use super::scheduler::next_post;
use super::scheduler::prepared_post;
use super::scheduler::round_start_post;
use super::scheduler::started_post;
use super::scheduler::ActivationStep;
use super::scheduler::CandidateStep;
use super::scheduler::ConfirmStep;
use super::scheduler::RoundModel;
use super::scheduler::RoundStart;
use super::scheduler_queue::QueueModel;
use super::service_core::CoreModel;
use super::service_core::ServiceSettings;
use super::submission::accepted_post;
use super::submission::local_accepted_post;
use super::submission::local_entered;
use super::submission::lookup_post;
use super::submission::SubmitReply;
use super::submission::SubmitStep;
use crate::engine::EngineError;
use crate::model::resource::DemandModel;
use crate::model::task_record::LifeModel;
use crate::model::task_record::RecordModel;
use crate::model::task_record::TaskStateCounts;
use crate::model::task_request::RequestModel;
use crate::model::AcceptOutcome;
use crate::model::TaskId;
use crate::model::TaskRecord;
use crate::scheduling::fair_fifo::QueuedModel;
use crate::store::StoreError;

verus! {

impl<H, S, C> CoreModel<H, S, C> {
    /// What holds of a service at all times: no more attempts run than are
    /// allowed, the admission limits hold, shutdown's result is published
    /// exactly when it is over, and a storage failure has closed admission.
    pub open spec fn sound(self) -> bool {
        &&& self.running <= self.settings.max_running_tasks
        &&& self.budget.valid()
        &&& self.gate.valid()
        &&& self.fault is Some ==> self.gate.phase != Phase::Open
    }
}

/// What never changes back between an earlier and a later moment of a service:
/// its limits stay, a recorded storage failure stays the same one, closed
/// admission stays closed, a published shutdown result stands, and no waiting
/// position is taken beyond the queue's capacity.
pub open spec fn progresses<H, S, C>(before: CoreModel<H, S, C>, after: CoreModel<H, S, C>) -> bool {
    &&& after.settings == before.settings
    &&& after.budget.max_payload_bytes == before.budget.max_payload_bytes
    &&& after.budget.max_submissions == before.budget.max_submissions
    &&& before.fault is Some ==> after.fault == before.fault
    &&& before.gate.phase != Phase::Open ==> after.gate.phase != Phase::Open
    &&& before.gate.phase == Phase::Closed ==> after.gate.phase == Phase::Closed
        && after.gate.result == before.gate.result
    &&& after.queue_count <= before.queue_count || after.queue_count
        <= before.settings.queue_capacity
    &&& before.sound() ==> after.sound()
}

/// A change of the queue, of the waiting positions, or of what is kept for
/// process-local tasks and running attempts.
pub open spec fn bookkeeping_step<H, S, C>(
    before: CoreModel<H, S, C>,
    after: CoreModel<H, S, C>,
) -> bool {
    after == (CoreModel {
        queue: after.queue,
        queue_count: after.queue_count,
        handlers: after.handlers,
        finalizations: after.finalizations,
        cancellations: after.cancellations,
        ..before
    }) && (after.queue_count <= before.queue_count || before.has_slot() && after.queue_count
        == before.queue_count + 1)
}

/// A submission step.
pub open spec fn submission_step<H, S, C>(
    before: CoreModel<H, S, C>,
    after: CoreModel<H, S, C>,
) -> bool {
    ||| before.admission_error() is None && before.gate.active < usize::MAX && after
        == before.entered()
    ||| exists|
        request: RequestModel,
        found: Result<Option<TaskRecord>, StoreError>,
        rechecking: bool,
        step: SubmitStep<S>,
    | #[trigger]
        lookup_post(before, after, request, found, rechecking, step)
    ||| exists|
        resources: DemandModel,
        outcome: Result<AcceptOutcome, StoreError>,
        reply: SubmitReply<S>,
    | #[trigger]
        accepted_post(before, after, resources, outcome, reply)
    ||| before.admission_error() is None && before.gate.active < usize::MAX && before.has_slot()
        && exists|id: TaskId, sender: S| after == #[trigger] local_entered(before, id, sender)
    ||| exists|
        id: TaskId,
        resources: DemandModel,
        handler: H,
        outcome: Result<AcceptOutcome, StoreError>,
        reply: SubmitReply<S>,
    | #[trigger]
        local_accepted_post(before, after, id, resources, handler, outcome, reply)
    ||| exists|payload_bytes: usize|
        #[trigger] before.budget.reserve_error(payload_bytes) is None && after == (CoreModel {
            budget: before.budget.reserved(payload_bytes),
            ..before
        })
    ||| exists|payload_bytes: usize| #[trigger]
        before.budget.can_release(payload_bytes) && after == (CoreModel {
            budget: before.budget.released(payload_bytes),
            ..before
        })
}

/// A step of cancellation, retry, waiting or shutdown.
pub open spec fn control_step<H, S, C>(
    before: CoreModel<H, S, C>,
    after: CoreModel<H, S, C>,
) -> bool {
    ||| before.entry_error() is None && before.gate.active < usize::MAX && after
        == before.entered()
    ||| before.gate.active > 0 && after == before.left()
    ||| exists|
        found: Result<Option<TaskRecord>, StoreError>,
        tried: Option<u64>,
        step: CancelStep<S>,
    | #[trigger]
        cancel_loaded_post(before, after, found, tried, step)
    ||| exists|life: LifeModel, updated: Result<TaskRecord, StoreError>, done: CancelDone<S>|
        #[trigger] cancel_transitioned_post(before, after, life, updated, done)
    ||| exists|found: Result<Option<TaskRecord>, StoreError>, step: RetryStep<S>| #[trigger]
        retry_loaded_post(before, after, found, step)
    ||| exists|id: TaskId, updated: Result<TaskRecord, StoreError>, reply: RecordReply<S>|
        #[trigger] retry_transitioned_post(before, after, id, updated, reply)
    ||| exists|
        current: LifeModel,
        updated: Result<TaskRecord, StoreError>,
        reply: RecordReply<S>,
        finalize: Option<S>,
    | #[trigger]
        abandon_post(before, after, current, updated, reply, finalize)
    ||| exists|found: Result<Option<TaskRecord>, StoreError>, step: WaitStep<S>| #[trigger]
        wait_loaded_post(before, after, found, step)
    ||| exists|counts: Result<TaskStateCounts, StoreError>, step: DrainStep<S>| #[trigger]
        drain_post(before, after, counts, step)
    ||| exists|counts: Result<TaskStateCounts, StoreError>, step: DrainStep<S>| #[trigger]
        counted_post(before, after, counts, step)
    ||| exists|diagnostic: Seq<char>| after == #[trigger] before.faulted(diagnostic)
    ||| after == (CoreModel { gate: before.gate.closing(), ..before })
    ||| exists|result: Result<(), ServiceErrorModel>|
        after == (CoreModel { gate: #[trigger] before.gate.finished(result), ..before })
}

/// A step of a scheduling pass or of an attempt's end.
pub open spec fn scheduling_step<H, S, C>(
    before: CoreModel<H, S, C>,
    after: CoreModel<H, S, C>,
) -> bool {
    ||| exists|now_ms: u64, start: RoundStart| #[trigger]
        round_start_post(before, after, now_ms, start)
    ||| exists|round: RoundModel, left: RoundModel, step: CandidateStep<S>| #[trigger]
        next_post(before, after, round, left, step)
    ||| exists|
        round: RoundModel,
        left: RoundModel,
        task: QueuedModel,
        found: Result<Option<TaskRecord>, StoreError>,
        now_ms: u64,
        step: CandidateStep<S>,
    | #[trigger]
        loaded_post(before, after, round, left, task, found, now_ms, step)
    ||| exists|
        round: RoundModel,
        left: RoundModel,
        task: QueuedModel,
        updated: Result<TaskRecord, StoreError>,
        step: CandidateStep<S>,
    | #[trigger]
        blocked_post(before, after, round, left, task, updated, step)
    ||| exists|
        round: RoundModel,
        left: RoundModel,
        task: QueuedModel,
        record: RecordModel,
        assigned: Result<Seq<Seq<char>>, EngineError>,
        step: CandidateStep<S>,
    | #[trigger]
        prepared_post(before, after, round, left, task, record, assigned, step)
    ||| exists|
        round: RoundModel,
        left: RoundModel,
        task: QueuedModel,
        updated: Result<TaskRecord, StoreError>,
        step: CandidateStep<S>,
    | #[trigger]
        started_post(before, after, round, left, task, updated, step)
    ||| exists|
        round: RoundModel,
        left: RoundModel,
        running: LifeModel,
        found: Result<Option<TaskRecord>, StoreError>,
        step: ConfirmStep<S>,
    | #[trigger]
        confirmed_post(before, after, round, left, running, found, step)
    ||| exists|
        round: RoundModel,
        left: RoundModel,
        updated: Result<TaskRecord, StoreError>,
        step: ActivationStep<S>,
    | #[trigger]
        activation_blocked_post(before, after, round, left, updated, step)
    ||| exists|
        round: RoundModel,
        left: RoundModel,
        attempt: u32,
        error: EngineError,
        found: Result<Option<TaskRecord>, StoreError>,
        step: ActivationStep<S>,
    | #[trigger]
        activation_reloaded_post(before, after, round, left, attempt, error, found, step)
    ||| before.running < before.settings.max_running_tasks && after == (CoreModel {
        running: (before.running + 1) as usize,
        ..before
    })
    ||| before.running > 0 && after == (CoreModel {
        running: (before.running - 1) as usize,
        ..before
    })
    ||| exists|id: TaskId, attempt: u32|
        after == #[trigger] before.attempt_over(id, attempt) || (before.has_slot() && after
            == before.attempt_over(id, attempt).slot_taken())
    ||| exists|
        attempt: u32,
        end: EndModel,
        found: Result<Option<TaskRecord>, StoreError>,
        step: FinishStep<S>,
    | #[trigger]
        finish_loaded_post(before, after, attempt, end, found, step)
    ||| exists|end: EndModel, updated: Result<TaskRecord, StoreError>, step: FinishStep<S>|
        #[trigger] finish_transitioned_post(before, after, end, updated, step)
}

/// Anything that an operation of the service does to its state.
pub open spec fn service_step<H, S, C>(
    before: CoreModel<H, S, C>,
    after: CoreModel<H, S, C>,
) -> bool {
    ||| bookkeeping_step(before, after)
    ||| submission_step(before, after)
    ||| control_step(before, after)
    ||| scheduling_step(before, after)
}

/// A service starts sound.
pub proof fn law_services_start_sound<H, S, C>(
    settings: ServiceSettings,
    queue: QueueModel,
    queue_count: usize,
    max_payload_bytes: usize,
    max_submissions: usize,
)
    ensures
        CoreModel::<H, S, C>::starting(
            settings,
            queue,
            queue_count,
            max_payload_bytes,
            max_submissions,
        ).sound(),
{
}

/// Every submission step keeps the service sound and changes nothing back.
pub proof fn law_submissions_progress<H, S, C>(
    before: CoreModel<H, S, C>,
    after: CoreModel<H, S, C>,
)
    requires
        submission_step(before, after),
    ensures
        progresses(before, after),
{
}

/// Every step of cancellation, retry, waiting or shutdown keeps the service
/// sound and changes nothing back.
pub proof fn law_controls_progress<H, S, C>(before: CoreModel<H, S, C>, after: CoreModel<H, S, C>)
    requires
        control_step(before, after),
    ensures
        progresses(before, after),
{
}

/// Every step of a scheduling pass or of an attempt's end keeps the service
/// sound and changes nothing back.
pub proof fn law_scheduling_progresses<H, S, C>(
    before: CoreModel<H, S, C>,
    after: CoreModel<H, S, C>,
)
    requires
        scheduling_step(before, after),
    ensures
        progresses(before, after),
{
}

/// However operations follow one another, the service stays sound: never more
/// attempts run than are allowed, a storage failure stands for good, and after
/// shutdown began nothing is admitted again.
pub proof fn law_every_history_progresses<H, S, C>(
    history: Seq<CoreModel<H, S, C>>,
    i: int,
    j: int,
)
    requires
        forall|k: int|
            0 <= k < history.len() - 1 ==> service_step(
                #[trigger] history[k],
                history[k + 1],
            ),
        0 <= i <= j < history.len(),
    ensures
        progresses(history[i], history[j]),
    decreases j - i,
{
    if i < j {
        law_every_history_progresses(history, i, j - 1);
        let before = history[j - 1];
        let after = history[j];
        assert(service_step(history[j - 1], history[(j - 1) + 1]));
        if bookkeeping_step(before, after) {
        } else if submission_step(before, after) {
            law_submissions_progress(before, after);
        } else if control_step(before, after) {
            law_controls_progress(before, after);
        } else {
            law_scheduling_progresses(before, after);
        }
    }
}

/// Waiting positions never exceed the queue's capacity, save for tasks that were
/// recovered beyond it.
pub proof fn law_waiting_positions_are_bounded<H, S, C>(
    settings: ServiceSettings,
    queue: QueueModel,
    recovered: usize,
    max_payload_bytes: usize,
    max_submissions: usize,
    history: Seq<CoreModel<H, S, C>>,
    j: int,
)
    requires
        0 <= j < history.len(),
        history[0] == CoreModel::<H, S, C>::starting(
            settings,
            queue,
            recovered,
            max_payload_bytes,
            max_submissions,
        ),
        forall|k: int|
            0 <= k < history.len() - 1 ==> service_step(
                #[trigger] history[k],
                history[k + 1],
            ),
    ensures
        history[j].queue_count <= settings.queue_capacity || history[j].queue_count <= recovered,
        history[j].running <= settings.max_running_tasks,
{
    law_every_history_progresses(history, 0, j);
    law_services_start_sound::<H, S, C>(
        settings,
        queue,
        recovered,
        max_payload_bytes,
        max_submissions,
    );
}

} // verus!
