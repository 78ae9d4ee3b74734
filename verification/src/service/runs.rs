//! What holds of a scheduler over a whole run.
//!
//! A run is what happens when every step that a pass asks for is carried out and
//! answered, while attempts end and the rest of the service goes on.

use vstd::prelude::*;

use super::builder::is_known;
use super::progress::service_step;
use super::scheduler::activated_post;
use super::scheduler::activation_blocked_post;
use super::scheduler::activation_failed_post;
use super::scheduler::activation_reloaded_post;
use super::scheduler::blocked_post;
use super::scheduler::confirmed_post;
use super::scheduler::loaded_post;
use super::scheduler::next_post;
use super::scheduler::prepared_post;
use super::scheduler::resolved_post;
use super::scheduler::round_start_post;
use super::scheduler::started_post;
use super::scheduler::ActivationStep;
use super::scheduler::CandidateStep;
use super::scheduler::ConfirmStep;
use super::scheduler::RoundModel;
use super::scheduler::RoundStart;
use super::service_core::CoreModel;
use crate::engine::EngineError;
use crate::model::task_record::RecordModel;
use crate::model::TaskId;
use crate::model::TaskRecord;
use crate::store::lifecycle::advanced;
use crate::store::lifecycle::revision_error;
use crate::store::StoreError;

verus! {

/// Where a scheduler stands.
pub enum Stage<S> {
    /// Between passes.
    Idle,
    /// About to pick a candidate.
    Picking,
    /// The pass asked for this.
    Asked(CandidateStep<S>),
    /// This attempt was activated, and its task is read again.
    Confirming(TaskRecord),
    /// The task of an activated attempt could not be read.
    Detaching,
    /// An activation failed, and this is asked for.
    Failing(ActivationStep<S>),
    /// The scheduler has ended.
    Ended,
}

/// A scheduler at some moment of a run.
pub struct Run<H, S, C> {
    /// The service.
    pub core: CoreModel<H, S, C>,
    /// The pass.
    pub round: RoundModel,
    /// Where the scheduler stands.
    pub stage: Stage<S>,
    /// The candidate as it was read.
    pub read: Option<RecordModel>,
    /// Whether an execution slot is held for the candidate.
    pub slot: bool,
    /// Attempts that are observed and not over.
    pub live: nat,
    /// Attempts that nobody observes and that are not over.
    pub stray: nat,
}

/// What happens in a run, with what was answered.
#[allow(inconsistent_fields)]
pub enum RunEvent<S, C> {
    /// A pass is begun, and the policy orders its window.
    Begin { now_ms: u64, start: RoundStart, order: Seq<TaskId> },
    /// A candidate is picked.
    Pick { step: CandidateStep<S> },
    /// The candidate is read.
    Read { found: Result<Option<TaskRecord>, StoreError>, now_ms: u64, step: CandidateStep<S> },
    /// The candidate's handler is looked for.
    Resolve { known: bool, step: CandidateStep<S> },
    /// Every execution slot is taken.
    Refuse { step: CandidateStep<S> },
    /// An execution slot is taken for the candidate.
    TakeSlot,
    /// The engine answers a reservation.
    Reserve { assigned: Result<Seq<Seq<char>>, EngineError>, step: CandidateStep<S> },
    /// The store answers a blocking command.
    Block { updated: Result<TaskRecord, StoreError>, step: CandidateStep<S> },
    /// The store answers a starting command.
    Start { updated: Result<TaskRecord, StoreError>, now_ms: u64, step: CandidateStep<S> },
    /// The engine activates the attempt.
    Activate { signal: C },
    /// The task of an activated attempt is read.
    Confirm { found: Result<Option<TaskRecord>, StoreError>, step: ConfirmStep<S> },
    /// An activated attempt is left to itself.
    Detach,
    /// The engine refuses to activate the attempt.
    Fail { error: EngineError, step: ActivationStep<S> },
    /// The store answers the blocking of a task whose activation failed.
    FailBlock { updated: Result<TaskRecord, StoreError>, step: ActivationStep<S> },
    /// A task whose activation failed is read again.
    FailReload {
        attempt: u32,
        error: EngineError,
        found: Result<Option<TaskRecord>, StoreError>,
        step: ActivationStep<S>,
    },
    /// The candidate is done with.
    Continue,
    /// The pass ends.
    Finish,
    /// The scheduler ends.
    Stop,
    /// An observed attempt is over and settled.
    Over,
    /// An attempt that nobody observes is over.
    StrayOver,
    /// Something else happens in the service.
    Elsewhere,
}

impl<H, S, C> CoreModel<H, S, C> {
    /// The service with one execution slot fewer in use, if one was held.
    pub open spec fn slot_returned(self, held: bool) -> Self {
        if held {
            CoreModel { running: (self.running - 1) as usize, ..self }
        } else {
            self
        }
    }

    /// Whether a task has a handler: one of its own, or one that is registered.
    pub open spec fn has_handler(
        self,
        record: RecordModel,
        keys: Set<(Seq<char>, Seq<char>)>,
    ) -> bool {
        self.handlers.contains_key(record.life.id.0) || is_known(record, keys)
    }
}

impl<H, S, C> Run<H, S, C> {
    /// Execution slots held for the candidate or for an attempt that is not
    /// observed yet.
    pub open spec fn held(self) -> nat {
        if self.slot {
            1
        } else {
            0
        }
    }

    /// Attempts that were activated and are not over.
    pub open spec fn attempts(self) -> nat {
        self.live + self.stray + if self.stage is Confirming || self.stage is Detaching {
            1nat
        } else {
            0nat
        }
    }

    /// A scheduler before its first pass.
    pub open spec fn is_new(self) -> bool {
        self.stage is Idle && self.core.running == 0 && !self.slot && self.live == 0 && self.stray
            == 0
    }
}

/// What an event does to a run. A read gives the task that was asked for, and a
/// command takes effect on the revision that it was made for.
pub open spec fn run_event<H, S, C>(
    keys: Set<(Seq<char>, Seq<char>)>,
    before: Run<H, S, C>,
    event: RunEvent<S, C>,
    after: Run<H, S, C>,
) -> bool {
    let core = before.core;
    match event {
        RunEvent::Begin { now_ms, start, order } => {
            &&& before.stage is Idle
            &&& round_start_post(core, after.core, now_ms, start)
            &&& after == match start {
                RoundStart::Stop => Run { core: after.core, stage: Stage::Ended, ..before },
                RoundStart::Idle { .. } => Run { core: after.core, ..before },
                RoundStart::Run(round) => Run {
                    core: after.core,
                    round: RoundModel { order, next: 0, ..round@ },
                    stage: Stage::Picking,
                    ..before
                },
            }
        },
        RunEvent::Pick { step } => {
            &&& before.stage is Picking
            &&& next_post(core, after.core, before.round, after.round, step)
            &&& after == Run {
                core: after.core,
                round: after.round,
                stage: Stage::Asked(step),
                read: None,
                ..before
            }
        },
        RunEvent::Read { found, now_ms, step } => {
            &&& before.stage matches Stage::Asked(CandidateStep::Load(task)) && loaded_post(
                core,
                after.core,
                before.round,
                after.round,
                task@,
                found,
                now_ms,
                step,
            ) && (found matches Ok(Some(record)) ==> record@.life.id == task@.id)
            &&& after == Run {
                core: after.core,
                round: after.round,
                stage: Stage::Asked(step),
                read: match found {
                    Ok(Some(record)) => Some(record@),
                    _ => None,
                },
                ..before
            }
        },
        RunEvent::Resolve { known, step } => {
            &&& before.stage matches Stage::Asked(CandidateStep::Resolve { task, record }) && known
                == core.has_handler(record@, keys) && resolved_post(task@, record@, known, step)
            &&& after == Run { stage: Stage::Asked(step), ..before }
        },
        RunEvent::Refuse { step } => {
            &&& before.stage matches Stage::Asked(CandidateStep::Prepare { task, record })
                && after.round == before.round.put_back(task@)
            &&& !before.slot && core.running >= core.settings.max_running_tasks
            &&& step is Finish
            &&& after == Run { round: after.round, stage: Stage::Asked(step), ..before }
        },
        RunEvent::TakeSlot => {
            &&& before.stage matches Stage::Asked(step) && step is Prepare
            &&& !before.slot && core.running < core.settings.max_running_tasks
            &&& after == Run {
                core: CoreModel { running: (core.running + 1) as usize, ..core },
                slot: true,
                ..before
            }
        },
        RunEvent::Reserve { assigned, step } => {
            &&& before.slot
            &&& before.stage matches Stage::Asked(CandidateStep::Prepare { task, record })
                && prepared_post(
                core,
                after.core,
                before.round,
                after.round,
                task@,
                record@,
                assigned,
                step,
            )
            &&& after == Run {
                core: after.core,
                round: after.round,
                stage: Stage::Asked(step),
                ..before
            }
        },
        RunEvent::Block { updated, step } => {
            &&& before.stage matches Stage::Asked(CandidateStep::Block { task, command })
                && blocked_post(
                core,
                after.core,
                before.round,
                after.round,
                task@,
                updated,
                step,
            )
            &&& after == Run {
                core: after.core,
                round: after.round,
                stage: Stage::Asked(step),
                ..before
            }
        },
        RunEvent::Start { updated, now_ms, step } => {
            &&& before.slot
            &&& before.stage matches Stage::Asked(CandidateStep::Start { task, command })
                && started_post(
                core,
                after.core,
                before.round,
                after.round,
                task@,
                updated,
                step,
            ) && (updated matches Ok(running) ==> (before.read matches Some(record)
                && revision_error(record.life, command@) is None && running@ == (RecordModel {
                life: advanced(record.life, command@, now_ms),
                ..record
            })))
            &&& after == Run {
                core: after.core,
                round: after.round,
                stage: Stage::Asked(step),
                ..before
            }
        },
        RunEvent::Activate { signal } => {
            &&& before.slot
            &&& before.stage matches Stage::Asked(CandidateStep::Activate(running))
                && activated_post(before.round, after.round, running@.life.id) && after == Run {
                core: CoreModel {
                    cancellations: core.cancellations.insert(
                        running@.life.id.0,
                        (running@.life.attempt, signal),
                    ),
                    ..core
                },
                round: after.round,
                stage: Stage::Confirming(running),
                ..before
            }
        },
        RunEvent::Confirm { found, step } => {
            &&& before.stage matches Stage::Confirming(running) && confirmed_post(
                core,
                after.core,
                before.round,
                after.round,
                running@.life,
                found,
                step,
            )
            &&& after == match step {
                ConfirmStep::Running { .. } => Run {
                    core: after.core,
                    round: after.round,
                    stage: Stage::Picking,
                    slot: false,
                    live: before.live + 1,
                    ..before
                },
                ConfirmStep::Stop { .. } => Run {
                    core: after.core,
                    round: after.round,
                    stage: Stage::Detaching,
                    ..before
                },
            }
        },
        RunEvent::Detach => {
            &&& before.stage is Detaching
            &&& after == Run {
                core: core.slot_returned(before.slot),
                stage: Stage::Ended,
                slot: false,
                stray: before.stray + 1,
                ..before
            }
        },
        RunEvent::Fail { error, step } => {
            &&& before.stage matches Stage::Asked(CandidateStep::Activate(running))
                && activation_failed_post(running@, error, step)
            &&& after == Run { stage: Stage::Failing(step), ..before }
        },
        RunEvent::FailBlock { updated, step } => {
            &&& before.stage matches Stage::Failing(asked) && asked is Block
            &&& activation_blocked_post(
                core,
                after.core,
                before.round,
                after.round,
                updated,
                step,
            )
            &&& after == Run {
                core: after.core,
                round: after.round,
                stage: Stage::Failing(step),
                ..before
            }
        },
        RunEvent::FailReload { attempt, error, found, step } => {
            &&& before.stage matches Stage::Failing(asked) && asked is Reload
            &&& activation_reloaded_post(
                core,
                after.core,
                before.round,
                after.round,
                attempt,
                error,
                found,
                step,
            )
            &&& after == Run {
                core: after.core,
                round: after.round,
                stage: Stage::Failing(step),
                ..before
            }
        },
        RunEvent::Continue => {
            &&& (before.stage matches Stage::Asked(step) && step is Next) || (
            before.stage matches Stage::Failing(step) && step is Next)
            &&& after == Run {
                core: core.slot_returned(before.slot),
                stage: Stage::Picking,
                slot: false,
                ..before
            }
        },
        RunEvent::Finish => {
            &&& before.stage matches Stage::Asked(step) && step is Finish
            &&& after == Run {
                core: core.slot_returned(before.slot).regained(before.round.leftover()),
                stage: Stage::Idle,
                slot: false,
                ..before
            }
        },
        RunEvent::Stop => {
            &&& (before.stage matches Stage::Asked(step) && step is Stop) || (
            before.stage matches Stage::Failing(step) && step is Stop)
            &&& after == Run {
                core: core.slot_returned(before.slot),
                stage: Stage::Ended,
                slot: false,
                ..before
            }
        },
        RunEvent::Over => {
            &&& before.live > 0
            &&& after == Run {
                core: core.slot_returned(true),
                live: (before.live - 1) as nat,
                ..before
            }
        },
        RunEvent::StrayOver => {
            &&& before.stray > 0
            &&& after == Run { stray: (before.stray - 1) as nat, ..before }
        },
        RunEvent::Elsewhere => {
            &&& service_step(core, after.core)
            &&& after.core.running == core.running
            &&& after.core.settings == core.settings
            &&& after == Run { core: after.core, ..before }
        },
    }
}

/// Whether a new scheduler goes through `states` when `events` happen.
pub open spec fn is_run<H, S, C>(
    keys: Set<(Seq<char>, Seq<char>)>,
    events: Seq<RunEvent<S, C>>,
    states: Seq<Run<H, S, C>>,
) -> bool {
    &&& states.len() == events.len() + 1
    &&& states[0].is_new()
    &&& forall|k: int|
        0 <= k < events.len() ==> run_event(keys, states[k], #[trigger] events[k], states[k + 1])
}

/// At every moment the execution slots in use are those of the attempts that are
/// observed and not over, and of the candidate in hand; and at most
/// `max_running_tasks` attempts are activated and not over, whatever resources
/// they ask for.
pub proof fn law_running_attempts_are_bounded<H, S, C>(
    keys: Set<(Seq<char>, Seq<char>)>,
    events: Seq<RunEvent<S, C>>,
    states: Seq<Run<H, S, C>>,
    n: int,
)
    requires
        is_run(keys, events, states),
        0 <= n <= events.len(),
    ensures
        states[n].core.settings == states[0].core.settings,
        states[n].core.running == states[n].live + states[n].held(),
        states[n].attempts() <= states[0].core.settings.max_running_tasks,
        states[n].live + states[n].stray + states[n].held()
            <= states[0].core.settings.max_running_tasks,
        states[n].stray > 0 ==> states[n].stage is Ended,
        states[n].stage is Confirming || states[n].stage is Detaching ==> states[n].slot,
    decreases n,
{
    if n > 0 {
        law_running_attempts_are_bounded(keys, events, states, n - 1);
        assert(run_event(keys, states[n - 1], events[n - 1], states[(n - 1) + 1]));
    }
}

/// The handler of a task was found at event `i`.
pub open spec fn found_at<H, S, C>(
    keys: Set<(Seq<char>, Seq<char>)>,
    events: Seq<RunEvent<S, C>>,
    states: Seq<Run<H, S, C>>,
    i: int,
    id: TaskId,
) -> bool {
    &&& events[i] matches RunEvent::Resolve { known, step } && known
    &&& states[i].stage matches Stage::Asked(CandidateStep::Resolve { task, record })
        && record@.life.id == id && states[i].core.has_handler(record@, keys)
}

/// The engine reserved the resources of a task at event `j`.
pub open spec fn reserved_at<H, S, C>(
    events: Seq<RunEvent<S, C>>,
    states: Seq<Run<H, S, C>>,
    j: int,
    id: TaskId,
) -> bool {
    &&& events[j] matches RunEvent::Reserve { assigned, step } && assigned is Ok
    &&& states[j].stage matches Stage::Asked(CandidateStep::Prepare { task, record })
        && record@.life.id == id
}

/// The store moved a task from queued to running at event `k`.
pub open spec fn started_at<H, S, C>(
    events: Seq<RunEvent<S, C>>,
    states: Seq<Run<H, S, C>>,
    k: int,
    running: RecordModel,
) -> bool {
    &&& events[k] matches RunEvent::Start { updated, now_ms, step } && (updated matches Ok(record)
        && record@ == running)
    &&& states[k].read matches Some(record) && record.life.state is Queued && record.life.id
        == running.life.id && record.request == running.request
    &&& running.life.state is Running
}

/// What led to the step that a scheduler is asked for.
spec fn is_due<H, S, C>(
    keys: Set<(Seq<char>, Seq<char>)>,
    events: Seq<RunEvent<S, C>>,
    states: Seq<Run<H, S, C>>,
    n: int,
) -> bool {
    match states[n].stage {
        Stage::Asked(CandidateStep::Resolve { task, record }) => {
            &&& states[n].read == Some(record@)
            &&& record@.life.state is Queued
        },
        Stage::Asked(CandidateStep::Prepare { task, record }) => {
            &&& states[n].read == Some(record@)
            &&& record@.life.state is Queued
            &&& exists|i: int|
                0 <= i < n && #[trigger] found_at(keys, events, states, i, record@.life.id)
        },
        Stage::Asked(CandidateStep::Start { task, command }) => {
            &&& states[n].read matches Some(record) && record.life.state is Queued
                && command@.state is Running && exists|i: int, j: int|
                0 <= i < j < n && #[trigger] found_at(keys, events, states, i, record.life.id)
                    && #[trigger] reserved_at(events, states, j, record.life.id)
        },
        Stage::Asked(CandidateStep::Activate(running)) => {
            exists|i: int, j: int, k: int|
                0 <= i < j < k < n && #[trigger] found_at(keys, events, states, i, running@.life.id)
                    && #[trigger] reserved_at(events, states, j, running@.life.id)
                    && #[trigger] started_at(events, states, k, running@)
        },
        _ => true,
    }
}

proof fn lemma_is_due<H, S, C>(
    keys: Set<(Seq<char>, Seq<char>)>,
    events: Seq<RunEvent<S, C>>,
    states: Seq<Run<H, S, C>>,
    n: int,
)
    requires
        is_run(keys, events, states),
        0 <= n <= events.len(),
    ensures
        is_due(keys, events, states, n),
    decreases n,
{
    if n > 0 {
        lemma_is_due(keys, events, states, n - 1);
        let before = states[n - 1];
        let after = states[n];
        assert(run_event(keys, before, events[n - 1], states[(n - 1) + 1]));
        match events[n - 1] {
            RunEvent::Resolve { known, step } => {
                if known {
                    let record = before.read->0;
                    assert(found_at(keys, events, states, n - 1, record.life.id));
                }
            },
            RunEvent::Reserve { assigned, step } => {
                if assigned is Ok {
                    let record = before.read->0;
                    assert(reserved_at(events, states, n - 1, record.life.id));
                }
            },
            RunEvent::Start { updated, now_ms, step } => {
                if updated is Ok {
                    assert(started_at(events, states, n - 1, updated->Ok_0@));
                }
            },
            _ => {},
        }
    }
}

/// An attempt is activated only after its task's handler was found, then the
/// engine reserved its resources, and then the store moved it from queued to
/// running.
pub proof fn law_activation_follows_reservation_and_start<H, S, C>(
    keys: Set<(Seq<char>, Seq<char>)>,
    events: Seq<RunEvent<S, C>>,
    states: Seq<Run<H, S, C>>,
    n: int,
)
    requires
        is_run(keys, events, states),
        0 <= n < events.len(),
        events[n] is Activate,
    ensures
        states[n].stage matches Stage::Asked(CandidateStep::Activate(running)) && exists|
            i: int,
            j: int,
            k: int,
        |
            0 <= i < j < k < n && #[trigger] found_at(keys, events, states, i, running@.life.id)
                && #[trigger] reserved_at(events, states, j, running@.life.id)
                && #[trigger] started_at(events, states, k, running@),
{
    lemma_is_due(keys, events, states, n);
    assert(run_event(keys, states[n], events[n], states[n + 1]));
}

/// A candidate without a handler is to be blocked.
pub proof fn law_tasks_without_handlers_are_blocked<H, S, C>(
    keys: Set<(Seq<char>, Seq<char>)>,
    events: Seq<RunEvent<S, C>>,
    states: Seq<Run<H, S, C>>,
    n: int,
    record: TaskRecord,
)
    requires
        is_run(keys, events, states),
        0 <= n < events.len(),
        events[n] is Resolve,
        states[n].stage matches Stage::Asked(CandidateStep::Resolve { task, record: read }) && read
            == record,
        !states[n].core.has_handler(record@, keys),
    ensures
        states[n + 1].stage matches Stage::Asked(CandidateStep::Block { task, command })
            && command@.id == record@.life.id && command@.state is Blocked,
{
    assert(run_event(keys, states[n], events[n], states[n + 1]));
}

} // verus!
