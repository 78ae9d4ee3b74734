//! What a scheduling pass does with each candidate.

use vstd::prelude::*;
use vstd::utf8::encode_utf8;

use super::recovery_laws::is_for;
use super::scheduler::activated_post;
use super::scheduler::activation_blocked_post;
use super::scheduler::activation_failed_post;
use super::scheduler::activation_reloaded_post;
use super::scheduler::blocked_post;
use super::scheduler::confirmed_post;
use super::scheduler::find_handler;
use super::scheduler::idle_wait_ms;
use super::scheduler::loaded_post;
use super::scheduler::make_block_command;
use super::scheduler::next_post;
use super::scheduler::pass_wait_ms;
use super::scheduler::prepared_post;
use super::scheduler::resolved_post;
use super::scheduler::round_start_post;
use super::scheduler::started_post;
use super::scheduler::ActivationStep;
use super::scheduler::CandidateStep;
use super::scheduler::ConfirmStep;
use super::scheduler::RoundModel;
use super::scheduler::RoundStart;
use super::service_core::CoreModel;
use super::service_core::ServiceCore;
use super::submission_laws::same_senders;
use crate::engine::EngineError;
use crate::handler::TaskHandlerRegistry;
use crate::model::task_record::CommandModel;
use crate::model::task_record::LifeModel;
use crate::model::task_record::RecordModel;
use crate::model::TaskId;
use crate::model::TaskRecord;
use crate::model::TransitionCommand;
use crate::scheduling::fair_fifo::QueuedModel;
use crate::store::StoreError;
use crate::text::law_truncation_keeps_longest_prefix;

verus! {

/// Whether a service is as it was, except for its waiting positions and what it
/// keeps of one process-local task.
pub open spec fn same_queue<H, S, C>(a: CoreModel<H, S, C>, b: CoreModel<H, S, C>) -> bool {
    &&& a.settings == b.settings
    &&& a.queue == b.queue
    &&& a.running == b.running
    &&& a.gate == b.gate
    &&& a.budget == b.budget
    &&& a.fault == b.fault
    &&& a.cancellations == b.cancellations
}

/// Whether a pass stopped: its tasks, with one in hand where there is one, are back
/// in front of the queue, first first.
pub open spec fn is_stopped<H, S, C>(
    core: CoreModel<H, S, C>,
    after: CoreModel<H, S, C>,
    back: Seq<QueuedModel>,
    left: RoundModel,
) -> bool {
    &&& after.queue == core.queue.restored(back)
    &&& left.tasks.len() == 0
}

/// Whether a pass has one task more in its window, behind the others, and is
/// otherwise as it was.
pub open spec fn is_put_back(round: RoundModel, left: RoundModel, task: QueuedModel) -> bool {
    &&& left.tasks == round.tasks.push(task)
    &&& left.positions == round.positions
    &&& left.activated == round.activated
    &&& left.order == round.order
    &&& left.next == round.next
    &&& left.started == round.started
}

/// A pass does not begin after a storage failure. Where tasks are due it takes a
/// window of them out of the queue; otherwise it waits for the earliest deadline, or
/// ends where shutdown is done and nothing waits.
pub proof fn law_passes_begin_with_due_tasks<H, S, C>(
    before: CoreModel<H, S, C>,
    after: CoreModel<H, S, C>,
    now_ms: u64,
    start: RoundStart,
)
    requires
        before.queue.valid(),
        round_start_post(before, after, now_ms, start),
    ensures
        ({
            let window = before.queue.window(before.settings.scan_budget, now_ms);
            let rest = before.queue.after_window(before.settings.scan_budget, now_ms);
            &&& before.fault is Some ==> start is Stop && after == before
            &&& before.fault is None ==> after.queue == rest
            &&& start is Run <==> before.fault is None && window.len() > 0
            &&& start is Stop <==> before.fault is Some || (window.len() == 0
                && before.gate.phase is Closed && rest.ready.len() == 0 && rest.delayed.len() == 0)
            &&& start matches RoundStart::Idle { deadline } ==> {
                &&& deadline is Some <==> rest.delayed.len() > 0
                &&& deadline matches Some(first) ==> first == rest.delayed[0].0
            }
            &&& start matches RoundStart::Run(round) ==> {
                &&& round@.tasks == window
                &&& round@.positions.len() == window.len()
                &&& forall|i: int|
                    0 <= i < window.len() ==> #[trigger] round@.positions[i] == window[i].id
                &&& round@.activated.len() == 0 && round@.order.len() == 0
                &&& round@.next == 0 && !round@.started
            }
        }),
        after.queue_count == before.queue_count,
        after.running == before.running,
        after.gate == before.gate,
        same_senders(after, before),
{
}

/// The next candidate is the first in the policy's order, from where the pass is,
/// that its window still holds; it is taken out of the window to be read. A pass
/// without such a candidate is finished, and after a storage failure it stops.
pub proof fn law_candidates_are_taken_in_order<H, S, C>(
    core: CoreModel<H, S, C>,
    after: CoreModel<H, S, C>,
    round: RoundModel,
    left: RoundModel,
    step: CandidateStep<S>,
)
    requires
        next_post(core, after, round, left, step),
    ensures
        step is Load || step is Finish || step is Stop,
        step is Stop <==> core.fault is Some && round.next < round.order.len(),
        step is Stop ==> is_stopped(core, after, round.tasks, left),
        !(step is Stop) ==> after == core,
        step is Finish ==> left.tasks == round.tasks && forall|k: int|
            round.next <= k < round.order.len() && core.fault is None ==> !is_held(
                round.tasks,
                #[trigger] round.order[k],
            ),
        step matches CandidateStep::Load(task) ==> {
            &&& round.next < left.next <= round.order.len()
            &&& task@.id == round.order[left.next - 1]
            &&& forall|k: int|
                round.next <= k < left.next - 1 ==> !is_held(
                    round.tasks,
                    #[trigger] round.order[k],
                )
            &&& exists|i: int|
                0 <= i < round.tasks.len() && #[trigger] round.tasks[i] == task@ && left.tasks
                    == round.tasks.remove(i)
            &&& left.order == round.order && left.positions == round.positions
            &&& left.activated == round.activated && left.started == round.started
        },
{
    lemma_upcoming(round, round.next);
}

/// Whether a window holds a task of this identifier.
pub open spec fn is_held(tasks: Seq<QueuedModel>, id: TaskId) -> bool {
    exists|i: int| 0 <= i < tasks.len() && (#[trigger] tasks[i]).id == id
}

proof fn lemma_upcoming(round: RoundModel, from: nat)
    ensures
        round.upcoming(from) >= from,
        forall|k: int|
            from <= k < round.upcoming(from) && k < round.order.len() ==> !is_held(
                round.tasks,
                #[trigger] round.order[k],
            ),
        from <= round.order.len() ==> round.upcoming(from) <= round.order.len(),
        round.upcoming(from) < round.order.len() ==> is_held(
            round.tasks,
            round.order[round.upcoming(from) as int],
        ),
    decreases round.order.len() - from,
{
    if from < round.order.len() {
        let id = round.order[from as int];
        assert(round.holds(id) <==> is_held(round.tasks, id)) by {
            if round.holds(id) {
                let i = choose|i: int|
                    0 <= i < round.tasks.len() && #[trigger] round.tasks[i].id == id;
                assert(round.tasks[i].id == id);
            }
            if is_held(round.tasks, id) {
                let i = choose|i: int|
                    0 <= i < round.tasks.len() && (#[trigger] round.tasks[i]).id == id;
                assert(round.tasks[i].id == id);
            }
        }
        if !round.holds(id) {
            lemma_upcoming(round, from + 1);
        }
    }
}

/// A candidate that reads as queued and due goes on to its handler; one whose retry
/// is not due goes back under its deadline; a missing, running or ended one gives
/// its waiting position up, and a local task that ended is told its state. A storage
/// failure stops the pass.
pub proof fn law_read_candidates_go_on_when_due<H, S, C>(
    core: CoreModel<H, S, C>,
    after: CoreModel<H, S, C>,
    round: RoundModel,
    left: RoundModel,
    task: QueuedModel,
    found: Result<Option<TaskRecord>, StoreError>,
    now_ms: u64,
    step: CandidateStep<S>,
)
    requires
        core.queue_count > 0,
        loaded_post(core, after, round, left, task, found, now_ms, step),
    ensures
        found matches Ok(Some(record)) ==> (core.fault is None ==> {
            let life = record@.life;
            let early = life.retry_not_before_ms matches Some(deadline) && deadline > now_ms;
            let dropped = !(life.state is Queued);
            &&& step is Resolve <==> life.state is Queued && !early
            &&& step matches CandidateStep::Resolve { task: kept, record: read } ==> kept@ == task
                && read@ == record@ && after == core && left == round
            &&& life.state is Queued && early ==> {
                &&& step matches CandidateStep::Next { finalize } && finalize is None
                &&& after == core
                &&& is_put_back(
                    round,
                    left,
                    QueuedModel {
                        id: task.id,
                        resources: task.resources,
                        bypasses: task.bypasses,
                        retry_not_before_ms: life.retry_not_before_ms,
                    },
                )
            }
            &&& dropped ==> {
                &&& step is Next
                &&& after.queue_count == core.queue_count - 1
                &&& same_queue(after, core)
                &&& after.handlers == core.handlers.remove(task.id.0)
                &&& left == round
            }
            &&& life.state is Running ==> step->finalize is None && after.finalizations
                == core.finalizations
            &&& dropped && !(life.state is Running) ==> {
                &&& step->finalize is Some <==> core.finalizations.contains_key(task.id.0)
                &&& step->finalize matches Some((sender, told)) ==> sender
                    == core.finalizations[task.id.0] && told@ == life.state
                &&& after.finalizations == core.finalizations.remove(task.id.0)
            }
        }),
        found matches Ok(Some(record)) ==> (core.fault is Some ==> {
            &&& step matches CandidateStep::Stop { fault } && fault is None
            &&& is_stopped(core, after, round.tasks.push(task), left)
            &&& after.queue_count == core.queue_count
        }),
        found matches Ok(None) ==> {
            &&& step matches CandidateStep::Next { finalize } && finalize is None
            &&& after.queue_count == core.queue_count - 1
            &&& same_queue(after, core)
            &&& after.handlers == core.handlers.remove(task.id.0)
            &&& after.finalizations == core.finalizations
            &&& left == round
        },
        found matches Err(error) ==> {
            &&& step matches CandidateStep::Stop { fault } && fault is Some
            &&& is_stopped(core, after, round.tasks.push(task), left)
            &&& after.fault is Some
            &&& core.fault is None ==> after.fault == Some(error@.message())
            &&& after.queue_count == core.queue_count
        },
{
}

/// A candidate with a handler goes on to its reservation; one without is blocked
/// for want of it.
pub proof fn law_candidates_need_a_handler<S>(
    task: QueuedModel,
    record: RecordModel,
    found: bool,
    step: CandidateStep<S>,
)
    requires
        resolved_post(task, record, found, step),
    ensures
        found ==> (step matches CandidateStep::Prepare { task: kept, record: read } && kept@ == task
            && read@ == record),
        !found ==> {
            &&& step matches CandidateStep::Block { task: kept, command } && kept@ == task
                && is_block(
                command@,
                record.life,
                "missing handler "@ + record.request.info.task_type + "@"@
                    + record.request.info.handler_version,
            )
        },
{
    law_truncation_keeps_longest_prefix(
        "missing handler "@ + record.request.info.task_type + "@"@
            + record.request.info.handler_version,
        4096,
    );
}

/// Whether a command blocks a task for a reason, of which it keeps the longest
/// beginning of at most 4096 bytes; the task gives devices, output and deadline back
/// and keeps its request to cancel.
pub open spec fn is_block(command: CommandModel, life: LifeModel, reason: Seq<char>) -> bool {
    &&& is_for(command, life)
    &&& command.state is Blocked
    &&& command.state->reason.is_prefix_of(reason)
    &&& encode_utf8(command.state->reason).len() <= 4096
    &&& encode_utf8(reason).len() <= 4096 ==> command.state->reason == reason
    &&& forall|n: int|
        command.state->reason.len() < n <= reason.len() ==> encode_utf8(
            #[trigger] reason.take(n),
        ).len() > 4096
    &&& command.retry_not_before_ms is None
    &&& command.output is None
    &&& command.assigned_resources.len() == 0
    &&& command.cancel_requested == life.cancel_requested
}

/// A blocking command says why, within the limit for diagnostics.
pub proof fn law_blocks_say_why(record: TaskRecord, reason: &str, command: TransitionCommand)
    requires
        call_ensures(make_block_command, (&record, reason), command),
    ensures
        is_block(command@, record@.life, reason@),
{
    law_truncation_keeps_longest_prefix(reason@, 4096);
}

/// A blocked candidate gives its waiting position up, and a local one is told its
/// state. One that is missing gives its position up too, one that changed meanwhile
/// goes back, and any other answer of the store stops the pass as a failure.
pub proof fn law_blocked_candidates_leave<H, S, C>(
    core: CoreModel<H, S, C>,
    after: CoreModel<H, S, C>,
    round: RoundModel,
    left: RoundModel,
    task: QueuedModel,
    updated: Result<TaskRecord, StoreError>,
    step: CandidateStep<S>,
)
    requires
        core.queue_count > 0,
        blocked_post(core, after, round, left, task, updated, step),
    ensures
        updated matches Ok(record) ==> {
            let id = record@.life.id.0;
            &&& step matches CandidateStep::Next { finalize } && (finalize is Some
                <==> core.finalizations.contains_key(id)) && (finalize matches Some((sender, told))
                ==> sender == core.finalizations[id] && told@ == record@.life.state)
            &&& after.finalizations == core.finalizations.remove(id)
            &&& after.queue_count == core.queue_count - 1
            &&& same_queue(after, core)
            &&& left == round
        },
        updated matches Err(error) ==> {
            &&& error@ is NotFound ==> step is Next && left == round && after.queue_count
                == core.queue_count - 1 && same_queue(after, core)
            &&& error@ is Conflict ==> step is Next && after == core && is_put_back(
                round,
                left,
                task,
            )
            &&& error@ is NotFound || error@ is Conflict ==> step->finalize is None
            &&& !(error@ is NotFound || error@ is Conflict) ==> {
                &&& step matches CandidateStep::Stop { fault } && fault is Some
                &&& is_stopped(core, after, round.tasks.push(task), left)
                &&& after.fault is Some
                &&& core.fault is None ==> after.fault == Some(error@.message())
            }
        },
{
}

/// A reserved candidate is started with the devices it was given. While resources
/// are taken it goes back; one that can never be satisfied is blocked; a closed
/// engine ends the pass; and after a storage failure the pass stops.
pub proof fn law_reserved_candidates_start<H, S, C>(
    core: CoreModel<H, S, C>,
    after: CoreModel<H, S, C>,
    round: RoundModel,
    left: RoundModel,
    task: QueuedModel,
    record: RecordModel,
    assigned: Result<Seq<Seq<char>>, EngineError>,
    step: CandidateStep<S>,
)
    requires
        prepared_post(core, after, round, left, task, record, assigned, step),
    ensures
        step is Start <==> assigned is Ok && core.fault is None,
        step matches CandidateStep::Start { task: kept, command } ==> {
            &&& kept@ == task
            &&& is_for(command@, record.life)
            &&& command@.state is Running
            &&& command@.assigned_resources == assigned->Ok_0
            &&& command@.retry_not_before_ms is None && command@.output is None
            &&& !command@.cancel_requested
            &&& after == core && left == round
        },
        assigned is Ok && core.fault is Some ==> step is Stop && is_stopped(
            core,
            after,
            round.tasks.push(task),
            left,
        ),
        assigned is Err ==> after == core,
        (assigned matches Err(error) && error is TemporarilyUnavailable) ==> step is Next
            && step->finalize is None && is_put_back(round, left, task),
        (assigned matches Err(error) && error is Closed) ==> step is Finish && is_put_back(
            round,
            left,
            task,
        ),
        (assigned matches Err(error) && error is Unsatisfiable) ==> {
            &&& step matches CandidateStep::Block { task: kept, command } && kept@ == task
                && is_block(command@, record.life, "resource request is unsatisfiable"@)
            &&& left == round
        },
{
    law_truncation_keeps_longest_prefix("resource request is unsatisfiable"@, 4096);
}

/// A started candidate gives its waiting position up and is activated as the store
/// has it. One that is missing or changed meanwhile gives its position up, and any
/// other answer of the store stops the pass as a failure.
pub proof fn law_started_candidates_are_activated<H, S, C>(
    core: CoreModel<H, S, C>,
    after: CoreModel<H, S, C>,
    round: RoundModel,
    left: RoundModel,
    task: QueuedModel,
    updated: Result<TaskRecord, StoreError>,
    step: CandidateStep<S>,
)
    requires
        core.queue_count > 0,
        started_post(core, after, round, left, task, updated, step),
    ensures
        step is Activate <==> updated is Ok && core.fault is None,
        step matches CandidateStep::Activate(record) ==> {
            &&& record@ == updated->Ok_0@
            &&& after.queue_count == core.queue_count - 1
            &&& same_queue(after, core)
            &&& after.handlers == core.handlers.remove(task.id.0)
            &&& after.finalizations == core.finalizations
            &&& left == round
        },
        updated is Ok && core.fault is Some ==> step is Stop && is_stopped(
            core,
            after,
            round.tasks,
            left,
        ) && after.queue_count == core.queue_count - 1,
        updated matches Err(error) ==> {
            let gone = error@ is NotFound || error@ is Conflict;
            &&& gone ==> step is Next && step->finalize is None && left == round
                && after.queue_count == core.queue_count - 1 && same_queue(after, core)
            &&& !gone ==> {
                &&& step matches CandidateStep::Stop { fault } && fault is Some
                &&& is_stopped(core, after, round.tasks.push(task), left)
                &&& after.fault is Some
                &&& core.fault is None ==> after.fault == Some(error@.message())
            }
        },
{
}

/// An activated attempt runs. It is signalled at once exactly where the store shows
/// this very attempt running with a request to cancel. Where the store fails, the
/// signal is forgotten and the pass stops.
pub proof fn law_early_cancellations_are_signalled<H, S, C>(
    core: CoreModel<H, S, C>,
    after: CoreModel<H, S, C>,
    round: RoundModel,
    left: RoundModel,
    running: LifeModel,
    found: Result<Option<TaskRecord>, StoreError>,
    step: ConfirmStep<S>,
)
    requires
        confirmed_post(core, after, round, left, running, found, step),
    ensures
        step is Running <==> found is Ok,
        step matches ConfirmStep::Running { signal } ==> {
            &&& signal <==> (found->Ok_0 matches Some(record) && record@.life.attempt
                == running.attempt && record@.life.state is Running
                && record@.life.cancel_requested)
            &&& after == core
            &&& left.started
            &&& left.tasks == round.tasks && left.order == round.order && left.next == round.next
            &&& left.activated == round.activated && left.positions == round.positions
        },
        found matches Err(error) ==> {
            &&& is_stopped(core, after, round.tasks, left)
            &&& after.cancellations == core.cancellations.remove(running.id.0)
            &&& after.fault is Some
            &&& core.fault is None ==> after.fault == Some(error@.message())
        },
{
}

/// A failed activation blocks its task, in the engine's words.
pub proof fn law_failed_activations_block<S>(
    running: RecordModel,
    error: EngineError,
    step: ActivationStep<S>,
)
    requires
        activation_failed_post(running, error, step),
    ensures
        step matches ActivationStep::Block { record, command } && record@ == running && is_block(
            command@,
            running.life,
            "engine activation failed: "@ + error.text(),
        ),
{
    law_truncation_keeps_longest_prefix("engine activation failed: "@ + error.text(), 4096);
}

/// A task whose activation failed is told that it is blocked; where it changed
/// meanwhile it is read again, and blocked only while the same attempt runs; any
/// other answer of the store stops the pass as a failure.
pub proof fn law_failed_activations_are_settled<H, S, C>(
    core: CoreModel<H, S, C>,
    after: CoreModel<H, S, C>,
    round: RoundModel,
    left: RoundModel,
    updated: Result<TaskRecord, StoreError>,
    step: ActivationStep<S>,
)
    requires
        activation_blocked_post(core, after, round, left, updated, step),
    ensures
        step is Next <==> updated is Ok,
        step is Reload <==> (updated matches Err(error) && error@ is Conflict),
        step is Reload ==> after == core && left == round,
        updated matches Ok(record) ==> {
            let id = record@.life.id.0;
            &&& step->Next_finalize is Some <==> core.finalizations.contains_key(id)
            &&& step->Next_finalize matches Some((sender, told)) ==> sender
                == core.finalizations[id] && told@ == record@.life.state
            &&& after.finalizations == core.finalizations.remove(id)
            &&& after.queue_count == core.queue_count
            &&& same_queue(after, core)
            &&& left == round
        },
        step is Stop ==> is_stopped(core, after, round.tasks, left) && after.fault is Some,
{
}

/// A task that changed while its activation failed is blocked exactly where the
/// store still shows the same attempt running; otherwise the pass goes on.
pub proof fn law_changed_activations_are_looked_at_again<H, S, C>(
    core: CoreModel<H, S, C>,
    after: CoreModel<H, S, C>,
    round: RoundModel,
    left: RoundModel,
    attempt: u32,
    error: EngineError,
    found: Result<Option<TaskRecord>, StoreError>,
    step: ActivationStep<S>,
)
    requires
        activation_reloaded_post(core, after, round, left, attempt, error, found, step),
    ensures
        step is Block <==> (found matches Ok(Some(record)) && record@.life.attempt == attempt
            && record@.life.state is Running),
        step is Stop <==> found is Err,
        step matches ActivationStep::Block { record, command } ==> {
            &&& found->Ok_0->0@ == record@
            &&& is_block(
                command@,
                record@.life,
                "engine activation failed: "@ + error.text(),
            )
        },
        found is Ok ==> after == core && left == round,
        found is Err ==> is_stopped(core, after, round.tasks, left) && after.fault is Some,
{
    law_truncation_keeps_longest_prefix("engine activation failed: "@ + error.text(), 4096);
}

/// An activated attempt is noted at the last place that its task had in the window.
pub proof fn law_activations_are_noted_by_place(before: RoundModel, after: RoundModel, id: TaskId)
    requires
        activated_post(before, after, id),
    ensures
        !before.positions.contains(id) ==> after == before,
        before.positions.contains(id) ==> {
            let place = after.activated.last();
            &&& after.activated.len() == before.activated.len() + 1
            &&& after.activated.drop_last() == before.activated
            &&& place < before.positions.len() && before.positions[place as int] == id
            &&& forall|k: int| place < k < before.positions.len() ==> #[trigger] before.positions[k] != id
        },
        after.tasks == before.tasks && after.order == before.order && after.next == before.next,
        after.positions == before.positions && after.started == before.started,
{
    if before.positions.contains(id) {
        assert(after.activated.drop_last() =~= before.activated);
    }
}

/// After a pass the tasks left are as they were, in order, except that a task was
/// bypassed once more, as far as that is counted, exactly where a task that stood
/// behind it started.
pub proof fn law_bypassed_tasks_are_counted(round: RoundModel, i: int, place: int)
    requires
        0 <= i < round.tasks.len(),
        0 <= place < round.positions.len(),
        round.positions[place] == round.tasks[i].id,
        forall|k: int|
            place < k < round.positions.len() ==> #[trigger] round.positions[k]
                != round.tasks[i].id,
    ensures
        round.leftover().len() == round.tasks.len(),
        round.leftover()[i].id == round.tasks[i].id,
        round.leftover()[i].resources == round.tasks[i].resources,
        round.leftover()[i].retry_not_before_ms == round.tasks[i].retry_not_before_ms,
        (exists|k: int| 0 <= k < round.activated.len() && place < #[trigger] round.activated[k])
            ==> round.leftover()[i].bypasses == vstd::math::min(
            round.tasks[i].bypasses + 1,
            0xffff_ffff,
        ),
        (forall|k: int| 0 <= k < round.activated.len() ==> place >= #[trigger] round.activated[k])
            ==> round.leftover()[i].bypasses == round.tasks[i].bypasses,
{
    let id = round.tasks[i].id;
    assert(round.stood_at(id, place));
    if round.was_bypassed(id) {
        let (at, k) = choose|at: int, k: int| #[trigger]
            round.stood_at(id, at) && 0 <= k < round.activated.len() && at
                < #[trigger] round.activated[k];
        assert(at == place) by {
            if at < place {
                assert(round.positions[place] != id);
            } else if place < at {
                assert(round.positions[at] != id);
            }
        }
    }
    if exists|k: int| 0 <= k < round.activated.len() && place < #[trigger] round.activated[k] {
        let k = choose|k: int|
            0 <= k < round.activated.len() && place < #[trigger] round.activated[k];
        assert(round.stood_at(id, place) && place < round.activated[k]);
    }
}

/// A process-local task runs the handler kept for it, any other task the one that is
/// registered for its type and version.
pub proof fn law_tasks_run_their_own_handler<H, S, C>(
    service: &ServiceCore<H, S, C>,
    registry: &TaskHandlerRegistry<H>,
    record: TaskRecord,
    handler: Option<&H>,
)
    requires
        call_ensures(find_handler::<H, S, C>, (service, registry, &record), handler),
    ensures
        ({
            let own = service@.handlers.contains_key(record@.life.id.0);
            let key = (record@.request.info.task_type, record@.request.info.handler_version);
            &&& handler is Some <==> own || registry@.contains_key(key)
            &&& own ==> *(handler->0) == service@.handlers[record@.life.id.0]
            &&& !own && registry@.contains_key(key) ==> *(handler->0) == registry@[key].0
        }),
{
}

/// The scheduler waits until the earliest deadline, and not at all once it has
/// passed. Without a deadline it waits for a change, or for 40 milliseconds after a
/// pass that started nothing.
pub proof fn law_schedulers_wait_for_the_deadline(
    deadline: Option<u64>,
    now_ms: u64,
    idle: Option<u64>,
    pass: u64,
)
    requires
        call_ensures(idle_wait_ms, (deadline, now_ms), idle),
        call_ensures(pass_wait_ms, (deadline, now_ms), pass),
    ensures
        deadline matches Some(at) ==> {
            &&& pass == vstd::math::max(at - now_ms, 0)
            &&& idle == Some(pass)
        },
        deadline is None ==> idle is None && pass == 40,
{
}

/// A pass that hands its tasks back is otherwise as it was.
pub proof fn law_emptied_passes_keep_their_place(round: RoundModel)
    ensures
        round.emptied().tasks.len() == 0,
        round.emptied().positions == round.positions,
        round.emptied().activated == round.activated,
        round.emptied().order == round.order,
        round.emptied().next == round.next,
        round.emptied().started == round.started,
{
}

} // verus!
