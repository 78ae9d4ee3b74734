//! What states, records and history positions come to.

use vstd::prelude::*;
use vstd::utf8::encode_utf8;

use super::task_record::checked_page_size;
use super::task_record::cursor_lt;
use super::task_record::initial_record;
use super::task_record::kind_key;
use super::task_record::opt_output;
use super::task_record::StateModel;
use super::task_record::TaskCursor;
use super::task_record::TaskQuery;
use super::task_record::TaskRecord;
use super::task_record::TaskState;
use super::task_record::TaskStateKind;
use super::task_record::TaskSummary;
use super::task_record::TransitionCommand;
use super::task_request::TaskRequest;
use super::TaskId;
use crate::model::ResourceSnapshot;
use crate::model::StoredTaskPage;
use crate::model::TaskPage;
use crate::model::TaskStateCounts;
use crate::model::TaskStats;
use crate::store::StoreError;
use crate::text::opt_text;
use crate::text::texts;

verus! {

/// Whether a task in this state is over.
pub open spec fn is_over(state: StateModel) -> bool {
    state is Succeeded || state is Failed || state is Panicked || state is Cancelled
}

/// A state is terminal exactly when the task succeeded, failed, panicked or was
/// cancelled.
pub proof fn law_finished_states_are_terminal(state: TaskState, terminal: bool)
    requires
        call_ensures(TaskState::is_terminal, (&state,), terminal),
    ensures
        terminal <==> is_over(state@),
        state@.is_terminal() <==> is_over(state@),
{
}

/// A queued task may start, be blocked or be cancelled; a running one may end in
/// any way, be queued again, or stay; a blocked one may only be queued or
/// cancelled; a finished one may not change.
pub proof fn law_lifecycle_moves(state: TaskState, next: TaskState, allowed: bool)
    requires
        call_ensures(TaskState::allows_transition_to, (&state, &next), allowed),
    ensures
        state@ is Queued ==> (allowed <==> next@ is Running || next@ is Blocked || next@
            is Cancelled),
        state@ is Running ==> allowed,
        state@ is Blocked ==> (allowed <==> next@ is Queued || next@ is Cancelled),
        is_over(state@) ==> !allowed,
        allowed == state@.allows(next@),
{
}

/// A state is shown as it is.
pub proof fn law_states_are_shown(state: TaskState)
    ensures
        state is Queued <==> state@ is Queued,
        state is Running <==> state@ is Running,
        state is Succeeded <==> state@ is Succeeded,
        state is Cancelled <==> state@ is Cancelled,
        state matches TaskState::Blocked { reason } ==> state@ == (StateModel::Blocked {
            reason: reason@,
        }),
        state matches TaskState::Failed { category, message } ==> state@ == (StateModel::Failed {
            category: category@,
            message: message@,
        }),
        state matches TaskState::Panicked { message } ==> state@ == (StateModel::Panicked {
            message: message@,
        }),
{
}

/// The category of a state names its variant, and so does its stored key; no two
/// categories share one.
pub proof fn law_kinds_name_their_states(state: TaskState, kind: TaskStateKind)
    requires
        call_ensures(TaskState::kind, (&state,), kind),
    ensures
        kind == state@.kind(),
        kind == TaskStateKind::Queued <==> state@ is Queued,
        kind == TaskStateKind::Running <==> state@ is Running,
        kind == TaskStateKind::Blocked <==> state@ is Blocked,
        kind == TaskStateKind::Succeeded <==> state@ is Succeeded,
        kind == TaskStateKind::Failed <==> state@ is Failed,
        kind == TaskStateKind::Panicked <==> state@ is Panicked,
        kind == TaskStateKind::Cancelled <==> state@ is Cancelled,
        state@ is Queued ==> kind_key(kind) == "Queued"@,
        state@ is Running ==> kind_key(kind) == "Running"@,
        state@ is Blocked ==> kind_key(kind) == "Blocked"@,
        state@ is Succeeded ==> kind_key(kind) == "Succeeded"@,
        state@ is Failed ==> kind_key(kind) == "Failed"@,
        state@ is Panicked ==> kind_key(kind) == "Panicked"@,
        state@ is Cancelled ==> kind_key(kind) == "Cancelled"@,
{
}

/// Different categories have different keys.
pub proof fn law_kind_keys_are_unique(a: TaskStateKind, b: TaskStateKind)
    ensures
        kind_key(a) == kind_key(b) ==> a == b,
{
    reveal_strlit("Queued");
    reveal_strlit("Running");
    reveal_strlit("Blocked");
    reveal_strlit("Succeeded");
    reveal_strlit("Failed");
    reveal_strlit("Panicked");
    reveal_strlit("Cancelled");
    if a != b {
        let x = kind_key(a);
        let y = kind_key(b);
        assert(x.len() != y.len() || x[0] != y[0]);
    }
}

/// A state is refused for its size exactly when a reason or message takes more
/// than 4096 bytes or a category more than 128.
pub proof fn law_diagnostics_are_bounded(state: TaskState, result: Result<(), &'static str>)
    requires
        call_ensures(TaskState::validate_diagnostics, (&state,), result),
    ensures
        result is Ok <==> match state@ {
            StateModel::Blocked { reason } => encode_utf8(reason).len() <= 4096,
            StateModel::Failed { category, message } => encode_utf8(category).len() <= 128
                && encode_utf8(message).len() <= 4096,
            StateModel::Panicked { message } => encode_utf8(message).len() <= 4096,
            _ => true,
        },
        state@.diagnostics_error() is None <==> result is Ok,
        result matches Err(text) ==> {
            &&& state@ is Blocked ==> text@ == "blocked reason exceeds the 4096-byte limit"@
            &&& state@ is Failed ==> text@ == "failure diagnostic exceeds its byte limit"@
            &&& state@ is Panicked ==> text@ == "panic diagnostic exceeds the 4096-byte limit"@
        },
{
}

/// Two states count as the same exactly when they agree in variant and texts.
pub proof fn law_same_states_agree(a: TaskState, b: TaskState, same: bool)
    requires
        call_ensures(TaskState::same, (&a, &b), same),
    ensures
        same <==> a@ == b@,
{
}

/// A task is accepted queued: as its request says, at the given time, in revision
/// zero, with no attempt made and nothing assigned, put out or asked for.
pub proof fn law_accepted_tasks_start_queued(
    id: TaskId,
    request: TaskRequest,
    now: u64,
    record: TaskRecord,
)
    requires
        call_ensures(initial_record, (id, request, now), record),
    ensures
        record.id == id,
        record.request@ == request@,
        record.state is Queued,
        record.state_version == 0,
        record.attempt == 0,
        record.retry_not_before_ms is None,
        record.accepted_at_ms == now,
        record.started_at_ms is None,
        record.finished_at_ms is None,
        record.assigned_resources@.len() == 0,
        record.output is None,
        !record.cancel_requested,
{
    assert(texts(record.assigned_resources@).len() == record.assigned_resources@.len());
}

/// A record is shown as it is, field by field.
pub proof fn law_records_are_shown(record: TaskRecord)
    ensures
        record@.request == record.request@,
        record@.life.id == record.id,
        record@.life.state == record.state@,
        record@.life.state_version == record.state_version,
        record@.life.attempt == record.attempt,
        record@.life.retry_not_before_ms == record.retry_not_before_ms,
        record@.life.accepted_at_ms == record.accepted_at_ms,
        record@.life.started_at_ms == record.started_at_ms,
        record@.life.finished_at_ms == record.finished_at_ms,
        record@.life.assigned_resources == record.assigned_resources@.map_values(
            |name: String| name@,
        ),
        record@.life.output is Some <==> record.output is Some,
        record.output matches Some(output) ==> record@.life.output == Some(output.summary@),
        record@.life.cancel_requested == record.cancel_requested,
{
    assert(record@.life.assigned_resources =~= record.assigned_resources@.map_values(
        |name: String| name@,
    ));
}

/// A request is shown as it is, field by field.
pub proof fn law_requests_are_shown(request: TaskRequest)
    ensures
        request@.info.task_type == request.task_type@,
        request@.info.handler_version == request.handler_version@,
        request@.payload == request.payload@,
        request@.info.resources.cpu_slots == request.resources.cpu_slots,
        request@.info.resources.gpu_count == request.resources.gpu_count,
        request@.info.resources.gpu_labels == request.resources.gpu_labels@.map_values(
            |label: String| label@,
        ),
        request@.info.resources.custom == request.resources.custom@,
        request@.info.metadata == request.metadata@,
        request@.info.correlation_key is Some <==> request.correlation_key is Some,
        request.correlation_key matches Some(key) ==> request@.info.correlation_key == Some(key@),
        request@.info.idempotency_key is Some <==> request.idempotency_key is Some,
        request.idempotency_key matches Some(key) ==> request@.info.idempotency_key == Some(key@),
{
    assert(request@.info.resources.gpu_labels =~= request.resources.gpu_labels@.map_values(
        |label: String| label@,
    ));
}

/// A command is shown as it is, field by field.
pub proof fn law_commands_are_shown(command: TransitionCommand)
    ensures
        command@.id == command.id,
        command@.expected_version == command.expected_version,
        command@.expected_attempt == command.expected_attempt,
        command@.state == command.state@,
        command@.retry_not_before_ms == command.retry_not_before_ms,
        command@.output is Some <==> command.output is Some,
        command.output matches Some(output) ==> command@.output == Some(output.summary@),
        command@.assigned_resources == command.assigned_resources@.map_values(|name: String| name@),
        command@.cancel_requested == command.cancel_requested,
{
    assert(command@.assigned_resources =~= command.assigned_resources@.map_values(
        |name: String| name@,
    ));
}

/// A summary tells everything of a record but its payload.
pub proof fn law_summaries_leave_out_the_payload_only(record: TaskRecord, summary: TaskSummary)
    requires
        call_ensures(TaskRecord::summary, (&record,), summary),
    ensures
        summary.id == record.id,
        summary.state@ == record.state@,
        summary.state_version == record.state_version,
        summary.attempt == record.attempt,
        summary.retry_not_before_ms == record.retry_not_before_ms,
        summary.accepted_at_ms == record.accepted_at_ms,
        summary.started_at_ms == record.started_at_ms,
        summary.finished_at_ms == record.finished_at_ms,
        texts(summary.assigned_resources@) == texts(record.assigned_resources@),
        opt_output(summary.output) == opt_output(record.output),
        summary.cancel_requested == record.cancel_requested,
        summary.request.task_type@ == record.request.task_type@,
        summary.request.handler_version@ == record.request.handler_version@,
        summary.request.resources@ == record.request.resources@,
        summary.request.metadata@ == record.request.metadata@,
        opt_text(summary.request.correlation_key) == opt_text(record.request.correlation_key),
        opt_text(summary.request.idempotency_key) == opt_text(record.request.idempotency_key),
{
    assert(summary@.life == record@.life);
    assert(summary@.request == record@.request.info);
}

/// History is ordered by acceptance time, and at the same time by identifier.
pub proof fn law_history_is_ordered_by_time_then_id(a: TaskCursor, b: TaskCursor, less: bool)
    requires
        call_ensures(TaskCursor::before, (&a, &b), less),
    ensures
        a.accepted_at_ms < b.accepted_at_ms ==> less,
        a.accepted_at_ms > b.accepted_at_ms ==> !less,
        a.accepted_at_ms == b.accepted_at_ms ==> (less <==> a.id.0 < b.id.0),
        less == cursor_lt(a, b),
{
}

/// A summary's cursor is its acceptance time and identifier.
pub proof fn law_cursors_name_time_and_id(summary: TaskSummary, cursor: TaskCursor)
    requires
        call_ensures(TaskCursor::of, (&summary,), cursor),
    ensures
        cursor.accepted_at_ms == summary.accepted_at_ms,
        cursor.id == summary.id,
{
}

/// A query selects a task exactly when the task is in one of the states asked for,
/// or none is asked for; has the correlation key asked for, if one is; and comes
/// after the cursor, if there is one.
pub proof fn law_queries_select_what_they_ask_for(
    query: TaskQuery,
    record: TaskRecord,
    selected: bool,
)
    requires
        call_ensures(TaskQuery::selects, (&query, &record), selected),
    ensures
        selected <==> {
            &&& query.states@.len() == 0 || exists|i: int|
                0 <= i < query.states@.len() && is_of_kind(record.state@, #[trigger] query.states@[i])
            &&& query.correlation_key matches Some(key) ==> (
            record.request.correlation_key matches Some(own) && own@ == key@)
            &&& query.after matches Some(cursor) ==> cursor.accepted_at_ms < record.accepted_at_ms
                || (cursor.accepted_at_ms == record.accepted_at_ms && cursor.id.0 < record.id.0)
        },
{
    let kind = record@.life.state.kind();
    assert(is_of_kind(record.state@, kind));
    if query.states@.contains(kind) {
        let i = choose|i: int| 0 <= i < query.states@.len() && query.states@[i] == kind;
        assert(is_of_kind(record.state@, query.states@[i]));
    }
    if exists|i: int|
        0 <= i < query.states@.len() && is_of_kind(record.state@, #[trigger] query.states@[i]) {
        let i = choose|i: int|
            0 <= i < query.states@.len() && is_of_kind(record.state@, #[trigger] query.states@[i]);
        assert(query.states@[i] == kind);
    }
}

/// Whether a state is of this category.
pub open spec fn is_of_kind(state: StateModel, kind: TaskStateKind) -> bool {
    match kind {
        TaskStateKind::Queued => state is Queued,
        TaskStateKind::Running => state is Running,
        TaskStateKind::Blocked => state is Blocked,
        TaskStateKind::Succeeded => state is Succeeded,
        TaskStateKind::Failed => state is Failed,
        TaskStateKind::Panicked => state is Panicked,
        TaskStateKind::Cancelled => state is Cancelled,
    }
}

/// A page limit of up to 256 is taken as it is, zero as one, and more is refused.
pub proof fn law_page_limits_are_honoured(limit: usize, size: Result<usize, StoreError>)
    requires
        call_ensures(checked_page_size, (limit,), size),
    ensures
        size is Ok <==> limit <= 256,
        size matches Ok(n) ==> n == vstd::math::max(limit as int, 1),
        size matches Err(error) ==> error@
            == crate::store::StoreErrorModel::InvalidRequest(
            "task history page limit is too large"@,
        ),
{
}

/// Monitoring joins what the store counted with what the engine reported.
pub proof fn law_stats_join_counts_and_resources(
    counts: TaskStateCounts,
    resources: ResourceSnapshot,
    stats: TaskStats,
)
    requires
        call_ensures(TaskStats::of, (counts, resources), stats),
    ensures
        stats.queued == counts.queued,
        stats.running == counts.running,
        stats.blocked == counts.blocked,
        stats.terminal == counts.terminal,
        stats.resources == resources,
{
}

/// A query asks for every task, one at a time, unless told otherwise; counts begin
/// at zero, and pages without tasks.
pub proof fn law_defaults_are_empty(
    query: TaskQuery,
    counts: TaskStateCounts,
    page: TaskPage,
    stored: StoredTaskPage,
)
    requires
        call_ensures(TaskQuery::default, (), query),
        call_ensures(TaskStateCounts::default, (), counts),
        call_ensures(TaskPage::default, (), page),
        call_ensures(StoredTaskPage::default, (), stored),
    ensures
        query.states@.len() == 0 && query.limit == 0,
        query.after is None && query.correlation_key is None,
        counts.queued == 0 && counts.running == 0 && counts.blocked == 0 && counts.terminal == 0,
        page.records@.len() == 0 && page.next is None,
        stored.tasks@.len() == 0 && stored.next is None,
{
}

} // verus!
