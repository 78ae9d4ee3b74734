//! Task lifecycle records, queries and the commands that change them.

use vstd::prelude::*;

use super::resource::ResourceRequest;
use super::resource::ResourceSnapshot;
use super::task_id::TaskId;
use super::task_request::reports;
use super::task_request::InfoModel;
use super::task_request::MAX_TASK_DIAGNOSTIC_CATEGORY_BYTES;
use super::task_request::MAX_TASK_DIAGNOSTIC_MESSAGE_BYTES;
use super::task_request::RequestModel;
use super::task_request::TaskOutput;
use super::task_request::TaskRequest;
use super::task_request::TaskRequestInfo;
use crate::store::StoreError;
use crate::store::StoreErrorModel;
use crate::text::byte_len;
use crate::text::copy_texts;
use crate::text::opt_text;
use crate::text::same_text;
use crate::text::texts;
use crate::text::utf8_len;

verus! {

/// Observable lifecycle state for an accepted task.
///
/// A blocked task needs intervention before it can be requeued. Terminal
/// states cannot transition again, while a running task may return to the
/// queue after a retryable failure.
#[derive(Debug)]
pub enum TaskState {
    /// Accepted and waiting for suitable resources.
    Queued,
    /// Resources have been reserved and execution has started.
    Running,
    /// Requires operator or business intervention before it can continue.
    Blocked {
        /// Explains which external condition must be resolved before retrying.
        reason: String,
    },
    /// Handler returned successfully.
    Succeeded,
    /// Handler returned a non-retryable error.
    Failed {
        /// Stable error category used by callers for classification.
        category: String,
        /// Human-readable diagnostic for this attempt.
        message: String,
    },
    /// Handler panicked.
    Panicked {
        /// Panic diagnostic captured from the handler execution.
        message: String,
    },
    /// Cancellation was acknowledged by the handler or before execution.
    Cancelled,
}

/// Content of a [`TaskState`].
#[verifier::ext_equal]
pub enum StateModel {
    Queued,
    Running,
    Blocked { reason: Seq<char> },
    Succeeded,
    Failed { category: Seq<char>, message: Seq<char> },
    Panicked { message: Seq<char> },
    Cancelled,
}

/// Payload-free category of a task lifecycle state.
///
/// Use this type for filters that should match a state regardless of its
/// diagnostic payload, such as every blocked task.
#[derive(Debug, Clone, Copy, PartialEq, Eq, Hash, Structural)]
pub enum TaskStateKind {
    /// Accepted and waiting for suitable resources.
    Queued,
    /// Resources have been reserved and execution has started.
    Running,
    /// Requires operator or business intervention before it can continue.
    Blocked,
    /// Handler returned successfully.
    Succeeded,
    /// Handler returned a non-retryable error.
    Failed,
    /// Handler panicked.
    Panicked,
    /// Cancellation was acknowledged by the handler or before execution.
    Cancelled,
}

impl View for TaskState {
    type V = StateModel;

    open spec fn view(&self) -> StateModel {
        match self {
            TaskState::Queued => StateModel::Queued,
            TaskState::Running => StateModel::Running,
            TaskState::Blocked { reason } => StateModel::Blocked { reason: reason@ },
            TaskState::Succeeded => StateModel::Succeeded,
            TaskState::Failed { category, message } => StateModel::Failed {
                category: category@,
                message: message@,
            },
            TaskState::Panicked { message } => StateModel::Panicked { message: message@ },
            TaskState::Cancelled => StateModel::Cancelled,
        }
    }
}

impl StateModel {
    /// The category of this state.
    pub open spec fn kind(self) -> TaskStateKind {
        match self {
            StateModel::Queued => TaskStateKind::Queued,
            StateModel::Running => TaskStateKind::Running,
            StateModel::Blocked { .. } => TaskStateKind::Blocked,
            StateModel::Succeeded => TaskStateKind::Succeeded,
            StateModel::Failed { .. } => TaskStateKind::Failed,
            StateModel::Panicked { .. } => TaskStateKind::Panicked,
            StateModel::Cancelled => TaskStateKind::Cancelled,
        }
    }

    /// Whether this state ends normal task execution.
    pub open spec fn is_terminal(self) -> bool {
        kind_is_terminal(self.kind())
    }

    /// Whether the lifecycle may advance from this state to `next`.
    pub open spec fn allows(self, next: StateModel) -> bool {
        match self.kind() {
            TaskStateKind::Queued => next.kind() == TaskStateKind::Running || next.kind()
                == TaskStateKind::Blocked || next.kind() == TaskStateKind::Cancelled,
            TaskStateKind::Running => true,
            TaskStateKind::Blocked => next.kind() == TaskStateKind::Queued || next.kind()
                == TaskStateKind::Cancelled,
            _ => false,
        }
    }

    /// The diagnostic limit that this state breaks, if any.
    pub open spec fn diagnostics_error(self) -> Option<Seq<char>> {
        match self {
            StateModel::Blocked { reason } => if byte_len(reason)
                > MAX_TASK_DIAGNOSTIC_MESSAGE_BYTES {
                Some("blocked reason exceeds the 4096-byte limit"@)
            } else {
                None
            },
            StateModel::Failed { category, message } => if byte_len(category)
                > MAX_TASK_DIAGNOSTIC_CATEGORY_BYTES || byte_len(message)
                > MAX_TASK_DIAGNOSTIC_MESSAGE_BYTES {
                Some("failure diagnostic exceeds its byte limit"@)
            } else {
                None
            },
            StateModel::Panicked { message } => if byte_len(message)
                > MAX_TASK_DIAGNOSTIC_MESSAGE_BYTES {
                Some("panic diagnostic exceeds the 4096-byte limit"@)
            } else {
                None
            },
            _ => None,
        }
    }
}

/// Whether every state of this category is terminal.
pub open spec fn kind_is_terminal(kind: TaskStateKind) -> bool {
    kind == TaskStateKind::Succeeded || kind == TaskStateKind::Failed || kind
        == TaskStateKind::Panicked || kind == TaskStateKind::Cancelled
}

/// A state is terminal exactly when no transition leaves it.
pub proof fn law_terminal_states_are_final(state: StateModel)
    ensures
        state.is_terminal() <==> forall|next: StateModel| !state.allows(next),
{
    if !state.is_terminal() {
        assert(state.allows(StateModel::Cancelled));
    }
}

impl TaskState {
    /// Checks that every persisted diagnostic field satisfies its byte limit.
    pub fn validate_diagnostics(&self) -> (result: Result<(), &'static str>)
        ensures
            reports(result, self@.diagnostics_error()),
    {
        match self {
            TaskState::Blocked { reason } => {
                if utf8_len(reason.as_str()) > MAX_TASK_DIAGNOSTIC_MESSAGE_BYTES {
                    return Err("blocked reason exceeds the 4096-byte limit");
                }
            },
            TaskState::Failed { category, message } => {
                if utf8_len(category.as_str()) > MAX_TASK_DIAGNOSTIC_CATEGORY_BYTES || utf8_len(
                    message.as_str(),
                ) > MAX_TASK_DIAGNOSTIC_MESSAGE_BYTES {
                    return Err("failure diagnostic exceeds its byte limit");
                }
            },
            TaskState::Panicked { message } => {
                if utf8_len(message.as_str()) > MAX_TASK_DIAGNOSTIC_MESSAGE_BYTES {
                    return Err("panic diagnostic exceeds the 4096-byte limit");
                }
            },
            _ => {},
        }
        Ok(())
    }

    /// Returns the payload-free lifecycle category used by history filters.
    pub fn kind(&self) -> (kind: TaskStateKind)
        ensures
            kind == self@.kind(),
    {
        match self {
            TaskState::Queued => TaskStateKind::Queued,
            TaskState::Running => TaskStateKind::Running,
            TaskState::Blocked { .. } => TaskStateKind::Blocked,
            TaskState::Succeeded => TaskStateKind::Succeeded,
            TaskState::Failed { .. } => TaskStateKind::Failed,
            TaskState::Panicked { .. } => TaskStateKind::Panicked,
            TaskState::Cancelled => TaskStateKind::Cancelled,
        }
    }

    /// Reports whether this state ends normal task execution.
    pub fn is_terminal(&self) -> (terminal: bool)
        ensures
            terminal == self@.is_terminal(),
    {
        matches!(
            self,
            TaskState::Succeeded
            | TaskState::Failed { .. }
            | TaskState::Panicked { .. }
            | TaskState::Cancelled
        )
    }

    /// Reports whether the lifecycle may advance to `next` under the service
    /// contract.
    pub fn allows_transition_to(&self, next: &Self) -> (allowed: bool)
        ensures
            allowed == self@.allows(next@),
    {
        match self {
            TaskState::Queued => matches!(
                next,
                TaskState::Running | TaskState::Blocked { .. } | TaskState::Cancelled
            ),
            TaskState::Running => true,
            TaskState::Blocked { .. } => matches!(next, TaskState::Queued | TaskState::Cancelled),
            _ => false,
        }
    }

    /// Whether both states and their diagnostics are equal.
    pub fn same(&self, other: &Self) -> (same: bool)
        ensures
            same == (self@ == other@),
    {
        match (self, other) {
            (TaskState::Queued, TaskState::Queued) => true,
            (TaskState::Running, TaskState::Running) => true,
            (TaskState::Blocked { reason: a }, TaskState::Blocked { reason: b }) => same_text(
                a.as_str(),
                b.as_str(),
            ),
            (TaskState::Succeeded, TaskState::Succeeded) => true,
            (
                TaskState::Failed { category: ac, message: am },
                TaskState::Failed { category: bc, message: bm },
            ) => same_text(ac.as_str(), bc.as_str()) && same_text(am.as_str(), bm.as_str()),
            (TaskState::Panicked { message: a }, TaskState::Panicked { message: b }) => same_text(
                a.as_str(),
                b.as_str(),
            ),
            (TaskState::Cancelled, TaskState::Cancelled) => true,
            _ => false,
        }
    }
}

impl Clone for TaskState {
    fn clone(&self) -> (res: Self)
        ensures
            res@ == self@,
    {
        match self {
            TaskState::Queued => TaskState::Queued,
            TaskState::Running => TaskState::Running,
            TaskState::Blocked { reason } => TaskState::Blocked { reason: reason.clone() },
            TaskState::Succeeded => TaskState::Succeeded,
            TaskState::Failed { category, message } => TaskState::Failed {
                category: category.clone(),
                message: message.clone(),
            },
            TaskState::Panicked { message } => TaskState::Panicked { message: message.clone() },
            TaskState::Cancelled => TaskState::Cancelled,
        }
    }
}

/// The stable storage key of a state category.
pub open spec fn kind_key(kind: TaskStateKind) -> Seq<char> {
    match kind {
        TaskStateKind::Queued => "Queued"@,
        TaskStateKind::Running => "Running"@,
        TaskStateKind::Blocked => "Blocked"@,
        TaskStateKind::Succeeded => "Succeeded"@,
        TaskStateKind::Failed => "Failed"@,
        TaskStateKind::Panicked => "Panicked"@,
        TaskStateKind::Cancelled => "Cancelled"@,
    }
}

impl TaskStateKind {
    /// Returns the stable storage key for this lifecycle category.
    pub fn as_str(self) -> (key: &'static str)
        ensures
            key@ == kind_key(self),
    {
        match self {
            TaskStateKind::Queued => "Queued",
            TaskStateKind::Running => "Running",
            TaskStateKind::Blocked => "Blocked",
            TaskStateKind::Succeeded => "Succeeded",
            TaskStateKind::Failed => "Failed",
            TaskStateKind::Panicked => "Panicked",
            TaskStateKind::Cancelled => "Cancelled",
        }
    }
}

/// Everything in a record that is not the request itself.
#[verifier::ext_equal]
pub struct LifeModel {
    pub id: TaskId,
    pub state: StateModel,
    pub state_version: u64,
    pub attempt: u32,
    pub retry_not_before_ms: Option<u64>,
    pub accepted_at_ms: u64,
    pub started_at_ms: Option<u64>,
    pub finished_at_ms: Option<u64>,
    pub assigned_resources: Seq<Seq<char>>,
    pub output: Option<Seq<u8>>,
    pub cancel_requested: bool,
}

/// Content of a [`TaskRecord`].
#[verifier::ext_equal]
pub struct RecordModel {
    pub request: RequestModel,
    pub life: LifeModel,
}

/// Content of a [`TaskSummary`].
#[verifier::ext_equal]
pub struct SummaryModel {
    pub request: InfoModel,
    pub life: LifeModel,
}

/// Bytes of an optional output summary.
pub open spec fn opt_output(output: Option<TaskOutput>) -> Option<Seq<u8>> {
    match output {
        Some(value) => Some(value@),
        None => None,
    }
}

/// Copies an optional output summary.
pub fn copy_opt_output(output: &Option<TaskOutput>) -> (res: Option<TaskOutput>)
    ensures
        opt_output(res) == opt_output(*output),
{
    match output {
        Some(value) => Some(value.clone()),
        None => None,
    }
}

/// Queryable task lifecycle snapshot.
///
/// The state version increases after every successful lifecycle transition.
/// Timestamps are Unix epoch milliseconds, and `attempt` counts starts rather
/// than submissions.
#[derive(Debug)]
pub struct TaskRecord {
    /// Stable service-generated identity.
    pub id: TaskId,
    /// Reconstructible work description.
    pub request: TaskRequest,
    /// Current lifecycle state.
    pub state: TaskState,
    /// Monotonically increasing state revision.
    pub state_version: u64,
    /// Number of execution attempts started.
    pub attempt: u32,
    /// Milliseconds since Unix epoch before which a retry must not start.
    pub retry_not_before_ms: Option<u64>,
    /// Milliseconds since Unix epoch when accepted.
    pub accepted_at_ms: u64,
    /// Milliseconds since Unix epoch when execution last started.
    pub started_at_ms: Option<u64>,
    /// Milliseconds since Unix epoch when execution became terminal.
    pub finished_at_ms: Option<u64>,
    /// Actual resources assigned to the current or last attempt.
    pub assigned_resources: Vec<String>,
    /// Small output summary for successful work.
    pub output: Option<TaskOutput>,
    /// True after cooperative cancellation has been requested.
    pub cancel_requested: bool,
}

impl View for TaskRecord {
    type V = RecordModel;

    open spec fn view(&self) -> RecordModel {
        RecordModel {
            request: self.request@,
            life: LifeModel {
                id: self.id,
                state: self.state@,
                state_version: self.state_version,
                attempt: self.attempt,
                retry_not_before_ms: self.retry_not_before_ms,
                accepted_at_ms: self.accepted_at_ms,
                started_at_ms: self.started_at_ms,
                finished_at_ms: self.finished_at_ms,
                assigned_resources: texts(self.assigned_resources@),
                output: opt_output(self.output),
                cancel_requested: self.cancel_requested,
            },
        }
    }
}

impl Clone for TaskRecord {
    fn clone(&self) -> (res: Self)
        ensures
            res@ == self@,
    {
        TaskRecord {
            id: self.id,
            request: self.request.clone(),
            state: self.state.clone(),
            state_version: self.state_version,
            attempt: self.attempt,
            retry_not_before_ms: self.retry_not_before_ms,
            accepted_at_ms: self.accepted_at_ms,
            started_at_ms: self.started_at_ms,
            finished_at_ms: self.finished_at_ms,
            assigned_resources: copy_texts(&self.assigned_resources),
            output: copy_opt_output(&self.output),
            cancel_requested: self.cancel_requested,
        }
    }
}

impl TaskRecord {
    /// Returns the resource demand used to validate and schedule the task.
    pub fn resource_request(&self) -> (demand: &ResourceRequest)
        ensures
            demand@ == self@.request.info.resources,
    {
        &self.request.resources
    }

    /// Returns the payload-free part of this record.
    pub fn summary(&self) -> (summary: TaskSummary)
        ensures
            summary@ == self@.summary(),
    {
        TaskSummary {
            id: self.id,
            request: TaskRequestInfo::of(&self.request),
            state: self.state.clone(),
            state_version: self.state_version,
            attempt: self.attempt,
            retry_not_before_ms: self.retry_not_before_ms,
            accepted_at_ms: self.accepted_at_ms,
            started_at_ms: self.started_at_ms,
            finished_at_ms: self.finished_at_ms,
            assigned_resources: copy_texts(&self.assigned_resources),
            output: copy_opt_output(&self.output),
            cancel_requested: self.cancel_requested,
        }
    }
}

impl RecordModel {
    /// The payload-free part of a record.
    pub open spec fn summary(self) -> SummaryModel {
        SummaryModel { request: self.request.info, life: self.life }
    }

    /// The record of a request accepted at `now` under `id`.
    pub open spec fn accepted(id: TaskId, request: RequestModel, now: u64) -> RecordModel {
        RecordModel { request, life: LifeModel::accepted(id, now) }
    }
}

impl LifeModel {
    /// Whether a completion time is set exactly when the task is finished.
    pub open spec fn is_timed(self) -> bool {
        self.finished_at_ms is Some <==> self.state.is_terminal()
    }

    /// The lifecycle of a task accepted at `now` under `id`.
    pub open spec fn accepted(id: TaskId, now: u64) -> LifeModel {
        LifeModel {
            id,
            state: StateModel::Queued,
            state_version: 0,
            attempt: 0,
            retry_not_before_ms: None,
            accepted_at_ms: now,
            started_at_ms: None,
            finished_at_ms: None,
            assigned_resources: Seq::empty(),
            output: None,
            cancel_requested: false,
        }
    }

    /// The history position of this lifecycle.
    pub open spec fn cursor(self) -> TaskCursor {
        TaskCursor { accepted_at_ms: self.accepted_at_ms, id: self.id }
    }
}

/// Creates the record of a request accepted at `now` under `id`.
pub fn initial_record(id: TaskId, request: TaskRequest, now: u64) -> (record: TaskRecord)
    ensures
        record@ == RecordModel::accepted(id, request@, now),
{
    let record = TaskRecord {
        id,
        request,
        state: TaskState::Queued,
        state_version: 0,
        attempt: 0,
        retry_not_before_ms: None,
        accepted_at_ms: now,
        started_at_ms: None,
        finished_at_ms: None,
        assigned_resources: Vec::new(),
        output: None,
        cancel_requested: false,
    };
    proof {
        assert(record@.life.assigned_resources =~= Seq::<Seq<char>>::empty());
    }
    record
}

/// Payload-free task lifecycle snapshot used by history reads.
#[derive(Debug)]
pub struct TaskSummary {
    /// Stable service-generated identity.
    pub id: TaskId,
    /// Immutable request fields without the payload.
    pub request: TaskRequestInfo,
    /// Current lifecycle state.
    pub state: TaskState,
    /// Monotonically increasing state revision.
    pub state_version: u64,
    /// Number of execution attempts started.
    pub attempt: u32,
    /// Milliseconds since Unix epoch before which a retry must not start.
    pub retry_not_before_ms: Option<u64>,
    /// Milliseconds since Unix epoch when accepted.
    pub accepted_at_ms: u64,
    /// Milliseconds since Unix epoch when execution last started.
    pub started_at_ms: Option<u64>,
    /// Milliseconds since Unix epoch when execution became terminal.
    pub finished_at_ms: Option<u64>,
    /// Actual resources assigned to the current or last attempt.
    pub assigned_resources: Vec<String>,
    /// Small output summary for successful work.
    pub output: Option<TaskOutput>,
    /// True after cooperative cancellation has been requested.
    pub cancel_requested: bool,
}

impl View for TaskSummary {
    type V = SummaryModel;

    open spec fn view(&self) -> SummaryModel {
        SummaryModel {
            request: self.request@,
            life: LifeModel {
                id: self.id,
                state: self.state@,
                state_version: self.state_version,
                attempt: self.attempt,
                retry_not_before_ms: self.retry_not_before_ms,
                accepted_at_ms: self.accepted_at_ms,
                started_at_ms: self.started_at_ms,
                finished_at_ms: self.finished_at_ms,
                assigned_resources: texts(self.assigned_resources@),
                output: opt_output(self.output),
                cancel_requested: self.cancel_requested,
            },
        }
    }
}

/// Position in task history: acceptance time, then task ID.
#[derive(Debug, Clone, Copy, PartialEq, Eq, Structural)]
pub struct TaskCursor {
    /// Milliseconds since Unix epoch when the task was accepted.
    pub accepted_at_ms: u64,
    /// Identity that breaks ties between equal acceptance times.
    pub id: TaskId,
}

/// Whether `a` comes before `b` in task history.
pub open spec fn cursor_lt(a: TaskCursor, b: TaskCursor) -> bool {
    a.accepted_at_ms < b.accepted_at_ms || (a.accepted_at_ms == b.accepted_at_ms && a.id.0 < b.id.0)
}

impl TaskCursor {
    /// Creates a cursor at the given history position.
    pub fn new(accepted_at_ms: u64, id: TaskId) -> (cursor: Self)
        ensures
            cursor.accepted_at_ms == accepted_at_ms,
            cursor.id == id,
    {
        TaskCursor { accepted_at_ms, id }
    }

    /// Creates the cursor of a task summary.
    pub fn of(summary: &TaskSummary) -> (cursor: Self)
        ensures
            cursor == summary@.life.cursor(),
    {
        TaskCursor { accepted_at_ms: summary.accepted_at_ms, id: summary.id }
    }

    /// Whether this position comes before `other`.
    pub fn before(&self, other: &Self) -> (less: bool)
        ensures
            less == cursor_lt(*self, *other),
    {
        self.accepted_at_ms < other.accepted_at_ms || (self.accepted_at_ms == other.accepted_at_ms
            && self.id.0 < other.id.0)
    }
}

/// Filters and bounds a task history query.
///
/// Empty `states` matches every state. A zero `limit` is treated as one
/// record, and `after` is an exclusive history position.
#[derive(Debug)]
pub struct TaskQuery {
    /// Optional set of lifecycle states to return.
    pub states: Vec<TaskStateKind>,
    /// Maximum number of records to return.
    pub limit: usize,
    /// Exclusive position after which records are returned.
    pub after: Option<TaskCursor>,
    /// Optional exact business correlation key.
    pub correlation_key: Option<String>,
}

impl Default for TaskQuery {
    fn default() -> (query: Self)
        ensures
            query.states@ == Seq::<TaskStateKind>::empty(),
            query.limit == 0,
            query.after is None,
            query.correlation_key is None,
    {
        TaskQuery { states: Vec::new(), limit: 0, after: None, correlation_key: None }
    }
}

/// Content of a [`TaskQuery`].
pub struct QueryModel {
    pub states: Seq<TaskStateKind>,
    pub limit: usize,
    pub after: Option<TaskCursor>,
    pub correlation_key: Option<Seq<char>>,
}

impl View for TaskQuery {
    type V = QueryModel;

    open spec fn view(&self) -> QueryModel {
        QueryModel {
            states: self.states@,
            limit: self.limit,
            after: self.after,
            correlation_key: opt_text(self.correlation_key),
        }
    }
}

impl QueryModel {
    /// Whether a task belongs to the answer of this query.
    pub open spec fn selects(self, info: InfoModel, life: LifeModel) -> bool {
        &&& self.states.len() == 0 || self.states.contains(life.state.kind())
        &&& self.correlation_key is Some ==> info.correlation_key == self.correlation_key
        &&& self.after is Some ==> cursor_lt(self.after->0, life.cursor())
    }
}

impl TaskQuery {
    /// Whether `record` belongs to the answer of this query.
    pub fn selects(&self, record: &TaskRecord) -> (selected: bool)
        ensures
            selected == self@.selects(record@.request.info, record@.life),
    {
        if self.states.len() > 0 {
            let kind = record.state.kind();
            let mut found = false;
            let mut i: usize = 0;
            while i < self.states.len()
                invariant
                    i <= self.states@.len(),
                    found == exists|k: int| 0 <= k < i && self.states@[k] == kind,
                decreases self.states@.len() - i,
            {
                if self.states[i] == kind {
                    found = true;
                }
                i = i + 1;
            }
            if !found {
                return false;
            }
        }
        match &self.correlation_key {
            Some(key) => match &record.request.correlation_key {
                Some(own) => {
                    if !same_text(key.as_str(), own.as_str()) {
                        return false;
                    }
                },
                None => {
                    return false;
                },
            },
            None => {},
        }
        match self.after {
            Some(after) => after.before(
                &TaskCursor { accepted_at_ms: record.accepted_at_ms, id: record.id },
            ),
            None => true,
        }
    }
}

/// Most records that one history page may hold.
pub const MAX_TASK_PAGE_SIZE: usize = 256;

/// Number of records on a page of a query with this limit.
pub open spec fn page_size(limit: usize) -> usize {
    if limit == 0 {
        1
    } else {
        limit
    }
}

/// Why a page of this limit is refused, if it is.
pub open spec fn page_limit_error(limit: usize) -> Option<StoreErrorModel> {
    if limit > MAX_TASK_PAGE_SIZE {
        Some(StoreErrorModel::InvalidRequest("task history page limit is too large"@))
    } else {
        None
    }
}

/// Returns the page size of a query limit: zero means one record, and at most
/// [`MAX_TASK_PAGE_SIZE`] records fit on a page.
pub fn checked_page_size(limit: usize) -> (size: Result<usize, StoreError>)
    ensures
        match size {
            Ok(n) => page_limit_error(limit) is None && n == page_size(limit) && 1 <= n <= 256,
            Err(e) => page_limit_error(limit) == Some(e@),
        },
{
    if limit > MAX_TASK_PAGE_SIZE {
        return Err(StoreError::InvalidRequest("task history page limit is too large"));
    }
    if limit == 0 {
        Ok(1)
    } else {
        Ok(limit)
    }
}

/// One bounded page of task history.
///
/// `next` is present only when another page exists; pass it as the next
/// query's exclusive `after` position.
#[derive(Debug)]
pub struct TaskPage {
    /// Records selected by the query.
    pub records: Vec<TaskRecord>,
    /// Cursor for the next page, when more data exists.
    pub next: Option<TaskCursor>,
}

impl Default for TaskPage {
    fn default() -> (page: Self)
        ensures
            page.records@.len() == 0,
            page.next is None,
    {
        TaskPage { records: Vec::new(), next: None }
    }
}

/// One bounded page of payload-free task history.
#[derive(Debug)]
pub struct TaskSummaryPage {
    /// Summaries selected by the query.
    pub records: Vec<TaskSummary>,
    /// Cursor for the next page, when more data exists.
    pub next: Option<TaskCursor>,
}

/// Aggregate task counts suitable for service monitoring.
///
/// Terminal counts take in every retained succeeded, failed, panicked, and
/// cancelled record.
#[derive(Debug, Clone, Copy, PartialEq, Eq, Structural)]
pub struct TaskStateCounts {
    /// Number of retained tasks waiting for resources.
    pub queued: usize,
    /// Number of retained tasks currently executing.
    pub running: usize,
    /// Number of retained tasks requiring intervention.
    pub blocked: usize,
    /// Number of retained terminal task records.
    pub terminal: usize,
}

impl Default for TaskStateCounts {
    fn default() -> (counts: Self)
        ensures
            counts == (TaskStateCounts { queued: 0, running: 0, blocked: 0, terminal: 0 }),
    {
        TaskStateCounts { queued: 0, running: 0, blocked: 0, terminal: 0 }
    }
}

/// Aggregate task counts and resource capacity suitable for service monitoring.
///
/// Store counts and resource usage are collected consecutively and are not an
/// atomic snapshot across both components.
#[derive(Debug)]
pub struct TaskStats {
    /// Number of tasks waiting for resources.
    pub queued: usize,
    /// Number of currently executing tasks.
    pub running: usize,
    /// Number of tasks requiring intervention.
    pub blocked: usize,
    /// Number of retained terminal records.
    pub terminal: usize,
    /// Resource snapshot at the time of collection.
    pub resources: ResourceSnapshot,
}

impl TaskStats {
    /// Joins store counts with a resource snapshot taken after them.
    pub fn of(counts: TaskStateCounts, resources: ResourceSnapshot) -> (stats: Self)
        ensures
            stats.queued == counts.queued,
            stats.running == counts.running,
            stats.blocked == counts.blocked,
            stats.terminal == counts.terminal,
            stats.resources == resources,
    {
        TaskStats {
            queued: counts.queued,
            running: counts.running,
            blocked: counts.blocked,
            terminal: counts.terminal,
            resources,
        }
    }
}

/// Complete request and record used to reconstruct an unfinished task.
///
/// Recovery pages contain only unfinished work; terminal history remains
/// available through the store's ordinary query interface.
#[derive(Debug)]
pub struct StoredTask {
    /// Task lifecycle snapshot.
    pub record: TaskRecord,
}

/// Store-level capability claims made during service assembly.
///
/// `restart_recovery` implies that unfinished request descriptions can be
/// scanned after restart; it does not promise recovery of process-local values.
#[derive(Debug, Clone, Copy, PartialEq, Eq, Structural)]
pub struct StoreCapabilities {
    /// Whether task history survives a process restart.
    pub persistent_history: bool,
    /// Whether accepted unfinished work can be recovered after restart.
    pub restart_recovery: bool,
}

/// Result of atomically accepting a task request.
///
/// `Existing` is returned for an identical request with the same idempotency
/// key, so callers should use the returned record in either case.
#[derive(Debug)]
pub enum AcceptOutcome {
    /// A new task was accepted.
    Accepted(TaskRecord),
    /// An identical idempotent request already exists.
    Existing(TaskRecord),
}

/// Conditional task state update guarded by state version and attempt.
///
/// Stores reject stale commands with a conflict, preventing a delayed worker
/// from overwriting a newer task lifecycle revision.
#[derive(Debug)]
pub struct TransitionCommand {
    /// Target task identity.
    pub id: TaskId,
    /// Expected previous state version.
    pub expected_version: u64,
    /// Expected execution generation.
    pub expected_attempt: u32,
    /// New observable state.
    pub state: TaskState,
    /// Earliest start of a requeued attempt.
    pub retry_not_before_ms: Option<u64>,
    /// Optional result summary.
    pub output: Option<TaskOutput>,
    /// Assigned device identifiers.
    pub assigned_resources: Vec<String>,
    /// Whether this transition requests cancellation.
    pub cancel_requested: bool,
}

/// Content of a [`TransitionCommand`].
#[verifier::ext_equal]
pub struct CommandModel {
    pub id: TaskId,
    pub expected_version: u64,
    pub expected_attempt: u32,
    pub state: StateModel,
    pub retry_not_before_ms: Option<u64>,
    pub output: Option<Seq<u8>>,
    pub assigned_resources: Seq<Seq<char>>,
    pub cancel_requested: bool,
}

impl View for TransitionCommand {
    type V = CommandModel;

    open spec fn view(&self) -> CommandModel {
        CommandModel {
            id: self.id,
            expected_version: self.expected_version,
            expected_attempt: self.expected_attempt,
            state: self.state@,
            retry_not_before_ms: self.retry_not_before_ms,
            output: opt_output(self.output),
            assigned_resources: texts(self.assigned_resources@),
            cancel_requested: self.cancel_requested,
        }
    }
}

/// Exclusive store-owner generation for one running service process.
///
/// A recoverable store issues an epoch when a service acquires ownership and
/// requires the same epoch when that service releases it.
#[derive(Debug, Clone, Copy, PartialEq, Eq, Structural)]
pub struct OwnerEpoch(pub u64);

/// Page of unfinished stored work returned during recovery.
///
/// The cursor can be passed back to the next scan until `next` is `None`.
#[derive(Debug)]
pub struct StoredTaskPage {
    /// Reconstructible unfinished tasks.
    pub tasks: Vec<StoredTask>,
    /// Cursor for another recovery page.
    pub next: Option<TaskId>,
}

impl Default for StoredTaskPage {
    fn default() -> (page: Self)
        ensures
            page.tasks@.len() == 0,
            page.next is None,
    {
        StoredTaskPage { tasks: Vec::new(), next: None }
    }
}

} // verus!
