//! Rows, schema and ownership of a SQLite-backed store.

use vstd::prelude::*;
use vstd::string::StringExecFns;

use super::lifecycle::abandon_error;
use super::lifecycle::abandoned;
use super::lifecycle::advanced;
use super::lifecycle::counters_fit;
use super::lifecycle::revision_error;
use super::lifecycle::StoredLifecycle;
use super::StoreError;
use super::StoreErrorModel;
use crate::model::task_id::uuid_text;
use crate::model::task_record::checked_page_size;
use crate::model::task_record::initial_record;
use crate::model::task_record::kind_key;
use crate::model::task_record::page_limit_error;
use crate::model::task_record::page_size;
use crate::model::task_record::LifeModel;
use crate::model::task_record::QueryModel;
use crate::model::task_record::RecordModel;
use crate::model::task_record::SummaryModel;
use crate::model::task_request::limits_error;
use crate::model::task_request::InfoModel;
use crate::model::task_request::RequestModel;
use crate::model::AcceptOutcome;
use crate::model::OwnerEpoch;
use crate::model::StoreCapabilities;
use crate::model::StoredTask;
use crate::model::StoredTaskPage;
use crate::model::TaskCursor;
use crate::model::TaskId;
use crate::model::TaskQuery;
use crate::model::TaskRecord;
use crate::model::TaskRequest;
use crate::model::TaskRequestInfo;
use crate::model::TaskStateCounts;
use crate::model::TaskSummary;
use crate::model::TaskSummaryPage;
use crate::model::TransitionCommand;
use crate::text::contains_text;
use crate::text::copy_opt_text;
use crate::text::decimal;
use crate::text::decimal_text;
use crate::text::join2;
use crate::text::join3;
use crate::text::opt_text;
use crate::text::same_opt_text;
use crate::text::same_text;
use crate::text::signed_decimal;
use crate::text::signed_text;
use crate::text::texts;

verus! {

/// Version of the current schema.
pub const SCHEMA_VERSION: i64 = 3;

/// Version of the current row format.
pub const RECORD_FORMAT_VERSION: i64 = 3;

/// Columns that payload-free reads select.
pub const SUMMARY_COLUMNS: &'static str =
    "id,state_kind,accepted_at,correlation_key,idempotency_key,record_format_version,request_info_json,lifecycle_json";

/// Most unfinished tasks that one recovery scan returns.
pub const SCAN_PAGE_SIZE: usize = 256;

/// Largest number that a SQLite integer holds.
pub const MAX_SQLITE_INTEGER: u64 = 9_223_372_036_854_775_807;

/// What is reported for a number that does not fit its target.
pub open spec fn out_of_range() -> StoreErrorModel {
    StoreErrorModel::Failure("out of range integral type conversion attempted"@)
}

fn range_failure() -> (error: StoreError)
    ensures
        error@ == out_of_range(),
{
    StoreError::Failure("out of range integral type conversion attempted".to_owned())
}

/// Capabilities of a SQLite store.
pub fn sqlite_capabilities() -> (capabilities: StoreCapabilities)
    ensures
        capabilities == (StoreCapabilities { persistent_history: true, restart_recovery: true }),
{
    StoreCapabilities { persistent_history: true, restart_recovery: true }
}

/// Indexed columns of a stored task, duplicated from its stored values.
#[derive(Debug)]
pub struct StoredTaskRow {
    /// Text of the task identifier.
    pub id: String,
    /// Key of the state category.
    pub state_kind: String,
    /// Acceptance time.
    pub accepted_at: i64,
    /// Correlation key of the request.
    pub correlation_key: Option<String>,
    /// Idempotency key of the request.
    pub idempotency_key: Option<String>,
    /// Version of the row format.
    pub format_version: i64,
}

/// Content of a [`StoredTaskRow`].
#[verifier::ext_equal]
pub struct RowModel {
    pub id: Seq<char>,
    pub state_kind: Seq<char>,
    pub accepted_at: i64,
    pub correlation_key: Option<Seq<char>>,
    pub idempotency_key: Option<Seq<char>>,
    pub format_version: i64,
}

impl View for StoredTaskRow {
    type V = RowModel;

    open spec fn view(&self) -> RowModel {
        RowModel {
            id: self.id@,
            state_kind: self.state_kind@,
            accepted_at: self.accepted_at,
            correlation_key: opt_text(self.correlation_key),
            idempotency_key: opt_text(self.idempotency_key),
            format_version: self.format_version,
        }
    }
}

/// The indexed columns of a task.
pub open spec fn row_of(info: InfoModel, life: LifeModel) -> RowModel {
    RowModel {
        id: uuid_text(life.id.0),
        state_kind: kind_key(life.state.kind()),
        accepted_at: life.accepted_at_ms as i64,
        correlation_key: info.correlation_key,
        idempotency_key: info.idempotency_key,
        format_version: RECORD_FORMAT_VERSION,
    }
}

/// Whether the lifecycle columns agree with a lifecycle whose time fits.
pub open spec fn lifecycle_agrees(row: RowModel, life: LifeModel) -> bool {
    &&& row.id == uuid_text(life.id.0)
    &&& row.state_kind == kind_key(life.state.kind())
    &&& row.accepted_at == life.accepted_at_ms
}

/// Whether the request columns agree with a request.
pub open spec fn request_agrees(row: RowModel, info: InfoModel) -> bool {
    row.correlation_key == info.correlation_key && row.idempotency_key == info.idempotency_key
}

/// Why the columns of a row are refused beside its stored values, if they are.
/// The time is only looked at when identifier and state agree.
pub open spec fn row_error(
    row: RowModel,
    info: InfoModel,
    life: LifeModel,
    complaint: Seq<char>,
) -> Option<StoreErrorModel> {
    if row.id != uuid_text(life.id.0) || row.state_kind != kind_key(life.state.kind()) {
        Some(StoreErrorModel::Failure(complaint))
    } else if life.accepted_at_ms > MAX_SQLITE_INTEGER {
        Some(out_of_range())
    } else if row.accepted_at != life.accepted_at_ms || !request_agrees(row, info) {
        Some(StoreErrorModel::Failure(complaint))
    } else {
        None
    }
}

/// How a current row that disagrees is described.
pub open spec fn current_complaint(row: RowModel) -> Seq<char> {
    "SQLite task row `"@ + row.id + "` disagrees with its stored JSON"@
}

/// Why a row format is refused, if it is.
pub open spec fn format_error(version: i64) -> Option<StoreErrorModel> {
    if version != RECORD_FORMAT_VERSION {
        Some(
            StoreErrorModel::Failure(
                "unsupported SQLite task record format version "@ + signed_text(version as int)
                    + "; supported version is 3"@,
            ),
        )
    } else {
        None
    }
}

/// Checks the format of a row before its values are decoded.
pub fn check_format(version: i64) -> (result: Result<(), StoreError>)
    ensures
        match result {
            Ok(_) => format_error(version) is None,
            Err(e) => format_error(version) == Some(e@),
        },
{
    if version != RECORD_FORMAT_VERSION {
        return Err(
            StoreError::Failure(
                join3(
                    "unsupported SQLite task record format version ",
                    signed_decimal(version).as_str(),
                    "; supported version is 3",
                ),
            ),
        );
    }
    Ok(())
}

/// Compares the columns of a row with its stored values.
fn check_row(
    row: &StoredTaskRow,
    correlation_key: &Option<String>,
    idempotency_key: &Option<String>,
    life: &StoredLifecycle,
    complaint: String,
    Ghost(info): Ghost<InfoModel>,
) -> (result: Result<(), StoreError>)
    requires
        info.correlation_key == opt_text(*correlation_key),
        info.idempotency_key == opt_text(*idempotency_key),
    ensures
        match result {
            Ok(_) => row_error(row@, info, life@, complaint@) is None,
            Err(e) => row_error(row@, info, life@, complaint@) == Some(e@),
        },
{
    if !same_text(life.id.text().as_str(), row.id.as_str()) || !same_text(
        life.state.kind().as_str(),
        row.state_kind.as_str(),
    ) {
        return Err(StoreError::Failure(complaint));
    }
    if life.accepted_at_ms > MAX_SQLITE_INTEGER {
        return Err(range_failure());
    }
    if life.accepted_at_ms as i64 != row.accepted_at || !same_opt_text(
        correlation_key,
        &row.correlation_key,
    ) || !same_opt_text(idempotency_key, &row.idempotency_key) {
        return Err(StoreError::Failure(complaint));
    }
    Ok(())
}

/// Why a stored task is not decoded, if it is not.
pub open spec fn decode_error(
    row: RowModel,
    info: InfoModel,
    life: LifeModel,
) -> Option<StoreErrorModel> {
    if format_error(row.format_version) is Some {
        format_error(row.format_version)
    } else {
        row_error(row, info, life, current_complaint(row))
    }
}

fn current_complaint_text(row: &StoredTaskRow) -> (text: String)
    ensures
        text@ == current_complaint(row@),
{
    join3("SQLite task row `", row.id.as_str(), "` disagrees with its stored JSON")
}

/// Assembles a task record from a row, its decoded values and its payload.
pub fn decode_stored_task_row(
    row: &StoredTaskRow,
    info: TaskRequestInfo,
    payload: Vec<u8>,
    life: StoredLifecycle,
) -> (result: Result<TaskRecord, StoreError>)
    ensures
        match result {
            Ok(record) => {
                &&& decode_error(row@, info@, life@) is None
                &&& record@ == (RecordModel {
                    request: RequestModel { info: info@, payload: payload@ },
                    life: life@,
                })
            },
            Err(e) => decode_error(row@, info@, life@) == Some(e@),
        },
{
    match check_format(row.format_version) {
        Ok(_) => {},
        Err(error) => {
            return Err(error);
        },
    }
    match check_row(
        row,
        &info.correlation_key,
        &info.idempotency_key,
        &life,
        current_complaint_text(row),
        Ghost(info@),
    ) {
        Ok(_) => Ok(life.into_record(info.with_payload(payload))),
        Err(error) => Err(error),
    }
}

/// Assembles a task summary from a row and its decoded values.
pub fn decode_stored_summary_row(
    row: &StoredTaskRow,
    info: TaskRequestInfo,
    life: StoredLifecycle,
) -> (result: Result<TaskSummary, StoreError>)
    ensures
        match result {
            Ok(summary) => {
                &&& decode_error(row@, info@, life@) is None
                &&& summary@ == (SummaryModel { request: info@, life: life@ })
            },
            Err(e) => decode_error(row@, info@, life@) == Some(e@),
        },
{
    match check_format(row.format_version) {
        Ok(_) => {},
        Err(error) => {
            return Err(error);
        },
    }
    match check_row(
        row,
        &info.correlation_key,
        &info.idempotency_key,
        &life,
        current_complaint_text(row),
        Ghost(info@),
    ) {
        Ok(_) => Ok(life.into_summary(info)),
        Err(error) => Err(error),
    }
}

/// Derives the indexed columns of a record, or reports a time that does not fit.
pub fn encode_row(record: &TaskRecord) -> (result: Result<StoredTaskRow, StoreError>)
    ensures
        match result {
            Ok(row) => {
                &&& record.accepted_at_ms <= MAX_SQLITE_INTEGER
                &&& row@ == row_of(record@.request.info, record@.life)
            },
            Err(e) => record.accepted_at_ms > MAX_SQLITE_INTEGER && e@ == out_of_range(),
        },
{
    if record.accepted_at_ms > MAX_SQLITE_INTEGER {
        return Err(range_failure());
    }
    Ok(
        StoredTaskRow {
            id: record.id.text(),
            state_kind: record.state.kind().as_str().to_owned(),
            accepted_at: record.accepted_at_ms as i64,
            correlation_key: copy_opt_text(&record.request.correlation_key),
            idempotency_key: copy_opt_text(&record.request.idempotency_key),
            format_version: RECORD_FORMAT_VERSION,
        },
    )
}

/// A row reads back as the task that it was written for: the columns that
/// writing derives are accepted beside the values they were derived from.
pub proof fn law_written_rows_read_back(info: InfoModel, life: LifeModel)
    requires
        life.accepted_at_ms <= MAX_SQLITE_INTEGER,
    ensures
        decode_error(row_of(info, life), info, life) is None,
{
}

/// An accepted row agrees with its values in every indexed column.
pub proof fn law_accepted_rows_agree(row: RowModel, info: InfoModel, life: LifeModel)
    requires
        decode_error(row, info, life) is None,
    ensures
        row == row_of(info, life),
        life.accepted_at_ms <= MAX_SQLITE_INTEGER,
{
}

/// Answers a submission whose idempotency key is already stored.
pub fn replay(existing: TaskRecord, request: &TaskRequest) -> (result: Result<
    AcceptOutcome,
    StoreError,
>)
    ensures
        if existing@.request == request@ {
            result matches Ok(AcceptOutcome::Existing(record)) && record@ == existing@
        } else {
            result matches Err(e) && e@ == StoreErrorModel::IdempotencyConflict
        },
{
    if existing.request.same(request) {
        Ok(AcceptOutcome::Existing(existing))
    } else {
        Err(StoreError::IdempotencyConflict)
    }
}

/// Decides a submission under `id` at `now`. `existing` is the task that holds
/// the request's idempotency key, and `id_stored` says whether a task is stored
/// under `id`.
pub fn decide_accept(
    id: TaskId,
    request: TaskRequest,
    now: u64,
    existing: Option<TaskRecord>,
    id_stored: bool,
) -> (result: Result<AcceptOutcome, StoreError>)
    ensures
        match limits_error(request@) {
            Some(message) => result matches Err(e) && e@ == StoreErrorModel::InvalidRequest(
                message,
            ),
            None => match existing {
                Some(held) => if held@.request == request@ {
                    result matches Ok(AcceptOutcome::Existing(record)) && record@ == held@
                } else {
                    result matches Err(e) && e@ == StoreErrorModel::IdempotencyConflict
                },
                None => if id_stored {
                    result matches Err(e) && e@ == StoreErrorModel::DuplicateTask
                } else {
                    result matches Ok(AcceptOutcome::Accepted(record)) && record@
                        == RecordModel::accepted(id, request@, now)
                },
            },
        },
{
    match request.validate_limits() {
        Ok(_) => {},
        Err(message) => {
            return Err(StoreError::InvalidRequest(message));
        },
    }
    match existing {
        Some(held) => replay(held, &request),
        None => if id_stored {
            Err(StoreError::DuplicateTask)
        } else {
            Ok(AcceptOutcome::Accepted(initial_record(id, request, now)))
        },
    }
}

/// Applies a transition at `now` to a stored summary.
pub fn transition_summary(summary: TaskSummary, command: TransitionCommand, now: u64) -> (result:
    Result<TaskSummary, StoreError>)
    requires
        counters_fit(summary@.life, command@),
    ensures
        match result {
            Ok(next) => {
                &&& revision_error(summary@.life, command@) is None
                &&& next@ == (SummaryModel {
                    request: summary@.request,
                    life: advanced(summary@.life, command@, now),
                })
            },
            Err(e) => revision_error(summary@.life, command@) == Some(e@),
        },
{
    let life = StoredLifecycle::from_summary(&summary);
    match life.check_revision(&command) {
        Ok(_) => Ok(life.advance(command, now).into_summary(summary.request)),
        Err(error) => Err(error),
    }
}

/// Abandons a blocked task at `now`.
pub fn abandon_summary(summary: TaskSummary, expected_version: u64, now: u64) -> (result: Result<
    TaskSummary,
    StoreError,
>)
    requires
        abandon_error(summary@.life, expected_version) is None ==> expected_version < u64::MAX,
    ensures
        match result {
            Ok(next) => {
                &&& abandon_error(summary@.life, expected_version) is None
                &&& next@ == (SummaryModel {
                    request: summary@.request,
                    life: abandoned(summary@.life, now),
                })
            },
            Err(e) => abandon_error(summary@.life, expected_version) == Some(e@),
        },
{
    match StoredLifecycle::from_summary(&summary).abandon(expected_version, now) {
        Ok(next) => Ok(next.into_summary(summary.request)),
        Err(error) => Err(error),
    }
}

/// A history query as SQLite runs it.
#[derive(Debug)]
pub struct HistoryQuery {
    /// Statement text.
    pub sql: String,
    /// Exclusive acceptance time of the cursor.
    pub after_time: Option<i64>,
    /// Identifier text of the cursor.
    pub after_id: Option<String>,
    /// Correlation key to match.
    pub correlation_key: Option<String>,
    /// Keys of the states to match.
    pub state_kinds: Vec<&'static str>,
    /// Rows to fetch: one more than fits on the page.
    pub fetch_limit: i64,
    /// Rows that fit on the page.
    pub page_size: usize,
}

/// Why a history query is refused, if it is.
pub open spec fn history_error(query: QueryModel) -> Option<StoreErrorModel> {
    if page_limit_error(query.limit) is Some {
        page_limit_error(query.limit)
    } else if query.after is Some && query.after->0.accepted_at_ms > MAX_SQLITE_INTEGER {
        Some(
            StoreErrorModel::InvalidRequest("task history cursor timestamp is too large"@),
        )
    } else {
        None
    }
}

/// Numbered placeholders from `first` on, separated by commas.
pub open spec fn placeholders(first: nat, count: nat) -> Seq<char>
    decreases count,
{
    if count == 0 {
        Seq::empty()
    } else if count == 1 {
        "?"@ + decimal_text(first)
    } else {
        placeholders(first, (count - 1) as nat) + ",?"@ + decimal_text((first + count - 1) as nat)
    }
}

/// Statement text of a history query that filters by `kinds` states.
pub open spec fn history_sql(kinds: nat) -> Seq<char> {
    let head = "SELECT "@ + SUMMARY_COLUMNS@
        + " FROM tasks WHERE (?1 IS NULL OR accepted_at > ?1 OR (accepted_at = ?1 AND id > ?2)) AND (?3 IS NULL OR correlation_key = ?3)"@;
    let filter = if kinds == 0 {
        Seq::empty()
    } else {
        " AND state_kind IN ("@ + placeholders(4, kinds) + ")"@
    };
    head + filter + " ORDER BY accepted_at, id LIMIT ?"@ + decimal_text(4 + kinds)
}

fn placeholder_text(first: u64, count: usize) -> (text: String)
    requires
        first + count <= u64::MAX,
    ensures
        text@ == placeholders(first as nat, count as nat),
{
    let mut text = String::new();
    let mut i: usize = 0;
    while i < count
        invariant
            i <= count,
            first + count <= u64::MAX,
            text@ == placeholders(first as nat, i as nat),
        decreases count - i,
    {
        if i > 0 {
            text.append(",?");
        } else {
            text.append("?");
        }
        text.append(decimal(first + i as u64).as_str());
        proof {
            if i == 0 {
                assert(text@ =~= "?"@ + decimal_text(first as nat));
            } else {
                assert(text@ =~= placeholders(first as nat, i as nat) + ",?"@ + decimal_text(
                    (first + i) as nat,
                ));
            }
        }
        i = i + 1;
    }
    text
}

/// Plans a history query.
pub fn plan_history(query: &TaskQuery) -> (result: Result<HistoryQuery, StoreError>)
    requires
        query.states.len() + 4 <= usize::MAX,
    ensures
        match result {
            Ok(plan) => {
                &&& history_error(query@) is None
                &&& plan.sql@ == history_sql(query@.states.len())
                &&& plan.page_size == page_size(query.limit)
                &&& plan.fetch_limit == plan.page_size + 1
                &&& plan.after_time == match query.after {
                    Some(cursor) => Some(cursor.accepted_at_ms as i64),
                    None => None,
                }
                &&& opt_text(plan.after_id) == match query.after {
                    Some(cursor) => Some(uuid_text(cursor.id.0)),
                    None => None,
                }
                &&& opt_text(plan.correlation_key) == query@.correlation_key
                &&& plan.state_kinds@.len() == query@.states.len()
                &&& forall|i: int|
                    0 <= i < query@.states.len() ==> (#[trigger] plan.state_kinds@[i])@ == kind_key(
                        query@.states[i],
                    )
            },
            Err(e) => history_error(query@) == Some(e@),
        },
{
    let size: usize = match checked_page_size(query.limit) {
        Ok(size) => size,
        Err(error) => {
            return Err(error);
        },
    };
    let mut after_time: Option<i64> = None;
    let mut after_id: Option<String> = None;
    match query.after {
        Some(cursor) => {
            if cursor.accepted_at_ms > MAX_SQLITE_INTEGER {
                return Err(
                    StoreError::InvalidRequest("task history cursor timestamp is too large"),
                );
            }
            after_time = Some(cursor.accepted_at_ms as i64);
            after_id = Some(cursor.id.text());
        },
        None => {},
    }
    let mut state_kinds: Vec<&'static str> = Vec::new();
    let mut i: usize = 0;
    while i < query.states.len()
        invariant
            i <= query.states@.len(),
            state_kinds@.len() == i,
            forall|k: int|
                0 <= k < i ==> (#[trigger] state_kinds@[k])@ == kind_key(query.states@[k]),
        decreases query.states@.len() - i,
    {
        state_kinds.push(query.states[i].as_str());
        i = i + 1;
    }
    let kinds: usize = query.states.len();
    let mut sql = join3(
        "SELECT ",
        SUMMARY_COLUMNS,
        " FROM tasks WHERE (?1 IS NULL OR accepted_at > ?1 OR (accepted_at = ?1 AND id > ?2)) AND (?3 IS NULL OR correlation_key = ?3)",
    );
    let ghost head = sql@;
    if kinds > 0 {
        sql.append(" AND state_kind IN (");
        sql.append(placeholder_text(4, kinds).as_str());
        sql.append(")");
        proof {
            assert(sql@ =~= head + (" AND state_kind IN ("@ + placeholders(4, kinds as nat)
                + ")"@));
        }
    } else {
        proof {
            assert(sql@ =~= head + Seq::<char>::empty());
        }
    }
    sql.append(" ORDER BY accepted_at, id LIMIT ?");
    sql.append(decimal(4 + kinds as u64).as_str());
    Ok(
        HistoryQuery {
            sql,
            after_time,
            after_id,
            correlation_key: copy_opt_text(&query.correlation_key),
            state_kinds,
            fetch_limit: (size + 1) as i64,
            page_size: size,
        },
    )
}

/// Statement text that reads one task without its payload.
pub fn summary_by_id_sql() -> (sql: String)
    ensures
        sql@ == "SELECT "@ + SUMMARY_COLUMNS@ + " FROM tasks WHERE id=?1"@,
{
    join3("SELECT ", SUMMARY_COLUMNS, " FROM tasks WHERE id=?1")
}

/// Makes a page of the fetched summaries: the first `size` of them, with a
/// cursor when more were fetched.
pub fn finish_history_page(fetched: Vec<TaskSummary>, size: usize) -> (page: TaskSummaryPage)
    requires
        size > 0,
    ensures
        if fetched@.len() > size {
            &&& page.records@ == fetched@.take(size as int)
            &&& page.next == Some(fetched@[size - 1]@.life.cursor())
        } else {
            page.records@ == fetched@ && page.next is None
        },
{
    let mut records = fetched;
    if records.len() > size {
        let next = TaskCursor::of(&records[size - 1]);
        records.truncate(size);
        proof {
            assert(records@ =~= fetched@.take(size as int));
        }
        TaskSummaryPage { records, next: Some(next) }
    } else {
        TaskSummaryPage { records, next: None }
    }
}

/// Makes a recovery page of the fetched tasks.
pub fn finish_scan_page(fetched: Vec<StoredTask>) -> (page: StoredTaskPage)
    ensures
        if fetched@.len() > SCAN_PAGE_SIZE {
            &&& page.tasks@ == fetched@.take(SCAN_PAGE_SIZE as int)
            &&& page.next == Some(fetched@[SCAN_PAGE_SIZE - 1].record.id)
        } else {
            page.tasks@ == fetched@ && page.next is None
        },
{
    let mut tasks = fetched;
    if tasks.len() > SCAN_PAGE_SIZE {
        let next = tasks[SCAN_PAGE_SIZE - 1].record.id;
        tasks.truncate(SCAN_PAGE_SIZE);
        proof {
            assert(tasks@ =~= fetched@.take(SCAN_PAGE_SIZE as int));
        }
        StoredTaskPage { tasks, next: Some(next) }
    } else {
        StoredTaskPage { tasks, next: None }
    }
}

/// Why pruning bounds are refused, if they are.
pub open spec fn prune_error(accepted_before_ms: u64, max_rows: usize) -> Option<StoreErrorModel> {
    if accepted_before_ms > MAX_SQLITE_INTEGER {
        Some(
            StoreErrorModel::InvalidRequest(
                "task history cutoff exceeds the SQLite integer range"@,
            ),
        )
    } else if max_rows > MAX_SQLITE_INTEGER {
        Some(
            StoreErrorModel::InvalidRequest(
                "task history prune limit exceeds the SQLite integer range"@,
            ),
        )
    } else {
        None
    }
}

/// Converts pruning bounds to SQLite integers.
pub fn prune_bounds(accepted_before_ms: u64, max_rows: usize) -> (result: Result<
    (i64, i64),
    StoreError,
>)
    ensures
        match result {
            Ok(bounds) => {
                &&& prune_error(accepted_before_ms, max_rows) is None
                &&& bounds.0 == accepted_before_ms
                &&& bounds.1 == max_rows
            },
            Err(e) => prune_error(accepted_before_ms, max_rows) == Some(e@),
        },
{
    if accepted_before_ms > MAX_SQLITE_INTEGER {
        return Err(
            StoreError::InvalidRequest("task history cutoff exceeds the SQLite integer range"),
        );
    }
    if max_rows as u64 > MAX_SQLITE_INTEGER {
        return Err(
            StoreError::InvalidRequest("task history prune limit exceeds the SQLite integer range"),
        );
    }
    Ok((accepted_before_ms as i64, max_rows as i64))
}

/// The offset that tells whether more than `limit` tasks are unfinished, or none
/// where no table can hold that many.
pub fn unfinished_offset(limit: usize) -> (offset: Option<i64>)
    ensures
        match offset {
            Some(value) => limit <= MAX_SQLITE_INTEGER && value == limit,
            None => limit > MAX_SQLITE_INTEGER,
        },
{
    if limit as u64 > MAX_SQLITE_INTEGER {
        None
    } else {
        Some(limit as i64)
    }
}

/// What one aggregated row does to the state counts.
pub open spec fn counted(
    before: TaskStateCounts,
    kind: Seq<char>,
    count: i64,
) -> Result<TaskStateCounts, StoreErrorModel> {
    if count < 0 || count > usize::MAX {
        Err(out_of_range())
    } else if kind == "Queued"@ {
        Ok(TaskStateCounts { queued: count as usize, ..before })
    } else if kind == "Running"@ {
        Ok(TaskStateCounts { running: count as usize, ..before })
    } else if kind == "Blocked"@ {
        Ok(TaskStateCounts { blocked: count as usize, ..before })
    } else if kind == "Succeeded"@ || kind == "Failed"@ || kind == "Panicked"@ || kind
        == "Cancelled"@ {
        if before.terminal + count > usize::MAX {
            Err(StoreErrorModel::Failure("terminal state count exceeds usize"@))
        } else {
            Ok(TaskStateCounts { terminal: (before.terminal + count) as usize, ..before })
        }
    } else {
        Err(StoreErrorModel::Failure("unknown task state kind: "@ + kind))
    }
}

/// Takes one aggregated row into the state counts.
pub fn count_kind(counts: &mut TaskStateCounts, kind: &str, count: i64) -> (result: Result<
    (),
    StoreError,
>)
    ensures
        match result {
            Ok(_) => counted(*old(counts), kind@, count) == Ok::<TaskStateCounts, StoreErrorModel>(
                *final(counts),
            ),
            Err(e) => counted(*old(counts), kind@, count) == Err::<
                TaskStateCounts,
                StoreErrorModel,
            >(e@) && *final(counts) == *old(counts),
        },
{
    if count < 0 || count as u64 > usize::MAX as u64 {
        return Err(range_failure());
    }
    let amount: usize = count as usize;
    if same_text(kind, "Queued") {
        counts.queued = amount;
    } else if same_text(kind, "Running") {
        counts.running = amount;
    } else if same_text(kind, "Blocked") {
        counts.blocked = amount;
    } else if same_text(kind, "Succeeded") || same_text(kind, "Failed") || same_text(
        kind,
        "Panicked",
    ) || same_text(kind, "Cancelled") {
        match counts.terminal.checked_add(amount) {
            Some(sum) => {
                counts.terminal = sum;
            },
            None => {
                return Err(StoreError::Failure("terminal state count exceeds usize".to_owned()));
            },
        }
    } else {
        return Err(StoreError::Failure(join2("unknown task state kind: ", kind)));
    }
    Ok(())
}

/// Why a write is refused for this lock, if it is.
pub open spec fn write_error<L>(lock: Option<L>) -> Option<StoreErrorModel> {
    if lock is Some {
        None
    } else {
        Some(StoreErrorModel::Failure("SQLite task store has no active owner"@))
    }
}

/// What releasing ownership gives back, and the lock that is held afterwards.
pub open spec fn release_lock<L>(
    lock: Option<L>,
    owner: Option<OwnerEpoch>,
    epoch: OwnerEpoch,
) -> (Result<L, StoreErrorModel>, Option<L>) {
    if owner != Some(epoch) {
        (
            Err(StoreErrorModel::Failure("SQLite owner epoch does not match the active owner"@)),
            lock,
        )
    } else {
        match lock {
            Some(held) => (Ok(held), None),
            None => (Err(StoreErrorModel::Failure("SQLite task store has no active owner"@)), None),
        }
    }
}

/// A released store refuses every later write and every later release, and an
/// epoch that does not own the store releases nothing.
pub proof fn law_released_stores_refuse_writes<L>(
    lock: Option<L>,
    owner: Option<OwnerEpoch>,
    epoch: OwnerEpoch,
)
    ensures
        release_lock(lock, owner, epoch).0 is Ok ==> {
            let left = release_lock(lock, owner, epoch).1;
            write_error(left) is Some && release_lock(left, owner, epoch).0 is Err
        },
        owner != Some(epoch) ==> release_lock(lock, owner, epoch).0 is Err && release_lock(
            lock,
            owner,
            epoch,
        ).1 == lock,
{
}

/// Exclusive ownership of a database: the lock `L` and the owner's generation.
#[derive(Debug)]
pub struct SqliteOwnerState<L> {
    lock_file: Option<L>,
    epoch: Option<OwnerEpoch>,
}

impl<L> SqliteOwnerState<L> {
    /// The lock, while it is held.
    pub closed spec fn lock(&self) -> Option<L> {
        self.lock_file
    }

    /// The generation of the owner, once it is known.
    pub closed spec fn owner(&self) -> Option<OwnerEpoch> {
        self.epoch
    }

    /// Holds a lock that no generation was issued for yet.
    pub fn new(lock: L) -> (state: Self)
        ensures
            state.lock() == Some(lock),
            state.owner() is None,
    {
        SqliteOwnerState { lock_file: Some(lock), epoch: None }
    }

    /// Allows a write only while the lock is held.
    pub fn check_write(&self) -> (result: Result<(), StoreError>)
        ensures
            match result {
                Ok(_) => write_error(self.lock()) is None,
                Err(e) => write_error(self.lock()) == Some(e@),
            },
    {
        if self.lock_file.is_some() {
            Ok(())
        } else {
            Err(StoreError::Failure("SQLite task store has no active owner".to_owned()))
        }
    }

    /// Allows a new generation only while the lock is held.
    pub fn check_acquire(&self) -> (result: Result<(), StoreError>)
        ensures
            match result {
                Ok(_) => self.lock() is Some,
                Err(e) => self.lock() is None && e@ == StoreErrorModel::Failure(
                    "SQLite owner lock has been released"@,
                ),
            },
    {
        if self.lock_file.is_some() {
            Ok(())
        } else {
            Err(StoreError::Failure("SQLite owner lock has been released".to_owned()))
        }
    }

    /// Records the generation that was issued.
    pub fn acquired(&mut self, epoch: OwnerEpoch)
        ensures
            final(self).owner() == Some(epoch),
            final(self).lock() == old(self).lock(),
    {
        self.epoch = Some(epoch);
    }

    /// Gives the lock up to be unlocked, for its current generation only.
    pub fn release(&mut self, epoch: OwnerEpoch) -> (result: Result<L, StoreError>)
        ensures
            final(self).owner() == old(self).owner(),
            final(self).lock() == release_lock(old(self).lock(), old(self).owner(), epoch).1,
            match result {
                Ok(lock) => release_lock(old(self).lock(), old(self).owner(), epoch).0 == Ok::<
                    L,
                    StoreErrorModel,
                >(lock),
                Err(e) => release_lock(old(self).lock(), old(self).owner(), epoch).0 == Err::<
                    L,
                    StoreErrorModel,
                >(e@),
            },
    {
        let current = match self.epoch {
            Some(owner) => owner == epoch,
            None => false,
        };
        if !current {
            return Err(
                StoreError::Failure(
                    "SQLite owner epoch does not match the active owner".to_owned(),
                ),
            );
        }
        match self.lock_file.take() {
            Some(lock) => Ok(lock),
            None => Err(StoreError::Failure("SQLite task store has no active owner".to_owned())),
        }
    }
}

/// What opening a database asks for.
#[derive(Debug, Clone, Copy, PartialEq, Eq, Structural)]
pub enum SchemaPlan {
    /// The current schema is there: check its columns.
    Validate,
    /// There is no task table: create it.
    Create,
    /// Move rows of schema 0 or 1 to schema 2, then to the current schema.
    MigrateLegacy,
    /// Move rows of schema 2 to the current schema.
    MigrateSchemaTwo,
}

/// What a schema version and an existing task table ask for.
pub open spec fn schema_plan(version: i64, table_exists: bool) -> Result<
    SchemaPlan,
    StoreErrorModel,
> {
    if version < 0 || version > SCHEMA_VERSION {
        Err(
            StoreErrorModel::Failure(
                "unsupported SQLite task schema version "@ + signed_text(version as int)
                    + "; supported version is 3"@,
            ),
        )
    } else if version == SCHEMA_VERSION {
        if table_exists {
            Ok(SchemaPlan::Validate)
        } else {
            Err(StoreErrorModel::Failure("SQLite task schema is missing table `tasks`"@))
        }
    } else if !table_exists {
        Ok(SchemaPlan::Create)
    } else if version <= 1 {
        Ok(SchemaPlan::MigrateLegacy)
    } else {
        Ok(SchemaPlan::MigrateSchemaTwo)
    }
}

/// Decides what opening a database asks for.
pub fn plan_schema(version: i64, table_exists: bool) -> (result: Result<SchemaPlan, StoreError>)
    ensures
        match result {
            Ok(plan) => schema_plan(version, table_exists) == Ok::<SchemaPlan, StoreErrorModel>(
                plan,
            ),
            Err(e) => schema_plan(version, table_exists) == Err::<SchemaPlan, StoreErrorModel>(e@),
        },
{
    if version < 0 || version > SCHEMA_VERSION {
        return Err(
            StoreError::Failure(
                join3(
                    "unsupported SQLite task schema version ",
                    signed_decimal(version).as_str(),
                    "; supported version is 3",
                ),
            ),
        );
    }
    if version == SCHEMA_VERSION {
        if !table_exists {
            return Err(
                StoreError::Failure("SQLite task schema is missing table `tasks`".to_owned()),
            );
        }
        return Ok(SchemaPlan::Validate);
    }
    if !table_exists {
        Ok(SchemaPlan::Create)
    } else if version <= 1 {
        Ok(SchemaPlan::MigrateLegacy)
    } else {
        Ok(SchemaPlan::MigrateSchemaTwo)
    }
}

/// Whether a failure names the first of `required` that `columns` lack.
pub open spec fn missing_column(
    columns: Seq<Seq<char>>,
    required: Seq<Seq<char>>,
) -> Option<StoreErrorModel>
    decreases required.len(),
{
    if required.len() == 0 {
        None
    } else if !columns.contains(required[0]) {
        Some(
            StoreErrorModel::Failure(
                "SQLite task schema is missing required column `"@ + required[0] + "`"@,
            ),
        )
    } else {
        missing_column(columns, required.drop_first())
    }
}

/// Views of a list of static strings.
pub open spec fn names(values: Seq<&'static str>) -> Seq<Seq<char>> {
    Seq::new(values.len(), |i: int| values[i]@)
}

/// Columns of the current schema.
pub open spec fn current_columns() -> Seq<Seq<char>> {
    seq![
        "id"@,
        "state_kind"@,
        "accepted_at"@,
        "correlation_key"@,
        "idempotency_key"@,
        "request_info_json"@,
        "payload"@,
        "record_format_version"@,
        "lifecycle_json"@,
    ]
}

/// Columns that schema 0 and 1 share.
pub open spec fn legacy_columns() -> Seq<Seq<char>> {
    seq![
        "id"@,
        "state_kind"@,
        "accepted_at"@,
        "correlation_key"@,
        "idempotency_key"@,
        "request_json"@,
        "record_json"@,
    ]
}

fn require_columns(columns: &Vec<String>, required: Vec<&'static str>) -> (result: Result<
    (),
    StoreError,
>)
    ensures
        match result {
            Ok(_) => missing_column(texts(columns@), names(required@)) is None,
            Err(e) => missing_column(texts(columns@), names(required@)) == Some(e@),
        },
{
    let ghost all = names(required@);
    let mut i: usize = 0;
    proof {
        assert(all.skip(0) =~= all);
    }
    while i < required.len()
        invariant
            i <= required@.len(),
            all == names(required@),
            missing_column(texts(columns@), all) == missing_column(
                texts(columns@),
                all.skip(i as int),
            ),
        decreases required@.len() - i,
    {
        proof {
            assert(all.skip(i as int).drop_first() =~= all.skip(i + 1));
            assert(all.skip(i as int)[0] == required@[i as int]@);
        }
        if !contains_text(columns, required[i]) {
            return Err(
                StoreError::Failure(
                    join3(
                        "SQLite task schema is missing required column `",
                        required[i],
                        "`",
                    ),
                ),
            );
        }
        i = i + 1;
    }
    Ok(())
}

/// Verifies that a table has the columns of the current schema.
pub fn validate_schema_three(columns: &Vec<String>) -> (result: Result<(), StoreError>)
    ensures
        match result {
            Ok(_) => missing_column(texts(columns@), current_columns()) is None,
            Err(e) => missing_column(texts(columns@), current_columns()) == Some(e@),
        },
{
    let required: Vec<&'static str> = vec![
        "id",
        "state_kind",
        "accepted_at",
        "correlation_key",
        "idempotency_key",
        "request_info_json",
        "payload",
        "record_format_version",
        "lifecycle_json",
    ];
    proof {
        assert(names(required@) =~= current_columns());
    }
    require_columns(columns, required)
}

/// Why a table of schema 0 or 1 is not migrated, if it is not.
pub open spec fn legacy_error(
    columns: Seq<Seq<char>>,
    version: i64,
    migration_table_exists: bool,
) -> Option<StoreErrorModel> {
    if missing_column(columns, legacy_columns()) is Some {
        missing_column(columns, legacy_columns())
    } else if version == 1 && !columns.contains("record_format_version"@) {
        Some(StoreErrorModel::Failure("SQLite schema 1 is missing `record_format_version`"@))
    } else if migration_table_exists {
        Some(
            StoreErrorModel::Failure("SQLite schema migration table `tasks_v2` already exists"@),
        )
    } else {
        None
    }
}

/// Checks a table of schema 0 or 1 before its rows are moved. Returns whether
/// its rows carry their format.
pub fn check_legacy_schema(
    columns: &Vec<String>,
    version: i64,
    migration_table_exists: bool,
) -> (result: Result<bool, StoreError>)
    ensures
        match result {
            Ok(has_format) => {
                &&& legacy_error(texts(columns@), version, migration_table_exists) is None
                &&& has_format == texts(columns@).contains("record_format_version"@)
            },
            Err(e) => legacy_error(texts(columns@), version, migration_table_exists) == Some(e@),
        },
{
    let required: Vec<&'static str> = vec![
        "id",
        "state_kind",
        "accepted_at",
        "correlation_key",
        "idempotency_key",
        "request_json",
        "record_json",
    ];
    proof {
        assert(names(required@) =~= legacy_columns());
    }
    match require_columns(columns, required) {
        Ok(_) => {},
        Err(error) => {
            return Err(error);
        },
    }
    let has_format = contains_text(columns, "record_format_version");
    if version == 1 && !has_format {
        return Err(
            StoreError::Failure("SQLite schema 1 is missing `record_format_version`".to_owned()),
        );
    }
    if migration_table_exists {
        return Err(
            StoreError::Failure(
                "SQLite schema migration table `tasks_v2` already exists".to_owned(),
            ),
        );
    }
    Ok(has_format)
}

/// Why a legacy row format is refused, if it is.
pub open spec fn legacy_format_error(version: i64) -> Option<StoreErrorModel> {
    if version != 1 {
        Some(
            StoreErrorModel::Failure(
                "unsupported legacy SQLite task record format version "@ + signed_text(
                    version as int,
                ),
            ),
        )
    } else {
        None
    }
}

/// Checks the format of a legacy row before its record is decoded.
pub fn check_legacy_format(version: i64) -> (result: Result<(), StoreError>)
    ensures
        match result {
            Ok(_) => legacy_format_error(version) is None,
            Err(e) => legacy_format_error(version) == Some(e@),
        },
{
    if version != 1 {
        return Err(
            StoreError::Failure(
                join2(
                    "unsupported legacy SQLite task record format version ",
                    signed_decimal(version).as_str(),
                ),
            ),
        );
    }
    Ok(())
}

/// Why a legacy row is not moved, if it is not. Its time is looked at first.
pub open spec fn legacy_row_error(row: RowModel, record: RecordModel) -> Option<StoreErrorModel> {
    if record.life.accepted_at_ms > MAX_SQLITE_INTEGER {
        Some(out_of_range())
    } else if !lifecycle_agrees(row, record.life) || !request_agrees(row, record.request.info) {
        Some(
            StoreErrorModel::Failure(
                "legacy SQLite task row `"@ + row.id + "` disagrees with its record_json"@,
            ),
        )
    } else {
        None
    }
}

/// Checks a legacy row beside its decoded record.
pub fn check_legacy_row(row: &StoredTaskRow, record: &TaskRecord) -> (result: Result<
    (),
    StoreError,
>)
    ensures
        match result {
            Ok(_) => legacy_row_error(row@, record@) is None,
            Err(e) => legacy_row_error(row@, record@) == Some(e@),
        },
{
    if record.accepted_at_ms > MAX_SQLITE_INTEGER {
        return Err(range_failure());
    }
    if !same_text(record.id.text().as_str(), row.id.as_str()) || !same_text(
        record.state.kind().as_str(),
        row.state_kind.as_str(),
    ) || record.accepted_at_ms as i64 != row.accepted_at || !same_opt_text(
        &record.request.correlation_key,
        &row.correlation_key,
    ) || !same_opt_text(&record.request.idempotency_key, &row.idempotency_key) {
        return Err(
            StoreError::Failure(
                join3(
                    "legacy SQLite task row `",
                    row.id.as_str(),
                    "` disagrees with its record_json",
                ),
            ),
        );
    }
    Ok(())
}

/// Whether a table still has to be moved from schema 2.
pub open spec fn schema_two_pending(columns: Seq<Seq<char>>) -> Result<bool, StoreErrorModel> {
    if columns.contains("request_info_json"@) && columns.contains("payload"@) {
        Ok(false)
    } else if !columns.contains("request_json"@) {
        Err(StoreErrorModel::Failure("SQLite schema 2 is missing `request_json`"@))
    } else {
        Ok(true)
    }
}

/// Decides whether a table has to be moved from schema 2.
pub fn check_schema_two(columns: &Vec<String>) -> (result: Result<bool, StoreError>)
    ensures
        match result {
            Ok(pending) => schema_two_pending(texts(columns@)) == Ok::<bool, StoreErrorModel>(
                pending,
            ),
            Err(e) => schema_two_pending(texts(columns@)) == Err::<bool, StoreErrorModel>(e@),
        },
{
    if contains_text(columns, "request_info_json") && contains_text(columns, "payload") {
        return Ok(false);
    }
    if !contains_text(columns, "request_json") {
        return Err(StoreError::Failure("SQLite schema 2 is missing `request_json`".to_owned()));
    }
    Ok(true)
}

/// Why a row format of schema 2 is refused, if it is.
pub open spec fn schema_two_format_error(version: i64) -> Option<StoreErrorModel> {
    if version != 2 {
        Some(
            StoreErrorModel::Failure(
                "unsupported SQLite schema 2 record format "@ + signed_text(version as int),
            ),
        )
    } else {
        None
    }
}

/// Checks the format of a schema 2 row before its values are decoded.
pub fn check_schema_two_format(version: i64) -> (result: Result<(), StoreError>)
    ensures
        match result {
            Ok(_) => schema_two_format_error(version) is None,
            Err(e) => schema_two_format_error(version) == Some(e@),
        },
{
    if version != 2 {
        return Err(
            StoreError::Failure(
                join2(
                    "unsupported SQLite schema 2 record format ",
                    signed_decimal(version).as_str(),
                ),
            ),
        );
    }
    Ok(())
}

/// Why a schema 2 row is not moved, if it is not.
pub open spec fn schema_two_row_error(
    row: RowModel,
    request: RequestModel,
    life: LifeModel,
) -> Option<StoreErrorModel> {
    if !request_agrees(row, request.info) {
        Some(
            StoreErrorModel::Failure(
                "SQLite schema 2 task row `"@ + row.id + "` disagrees with request_json"@,
            ),
        )
    } else {
        row_error(
            row,
            request.info,
            life,
            "SQLite schema 2 task row `"@ + row.id + "` disagrees with lifecycle_json"@,
        )
    }
}

/// Checks a schema 2 row beside its decoded values and returns the record.
pub fn check_schema_two_row(
    row: &StoredTaskRow,
    request: TaskRequest,
    life: StoredLifecycle,
) -> (result: Result<TaskRecord, StoreError>)
    ensures
        match result {
            Ok(record) => {
                &&& schema_two_row_error(row@, request@, life@) is None
                &&& record@ == (RecordModel { request: request@, life: life@ })
            },
            Err(e) => schema_two_row_error(row@, request@, life@) == Some(e@),
        },
{
    if !same_opt_text(&request.correlation_key, &row.correlation_key) || !same_opt_text(
        &request.idempotency_key,
        &row.idempotency_key,
    ) {
        return Err(
            StoreError::Failure(
                join3(
                    "SQLite schema 2 task row `",
                    row.id.as_str(),
                    "` disagrees with request_json",
                ),
            ),
        );
    }
    let complaint = join3(
        "SQLite schema 2 task row `",
        row.id.as_str(),
        "` disagrees with lifecycle_json",
    );
    match check_row(
        row,
        &request.correlation_key,
        &request.idempotency_key,
        &life,
        complaint,
        Ghost(request@.info),
    ) {
        Ok(_) => Ok(life.into_record(request)),
        Err(error) => Err(error),
    }
}

/// A row that a migration moves is accepted afterwards: its columns, under the
/// current format, agree with the values that were decoded.
pub proof fn law_migrated_rows_read_back(row: RowModel, request: RequestModel, life: LifeModel)
    requires
        schema_two_row_error(row, request, life) is None || legacy_row_error(
            row,
            RecordModel { request, life },
        ) is None,
    ensures
        decode_error(
            RowModel { format_version: RECORD_FORMAT_VERSION, ..row },
            request.info,
            life,
        ) is None,
{
}

/// No supported schema is left without a plan, and a database that was migrated
/// or created is validated from then on.
pub proof fn law_every_supported_schema_has_a_plan(version: i64, table_exists: bool)
    requires
        0 <= version < SCHEMA_VERSION,
    ensures
        schema_plan(version, table_exists) is Ok,
        schema_plan(SCHEMA_VERSION, true) == Ok::<SchemaPlan, StoreErrorModel>(
            SchemaPlan::Validate,
        ),
{
}

} // verus!
