//! What the rows of a SQLite store say, and which databases it opens.

use vstd::prelude::*;

use super::lifecycle::StoredLifecycle;
use super::sqlite::abandon_summary;
use super::sqlite::check_format;
use super::sqlite::check_legacy_format;
use super::sqlite::check_legacy_row;
use super::sqlite::check_legacy_schema;
use super::sqlite::check_schema_two;
use super::sqlite::check_schema_two_format;
use super::sqlite::check_schema_two_row;
use super::sqlite::counted;
use super::sqlite::current_columns;
use super::sqlite::decide_accept;
use super::sqlite::decode_stored_summary_row;
use super::sqlite::decode_stored_task_row;
use super::sqlite::encode_row;
use super::sqlite::finish_history_page;
use super::sqlite::finish_scan_page;
use super::sqlite::legacy_columns;
use super::sqlite::missing_column;
use super::sqlite::placeholders;
use super::sqlite::plan_history;
use super::sqlite::plan_schema;
use super::sqlite::prune_bounds;
use super::sqlite::release_lock;
use super::sqlite::replay;
use super::sqlite::sqlite_capabilities;
use super::sqlite::summary_by_id_sql;
use super::sqlite::transition_summary;
use super::sqlite::unfinished_offset;
use super::sqlite::validate_schema_three;
use super::sqlite::write_error;
use super::sqlite::HistoryQuery;
use super::sqlite::RowModel;
use super::sqlite::SchemaPlan;
use super::sqlite::StoredTaskRow;
use super::StoreError;
use super::StoreErrorModel;
use crate::model::request_laws::is_within_limits;
use crate::model::request_laws::law_limits_are_documented;
use crate::model::task_id::uuid_text;
use crate::model::task_record::LifeModel;
use crate::model::task_record::StateModel;
use crate::model::task_request::limits_error;
use crate::model::task_request::InfoModel;
use crate::model::AcceptOutcome;
use crate::model::OwnerEpoch;
use crate::model::StoreCapabilities;
use crate::model::StoredTask;
use crate::model::StoredTaskPage;
use crate::model::TaskId;
use crate::model::TaskQuery;
use crate::model::TaskRecord;
use crate::model::TaskRequest;
use crate::model::TaskRequestInfo;
use crate::model::TaskStateCounts;
use crate::model::TaskSummary;
use crate::model::TaskSummaryPage;
use crate::model::TransitionCommand;
use crate::text::decimal_text;
use crate::text::signed_text;
use crate::text::texts;

verus! {

/// The name of a state's category.
pub open spec fn state_name(state: StateModel) -> Seq<char> {
    match state {
        StateModel::Queued => "Queued"@,
        StateModel::Running => "Running"@,
        StateModel::Blocked { .. } => "Blocked"@,
        StateModel::Succeeded => "Succeeded"@,
        StateModel::Failed { .. } => "Failed"@,
        StateModel::Panicked { .. } => "Panicked"@,
        StateModel::Cancelled => "Cancelled"@,
    }
}

/// Whether the columns of a row say what its task says: the identifier, the state,
/// the time of acceptance and both keys.
pub open spec fn is_row_of(row: RowModel, info: InfoModel, life: LifeModel) -> bool {
    &&& row.id == uuid_text(life.id.0)
    &&& row.state_kind == state_name(life.state)
    &&& row.accepted_at as int == life.accepted_at_ms as int
    &&& row.correlation_key == info.correlation_key
    &&& row.idempotency_key == info.idempotency_key
}

/// A row is written with what its task says, in format 3, unless the time of
/// acceptance is beyond what the database counts.
pub proof fn law_rows_are_written_from_their_task(
    record: TaskRecord,
    result: Result<StoredTaskRow, StoreError>,
)
    requires
        call_ensures(encode_row, (&record,), result),
    ensures
        result is Ok <==> record@.life.accepted_at_ms <= 0x7fff_ffff_ffff_ffff,
        result matches Ok(row) ==> is_row_of(row@, record@.request.info, record@.life)
            && row.format_version == 3,
        result matches Err(error) ==> error@ == StoreErrorModel::Failure(
            "out of range integral type conversion attempted"@,
        ),
{
}

/// A row is read exactly when it is of format 3 and its columns say what its
/// stored values say; the task then has these values and this payload.
pub proof fn law_rows_are_read_where_they_agree(
    row: StoredTaskRow,
    info: TaskRequestInfo,
    payload: Vec<u8>,
    life: StoredLifecycle,
    result: Result<TaskRecord, StoreError>,
)
    requires
        call_ensures(decode_stored_task_row, (&row, info, payload, life), result),
    ensures
        result is Ok <==> row.format_version == 3 && is_row_of(row@, info@, life@),
        result matches Ok(record) ==> {
            &&& record@.request.info == info@
            &&& record@.request.payload == payload@
            &&& record@.life == life@
        },
        result matches Err(error) ==> error@ is Failure,
        row.format_version != 3 ==> result->Err_0@ == StoreErrorModel::Failure(
            "unsupported SQLite task record format version "@ + signed_text(
                row.format_version as int,
            ) + "; supported version is 3"@,
        ),
        row.format_version == 3 && life@.accepted_at_ms <= 0x7fff_ffff_ffff_ffff ==> (
        result matches Err(error) ==> error@ == StoreErrorModel::Failure(
            "SQLite task row `"@ + row@.id + "` disagrees with its stored JSON"@,
        )),
{
}

/// A summary is read from a row exactly when the task would be.
pub proof fn law_summaries_are_read_where_rows_agree(
    row: StoredTaskRow,
    info: TaskRequestInfo,
    life: StoredLifecycle,
    result: Result<TaskSummary, StoreError>,
)
    requires
        call_ensures(decode_stored_summary_row, (&row, info, life), result),
    ensures
        result is Ok <==> row.format_version == 3 && is_row_of(row@, info@, life@),
        result matches Ok(summary) ==> summary@.request == info@ && summary@.life == life@,
{
}

/// Format 3 is the only one that is read; others are named.
pub proof fn law_only_the_current_format_is_read(
    version: i64,
    current: Result<(), StoreError>,
    legacy: Result<(), StoreError>,
    second: Result<(), StoreError>,
)
    requires
        call_ensures(check_format, (version,), current),
        call_ensures(check_legacy_format, (version,), legacy),
        call_ensures(check_schema_two_format, (version,), second),
    ensures
        current is Ok <==> version == 3,
        legacy is Ok <==> version == 1,
        second is Ok <==> version == 2,
        current matches Err(error) ==> error@ == StoreErrorModel::Failure(
            "unsupported SQLite task record format version "@ + signed_text(version as int)
                + "; supported version is 3"@,
        ),
        legacy matches Err(error) ==> error@ == StoreErrorModel::Failure(
            "unsupported legacy SQLite task record format version "@ + signed_text(version as int),
        ),
        second matches Err(error) ==> error@ == StoreErrorModel::Failure(
            "unsupported SQLite schema 2 record format "@ + signed_text(version as int),
        ),
{
}

/// A row of an older schema is moved exactly when its columns say what its stored
/// values say, and a moved task has these values.
pub proof fn law_older_rows_are_moved_where_they_agree(
    row: StoredTaskRow,
    record: TaskRecord,
    legacy: Result<(), StoreError>,
    request: TaskRequest,
    life: StoredLifecycle,
    second: Result<TaskRecord, StoreError>,
)
    requires
        call_ensures(check_legacy_row, (&row, &record), legacy),
        call_ensures(check_schema_two_row, (&row, request, life), second),
    ensures
        legacy is Ok <==> is_row_of(row@, record@.request.info, record@.life),
        second is Ok <==> is_row_of(row@, request@.info, life@),
        second matches Ok(moved) ==> moved@.request == request@ && moved@.life == life@,
        record@.life.accepted_at_ms <= 0x7fff_ffff_ffff_ffff ==> (legacy matches Err(error)
            ==> error@ == StoreErrorModel::Failure(
            "legacy SQLite task row `"@ + row@.id + "` disagrees with its record_json"@,
        )),
        row@.correlation_key != request@.info.correlation_key || row@.idempotency_key
            != request@.info.idempotency_key ==> (second matches Err(error) && error@
            == StoreErrorModel::Failure(
            "SQLite schema 2 task row `"@ + row@.id + "` disagrees with request_json"@,
        )),
{
}

/// A submission is decided by the limits, then by the task that holds its key, then
/// by the task that holds its identifier; what passes is accepted as a queued task
/// that was not attempted yet.
pub proof fn law_submissions_are_decided_in_order(
    id: TaskId,
    request: TaskRequest,
    now: u64,
    existing: Option<TaskRecord>,
    id_stored: bool,
    result: Result<AcceptOutcome, StoreError>,
)
    requires
        call_ensures(decide_accept, (id, request, now, existing, id_stored), result),
    ensures
        (result matches Ok(AcceptOutcome::Accepted(_))) <==> is_within_limits(request@)
            && existing is None && !id_stored,
        (result matches Ok(AcceptOutcome::Existing(_))) <==> is_within_limits(request@) && (
        existing matches Some(held) && held@.request == request@),
        result matches Ok(AcceptOutcome::Existing(record)) ==> record@ == existing->0@,
        result matches Ok(AcceptOutcome::Accepted(record)) ==> {
            &&& record@.request == request@
            &&& record@.life.id == id
            &&& record@.life.accepted_at_ms == now
            &&& record@.life.state is Queued
            &&& record@.life.state_version == 0
            &&& record@.life.attempt == 0
            &&& record@.life.retry_not_before_ms is None
            &&& record@.life.started_at_ms is None
            &&& record@.life.finished_at_ms is None
            &&& record@.life.output is None
            &&& !record@.life.cancel_requested
            &&& record@.life.assigned_resources.len() == 0
        },
        result matches Err(error) ==> {
            &&& error@ is InvalidRequest <==> !is_within_limits(request@)
            &&& error@ is IdempotencyConflict <==> is_within_limits(request@) && existing is Some
            &&& error@ is DuplicateTask <==> is_within_limits(request@) && existing is None
            &&& error@ is InvalidRequest ==> limits_error(request@) == Some(
                error@->InvalidRequest_0,
            )
        },
{
    law_limits_are_documented(request@);
}

/// A key that is stored answers the request that it was stored with, and is a
/// conflict for any other.
pub proof fn law_stored_keys_answer_their_request(
    existing: TaskRecord,
    request: TaskRequest,
    result: Result<AcceptOutcome, StoreError>,
)
    requires
        call_ensures(replay, (existing, &request), result),
    ensures
        result is Ok <==> existing@.request == request@,
        result matches Ok(answer) ==> (answer matches AcceptOutcome::Existing(record) && record@
            == existing@),
        result matches Err(error) ==> error@ is IdempotencyConflict,
{
}

/// Texts joined by commas.
pub open spec fn joined(parts: Seq<Seq<char>>) -> Seq<char> {
    parts.fold_left(
        Seq::<char>::empty(),
        |text: Seq<char>, part: Seq<char>|
            if text.len() == 0 {
                part
            } else {
                text + ","@ + part
            },
    )
}

/// The places of `count` parameters, numbered from 4 on.
pub open spec fn places(count: nat) -> Seq<Seq<char>> {
    Seq::new(count, |i: int| "?"@ + decimal_text((4 + i) as nat))
}

proof fn lemma_places(count: nat)
    ensures
        placeholders(4, count) == joined(places(count)),
        count > 0 ==> placeholders(4, count).len() > 0,
    decreases count,
{
    reveal_with_fuel(Seq::fold_left, 2);
    reveal_strlit("?");
    reveal_strlit(",");
    reveal_strlit(",?");
    if count > 0 {
        let fewer = (count - 1) as nat;
        lemma_places(fewer);
        assert(places(count).drop_last() =~= places(fewer));
        let last = "?"@ + decimal_text((4 + fewer) as nat);
        assert(places(count).last() == last);
        if fewer > 0 {
            assert(placeholders(4, count) =~= placeholders(4, fewer) + ","@ + last);
        } else {
            assert(places(0) =~= Seq::empty());
            assert(joined(places(0)) =~= Seq::empty());
        }
    }
}

/// A history query is planned exactly when its limit is at most 256 and its
/// position is a time that the database counts. The statement selects the indexed
/// columns and both documents of the rows behind the position, with the key and of
/// the states asked for, oldest first; one row more than a page is fetched, and the
/// parameters are those of the query.
pub proof fn law_history_queries_are_planned(
    query: TaskQuery,
    result: Result<HistoryQuery, StoreError>,
)
    requires
        call_ensures(plan_history, (&query,), result),
    ensures
        result is Ok <==> query.limit <= 256 && (query.after matches Some(place)
            ==> place.accepted_at_ms <= 0x7fff_ffff_ffff_ffff),
        query.limit > 256 ==> result->Err_0@ == StoreErrorModel::InvalidRequest(
            "task history page limit is too large"@,
        ),
        query.limit <= 256 && result is Err ==> result->Err_0@ == StoreErrorModel::InvalidRequest(
            "task history cursor timestamp is too large"@,
        ),
        result matches Ok(plan) ==> {
            &&& plan.page_size == vstd::math::max(query.limit as int, 1)
            &&& plan.fetch_limit == plan.page_size + 1
            &&& plan.after_time is Some <==> query.after is Some
            &&& plan.after_id is Some <==> query.after is Some
            &&& query.after matches Some(place) ==> plan.after_time->0 as int
                == place.accepted_at_ms as int && plan.after_id->0@ == uuid_text(place.id.0)
            &&& plan.correlation_key is Some <==> query.correlation_key is Some
            &&& query.correlation_key matches Some(key) ==> plan.correlation_key->0@ == key@
            &&& plan.state_kinds@.len() == query.states@.len()
        },
        result matches Ok(plan) ==> plan.sql@ == "SELECT "@
            + "id,state_kind,accepted_at,correlation_key,idempotency_key,record_format_version,request_info_json,lifecycle_json"@
            + " FROM tasks WHERE (?1 IS NULL OR accepted_at > ?1 OR (accepted_at = ?1 AND id > ?2)) AND (?3 IS NULL OR correlation_key = ?3)"@
            + (if query.states@.len() == 0 {
            Seq::<char>::empty()
        } else {
            " AND state_kind IN ("@ + joined(places(query.states@.len())) + ")"@
        }) + " ORDER BY accepted_at, id LIMIT ?"@ + decimal_text(4 + query.states@.len()),
{
    lemma_places(query.states@.len());
}

/// The states of a planned query go by their names.
pub proof fn law_planned_states_are_named(
    query: TaskQuery,
    plan: HistoryQuery,
    i: int,
    state: StateModel,
)
    requires
        call_ensures(plan_history, (&query,), Ok(plan)),
        0 <= i < query.states@.len(),
        state.kind() == query.states@[i],
    ensures
        plan.state_kinds@[i]@ == state_name(state),
{
    assert(plan.state_kinds@[i]@ == crate::model::task_record::kind_key(query@.states[i]));
}

/// Summaries by identifier are read with the same columns as history.
pub proof fn law_summaries_are_read_with_the_indexed_columns(sql: String)
    requires
        call_ensures(summary_by_id_sql, (), sql),
    ensures
        sql@ == "SELECT "@
            + "id,state_kind,accepted_at,correlation_key,idempotency_key,record_format_version,request_info_json,lifecycle_json"@
            + " FROM tasks WHERE id=?1"@,
{
}

/// A history page keeps what was fetched, from the front, up to its size; it names
/// the position of its last record exactly when more was fetched.
pub proof fn law_history_pages_keep_the_front(
    fetched: Vec<TaskSummary>,
    size: usize,
    page: TaskSummaryPage,
)
    requires
        size > 0,
        call_ensures(finish_history_page, (fetched, size), page),
    ensures
        page.records@.is_prefix_of(fetched@),
        page.records@.len() == vstd::math::min(fetched@.len() as int, size as int),
        page.next is Some <==> fetched@.len() > size,
        page.next matches Some(place) ==> place.accepted_at_ms
            == page.records@.last().accepted_at_ms && place.id == page.records@.last().id,
{
    if fetched@.len() <= size {
        assert(fetched@ =~= fetched@.take(fetched@.len() as int));
    }
}

/// A recovery page keeps up to 256 of the tasks fetched, from the front; it names
/// its last task exactly when more was fetched.
pub proof fn law_recovery_pages_keep_the_front(fetched: Vec<StoredTask>, page: StoredTaskPage)
    requires
        call_ensures(finish_scan_page, (fetched,), page),
    ensures
        page.tasks@.is_prefix_of(fetched@),
        page.tasks@.len() == vstd::math::min(fetched@.len() as int, 256),
        page.next is Some <==> fetched@.len() > 256,
        page.next matches Some(id) ==> id == page.tasks@.last().record.id,
{
    if fetched@.len() <= 256 {
        assert(fetched@ =~= fetched@.take(fetched@.len() as int));
    }
}

/// Bounds are handed to the database unchanged, exactly when it counts that far.
pub proof fn law_bounds_fit_the_database(
    accepted_before_ms: u64,
    max_rows: usize,
    bounds: Result<(i64, i64), StoreError>,
    limit: usize,
    offset: Option<i64>,
)
    requires
        call_ensures(prune_bounds, (accepted_before_ms, max_rows), bounds),
        call_ensures(unfinished_offset, (limit,), offset),
    ensures
        bounds is Ok <==> accepted_before_ms <= 0x7fff_ffff_ffff_ffff && max_rows
            <= 0x7fff_ffff_ffff_ffff,
        bounds matches Ok((time, rows)) ==> time as int == accepted_before_ms as int && rows as int
            == max_rows as int,
        accepted_before_ms > 0x7fff_ffff_ffff_ffff ==> bounds->Err_0@
            == StoreErrorModel::InvalidRequest(
            "task history cutoff exceeds the SQLite integer range"@,
        ),
        accepted_before_ms <= 0x7fff_ffff_ffff_ffff && bounds is Err ==> bounds->Err_0@
            == StoreErrorModel::InvalidRequest(
            "task history prune limit exceeds the SQLite integer range"@,
        ),
        offset is Some <==> limit <= 0x7fff_ffff_ffff_ffff,
        offset matches Some(value) ==> value as int == limit as int,
{
}

/// A row of counts is taken exactly when its state is known, its count is a size
/// and the finished tasks remain one. It sets the count of its state, adds to the
/// finished tasks where its state is a finished one, and moves nothing else.
pub proof fn law_counts_go_to_their_state(
    before: TaskStateCounts,
    state: StateModel,
    count: i64,
)
    ensures
        ({
            let result = counted(before, state_name(state), count);
            let over = crate::model::record_laws::is_over(state);
            &&& count < 0 ==> result is Err
            &&& 0 <= count <= usize::MAX && !over ==> result is Ok
            &&& 0 <= count <= usize::MAX && over ==> (result is Ok <==> before.terminal + count
                <= usize::MAX)
            &&& result matches Ok(after) ==> {
                &&& after.queued as int == (if state is Queued {
                    count as int
                } else {
                    before.queued as int
                })
                &&& after.running as int == (if state is Running {
                    count as int
                } else {
                    before.running as int
                })
                &&& after.blocked as int == (if state is Blocked {
                    count as int
                } else {
                    before.blocked as int
                })
                &&& after.terminal == before.terminal + (if over {
                    count as int
                } else {
                    0
                })
            }
        }),
{
    reveal_strlit("Queued");
    reveal_strlit("Running");
    reveal_strlit("Blocked");
    reveal_strlit("Succeeded");
    reveal_strlit("Failed");
    reveal_strlit("Panicked");
    reveal_strlit("Cancelled");
    let names = ("Queued"@, "Running"@, "Blocked"@);
    assert(names.0[0] == 'Q' && names.1[0] == 'R' && names.2[0] == 'B');
    assert("Succeeded"@[0] == 'S' && "Failed"@[0] == 'F' && "Panicked"@[0] == 'P'
        && "Cancelled"@[0] == 'C');
}

/// A row of counts for a state that is not known is refused by name, if its count
/// is a size at all.
pub proof fn law_unknown_states_are_not_counted(
    before: TaskStateCounts,
    kind: Seq<char>,
    count: i64,
)
    requires
        forall|state: StateModel| kind != #[trigger] state_name(state),
    ensures
        0 <= count <= usize::MAX ==> counted(before, kind, count) == Err::<TaskStateCounts, _>(
            StoreErrorModel::Failure("unknown task state kind: "@ + kind),
        ),
        !(0 <= count <= usize::MAX) ==> counted(before, kind, count) == Err::<TaskStateCounts, _>(
            StoreErrorModel::Failure("out of range integral type conversion attempted"@),
        ),
{
    assert(kind != state_name(StateModel::Queued));
    assert(kind != state_name(StateModel::Running));
    assert(kind != state_name(StateModel::Blocked { reason: Seq::empty() }));
    assert(kind != state_name(StateModel::Succeeded));
    assert(kind != state_name(
        StateModel::Failed { category: Seq::empty(), message: Seq::empty() },
    ));
    assert(kind != state_name(StateModel::Panicked { message: Seq::empty() }));
    assert(kind != state_name(StateModel::Cancelled));
}

/// The owner of a generation, and nobody else, gives the lock up, once; writes are
/// allowed exactly while the lock is held.
pub proof fn law_locks_are_given_up_by_their_owner<L>(
    lock: Option<L>,
    owner: Option<OwnerEpoch>,
    epoch: OwnerEpoch,
)
    ensures
        release_lock(lock, owner, epoch).0 is Ok <==> lock is Some && owner == Some(epoch),
        owner == Some(epoch) ==> release_lock(lock, owner, epoch).1 is None,
        owner != Some(epoch) ==> release_lock(lock, owner, epoch).1 == lock,
        release_lock(lock, owner, epoch).0 matches Ok(held) ==> lock == Some(held),
        owner != Some(epoch) ==> release_lock(lock, owner, epoch).0 == Err::<L, _>(
            StoreErrorModel::Failure("SQLite owner epoch does not match the active owner"@),
        ),
        owner == Some(epoch) && lock is None ==> release_lock(lock, owner, epoch).0 == Err::<L, _>(
            StoreErrorModel::Failure("SQLite task store has no active owner"@),
        ),
        write_error(lock) is None <==> lock is Some,
        lock is None ==> write_error(lock) == Some(
            StoreErrorModel::Failure("SQLite task store has no active owner"@),
        ),
{
}

/// Databases of version 0 to 3 are opened: one of version 3 has its table checked
/// and must have it; an older one without a table gets one; versions 0 and 1 move
/// through version 2, and version 2 moves to version 3. Others are refused.
pub proof fn law_databases_are_opened_by_version(
    version: i64,
    table_exists: bool,
    result: Result<SchemaPlan, StoreError>,
)
    requires
        call_ensures(plan_schema, (version, table_exists), result),
    ensures
        result is Ok <==> 0 <= version <= 2 || (version == 3 && table_exists),
        (result matches Ok(plan) && plan is Validate) <==> version == 3 && table_exists,
        (result matches Ok(plan) && plan is Create) <==> 0 <= version <= 2 && !table_exists,
        (result matches Ok(plan) && plan is MigrateLegacy) <==> 0 <= version <= 1 && table_exists,
        (result matches Ok(plan) && plan is MigrateSchemaTwo) <==> version == 2 && table_exists,
        version == 3 && !table_exists ==> result->Err_0@ == StoreErrorModel::Failure(
            "SQLite task schema is missing table `tasks`"@,
        ),
        !(0 <= version <= 3) ==> result->Err_0@ == StoreErrorModel::Failure(
            "unsupported SQLite task schema version "@ + signed_text(version as int)
                + "; supported version is 3"@,
        ),
{
}

/// A table passes exactly when it has every required column, and otherwise the
/// first missing one is named.
pub proof fn law_missing_columns_are_named(columns: Seq<Seq<char>>, required: Seq<Seq<char>>)
    ensures
        missing_column(columns, required) is None <==> forall|i: int|
            0 <= i < required.len() ==> columns.contains(#[trigger] required[i]),
        missing_column(columns, required) is Some ==> exists|i: int| #[trigger]
            is_first_missing(columns, required, i) && missing_column(columns, required) == Some(
                StoreErrorModel::Failure(
                    "SQLite task schema is missing required column `"@ + required[i] + "`"@,
                ),
            ),
    decreases required.len(),
{
    if required.len() > 0 {
        let rest = required.drop_first();
        law_missing_columns_are_named(columns, rest);
        if columns.contains(required[0]) {
            assert forall|i: int| 0 <= i < rest.len() implies #[trigger] rest[i] == required[i
                + 1] by {}
            if missing_column(columns, rest) is None {
                assert forall|i: int| 0 <= i < required.len() implies columns.contains(
                    #[trigger] required[i],
                ) by {
                    if i > 0 {
                        assert(columns.contains(rest[i - 1]));
                    }
                }
            } else {
                let i = choose|i: int| #[trigger]
                    is_first_missing(columns, rest, i) && missing_column(columns, rest) == Some(
                        StoreErrorModel::Failure(
                            "SQLite task schema is missing required column `"@ + rest[i] + "`"@,
                        ),
                    );
                assert(required[i + 1] == rest[i]);
                assert forall|k: int| 0 <= k < i + 1 implies columns.contains(
                    #[trigger] required[k],
                ) by {
                    if k > 0 {
                        assert(columns.contains(rest[k - 1]));
                    }
                }
                assert(is_first_missing(columns, required, i + 1));
            }
        } else {
            assert(is_first_missing(columns, required, 0));
        }
    }
}

/// Whether position `i` of `required` is the first that `columns` lack.
pub open spec fn is_first_missing(
    columns: Seq<Seq<char>>,
    required: Seq<Seq<char>>,
    i: int,
) -> bool {
    &&& 0 <= i < required.len()
    &&& !columns.contains(required[i])
    &&& forall|k: int| 0 <= k < i ==> columns.contains(#[trigger] required[k])
}

/// The current table needs its nine columns.
pub proof fn law_current_tables_have_their_columns(
    columns: Vec<String>,
    result: Result<(), StoreError>,
)
    requires
        call_ensures(validate_schema_three, (&columns,), result),
    ensures
        ({
            let has = texts(columns@);
            result is Ok <==> has.contains("id"@) && has.contains("state_kind"@) && has.contains(
                "accepted_at"@,
            ) && has.contains("correlation_key"@) && has.contains("idempotency_key"@)
                && has.contains("request_info_json"@) && has.contains("payload"@) && has.contains(
                "record_format_version"@,
            ) && has.contains("lifecycle_json"@)
        }),
{
    let has = texts(columns@);
    let required = current_columns();
    law_missing_columns_are_named(has, required);
    assert(required[0] == "id"@ && required[1] == "state_kind"@ && required[2] == "accepted_at"@
        && required[3] == "correlation_key"@ && required[4] == "idempotency_key"@ && required[5]
        == "request_info_json"@ && required[6] == "payload"@ && required[7]
        == "record_format_version"@ && required[8] == "lifecycle_json"@);
}

/// A table of version 0 or 1 is moved exactly when it has its seven columns, the
/// format column too in version 1, and no move was begun before; the answer tells
/// whether its rows carry their format.
pub proof fn law_legacy_tables_are_moved(
    columns: Vec<String>,
    version: i64,
    migration_table_exists: bool,
    result: Result<bool, StoreError>,
)
    requires
        call_ensures(check_legacy_schema, (&columns, version, migration_table_exists), result),
    ensures
        ({
            let has = texts(columns@);
            let format = has.contains("record_format_version"@);
            &&& result is Ok <==> has.contains("id"@) && has.contains("state_kind"@)
                && has.contains("accepted_at"@) && has.contains("correlation_key"@)
                && has.contains("idempotency_key"@) && has.contains("request_json"@)
                && has.contains("record_json"@) && (version == 1 ==> format)
                && !migration_table_exists
            &&& result matches Ok(told) ==> told == format
        }),
{
    let has = texts(columns@);
    let required = legacy_columns();
    law_missing_columns_are_named(has, required);
    assert(required[0] == "id"@ && required[1] == "state_kind"@ && required[2] == "accepted_at"@
        && required[3] == "correlation_key"@ && required[4] == "idempotency_key"@ && required[5]
        == "request_json"@ && required[6] == "record_json"@);
}

/// A table of version 2 that already has the split columns stays; one that has the
/// joined column is moved; one that has neither is refused.
pub proof fn law_second_tables_are_moved(columns: Vec<String>, result: Result<bool, StoreError>)
    requires
        call_ensures(check_schema_two, (&columns,), result),
    ensures
        ({
            let has = texts(columns@);
            let split = has.contains("request_info_json"@) && has.contains("payload"@);
            let whole = has.contains("request_json"@);
            &&& (result matches Ok(pending) && !pending) <==> split
            &&& (result matches Ok(pending) && pending) <==> !split && whole
            &&& result matches Err(error) ==> error@ == StoreErrorModel::Failure(
                "SQLite schema 2 is missing `request_json`"@,
            )
        }),
{
}

/// A SQLite store keeps its history and recovers after a restart.
pub proof fn law_databases_survive_restarts(capabilities: StoreCapabilities)
    requires
        call_ensures(sqlite_capabilities, (), capabilities),
    ensures
        capabilities.persistent_history && capabilities.restart_recovery,
{
}

/// A time beyond what the database counts is told as such, in a current row and in
/// one of schema 2 once identifier and state agree, and in a legacy row at once;
/// otherwise the row is named that disagrees.
pub proof fn law_disagreements_are_told(
    row: StoredTaskRow,
    info: TaskRequestInfo,
    payload: Vec<u8>,
    life: StoredLifecycle,
    current: StoreError,
    request: TaskRequest,
    second: StoreError,
    record: TaskRecord,
    legacy: StoreError,
)
    requires
        call_ensures(decode_stored_task_row, (&row, info, payload, life), Err(current)),
        call_ensures(check_schema_two_row, (&row, request, life), Err(second)),
        call_ensures(check_legacy_row, (&row, &record), Err(legacy)),
    ensures
        ({
            let out_of_range = StoreErrorModel::Failure(
                "out of range integral type conversion attempted"@,
            );
            let late = life@.accepted_at_ms > 0x7fff_ffff_ffff_ffff;
            let named = row@.id == uuid_text(life@.id.0) && row@.state_kind == state_name(
                life@.state,
            );
            let keyed = row@.correlation_key == request@.info.correlation_key
                && row@.idempotency_key == request@.info.idempotency_key;
            &&& row.format_version == 3 ==> current@ == if late && named {
                out_of_range
            } else {
                StoreErrorModel::Failure(
                    "SQLite task row `"@ + row@.id + "` disagrees with its stored JSON"@,
                )
            }
            &&& keyed ==> second@ == if late && named {
                out_of_range
            } else {
                StoreErrorModel::Failure(
                    "SQLite schema 2 task row `"@ + row@.id + "` disagrees with lifecycle_json"@,
                )
            }
            &&& record@.life.accepted_at_ms > 0x7fff_ffff_ffff_ffff ==> legacy@ == out_of_range
        }),
{
}

/// What a table lacks is told in order: its columns, then the format column of
/// version 1, then that a move was begun before.
pub proof fn law_unmovable_tables_are_told_why(
    columns: Vec<String>,
    version: i64,
    migration_table_exists: bool,
    error: StoreError,
)
    requires
        call_ensures(check_legacy_schema, (&columns, version, migration_table_exists), Err(error)),
        missing_column(texts(columns@), legacy_columns()) is None,
    ensures
        version == 1 && !texts(columns@).contains("record_format_version"@) ==> error@
            == StoreErrorModel::Failure("SQLite schema 1 is missing `record_format_version`"@),
        !(version == 1 && !texts(columns@).contains("record_format_version"@)) ==> error@
            == StoreErrorModel::Failure("SQLite schema migration table `tasks_v2` already exists"@),
{
}

/// A stored summary moves on and is abandoned as its lifecycle is, and keeps its
/// request.
pub proof fn law_stored_summaries_keep_their_request(
    summary: TaskSummary,
    command: TransitionCommand,
    now: u64,
    checked: Result<(), StoreError>,
    life: StoredLifecycle,
    moved: Result<TaskSummary, StoreError>,
    expected_version: u64,
    given_up: Result<TaskSummary, StoreError>,
)
    requires
        expected_version < u64::MAX,
        call_ensures(StoredLifecycle::from_summary, (&summary,), life),
        call_ensures(StoredLifecycle::check_revision, (&life, &command), checked),
        call_ensures(transition_summary, (summary, command, now), moved),
        call_ensures(abandon_summary, (summary, expected_version, now), given_up),
    ensures
        moved is Ok <==> checked is Ok,
        checked matches Err(error) ==> moved->Err_0@ == error@,
        moved matches Ok(next) ==> {
            &&& next@.request == summary@.request
            &&& next@.life.id == summary@.life.id
            &&& next@.life.state == command@.state
            &&& next@.life.output == command@.output
            &&& next@.life.retry_not_before_ms == command@.retry_not_before_ms
            &&& next@.life.accepted_at_ms == summary@.life.accepted_at_ms
        },
        given_up is Ok <==> summary@.life.state is Blocked && summary@.life.state_version
            == expected_version,
        given_up matches Ok(next) ==> {
            &&& next@.request == summary@.request
            &&& next@.life.id == summary@.life.id
            &&& next@.life.state is Cancelled
            &&& next@.life.state_version == expected_version + 1
            &&& next@.life.finished_at_ms == Some(now)
        },
{
}

} // verus!
