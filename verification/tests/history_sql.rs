use qubit_task::model::task_record::initial_record;
use qubit_task::model::TaskCursor;
use qubit_task::model::TaskId;
use qubit_task::model::TaskQuery;
use qubit_task::model::TaskRecord;
use qubit_task::model::TaskRequest;
use qubit_task::model::TaskRequestInfo;
use qubit_task::model::TaskState;
use qubit_task::model::TaskStateCounts;
use qubit_task::model::TaskStateKind;
use qubit_task::model::TaskSummaryPage;
use qubit_task::store::lifecycle::StoredLifecycle;
use qubit_task::store::sqlite::count_kind;
use qubit_task::store::sqlite::decode_stored_summary_row;
use qubit_task::store::sqlite::encode_row;
use qubit_task::store::sqlite::finish_history_page;
use qubit_task::store::sqlite::plan_history;
use qubit_task::store::sqlite::prune_bounds;
use qubit_task::store::sqlite::summary_by_id_sql;
use qubit_task::store::sqlite::unfinished_offset;
use qubit_task::store::sqlite::validate_schema_three;
use qubit_task::store::sqlite::StoredTaskRow;
use qubit_task::store::statements;
use rusqlite::params_from_iter;
use rusqlite::types::Value;
use rusqlite::Connection;
use rusqlite::Row;

/// A table of records whose JSON columns are left empty.
fn table(records: &[TaskRecord]) -> Connection {
    let connection = Connection::open_in_memory().expect("database opens");
    connection.execute_batch(statements::CREATE_TASKS).expect("table is created");
    connection.execute_batch(statements::CREATE_INDEXES).expect("indexes are created");
    for record in records {
        let row = encode_row(record).expect("time fits");
        let text = |value: Option<String>| value.map_or(Value::Null, Value::Text);
        let values = vec![
            Value::Text(row.id),
            Value::Text(row.state_kind),
            Value::Integer(row.accepted_at),
            text(row.correlation_key),
            text(row.idempotency_key),
            Value::Integer(row.format_version),
            Value::Text(String::new()),
            Value::Text(String::new()),
            Value::Blob(record.request.payload.clone()),
        ];
        connection
            .execute(statements::INSERT_TASK, params_from_iter(values))
            .expect("row is inserted");
    }
    connection
}

fn read(row: &Row<'_>) -> StoredTaskRow {
    StoredTaskRow {
        id: row.get(0).expect("id"),
        state_kind: row.get(1).expect("state"),
        accepted_at: row.get(2).expect("time"),
        correlation_key: row.get(3).expect("correlation"),
        idempotency_key: row.get(4).expect("idempotency"),
        format_version: row.get(5).expect("format"),
    }
}

/// Runs a history query and reads each row beside the record it stands for.
fn list(connection: &Connection, records: &[TaskRecord], query: &TaskQuery) -> TaskSummaryPage {
    let plan = plan_history(query).expect("valid query");
    let mut values = vec![
        plan.after_time.map_or(Value::Null, Value::Integer),
        plan.after_id.map_or(Value::Null, Value::Text),
        plan.correlation_key.map_or(Value::Null, Value::Text),
    ];
    values.extend(plan.state_kinds.iter().map(|kind| Value::Text(kind.to_string())));
    values.push(Value::Integer(plan.fetch_limit));
    let mut statement = connection.prepare(&plan.sql).expect("valid SQL");
    let mut rows = statement.query(params_from_iter(values)).expect("query runs");
    let mut found = Vec::new();
    while let Some(row) = rows.next().expect("next row") {
        let row = read(row);
        let record = records.iter().find(|record| record.id.text() == row.id).expect("known");
        let info = TaskRequestInfo::of(&record.request);
        let life = StoredLifecycle::from_record(record);
        found.push(decode_stored_summary_row(&row, info, life).expect("consistent"));
    }
    finish_history_page(found, plan.page_size)
}

#[test]
fn sqlite_same_millisecond_pages_use_task_id_as_tie_breaker() {
    let first_id = TaskId::generate();
    let second_id = TaskId::generate();
    let records: Vec<TaskRecord> = [first_id, second_id]
        .into_iter()
        .map(|id| initial_record(id, TaskRequest::new("cursor-test", "1", Vec::new()), 42))
        .collect();
    let connection = table(&records);
    let first = list(&connection, &records, &TaskQuery { limit: 1, ..TaskQuery::default() });
    assert_eq!(first.records.len(), 1);
    assert_eq!(first.records[0].id, first_id.min(second_id));
    let second = list(
        &connection,
        &records,
        &TaskQuery { after: first.next, limit: 1, ..TaskQuery::default() },
    );
    assert_eq!(second.records[0].id, first_id.max(second_id));
    assert!(second.next.is_none());
}

#[test]
fn filters_select_the_same_records_as_the_query() {
    let mut records = Vec::new();
    for id in 1..=30u128 {
        let mut request = TaskRequest::new("t", "1", Vec::new());
        if id % 3 == 0 {
            request.correlation_key = Some("three".to_owned());
        }
        let mut record = initial_record(TaskId(id << 64), request, 1_000 - (id as u64 / 4));
        if id % 2 == 0 {
            record.state = TaskState::Cancelled;
        } else if id % 5 == 0 {
            record.state = TaskState::Blocked { reason: "r".to_owned() };
        }
        records.push(record);
    }
    let connection = table(&records);
    let queries = vec![
        TaskQuery { limit: 256, ..TaskQuery::default() },
        TaskQuery { limit: 256, correlation_key: Some("three".to_owned()), ..TaskQuery::default() },
        TaskQuery { limit: 256, states: vec![TaskStateKind::Cancelled], ..TaskQuery::default() },
        TaskQuery {
            limit: 256,
            states: vec![TaskStateKind::Blocked, TaskStateKind::Queued],
            after: Some(TaskCursor::new(997, TaskId(13 << 64))),
            correlation_key: Some("three".to_owned()),
        },
        TaskQuery { limit: 256, correlation_key: Some("none".to_owned()), ..TaskQuery::default() },
    ];
    for query in queries {
        let page = list(&connection, &records, &query);
        let mut expected: Vec<(u64, TaskId)> = records
            .iter()
            .filter(|record| query.selects(record))
            .map(|record| (record.accepted_at_ms, record.id))
            .collect();
        expected.sort();
        let found: Vec<(u64, TaskId)> =
            page.records.iter().map(|summary| (summary.accepted_at_ms, summary.id)).collect();
        assert_eq!(found, expected);
        assert!(page.next.is_none());
    }
}

#[test]
fn small_pages_reach_every_row_once() {
    let records: Vec<TaskRecord> = (1..=11u128)
        .map(|id| initial_record(TaskId(id * 7_919 % 101), TaskRequest::new("t", "1", Vec::new()), id as u64 / 3))
        .collect();
    let connection = table(&records);
    let mut seen = Vec::new();
    let mut after = None;
    loop {
        let page = list(&connection, &records, &TaskQuery { limit: 4, after, ..TaskQuery::default() });
        seen.extend(page.records.iter().map(|summary| (summary.accepted_at_ms, summary.id)));
        after = page.next;
        if after.is_none() {
            break;
        }
    }
    let mut expected: Vec<(u64, TaskId)> =
        records.iter().map(|record| (record.accepted_at_ms, record.id)).collect();
    expected.sort();
    assert_eq!(seen, expected);
}

#[test]
fn one_summary_is_found_by_its_id() {
    let records = vec![
        initial_record(TaskId(1), TaskRequest::new("t", "1", Vec::new()), 5),
        initial_record(TaskId(2), TaskRequest::new("t", "1", Vec::new()), 5),
    ];
    let connection = table(&records);
    let row = connection
        .query_row(&summary_by_id_sql(), [TaskId(2).text()], |row| Ok(read(row)))
        .expect("found");
    assert_eq!(row.id, TaskId(2).text());
}

/// Records in all states, of which those with an even number are finished.
fn mixed(count: u128) -> Vec<TaskRecord> {
    (1..=count)
        .map(|id| {
            let mut record = initial_record(
                TaskId(id),
                TaskRequest::new("t", "1", b"data".to_vec()).with_idempotency_key(format!("key{id}")),
                1_000 - id as u64,
            );
            record.state = match id % 4 {
                0 => TaskState::Succeeded,
                1 => TaskState::Queued,
                2 => TaskState::Failed { category: String::new(), message: String::new() },
                _ => TaskState::Running,
            };
            record
        })
        .collect()
}

#[test]
fn statements_find_tasks_with_their_payload() {
    let records = mixed(4);
    let connection = table(&records);
    for (sql, value) in [(statements::TASK_BY_ID, TaskId(3).text()), (statements::TASK_BY_KEY, "key3".to_owned())] {
        let (row, payload) = connection
            .query_row(sql, [value], |row| Ok((read(row), row.get::<_, Vec<u8>>(8)?)))
            .expect("found");
        assert_eq!(row.id, TaskId(3).text());
        assert_eq!(payload, b"data".to_vec());
    }
    let again = connection.execute(
        statements::INSERT_TASK,
        params_from_iter(vec![
            Value::Text(TaskId(9).text()),
            Value::Text("Queued".to_owned()),
            Value::Integer(1),
            Value::Null,
            Value::Text("key3".to_owned()),
            Value::Integer(3),
            Value::Text(String::new()),
            Value::Text(String::new()),
            Value::Blob(Vec::new()),
        ]),
    );
    assert!(again.is_err());
}

#[test]
fn statements_scan_unfinished_tasks_in_id_order() {
    let records = mixed(300);
    let connection = table(&records);
    let scan = |cursor: Option<String>| -> Vec<String> {
        let mut statement = connection.prepare(statements::UNFINISHED_PAGE).expect("valid SQL");
        let rows = statement.query_map([cursor], |row| row.get::<_, String>(0)).expect("query runs");
        rows.collect::<Result<Vec<_>, _>>().expect("rows")
    };
    let expected: Vec<String> = records
        .iter()
        .filter(|record| !record.state.is_terminal())
        .map(|record| record.id.text())
        .collect();
    assert_eq!(scan(None), expected);
    assert_eq!(scan(Some(expected[99].clone())), expected[100..].to_vec());
    for (limit, over) in [(149, true), (150, false), (usize::MAX, false)] {
        let found = match unfinished_offset(limit) {
            Some(offset) => {
                let mut statement = connection.prepare(statements::UNFINISHED_BEYOND).expect("valid SQL");
                statement.exists([offset]).expect("query runs")
            }
            None => false,
        };
        assert_eq!(found, over);
    }
}

#[test]
fn statements_prune_the_oldest_finished_tasks() {
    let records = mixed(20);
    let connection = table(&records);
    let (before, rows) = prune_bounds(995, 3).expect("in range");
    let mut statement = connection.prepare(statements::PRUNABLE).expect("valid SQL");
    let ids: Vec<String> = statement
        .query_map([before, rows], |row| row.get::<_, String>(0))
        .expect("query runs")
        .collect::<Result<Vec<_>, _>>()
        .expect("rows");
    assert_eq!(ids, vec![TaskId(20).text(), TaskId(18).text(), TaskId(16).text()]);
    for id in &ids {
        assert_eq!(connection.execute(statements::DELETE_TASK, [id]).expect("deleted"), 1);
    }
    let mut counts = TaskStateCounts::default();
    let mut statement = connection.prepare(statements::STATE_COUNTS).expect("valid SQL");
    let mut rows = statement.query([]).expect("query runs");
    while let Some(row) = rows.next().expect("next row") {
        let kind: String = row.get(0).expect("kind");
        count_kind(&mut counts, &kind, row.get(1).expect("count")).expect("known kind");
    }
    assert_eq!((counts.queued, counts.running, counts.blocked, counts.terminal), (5, 5, 0, 7));
}

#[test]
fn created_tables_have_the_current_columns() {
    let connection = table(&[]);
    let mut statement = connection.prepare("PRAGMA table_info(tasks)").expect("valid SQL");
    let columns: Vec<String> = statement
        .query_map([], |row| row.get::<_, String>(1))
        .expect("query runs")
        .collect::<Result<Vec<_>, _>>()
        .expect("rows");
    assert!(validate_schema_three(&columns).is_ok());
    for epoch in 1..=3i64 {
        connection.execute(statements::NEXT_OWNER_EPOCH, []).expect("counted");
        let latest: i64 = connection
            .query_row(statements::OWNER_EPOCH, [], |row| row.get(0))
            .expect("found");
        assert_eq!(latest, epoch);
    }
}
