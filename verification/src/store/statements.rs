//! The statements that a SQLite task store runs.
//!
//! Task rows are read with the six indexed columns first, then the two JSON
//! documents, then the payload where it is needed.

use vstd::prelude::*;

verus! {

/// One task by its identifier.
pub const TASK_BY_ID: &'static str =
    "SELECT id,state_kind,accepted_at,correlation_key,idempotency_key,record_format_version,request_info_json,lifecycle_json,payload FROM tasks WHERE id=?1";

/// One task by its idempotency key.
pub const TASK_BY_KEY: &'static str =
    "SELECT id,state_kind,accepted_at,correlation_key,idempotency_key,record_format_version,request_info_json,lifecycle_json,payload FROM tasks WHERE idempotency_key=?1";

/// Unfinished tasks after a cursor, one more than a page holds.
pub const UNFINISHED_PAGE: &'static str =
    "SELECT id,state_kind,accepted_at,correlation_key,idempotency_key,record_format_version,request_info_json,lifecycle_json,payload FROM tasks WHERE state_kind IN ('Queued','Running') AND (?1 IS NULL OR id > ?1) ORDER BY id LIMIT 257";

/// A row when there are more unfinished tasks than a number.
pub const UNFINISHED_BEYOND: &'static str =
    "SELECT 1 FROM tasks WHERE state_kind IN ('Queued','Running') LIMIT 1 OFFSET ?1";

/// How many tasks are in each state.
pub const STATE_COUNTS: &'static str =
    "SELECT state_kind, COUNT(*) FROM tasks GROUP BY state_kind";

/// The oldest finished tasks accepted before a time.
pub const PRUNABLE: &'static str =
    "SELECT id FROM tasks WHERE state_kind IN ('Succeeded','Failed','Panicked','Cancelled') AND accepted_at < ?1 ORDER BY accepted_at, id LIMIT ?2";

/// Removes one task.
pub const DELETE_TASK: &'static str = "DELETE FROM tasks WHERE id=?1";

/// Writes a changed lifecycle.
pub const UPDATE_LIFECYCLE: &'static str =
    "UPDATE tasks SET state_kind=?2, lifecycle_json=?3 WHERE id=?1";

/// Writes a new task.
pub const INSERT_TASK: &'static str =
    "INSERT INTO tasks (id,state_kind,accepted_at,correlation_key,idempotency_key,record_format_version,request_info_json,lifecycle_json,payload) VALUES (?1,?2,?3,?4,?5,?6,?7,?8,?9)";

/// Counts one more generation of owners.
pub const NEXT_OWNER_EPOCH: &'static str =
    "INSERT INTO metadata(key,value) VALUES('owner_epoch',1) ON CONFLICT(key) DO UPDATE SET value=value+1";

/// The latest generation of owners.
pub const OWNER_EPOCH: &'static str = "SELECT value FROM metadata WHERE key='owner_epoch'";

/// Creates the task table of the current schema.
pub const CREATE_TASKS: &'static str =
    "CREATE TABLE tasks (id TEXT PRIMARY KEY NOT NULL, state_kind TEXT NOT NULL, accepted_at INTEGER NOT NULL, correlation_key TEXT, idempotency_key TEXT UNIQUE, request_info_json TEXT NOT NULL, payload BLOB NOT NULL, record_format_version INTEGER NOT NULL DEFAULT 3, lifecycle_json TEXT NOT NULL);";

/// Creates what stands beside the task table.
pub const CREATE_INDEXES: &'static str =
    "CREATE INDEX IF NOT EXISTS tasks_state_accepted ON tasks(state_kind, accepted_at); CREATE INDEX IF NOT EXISTS tasks_accepted_id ON tasks(accepted_at, id); CREATE TABLE IF NOT EXISTS metadata (key TEXT PRIMARY KEY NOT NULL, value INTEGER NOT NULL);";

/// Creates the table that rows of schema 2 are moved to.
pub const CREATE_TASKS_V3: &'static str =
    "CREATE TABLE tasks_v3 (id TEXT PRIMARY KEY NOT NULL, state_kind TEXT NOT NULL, accepted_at INTEGER NOT NULL, correlation_key TEXT, idempotency_key TEXT UNIQUE, request_info_json TEXT NOT NULL, payload BLOB NOT NULL, record_format_version INTEGER NOT NULL DEFAULT 3, lifecycle_json TEXT NOT NULL);";

/// Writes a task that was moved from schema 2.
pub const INSERT_TASK_V3: &'static str =
    "INSERT INTO tasks_v3 (id,state_kind,accepted_at,correlation_key,idempotency_key,record_format_version,request_info_json,lifecycle_json,payload) VALUES (?1,?2,?3,?4,?5,?6,?7,?8,?9)";

/// Puts the moved rows in the place of schema 2.
pub const REPLACE_BY_V3: &'static str = "DROP TABLE tasks; ALTER TABLE tasks_v3 RENAME TO tasks;";

/// Every row of schema 2.
pub const SCHEMA_TWO_ROWS: &'static str =
    "SELECT id,state_kind,accepted_at,correlation_key,idempotency_key,record_format_version,request_json,lifecycle_json FROM tasks ORDER BY id";

/// Creates the table that rows of schema 0 and 1 are moved to.
pub const CREATE_TASKS_V2: &'static str =
    "CREATE TABLE tasks_v2 (id TEXT PRIMARY KEY NOT NULL, state_kind TEXT NOT NULL, accepted_at INTEGER NOT NULL, correlation_key TEXT, idempotency_key TEXT UNIQUE, request_json TEXT NOT NULL, record_format_version INTEGER NOT NULL DEFAULT 2, lifecycle_json TEXT NOT NULL);";

/// Writes a task that was moved from schema 0 or 1.
pub const INSERT_TASK_V2: &'static str =
    "INSERT INTO tasks_v2 (id,state_kind,accepted_at,correlation_key,idempotency_key,request_json,record_format_version,lifecycle_json) VALUES (?1,?2,?3,?4,?5,?6,2,?7)";

/// Puts the moved rows in the place of schema 0 or 1.
pub const REPLACE_BY_V2: &'static str = "DROP TABLE tasks; ALTER TABLE tasks_v2 RENAME TO tasks;";

/// The next row of schema 1 after a cursor.
pub const LEGACY_ROW: &'static str =
    "SELECT id,state_kind,accepted_at,correlation_key,idempotency_key,record_format_version,record_json FROM tasks WHERE (?1 IS NULL OR id>?1) ORDER BY id LIMIT 1";

/// The next row of schema 0, whose rows carry no format, after a cursor.
pub const LEGACY_ROW_WITHOUT_FORMAT: &'static str =
    "SELECT id,state_kind,accepted_at,correlation_key,idempotency_key,1,record_json FROM tasks WHERE (?1 IS NULL OR id>?1) ORDER BY id LIMIT 1";

/// The statement that reads legacy rows with or without a format column.
pub fn legacy_row_sql(has_format: bool) -> (sql: &'static str)
    ensures
        sql@ == if has_format {
            LEGACY_ROW@
        } else {
            LEGACY_ROW_WITHOUT_FORMAT@
        },
{
    if has_format {
        LEGACY_ROW
    } else {
        LEGACY_ROW_WITHOUT_FORMAT
    }
}

} // verus!
