use qubit_task::model::AcceptOutcome;
use qubit_task::model::OwnerEpoch;
use qubit_task::model::TaskId;
use qubit_task::model::TaskOutput;
use qubit_task::model::TaskQuery;
use qubit_task::model::TaskRecord;
use qubit_task::model::TaskRequest;
use qubit_task::model::TaskState;
use qubit_task::model::TaskStateKind;
use qubit_task::model::TransitionCommand;
use qubit_task::store::lifecycle::StoredLifecycle;
use qubit_task::store::MemoryTaskStore;
use qubit_task::store::StoreError;

fn command(record: &TaskRecord, state: TaskState) -> TransitionCommand {
    TransitionCommand {
        id: record.id,
        expected_version: record.state_version,
        expected_attempt: record.attempt,
        state,
        retry_not_before_ms: None,
        output: None,
        assigned_resources: Vec::new(),
        cancel_requested: false,
    }
}

fn accept(store: &mut MemoryTaskStore, id: u128, request: TaskRequest, now: u64) -> TaskRecord {
    match store.accept(TaskId(id), request, now) {
        Ok(AcceptOutcome::Accepted(record)) => record,
        _ => panic!("a new task is accepted"),
    }
}

fn finish(store: &mut MemoryTaskStore, record: &TaskRecord, now: u64) -> TaskRecord {
    let running = store.transition(command(record, TaskState::Running), now).expect("starts");
    store.transition(command(&running, TaskState::Succeeded), now).expect("finishes")
}

fn plain(payload: usize) -> TaskRequest {
    TaskRequest::new("t", "1", vec![0; payload])
}

#[test]
fn memory_same_millisecond_pages_use_task_id_as_tie_breaker() {
    let mut store = MemoryTaskStore::new(8);
    let first_id = TaskId::generate();
    let second_id = TaskId::generate();
    for id in [first_id, second_id] {
        let outcome = store
            .accept(id, TaskRequest::new("cursor-test", "1", Vec::new()), 42)
            .expect("task is accepted");
        assert!(matches!(outcome, AcceptOutcome::Accepted(_)));
    }
    let first = store
        .list(TaskQuery { limit: 1, ..TaskQuery::default() })
        .expect("first page succeeds");
    assert_eq!(first.records[0].id, first_id.min(second_id));
    let second = store
        .list(TaskQuery { after: first.next, limit: 1, ..TaskQuery::default() })
        .expect("second page succeeds");
    assert_eq!(second.records[0].id, first_id.max(second_id));
}

#[test]
fn accepted_records_start_queued() {
    let mut store = MemoryTaskStore::new(8);
    let record = accept(&mut store, 1, plain(3), 77);
    assert_eq!(record.accepted_at_ms, 77);
    assert_eq!(record.state_version, 0);
    assert_eq!(record.attempt, 0);
    assert!(matches!(record.state, TaskState::Queued));
    assert!(store.get(TaskId(1)).is_some());
    assert!(store.get(TaskId(2)).is_none());
    assert!(matches!(store.accept(TaskId(1), plain(0), 78), Err(StoreError::DuplicateTask)));
    assert!(matches!(
        store.accept(TaskId(2), TaskRequest::new("", "1", Vec::new()), 78),
        Err(StoreError::InvalidRequest("task type and handler version must not be empty"))
    ));
}

#[test]
fn replays_return_the_accepted_record_and_reuse_conflicts() {
    let mut store = MemoryTaskStore::new(8);
    let request = plain(1).with_idempotency_key("key");
    let record = accept(&mut store, 1, request.clone(), 5);
    match store.accept(TaskId(2), request.clone(), 6) {
        Ok(AcceptOutcome::Existing(existing)) => {
            assert_eq!(existing.id, record.id);
            assert_eq!(existing.accepted_at_ms, 5);
        }
        _ => panic!("the identical request is a replay"),
    }
    assert!(matches!(
        store.accept(TaskId(2), plain(2).with_idempotency_key("key"), 6),
        Err(StoreError::IdempotencyConflict)
    ));
    assert_eq!(store.get_by_idempotency_key("key").expect("found").id, record.id);
    assert!(store.get_by_idempotency_key("other").is_none());
}

#[test]
fn unfinished_records_are_limited() {
    let mut store = MemoryTaskStore::with_limits(8, 1000, 2);
    let first = accept(&mut store, 1, plain(0), 1);
    accept(&mut store, 2, plain(0), 1);
    assert!(matches!(
        store.accept(TaskId(3), plain(0), 1),
        Err(StoreError::UnfinishedRecordLimitExceeded { limit: 2 })
    ));
    finish(&mut store, &first, 2);
    accept(&mut store, 3, plain(0), 3);
    assert!(store.has_unfinished_over_limit(1));
    assert!(!store.has_unfinished_over_limit(2));
}

#[test]
fn finished_payloads_make_room_for_new_ones() {
    let mut store = MemoryTaskStore::with_payload_budget(8, 100);
    let first = accept(&mut store, 1, plain(40).with_idempotency_key("a"), 1);
    let second = accept(&mut store, 2, plain(40), 2);
    finish(&mut store, &second, 3);
    finish(&mut store, &first, 4);
    // The task that finished first goes first.
    accept(&mut store, 3, plain(50), 5);
    assert!(store.get(TaskId(2)).is_none());
    assert!(store.get(TaskId(1)).is_some());
    accept(&mut store, 4, plain(50), 6);
    assert!(store.get(TaskId(1)).is_none());
    assert!(store.get_by_idempotency_key("a").is_none());
    match store.accept(TaskId(5), plain(1), 7) {
        Err(StoreError::CapacityExceeded { requested_bytes, available_bytes }) => {
            assert_eq!((requested_bytes, available_bytes), (1, 0));
        }
        _ => panic!("unfinished payloads are kept"),
    }
    assert_eq!(
        store.accept(TaskId(5), plain(200), 7).expect_err("too large").message(),
        "task payload budget exceeded: requested 200 bytes, 0 bytes available"
    );
}

#[test]
fn transitions_are_version_checked() {
    let mut store = MemoryTaskStore::new(8);
    let record = accept(&mut store, 1, plain(0), 1);
    let running = store.transition(command(&record, TaskState::Running), 10).expect("starts");
    assert_eq!(running.state_version, 1);
    assert_eq!(running.attempt, 1);
    assert_eq!(running.started_at_ms, Some(10));
    assert!(matches!(
        store.transition(command(&record, TaskState::Cancelled), 11),
        Err(StoreError::Conflict)
    ));
    let mut delayed = command(&running, TaskState::Succeeded);
    delayed.retry_not_before_ms = Some(5);
    assert!(matches!(
        store.transition(delayed, 11),
        Err(StoreError::InvalidRequest("only queued tasks may have a retry deadline"))
    ));
    let mut large = command(&running, TaskState::Succeeded);
    large.output = Some(TaskOutput { summary: vec![0; 65537] });
    assert!(matches!(
        store.transition(large, 11),
        Err(StoreError::InvalidRequest("task output summary exceeds the 65536-byte limit"))
    ));
    let mut done = command(&running, TaskState::Succeeded);
    done.output = Some(TaskOutput { summary: b"ok".to_vec() });
    let done = store.transition(done, 12).expect("finishes");
    assert_eq!(done.finished_at_ms, Some(12));
    assert_eq!(done.output.as_ref().expect("kept").summary, b"ok".to_vec());
    assert!(matches!(
        store.transition(command(&done, TaskState::Queued), 13),
        Err(StoreError::InvalidTransition)
    ));
    let mut missing = command(&done, TaskState::Running);
    missing.id = TaskId(9);
    assert!(matches!(store.transition(missing, 13), Err(StoreError::NotFound)));
    let mut wordy = command(&done, TaskState::Blocked { reason: "x".repeat(5000) });
    wordy.id = TaskId(9);
    assert!(matches!(
        store.transition(wordy, 13),
        Err(StoreError::InvalidRequest("blocked reason exceeds the 4096-byte limit"))
    ));
}

#[test]
fn full_counters_are_looked_at_last() {
    let mut store = MemoryTaskStore::new(8);
    let record = accept(&mut store, 1, plain(0), 1);
    let full = |id: u128, version: u64, attempt: u32| TransitionCommand {
        id: TaskId(id),
        expected_version: version,
        expected_attempt: attempt,
        state: TaskState::Running,
        retry_not_before_ms: None,
        output: None,
        assigned_resources: Vec::new(),
        cancel_requested: false,
    };
    assert!(matches!(store.transition(full(2, u64::MAX, u32::MAX), 2), Err(StoreError::NotFound)));
    assert!(matches!(store.transition(full(1, u64::MAX, u32::MAX), 2), Err(StoreError::Conflict)));
    assert!(matches!(store.abandon_blocked(TaskId(2), u64::MAX, 2), Err(StoreError::NotFound)));
    assert!(matches!(store.abandon_blocked(TaskId(1), u64::MAX, 2), Err(StoreError::Conflict)));
    let mut life = StoredLifecycle::from_record(&record);
    assert!(life.can_count(&full(1, 0, 0)));
    life.attempt = u32::MAX;
    assert!(!life.can_count(&full(1, 0, u32::MAX)));
    assert!(life.can_count(&full(1, 0, 0)));
    life.state = TaskState::Running;
    let finish = TransitionCommand { state: TaskState::Succeeded, ..full(1, 0, u32::MAX) };
    assert!(life.can_count(&finish));
    let done = life.advance(finish, 9);
    assert_eq!((done.attempt, done.state_version, done.finished_at_ms), (u32::MAX, 1, Some(9)));
}

#[test]
fn completion_times_mark_finished_records() {
    let mut store = MemoryTaskStore::new(8);
    let record = accept(&mut store, 1, plain(0), 1);
    let running = store.transition(command(&record, TaskState::Running), 2).expect("starts");
    let queued = store.transition(command(&running, TaskState::Queued), 3).expect("requeued");
    assert_eq!((record.finished_at_ms, running.finished_at_ms, queued.finished_at_ms), (None, None, None));
    let cancelled = store.transition(command(&queued, TaskState::Cancelled), 4).expect("ends");
    assert_eq!(cancelled.finished_at_ms, Some(4));
}

#[test]
fn finished_history_keeps_the_newest() {
    let mut store = MemoryTaskStore::new(2);
    for id in 1..=3 {
        let record = accept(&mut store, id, plain(0).with_idempotency_key(format!("k{id}")), id as u64);
        finish(&mut store, &record, 10);
    }
    assert!(store.get(TaskId(1)).is_none());
    assert!(store.get_by_idempotency_key("k1").is_none());
    assert!(store.get(TaskId(2)).is_some());
    assert!(store.get(TaskId(3)).is_some());
    let mut volatile = MemoryTaskStore::new(0);
    let record = accept(&mut volatile, 1, plain(0), 1);
    let done = finish(&mut volatile, &record, 2);
    assert!(matches!(done.state, TaskState::Succeeded));
    assert!(volatile.get(TaskId(1)).is_none());
}

#[test]
fn pages_are_ordered_filtered_and_complete() {
    let mut store = MemoryTaskStore::new(100);
    for id in 1..=20u128 {
        let mut request = plain(0);
        if id % 2 == 0 {
            request.correlation_key = Some("even".to_owned());
        }
        let record = accept(&mut store, id, request, 100 - id as u64 / 2);
        if id % 5 == 0 {
            finish(&mut store, &record, 200);
        }
    }
    let mut seen: Vec<(u64, u128)> = Vec::new();
    let mut after = None;
    loop {
        let page = store
            .list(TaskQuery { limit: 7, after, ..TaskQuery::default() })
            .expect("page");
        assert!(page.records.len() <= 7);
        for record in &page.records {
            seen.push((record.accepted_at_ms, record.id.0));
        }
        after = page.next;
        if after.is_none() {
            break;
        }
    }
    assert_eq!(seen.len(), 20);
    let mut sorted = seen.clone();
    sorted.sort();
    sorted.dedup();
    assert_eq!(seen, sorted);
    let done = store
        .list(TaskQuery { limit: 256, states: vec![TaskStateKind::Succeeded], ..TaskQuery::default() })
        .expect("page");
    assert_eq!(done.records.len(), 4);
    assert!(done.next.is_none());
    let even = store
        .list(TaskQuery { limit: 256, correlation_key: Some("even".to_owned()), ..TaskQuery::default() })
        .expect("page");
    assert_eq!(even.records.len(), 10);
    let one = store.list(TaskQuery::default()).expect("page");
    assert_eq!(one.records.len(), 1);
    assert!(one.next.is_some());
    assert!(store.list(TaskQuery { limit: 257, ..TaskQuery::default() }).is_err());
    let counts = store.count_states();
    assert_eq!((counts.queued, counts.running, counts.blocked, counts.terminal), (16, 0, 0, 4));
}

#[test]
fn pruning_removes_the_oldest_finished_records() {
    let mut store = MemoryTaskStore::new(100);
    for id in 1..=6u128 {
        let record = accept(&mut store, id, plain(0).with_idempotency_key(format!("k{id}")), id as u64);
        if id != 2 {
            finish(&mut store, &record, 50);
        }
    }
    assert_eq!(store.prune_terminal_before(5, 2), 2);
    assert!(store.get(TaskId(1)).is_none());
    assert!(store.get(TaskId(2)).is_some());
    assert!(store.get(TaskId(3)).is_none());
    assert!(store.get(TaskId(4)).is_some());
    accept(&mut store, 7, plain(0).with_idempotency_key("k1"), 60);
    assert_eq!(store.prune_terminal_before(5, 10), 1);
    assert_eq!(store.prune_terminal_before(5, 10), 0);
    assert_eq!(store.prune_terminal_before(u64::MAX, 0), 0);
    assert_eq!(store.count_states().terminal, 2);
}

#[test]
fn blocked_tasks_can_be_abandoned() {
    let mut store = MemoryTaskStore::new(8);
    let record = accept(&mut store, 1, plain(0), 1);
    assert!(matches!(store.abandon_blocked(TaskId(1), 0, 2), Err(StoreError::InvalidTransition)));
    let blocked = store
        .transition(command(&record, TaskState::Blocked { reason: "r".to_owned() }), 2)
        .expect("blocks");
    assert!(matches!(store.abandon_blocked(TaskId(1), 0, 3), Err(StoreError::Conflict)));
    assert!(matches!(store.abandon_blocked(TaskId(2), 0, 3), Err(StoreError::NotFound)));
    let gone = store.abandon_blocked(TaskId(1), blocked.state_version, 3).expect("abandoned");
    assert!(matches!(gone.state, TaskState::Cancelled));
    assert_eq!(gone.finished_at_ms, Some(3));
    assert_eq!(gone.state_version, 2);
}

#[test]
fn volatile_stores_do_not_recover() {
    let store = MemoryTaskStore::new(8);
    assert!(!store.capabilities().restart_recovery);
    assert!(!store.capabilities().persistent_history);
    assert!(matches!(store.acquire_owner(), Err(StoreError::UnsupportedCapability)));
    assert!(matches!(store.scan_unfinished(None), Err(StoreError::UnsupportedCapability)));
    assert!(matches!(store.release_owner(OwnerEpoch(1)), Err(StoreError::UnsupportedCapability)));
}

#[test]
fn store_errors_describe_themselves() {
    assert_eq!(
        StoreError::UnfinishedRecordLimitExceeded { limit: 12 }.message(),
        "unfinished task record limit exceeded (12)"
    );
    assert_eq!(StoreError::InvalidRequest("x").message(), "invalid task data: x");
    assert_eq!(StoreError::Failure("disk".to_owned()).message(), "task store failure: disk");
    assert_eq!(StoreError::NotFound.message(), "task was not found");
}

#[test]
fn accepted_work_is_kept_until_it_finishes() {
    let mut store = MemoryTaskStore::with_limits(3, 400, 12);
    let mut open: Vec<TaskRecord> = Vec::new();
    let mut seed: u64 = 7;
    let mut next = move |bound: u64| {
        seed = seed.wrapping_mul(6_364_136_223_846_793_005).wrapping_add(1_442_695_040_888_963_407);
        (seed >> 33) % bound
    };
    for now in 0..3_000u64 {
        match next(4) {
            0 => {
                let size = next(60) as usize;
                let request = plain(size).with_idempotency_key(format!("key{now}"));
                if let Ok(AcceptOutcome::Accepted(record)) = store.accept(TaskId(now as u128), request, now) {
                    open.push(record);
                }
            }
            1 if !open.is_empty() => {
                let at = next(open.len() as u64) as usize;
                if matches!(open[at].state, TaskState::Queued) {
                    open[at] = store.transition(command(&open[at], TaskState::Running), now).expect("starts");
                } else {
                    let record = open.remove(at);
                    store.transition(command(&record, TaskState::Succeeded), now).expect("finishes");
                }
            }
            2 => {
                store.prune_terminal_before(now, next(3) as usize);
            }
            _ => {}
        }
        for record in &open {
            let kept = store.get(record.id).expect("unfinished work is kept");
            assert!(kept.request.same(&record.request));
            assert_eq!(kept.state_version, record.state_version);
            match store.accept(TaskId(u128::MAX), record.request.clone(), now) {
                Ok(AcceptOutcome::Existing(existing)) => assert_eq!(existing.id, record.id),
                _ => panic!("a retained request is answered with its record"),
            }
        }
        let counts = store.count_states();
        assert_eq!(counts.queued + counts.running, open.len());
        assert!(counts.terminal <= 3);
        assert!(open.len() <= 12);
    }
}
