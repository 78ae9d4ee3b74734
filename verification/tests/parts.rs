use qubit_task::event::TaskEvent;
use qubit_task::handler::local::closure_stopped;
use qubit_task::handler::LocalTaskHandler;
use qubit_task::handler::TaskHandlerDescriptor;
use qubit_task::handler::TaskHandlerRegistry;
use qubit_task::handler::TaskRunOutcome;
use qubit_task::model::task_record::initial_record;
use qubit_task::model::AcceptOutcome;
use qubit_task::model::OwnerEpoch;
use qubit_task::model::ResourceRequest;
use qubit_task::model::StoreCapabilities;
use qubit_task::model::StoredTask;
use qubit_task::model::TaskCursor;
use qubit_task::model::TaskId;
use qubit_task::model::TaskOutput;
use qubit_task::model::TaskQuery;
use qubit_task::model::TaskRecord;
use qubit_task::model::TaskRequest;
use qubit_task::model::TaskRequestInfo;
use qubit_task::model::TaskState;
use qubit_task::model::TaskStateCounts;
use qubit_task::model::TaskStateKind;
use qubit_task::model::TransitionCommand;
use qubit_task::scheduling::QueuedTask;
use qubit_task::service::admission_gate::AdmissionGate;
use qubit_task::service::builder::recover_task;
use qubit_task::service::builder::validate_recovery_page;
use qubit_task::service::builder::RecoveryScan;
use qubit_task::service::builder::RecoveryStep;
use qubit_task::service::builder::RestoreStep;
use qubit_task::service::builder::RestoredTasks;
use qubit_task::service::clock::epoch_millis;
use qubit_task::service::clock::now_ms;
use qubit_task::service::error::admission_stopped;
use qubit_task::service::error::combine_shutdown_results;
use qubit_task::service::local_task::adapt_local_outcome;
use qubit_task::service::local_task::local_result;
use qubit_task::service::local_task::needs_typed_result;
use qubit_task::service::notifications::record_admission;
use qubit_task::service::notifications::record_enqueue;
use qubit_task::service::notifications::record_publish_error;
use qubit_task::service::notifications::AdmissionOutcome;
use qubit_task::service::notifications::AdmissionSummary;
use qubit_task::service::notifications::EnqueueOutcome;
use qubit_task::service::retry_policy::retry_deadline_ms;
use qubit_task::service::retry_policy::Delay;
use qubit_task::service::scheduler::idle_wait_ms;
use qubit_task::service::scheduler::pass_wait_ms;
use qubit_task::service::service_core::ServiceCore;
use qubit_task::service::validation::validate_key;
use qubit_task::service::wait_registry::TaskWaitRegistry;
use qubit_task::service::LocalTaskOutcome;
use qubit_task::service::LocalTaskResultError;
use qubit_task::service::RetryPolicy;
use qubit_task::service::RetryPolicyError;
use qubit_task::service::TaskEventNotificationStats;
use qubit_task::service::TaskExecutionServiceBuilder;
use qubit_task::service::TaskServiceBuildError;
use qubit_task::service::TaskServiceError;
use qubit_task::spi::FAIR_FIFO_PROVIDER_ID;
use qubit_task::spi::TaskStoreConfig;
use qubit_task::store::lifecycle::StoredLifecycle;
use qubit_task::store::sqlite::check_format;
use qubit_task::store::sqlite::check_legacy_schema;
use qubit_task::store::sqlite::check_schema_two_row;
use qubit_task::store::sqlite::count_kind;
use qubit_task::store::sqlite::decide_accept;
use qubit_task::store::sqlite::decode_stored_summary_row;
use qubit_task::store::sqlite::decode_stored_task_row;
use qubit_task::store::sqlite::encode_row;
use qubit_task::store::sqlite::finish_history_page;
use qubit_task::store::sqlite::finish_scan_page;
use qubit_task::store::sqlite::plan_history;
use qubit_task::store::sqlite::plan_schema;
use qubit_task::store::sqlite::prune_bounds;
use qubit_task::store::sqlite::replay;
use qubit_task::store::sqlite::sqlite_capabilities;
use qubit_task::store::sqlite::summary_by_id_sql;
use qubit_task::store::sqlite::transition_summary;
use qubit_task::store::sqlite::unfinished_offset;
use qubit_task::store::sqlite::validate_schema_three;
use qubit_task::store::sqlite::SUMMARY_COLUMNS;
use qubit_task::store::sqlite::SchemaPlan;
use qubit_task::store::sqlite::SqliteOwnerState;
use qubit_task::store::MemoryTaskStore;
use qubit_task::store::StoreError;

type Builder = TaskExecutionServiceBuilder<MemoryTaskStore, u8, u8, u8>;

#[test]
fn computes_retry_deadlines_with_saturating_milliseconds() {
    let policy = RetryPolicy::new(Delay::from_millis(25), Delay::from_millis(100)).unwrap();
    assert_eq!(retry_deadline_ms(100, policy, 2), 150);
    assert_eq!(retry_deadline_ms(u64::MAX, policy, 1), u64::MAX);
    assert!(now_ms() > 0);
}

#[test]
fn combines_shutdown_and_notification_results() {
    assert!(combine_shutdown_results(Ok(()), Ok(())).is_ok());
    assert!(matches!(
        combine_shutdown_results(
            Ok(()),
            Err(TaskServiceError::NotificationClose("close failed".into()))
        ),
        Err(TaskServiceError::NotificationClose(message)) if message == "close failed"
    ));
    assert!(matches!(
        combine_shutdown_results(
            Err(TaskServiceError::StoreUnavailable("store failed".into())),
            Ok(())
        ),
        Err(TaskServiceError::StoreUnavailable(message)) if message == "store failed"
    ));
    let combined_store_error = combine_shutdown_results(
        Err(TaskServiceError::StoreUnavailable("store failed".into())),
        Err(TaskServiceError::NotificationClose("close failed".into())),
    )
    .expect_err("combined store and notification failures are retained");
    assert_eq!(
        combined_store_error.message(),
        "task execution service is paused after a task store failure: store failed; notification close failed: close failed"
    );
    let combined_other_error = combine_shutdown_results(
        Err(TaskServiceError::QueueFull),
        Err(TaskServiceError::NotificationClose("close failed".into())),
    )
    .expect_err("other primary errors are represented as store unavailable");
    assert_eq!(
        combined_other_error.message(),
        "task execution service is paused after a task store failure: task queue is full; notification close failed: task notification publisher failed to close: close failed"
    );
}

#[test]
fn summary_projection_never_selects_payload() {
    assert!(!SUMMARY_COLUMNS.split(',').any(|column| column == "payload"));
    assert_eq!(SUMMARY_COLUMNS.split(',').count(), 8);
}

#[test]
fn test_task_event_publisher_maps_each_admission_outcome_to_one_counter() {
    let mut counters = TaskEventNotificationStats::default();
    let summary = AdmissionSummary { accepted: 1, filtered: 0, rejected: 0 };
    record_admission(&mut counters, AdmissionOutcome::OpaqueAccepted);
    record_admission(&mut counters, AdmissionOutcome::Accepted(summary));
    record_admission(
        &mut counters,
        AdmissionOutcome::PartiallyAccepted(AdmissionSummary { accepted: 1, filtered: 0, rejected: 1 }),
    );
    record_admission(
        &mut counters,
        AdmissionOutcome::NoneAccepted(AdmissionSummary { accepted: 0, filtered: 1, rejected: 0 }),
    );
    record_admission(&mut counters, AdmissionOutcome::NoDestinations);
    record_admission(&mut counters, AdmissionOutcome::Dropped);
    assert_eq!(1, counters.opaque_accepted);
    assert_eq!(2, counters.accepted);
    assert_eq!(1, counters.partial_rejection);
    assert_eq!(3, counters.unaccepted);
    assert_eq!(0, counters.publish_error);
}

#[test]
fn enqueue_outcomes_are_counted_apart() {
    let mut counters = TaskEventNotificationStats::default();
    record_enqueue(&mut counters, EnqueueOutcome::Enqueued);
    record_enqueue(&mut counters, EnqueueOutcome::Full);
    record_enqueue(&mut counters, EnqueueOutcome::Full);
    record_enqueue(&mut counters, EnqueueOutcome::Closed);
    record_publish_error(&mut counters);
    assert_eq!((counters.enqueued, counters.queue_full, counters.queue_closed), (1, 2, 1));
    assert_eq!(counters.publish_error, 1);
    assert_eq!(counters.accepted, 0);
}

#[test]
fn test_wait_closed_preserves_notification_close_failure_for_all_callers() {
    let mut gate = AdmissionGate::new();
    assert!(gate.close());
    gate.finish_close(Err(TaskServiceError::NotificationClose("worker panicked".into())));
    for _ in 0..2 {
        let error = gate.close_result().expect("closed").expect_err("close failure is retained");
        assert!(matches!(error, TaskServiceError::NotificationClose(message) if message == "worker panicked"));
    }
}

#[test]
fn test_wait_closed_keeps_other_failures_as_store_unavailable() {
    let mut gate = AdmissionGate::new();
    assert!(gate.close());
    gate.finish_close(Err(TaskServiceError::StoreUnavailable("store failed".into())));
    let error = gate.close_result().expect("closed").expect_err("close failure is retained");
    assert!(matches!(error, TaskServiceError::StoreUnavailable(message) if message == "store failed"));
}

#[test]
fn admission_closes_once() {
    let mut gate = AdmissionGate::new();
    gate.enter().expect("open");
    assert!(!gate.is_idle());
    assert!(gate.close());
    assert!(!gate.close());
    assert!(matches!(gate.enter(), Err(TaskServiceError::ShuttingDown)));
    assert!(gate.close_result().is_none());
    gate.leave();
    assert!(gate.is_idle() && !gate.is_closed());
    gate.finish_close(Err(TaskServiceError::QueueFull));
    gate.finish_close(Ok(()));
    assert!(gate.is_closed());
    assert!(matches!(
        gate.close_result(),
        Some(Err(TaskServiceError::StoreUnavailable(message))) if message == "task queue is full"
    ));
}

#[test]
fn test_builder_rejects_overflowing_recovery_capacity_configuration() {
    let builder = Builder::in_memory(1).queue_capacity(usize::MAX).max_running_tasks(1);
    let result = builder.check(MemoryTaskStore::new(1).capabilities());
    assert!(matches!(result, Err(TaskServiceBuildError::InvalidConfiguration(_))));
}

#[test]
fn builders_need_a_store_that_fits() {
    let volatile = StoreCapabilities { persistent_history: false, restart_recovery: false };
    assert!(matches!(Builder::new(4).check(volatile), Err(TaskServiceBuildError::MissingStore)));
    let builder = Builder::in_memory(4).require_recovery(true);
    assert!(matches!(builder.check(volatile), Err(TaskServiceBuildError::RecoveryRequired)));
    let builder = Builder::in_memory(4).queue_capacity(10).max_running_tasks(5);
    assert!(matches!(builder.check(volatile), Ok(15)));
    for builder in [
        Builder::new(4),
        Builder::in_memory(4),
        Builder::in_memory_with_payload_budget(4, 9),
        Builder::from_components(4, MemoryTaskStore::new(1), 1, 2),
    ] {
        assert_eq!(builder.capacity.cpu_slots, 4);
        assert_eq!(builder.max_inflight_payload_bytes, 64 * 1024 * 1024);
        assert_eq!(builder.max_inflight_submissions, 64);
        assert_eq!(builder.event_bus_buffer_capacity, 256);
        assert_eq!(builder.retry_policy, RetryPolicy::default());
        assert!(builder.handlers.resolve("t", "1").is_none());
    }
}

#[test]
fn subscriptions_are_scoped_and_removed_on_drop() {
    let mut registry: TaskWaitRegistry<u8> = TaskWaitRegistry::new();
    let a = TaskId::generate();
    let b = TaskId::generate();
    registry.subscribe(a, 1);
    registry.subscribe(a, 2);
    registry.subscribe(b, 3);
    assert_eq!(registry.notifier(a), Some(&1));
    assert_eq!(registry.notifier(b), Some(&3));
    assert_eq!(registry.waited_for().len(), 2);
    registry.unsubscribe(a);
    assert!(registry.waited_for().contains(&a.0));
    registry.unsubscribe(a);
    assert!(!registry.waited_for().contains(&a.0));
    assert_eq!(registry.notifier(a), None);
    registry.unsubscribe(a);
    assert_eq!(registry.subscribers(a), 0);
    assert_eq!(registry.subscribers(b), 1);
}

#[test]
fn retry_delays_double_up_to_the_cap() {
    let policy = RetryPolicy::new(Delay::from_millis(25), Delay::from_millis(150)).expect("valid");
    let delays: Vec<u128> = (0..6).map(|n| policy.delay_for_attempt(n).as_millis()).collect();
    assert_eq!(delays, vec![25, 25, 50, 100, 150, 150]);
    assert_eq!(policy.delay_for_attempt(u32::MAX).as_millis(), 150);
    assert!(matches!(
        RetryPolicy::new(Delay::from_secs(0), Delay::from_secs(1)),
        Err(RetryPolicyError::ZeroInitialDelay)
    ));
    assert!(matches!(
        RetryPolicy::new(Delay::from_secs(2), Delay::from_secs(1)),
        Err(RetryPolicyError::MaximumBelowInitial)
    ));
    let delay = Delay::new(3, 250_000_000);
    assert_eq!((delay.as_secs(), delay.subsec_nanos(), delay.as_millis()), (3, 250_000_000, 3_250));
    let largest = RetryPolicy::new(Delay::new(1, 1), Delay::new(u64::MAX, 999_999_999)).expect("valid");
    assert_eq!(largest.delay_for_attempt(u32::MAX).as_secs(), u64::MAX);
}

#[test]
fn the_clock_counts_milliseconds() {
    // After the year 2020 and before the year 2500.
    let now = now_ms();
    assert!(now > 1_577_836_800_000 && now < 16_725_225_600_000);
    assert!(now_ms() >= now || now - now_ms() < 60_000);
    assert_eq!(epoch_millis(None), 0);
    assert_eq!(epoch_millis(Some((1, 234_999_999))), 1_234);
    assert_eq!(epoch_millis(Some((u64::MAX / 1_000, 615_000_000))), u64::MAX);
    assert_eq!(epoch_millis(Some((u64::MAX / 1_000, 614_999_999))), u64::MAX - 1);
    assert_eq!(epoch_millis(Some((u64::MAX, 0))), u64::MAX);
}

#[test]
fn keys_are_bounded() {
    assert!(validate_key("k").is_ok());
    assert!(validate_key(&"k".repeat(256)).is_ok());
    for key in [String::new(), "k".repeat(257)] {
        assert_eq!(
            validate_key(&key).expect_err("out of bounds").message(),
            "invalid task request: idempotency key must contain between 1 and 256 bytes"
        );
    }
}

#[test]
fn local_outcomes_become_task_results() {
    let (typed, run) = adapt_local_outcome::<u8, String>(
        LocalTaskOutcome::Succeeded { value: 7, summary: TaskOutput { summary: vec![1] } },
        String::new(),
    );
    assert_eq!(typed, Some(Ok(7)));
    assert!(matches!(run, Ok(TaskRunOutcome::Succeeded(output)) if output.summary == vec![1]));
    let (typed, run) =
        adapt_local_outcome::<u8, String>(LocalTaskOutcome::Failed("bad".to_owned()), "bad".to_owned());
    assert_eq!(typed, Some(Err("bad".to_owned())));
    match run {
        Err(error) => assert_eq!((error.message.as_str(), error.retryable), ("bad", false)),
        Ok(_) => panic!("a failed closure fails the task"),
    }
    let (typed, run) = adapt_local_outcome::<u8, String>(LocalTaskOutcome::Cancelled, String::new());
    assert_eq!(typed, None);
    assert!(matches!(run, Ok(TaskRunOutcome::Cancelled)));
}

#[test]
fn local_closures_run_once() {
    let key = TaskHandlerDescriptor { task_type: "local:x".to_owned(), version: "1".to_owned() };
    let mut handler = LocalTaskHandler::new(key, 7u8);
    assert_eq!(handler.descriptor().task_type, "local:x");
    assert_eq!(handler.take_closure().expect("first"), 7);
    let error = handler.take_closure().expect_err("second");
    assert_eq!(error.category, "local_handler");
    assert_eq!(error.message, "one-shot local closure ran more than once");
    assert!(!error.retryable);
    let error = closure_stopped("task 1 panicked".to_owned());
    assert_eq!((error.category.as_str(), error.message.as_str()), ("panic", "task 1 panicked"));
}

#[test]
fn stopped_admission_workers_are_reported() {
    assert_eq!(
        admission_stopped("cancelled").message(),
        "task execution service is paused after a task store failure: task admission worker stopped: cancelled"
    );
}

#[test]
fn schedulers_wait_for_the_next_deadline() {
    assert_eq!(idle_wait_ms(None, 5), None);
    assert_eq!(idle_wait_ms(Some(12), 5), Some(7));
    assert_eq!(idle_wait_ms(Some(2), 5), Some(0));
    assert_eq!(pass_wait_ms(None, 5), 40);
    assert_eq!(pass_wait_ms(Some(12), 5), 7);
    assert_eq!(pass_wait_ms(Some(2), 5), 0);
}

#[test]
fn recovered_tasks_hold_waiting_positions() {
    let builder = Builder::in_memory(1).queue_capacity(2);
    let recovered: Vec<QueuedTask> = (1..=3)
        .map(|id| QueuedTask {
            id: TaskId(id),
            resources: ResourceRequest::default(),
            retry_not_before_ms: if id == 2 { Some(9) } else { None },
            bypasses: 0,
        })
        .collect();
    let mut core: ServiceCore<u8, u8, u8> = builder.start(recovered, None);
    assert_eq!(core.queue_count(), 3);
    assert!(!core.reserve_queue_slot());
    let window = core.take_window(0);
    assert_eq!(window.iter().map(|task| task.id.0).collect::<Vec<_>>(), vec![1, 3]);
    assert_eq!(core.next_deadline(), Some(9));
}

#[test]
fn local_results_follow_the_final_state() {
    let result = |state, typed: Option<Result<u8, String>>| local_result(state, typed);
    assert!(needs_typed_result(&TaskState::Succeeded));
    assert!(!needs_typed_result(&TaskState::Cancelled));
    assert!(matches!(result(TaskState::Succeeded, Some(Ok(1))), Ok(Ok(1))));
    assert!(matches!(
        result(TaskState::Succeeded, None),
        Err(LocalTaskResultError::ResultChannelClosed)
    ));
    assert!(matches!(
        result(TaskState::Panicked { message: "p".to_owned() }, None),
        Err(LocalTaskResultError::Panicked(message)) if message == "p"
    ));
    assert!(matches!(
        result(TaskState::Blocked { reason: "r".to_owned() }, None),
        Err(LocalTaskResultError::Blocked(reason)) if reason == "r"
    ));
    assert!(matches!(result(TaskState::Cancelled, Some(Ok(1))), Err(LocalTaskResultError::Cancelled)));
}

fn record(id: u128, task_type: &str) -> TaskRecord {
    initial_record(TaskId(id), TaskRequest::new(task_type, "1", b"data".to_vec()), 42)
}

fn stored(id: u128) -> StoredTask {
    StoredTask { record: record(id, "t") }
}

#[test]
fn recovery_pages_must_advance() {
    let ids = |ids: &[u128]| ids.iter().map(|id| stored(*id)).collect::<Vec<_>>();
    assert!(validate_recovery_page(&ids(&[1, 2, 3]), None, Some(TaskId(3))).is_ok());
    assert!(validate_recovery_page(&ids(&[]), None, None).is_ok());
    assert!(validate_recovery_page(&ids(&[4]), Some(TaskId(3)), Some(TaskId(4))).is_ok());
    let full: Vec<u128> = (1..=256).collect();
    assert!(validate_recovery_page(&ids(&full), None, None).is_ok());
    let long: Vec<u128> = (1..=257).collect();
    for (page, previous, next, complaint) in [
        (ids(&long), None, None, "page contains 257 records; maximum is 256"),
        (ids(&[]), None, Some(TaskId(1)), "empty page returned a next cursor"),
        (ids(&[3]), Some(TaskId(3)), Some(TaskId(3)), "cursor did not advance"),
        (ids(&[2]), Some(TaskId(3)), Some(TaskId(2)), "cursor did not advance"),
    ] {
        assert!(matches!(
            validate_recovery_page(&page, previous, next),
            Err(TaskServiceBuildError::InvalidRecoveryPage(message)) if message == complaint
        ));
    }
    assert!(matches!(
        RecoveryScan::begin(3, true),
        Err(TaskServiceBuildError::RecoveryCapacityExceeded { limit: 3 })
    ));
    let mut scan = RecoveryScan::begin(3, false).expect("within the limit");
    assert!(scan.take_page(&ids(&[1, 2]), Some(TaskId(2))).is_ok());
    assert_eq!((scan.cursor, scan.count), (Some(TaskId(2)), 2));
    assert!(matches!(
        scan.take_page(&ids(&[3, 4]), None),
        Err(TaskServiceBuildError::RecoveryCapacityExceeded { limit: 3 })
    ));
}

#[test]
fn recovery_settles_each_unfinished_task() {
    let mut handlers: TaskHandlerRegistry<u8> = TaskHandlerRegistry::new();
    let key = TaskHandlerDescriptor { task_type: "t".to_owned(), version: "1".to_owned() };
    handlers.register(key, 1).expect("new key");
    let mut queued = record(1, "t");
    queued.retry_not_before_ms = Some(77);
    match recover_task(&queued, 2, &handlers) {
        RecoveryStep::Enqueue(task) => {
            assert_eq!((task.id, task.retry_not_before_ms), (TaskId(1), Some(77)));
        }
        _ => panic!("queued work waits again"),
    }
    match recover_task(&record(1, "u"), 2, &handlers) {
        RecoveryStep::Block(command) => {
            assert!(matches!(command.state, TaskState::Blocked { .. }));
        }
        _ => panic!("work without a handler is blocked"),
    }
    let mut running = record(1, "t");
    running.state = TaskState::Running;
    running.attempt = 1;
    match recover_task(&running, 2, &handlers) {
        RecoveryStep::Requeue(command) => assert!(matches!(command.state, TaskState::Queued)),
        _ => panic!("interrupted work is tried again"),
    }
    running.attempt = 2;
    assert!(matches!(recover_task(&running, 2, &handlers), RecoveryStep::Block(_)));
    let mut blocked = record(1, "t");
    blocked.state = TaskState::Blocked { reason: "r".to_owned() };
    assert!(matches!(recover_task(&blocked, 2, &handlers), RecoveryStep::Leave));
}

#[test]
fn restored_tasks_wait_in_scan_order() {
    let mut handlers: TaskHandlerRegistry<u8> = TaskHandlerRegistry::new();
    let key = TaskHandlerDescriptor { task_type: "t".to_owned(), version: "1".to_owned() };
    handlers.register(key, 1).expect("new key");
    let mut restored = RestoredTasks::new();
    let mut late = record(3, "t");
    late.retry_not_before_ms = Some(9);
    assert!(matches!(restored.restore(&late, 2, &handlers), RestoreStep::Done));
    let mut running = record(1, "t");
    running.state = TaskState::Running;
    running.attempt = 1;
    let command = match restored.restore(&running, 2, &handlers) {
        RestoreStep::Again(command) => command,
        _ => panic!("an interrupted attempt is requeued first"),
    };
    let requeued = StoredLifecycle::from_record(&running).advance(command, 50).into_record(running.request);
    assert!(matches!(restored.restore(&requeued, 2, &handlers), RestoreStep::Done));
    assert!(matches!(restored.restore(&record(2, "u"), 2, &handlers), RestoreStep::Apply(_)));
    let entries: Vec<(u128, Option<u64>, u32)> = restored
        .into_tasks()
        .into_iter()
        .map(|task| (task.id.0, task.retry_not_before_ms, task.bypasses))
        .collect();
    assert_eq!(entries, vec![(3, Some(9), 0), (1, None, 0)]);
}

#[test]
fn rows_read_back_what_was_written() {
    let mut original = record(7, "t");
    original.request.correlation_key = Some("c".to_owned());
    original.request.idempotency_key = Some("i".to_owned());
    let row = encode_row(&original).expect("in range");
    assert_eq!(row.id, TaskId(7).text());
    assert_eq!(row.state_kind, "Queued");
    assert_eq!(row.accepted_at, 42);
    assert_eq!(row.format_version, 3);
    assert_eq!(TaskRequestInfo::from(&original.request).correlation_key.as_deref(), Some("c"));
    let info = || TaskRequestInfo::of(&original.request);
    let life = || StoredLifecycle::from_record(&original);
    let back = decode_stored_task_row(&row, info(), b"data".to_vec(), life()).expect("consistent");
    assert!(back.request.same(&original.request));
    assert_eq!(back.id, original.id);
    let summary = decode_stored_summary_row(&row, info(), life()).expect("consistent");
    assert_eq!(summary.id, original.id);
    let mut wrong = encode_row(&original).expect("in range");
    wrong.state_kind = "Running".to_owned();
    assert!(matches!(
        decode_stored_summary_row(&wrong, info(), life()),
        Err(StoreError::Failure(_))
    ));
    let mut foreign = encode_row(&original).expect("in range");
    foreign.idempotency_key = None;
    assert!(decode_stored_task_row(&foreign, info(), b"data".to_vec(), life()).is_err());
    assert!(check_format(3).is_ok());
    assert!(matches!(check_format(4), Err(StoreError::Failure(_))));
    let mut late = record(8, "t");
    late.accepted_at_ms = u64::MAX;
    assert!(encode_row(&late).is_err());
    let mut old = encode_row(&original).expect("in range");
    old.format_version = 2;
    assert!(check_schema_two_row(&old, original.request.clone(), life()).is_ok());
}

#[test]
fn summaries_follow_the_same_transitions() {
    let queued = record(7, "t");
    let command = |state, version| TransitionCommand {
        id: TaskId(7),
        expected_version: version,
        expected_attempt: 0,
        state,
        retry_not_before_ms: None,
        output: None,
        assigned_resources: Vec::new(),
        cancel_requested: false,
    };
    let running = transition_summary(queued.summary(), command(TaskState::Running, 0), 50).expect("starts");
    assert_eq!((running.attempt, running.state_version, running.started_at_ms), (1, 1, Some(50)));
    assert!(matches!(
        transition_summary(queued.summary(), command(TaskState::Running, 3), 50),
        Err(StoreError::Conflict)
    ));
    let event = TaskEvent::of(&running);
    assert_eq!((event.task_id, event.state_version), (TaskId(7), 1));
    let event = TaskEvent::from(&running);
    assert_eq!((event.task_id, event.state_version), (TaskId(7), 1));
    assert!(matches!(event.state, TaskState::Running));
    assert_eq!(TaskCursor::of(&running), TaskCursor::new(42, TaskId(7)));
    assert!(matches!(replay(record(7, "t"), &record(7, "t").request), Ok(AcceptOutcome::Existing(_))));
    assert!(matches!(
        replay(record(7, "t"), &record(7, "u").request),
        Err(StoreError::IdempotencyConflict)
    ));
}

#[test]
fn stored_tasks_are_accepted_once() {
    let request = || TaskRequest::new("t", "1", Vec::new()).with_idempotency_key("k");
    let held = || initial_record(TaskId(1), request(), 5);
    match decide_accept(TaskId(2), request(), 7, None, false) {
        Ok(AcceptOutcome::Accepted(record)) => {
            assert_eq!((record.id, record.accepted_at_ms), (TaskId(2), 7));
        }
        _ => panic!("a new task is accepted"),
    }
    assert!(matches!(
        decide_accept(TaskId(1), request(), 7, None, true),
        Err(StoreError::DuplicateTask)
    ));
    assert!(matches!(
        decide_accept(TaskId(1), request(), 7, Some(held()), true),
        Ok(AcceptOutcome::Existing(record)) if record.accepted_at_ms == 5
    ));
    assert!(matches!(
        decide_accept(TaskId(1), TaskRequest::new("u", "1", Vec::new()), 7, Some(held()), true),
        Err(StoreError::IdempotencyConflict)
    ));
    assert!(matches!(
        decide_accept(TaskId(1), TaskRequest::new("", "1", Vec::new()), 7, None, true),
        Err(StoreError::InvalidRequest("task type and handler version must not be empty"))
    ));
}

#[test]
fn history_queries_name_their_parameters() {
    let query = TaskQuery {
        states: vec![TaskStateKind::Queued, TaskStateKind::Blocked],
        limit: 20,
        after: Some(TaskCursor::new(9, TaskId(5))),
        correlation_key: Some("c".to_owned()),
    };
    let plan = plan_history(&query).expect("valid");
    assert_eq!(plan.after_time, Some(9));
    assert_eq!(plan.after_id, Some(TaskId(5).text()));
    assert_eq!(plan.correlation_key.as_deref(), Some("c"));
    assert_eq!(plan.state_kinds, vec!["Queued", "Blocked"]);
    assert_eq!((plan.fetch_limit, plan.page_size), (21, 20));
    assert!(plan.sql.starts_with(&format!("SELECT {SUMMARY_COLUMNS} FROM tasks WHERE ")));
    assert_eq!(plan.sql.matches('?').count(), plan_parameters(&plan.sql));
    assert!(plan_history(&TaskQuery { limit: 257, ..TaskQuery::default() }).is_err());
    assert!(!summary_by_id_sql().contains("payload"));
    let all = plan_history(&TaskQuery::default()).expect("valid");
    assert!(all.after_time.is_none() && all.after_id.is_none() && all.state_kinds.is_empty());
    assert_eq!(all.page_size, 1);
}

/// How many numbered parameters a statement has.
fn plan_parameters(sql: &str) -> usize {
    sql.split('?').skip(1).filter(|rest| rest.starts_with(|c: char| c.is_ascii_digit())).count()
}

#[test]
fn pages_end_where_the_rows_end() {
    let rows = |n: u128| (1..=n).map(|id| record(id, "t").summary()).collect::<Vec<_>>();
    let page = finish_history_page(rows(3), 2);
    assert_eq!(page.records.len(), 2);
    assert_eq!(page.next, Some(TaskCursor::new(42, TaskId(2))));
    let page = finish_history_page(rows(2), 2);
    assert_eq!(page.records.len(), 2);
    assert_eq!(page.next, None);
    let page = finish_scan_page((1..=257).map(stored).collect());
    assert_eq!(page.tasks.len(), 256);
    assert_eq!(page.next, Some(TaskId(256)));
    assert!(finish_scan_page(vec![stored(1)]).next.is_none());
}

#[test]
fn pruning_rejects_values_outside_sqlite_integer_range() {
    assert!(matches!(prune_bounds(u64::MAX, 1), Err(StoreError::InvalidRequest(_))));
    assert!(matches!(prune_bounds(0, i64::MAX as usize + 1), Err(StoreError::InvalidRequest(_))));
    assert!(matches!(prune_bounds(5, 7), Ok((5, 7))));
    assert_eq!(unfinished_offset(10), Some(10));
    assert_eq!(unfinished_offset(usize::MAX), None);
}

#[test]
fn stored_kinds_are_counted() {
    let mut counts = TaskStateCounts::default();
    for (kind, count) in [("Queued", 1), ("Running", 2), ("Blocked", 3), ("Failed", 4), ("Succeeded", 5)] {
        assert!(count_kind(&mut counts, kind, count).is_ok());
    }
    assert_eq!((counts.queued, counts.running, counts.blocked, counts.terminal), (1, 2, 3, 9));
    assert!(matches!(count_kind(&mut counts, "Paused", 1), Err(StoreError::Failure(_))));
    assert!(count_kind(&mut counts, "Queued", -1).is_err());
}

#[test]
fn ownership_ends_with_its_release() {
    let mut owner = SqliteOwnerState::new("lock");
    assert!(sqlite_capabilities().restart_recovery);
    assert!(owner.check_acquire().is_ok());
    owner.acquired(OwnerEpoch(4));
    assert!(owner.check_acquire().is_ok());
    assert!(owner.check_write().is_ok());
    assert!(owner.release(OwnerEpoch(3)).is_err());
    assert!(matches!(owner.release(OwnerEpoch(4)), Ok("lock")));
    assert!(owner.check_write().is_err());
    assert!(owner.check_acquire().is_err());
    assert!(owner.release(OwnerEpoch(4)).is_err());
}

#[test]
fn schemas_are_planned_by_version() {
    assert!(matches!(plan_schema(3, true), Ok(SchemaPlan::Validate)));
    assert!(matches!(plan_schema(0, false), Ok(SchemaPlan::Create)));
    assert!(matches!(plan_schema(0, true), Ok(SchemaPlan::MigrateLegacy)));
    assert!(matches!(plan_schema(1, true), Ok(SchemaPlan::MigrateLegacy)));
    assert!(matches!(plan_schema(2, true), Ok(SchemaPlan::MigrateSchemaTwo)));
    assert!(plan_schema(4, true).is_err());
    assert!(plan_schema(-1, true).is_err());
    assert!(validate_schema_three(&Vec::new()).is_err());
    assert!(check_legacy_schema(&Vec::new(), 1, false).is_err());
}

#[test]
fn store_configurations_select_their_store() {
    let memory: TaskStoreConfig<String, u8> = TaskStoreConfig::Memory { history_capacity: 3 };
    assert!(memory.memory_store().is_ok());
    assert!(memory.sqlite_path().is_err());
    let sqlite: TaskStoreConfig<String, u8> = TaskStoreConfig::Sqlite { path: "tasks.db".to_owned() };
    assert_eq!(sqlite.sqlite_path().expect("path"), "tasks.db");
    assert!(sqlite.memory_store().is_err());
    let custom: TaskStoreConfig<String, u8> = TaskStoreConfig::custom(9);
    assert_eq!(custom.downcast_ref(), Some(&9));
    assert_eq!(memory.downcast_ref(), None);
    assert_eq!(FAIR_FIFO_PROVIDER_ID, "qubit.task.scheduler.fair-fifo");
}
