use qubit_task::engine::EngineError;
use qubit_task::engine::LocalTaskExecutionEngine;
use qubit_task::engine::PreparedExecution;
use qubit_task::handler::RegistryError;
use qubit_task::handler::TaskContext;
use qubit_task::handler::TaskHandlerDescriptor;
use qubit_task::handler::TaskHandlerRegistry;
use qubit_task::model::NameMap;
use qubit_task::model::ResourceCapacity;
use qubit_task::model::ResourceRequest;
use qubit_task::model::TaskId;
use qubit_task::scheduling::FairFifoPolicy;
use qubit_task::scheduling::QueueSnapshot;
use qubit_task::scheduling::QueuedTask;
use qubit_task::scheduling::SchedulingPolicy;
use qubit_task::service::scheduler_queue::SchedulerQueue;

fn task(retry_not_before_ms: Option<u64>) -> QueuedTask {
    QueuedTask {
        id: TaskId::generate(),
        resources: ResourceRequest::default(),
        retry_not_before_ms,
        bypasses: 0,
    }
}

#[test]
fn take_window_skips_far_future_tasks_and_respects_budget() {
    let mut queue = SchedulerQueue::new();
    for deadline in 1_000..2_000 {
        queue.push(task(Some(deadline)));
    }
    let ready = task(None);
    let ready_id = ready.id;
    queue.push(ready);
    let window = queue.take_window(1, 10);
    assert_eq!(window.len(), 1);
    assert_eq!(window[0].id, ready_id);
    assert_eq!(queue.len(), 1_000);
    assert_eq!(queue.next_deadline(), Some(1_000));
}

#[test]
fn restore_and_remove_preserve_queue_accounting() {
    let mut queue = SchedulerQueue::new();
    let first = task(None);
    let first_id = first.id;
    let second = task(None);
    let second_id = second.id;
    let delayed = task(Some(50));
    let delayed_id = delayed.id;
    queue.push(first);
    queue.push(second);
    queue.push(delayed);
    let window = queue.take_window(2, 0);
    queue.restore_front(window);
    assert_eq!(
        queue.take_window(2, 0).iter().map(|task| task.id).collect::<Vec<_>>(),
        vec![first_id, second_id]
    );
    assert!(queue.remove(delayed_id));
    assert!(!queue.remove(delayed_id));
    assert_eq!(queue.len(), 0);
    assert!(queue.is_empty());
}

#[test]
fn due_retries_come_first_in_deadline_order() {
    let mut queue = SchedulerQueue::new();
    let ready = task(None);
    let late = task(Some(30));
    let early = task(Some(10));
    let early_second = task(Some(10));
    let future = task(Some(99));
    let ids = [early.id, early_second.id, late.id, ready.id];
    queue.push(ready);
    queue.push(late);
    queue.push(early);
    queue.push(future);
    queue.push(early_second);
    assert_eq!(queue.next_deadline(), Some(10));
    let window = queue.take_window(10, 30);
    assert_eq!(window.iter().map(|t| t.id).collect::<Vec<_>>(), ids.to_vec());
    assert!(window.iter().all(|t| t.retry_not_before_ms.is_none()));
    assert_eq!(queue.len(), 1);
    assert_eq!(queue.take_window(0, 99).len(), 1);
}

#[test]
fn restored_retries_stand_before_their_equals() {
    let mut queue = SchedulerQueue::new();
    let first = task(Some(10));
    let second = task(Some(10));
    let ids = [second.id, first.id];
    queue.push(first);
    queue.restore_front(vec![second]);
    let window = queue.take_window(2, 10);
    assert_eq!(window.iter().map(|t| t.id).collect::<Vec<_>>(), ids.to_vec());
}

fn amounts(entries: &[(&str, u64)]) -> NameMap<u64> {
    let mut map = NameMap::new();
    for (name, value) in entries {
        map.insert(name.to_string(), *value);
    }
    map
}

fn capacity() -> ResourceCapacity {
    let mut gpus: NameMap<Vec<String>> = NameMap::new();
    gpus.insert("gpu1".to_owned(), vec!["a100".to_owned(), "nvlink".to_owned()]);
    gpus.insert("gpu0".to_owned(), vec!["a100".to_owned()]);
    gpus.insert("gpu2".to_owned(), vec!["t4".to_owned()]);
    ResourceCapacity { cpu_slots: 4, gpus, custom: amounts(&[("license", 2), ("memory", 100)]) }
}

fn demand(cpu_slots: u32, gpu_count: u32, labels: &[&str], custom: &[(&str, u64)]) -> ResourceRequest {
    ResourceRequest {
        cpu_slots,
        gpu_count,
        gpu_labels: labels.iter().map(|l| l.to_string()).collect(),
        custom: amounts(custom),
    }
}

#[test]
fn reservations_assign_devices_in_name_order_and_are_given_back() {
    let mut engine = LocalTaskExecutionEngine::new(capacity());
    let mut first = engine
        .prepare(TaskId(1), demand(1, 1, &["a100"], &[("memory", 60)]))
        .expect("fits");
    assert_eq!(first.task_id(), TaskId(1));
    assert_eq!(first.assigned_resources(), &vec!["gpu0".to_owned()]);
    let second = engine.prepare(TaskId(2), demand(1, 1, &["a100"], &[])).expect("fits");
    assert_eq!(second.assigned_resources(), &vec!["gpu1".to_owned()]);
    assert_eq!(
        engine.prepare(TaskId(3), demand(0, 1, &["a100"], &[])).expect_err("devices are taken"),
        EngineError::TemporarilyUnavailable
    );
    assert_eq!(
        engine.prepare(TaskId(3), demand(0, 0, &[], &[("memory", 41)])).expect_err("memory is taken"),
        EngineError::TemporarilyUnavailable
    );
    assert_eq!(
        engine.prepare(TaskId(3), demand(3, 0, &[], &[])).expect_err("slots are taken"),
        EngineError::TemporarilyUnavailable
    );
    let used = engine.capacity();
    assert_eq!(used.used_cpu_slots, 2);
    assert_eq!(used.used_gpus, vec!["gpu0".to_owned(), "gpu1".to_owned()]);
    assert_eq!(used.used_custom.get("memory"), Some(&60));
    let token = first.take_release().expect("held");
    assert!(first.take_release().is_none());
    engine.release(token);
    engine.release(token);
    let used = engine.capacity();
    assert_eq!(used.used_cpu_slots, 1);
    assert_eq!(used.used_gpus, vec!["gpu1".to_owned()]);
    assert_eq!(used.used_custom.len(), 0);
}

#[test]
fn impossible_demands_are_unsatisfiable() {
    let mut engine = LocalTaskExecutionEngine::new(capacity());
    for request in [
        demand(5, 0, &[], &[]),
        demand(0, 3, &["a100"], &[]),
        demand(0, 1, &["a100", "t4"], &[]),
        demand(0, 0, &[], &[("license", 3)]),
        demand(0, 0, &[], &[("unknown", 0)]),
    ] {
        assert_eq!(
            engine.prepare(TaskId(1), request).expect_err("never fits"),
            EngineError::Unsatisfiable
        );
    }
    assert_eq!(
        EngineError::Closed.message(),
        "task execution engine is shut down"
    );
    assert_eq!(engine.next_token(), 1);
}

#[test]
fn custom_amounts_add_up_over_reservations() {
    let mut engine = LocalTaskExecutionEngine::new(capacity());
    let mut tokens = Vec::new();
    for amount in [30, 30, 40] {
        let mut prepared: PreparedExecution<u64> = engine
            .prepare(TaskId(9), demand(0, 0, &[], &[("memory", amount)]))
            .expect("fits");
        tokens.push(prepared.take_release().expect("held"));
    }
    assert_eq!(engine.capacity().used_custom.get("memory"), Some(&100));
    engine.release(tokens[1]);
    assert_eq!(engine.capacity().used_custom.get("memory"), Some(&70));
    engine.release(tokens[0]);
    engine.release(tokens[2]);
    assert_eq!(engine.capacity().used_custom.get("memory"), None);
}

#[test]
fn zero_amounts_leave_the_listing_with_their_reservation() {
    let mut engine = LocalTaskExecutionEngine::new(capacity());
    let mut first = engine.prepare(TaskId(1), demand(0, 0, &[], &[("memory", 0)])).expect("fits");
    assert_eq!(engine.capacity().used_custom.get("memory"), Some(&0));
    let mut second = engine.prepare(TaskId(2), demand(0, 0, &[], &[("memory", 5)])).expect("fits");
    engine.release(second.take_release().expect("held"));
    assert_eq!(engine.capacity().used_custom.get("memory"), None);
    engine.release(first.take_release().expect("held"));
    assert_eq!(engine.capacity().used_custom.len(), 0);
}

fn entry(id: u128, cpu_slots: u32, bypasses: u32) -> QueuedTask {
    QueuedTask {
        id: TaskId(id),
        resources: demand(cpu_slots, 0, &[], &[]),
        retry_not_before_ms: None,
        bypasses,
    }
}

#[test]
fn fair_fifo_lists_startable_tasks_then_hopeless_ones() {
    let mut engine = LocalTaskExecutionEngine::new(capacity());
    engine.prepare(TaskId(100), demand(2, 0, &[], &[])).expect("fits");
    let policy = FairFifoPolicy::default();
    let queue = QueueSnapshot {
        tasks: vec![entry(1, 3, 0), entry(2, 2, 0), entry(3, 9, 0), entry(4, 1, 7)],
        scan_budget: 10,
    };
    assert_eq!(
        policy.order(&queue, &engine.capacity()),
        vec![TaskId(2), TaskId(4), TaskId(3)]
    );
    assert!(policy.order(&QueueSnapshot::default(), &engine.capacity()).is_empty());
}

#[test]
fn fair_fifo_protects_starved_tasks() {
    let engine = LocalTaskExecutionEngine::new(capacity());
    let queue = QueueSnapshot {
        tasks: vec![entry(1, 1, 0), entry(2, 9, 8), entry(3, 1, 9)],
        scan_budget: 10,
    };
    assert_eq!(FairFifoPolicy::default().order(&queue, &engine.capacity()), vec![TaskId(2)]);
    assert_eq!(
        FairFifoPolicy::new(9).order(&queue, &engine.capacity()),
        vec![TaskId(3)]
    );
    let narrow = QueueSnapshot { tasks: queue.tasks.clone(), scan_budget: 0 };
    assert_eq!(FairFifoPolicy::default().order(&narrow, &engine.capacity()), vec![TaskId(1)]);
}

fn key(task_type: &str, version: &str) -> TaskHandlerDescriptor {
    TaskHandlerDescriptor { task_type: task_type.to_owned(), version: version.to_owned() }
}

#[test]
fn handlers_resolve_by_exact_key() {
    let mut registry: TaskHandlerRegistry<&'static str> = TaskHandlerRegistry::new();
    assert!(registry.resolve("resize", "2").is_none());
    assert!(registry.register(key("resize", "2"), "first").is_ok());
    assert!(registry.register_with_source(key("resize", "1"), "second", "plugin").is_ok());
    assert_eq!(registry.resolve("resize", "2"), Some(&"first"));
    assert_eq!(registry.resolve("resize", "1"), Some(&"second"));
    assert!(registry.resolve("resize", "3").is_none());
    let error = registry
        .register_with_source(key("resize", "2"), "third", "plugin")
        .expect_err("the key is taken");
    assert_eq!(
        error.message(),
        "duplicate handler for `resize` version `2` from `direct registration` and `plugin`"
    );
    assert_eq!(registry.resolve("resize", "2"), Some(&"first"));
    let error = registry.register(key("", "2"), "x").expect_err("empty");
    assert!(matches!(error, RegistryError::InvalidDescriptor));
    assert!(error.message().contains("must not be empty"));
}

#[test]
fn contexts_describe_their_attempt() {
    let context = TaskContext::new(TaskId(4), 2, vec!["gpu0".to_owned()], 17u8);
    assert_eq!(context.task_id(), TaskId(4));
    assert_eq!(context.attempt(), 2);
    assert_eq!(context.assigned_resources(), &vec!["gpu0".to_owned()]);
    assert_eq!(*context.cancellation_signal(), 17);
}
