use std::cell::Cell;
use std::rc::Rc;
use std::sync::mpsc::channel;
use std::sync::mpsc::Receiver;
use std::sync::mpsc::Sender;

use qubit_task::engine::EngineError;
use qubit_task::engine::ExecutionOutcome;
use qubit_task::engine::LocalTaskExecutionEngine;
use qubit_task::handler::TaskHandlerDescriptor;
use qubit_task::handler::TaskHandlerRegistry;
use qubit_task::handler::TaskRunOutcome;
use qubit_task::handler::TaskRunResult;
use qubit_task::model::task_record::initial_record;
use qubit_task::model::ResourceCapacity;
use qubit_task::model::ResourceRequest;
use qubit_task::model::TaskId;
use qubit_task::model::TaskOutput;
use qubit_task::model::TaskQuery;
use qubit_task::model::TaskRecord;
use qubit_task::model::TaskRequest;
use qubit_task::model::TaskRunError;
use qubit_task::model::TaskState;
use qubit_task::model::TaskStateKind;
use qubit_task::model::TaskStats;
use qubit_task::scheduling::FairFifoPolicy;
use qubit_task::scheduling::QueuedTask;
use qubit_task::scheduling::SchedulingPolicy;
use qubit_task::service::attempts::FinishStep;
use qubit_task::service::control::CancelDone;
use qubit_task::service::control::CancelStep;
use qubit_task::service::control::DrainStep;
use qubit_task::service::control::RetryStep;
use qubit_task::service::control::WaitStep;
use qubit_task::service::local_task::local_result;
use qubit_task::service::scheduler::find_handler;
use qubit_task::service::scheduler::ActivationStep;
use qubit_task::service::scheduler::CandidateStep;
use qubit_task::service::scheduler::ConfirmStep;
use qubit_task::service::scheduler::RoundStart;
use qubit_task::service::scheduler::SchedulerRound;
use qubit_task::service::service_core::ServiceCore;
use qubit_task::service::service_core::StoreFault;
use qubit_task::service::submission::SubmitStep;
use qubit_task::service::CancelOutcome;
use qubit_task::service::LocalTaskResultError;
use qubit_task::service::RetryPolicy;
use qubit_task::service::TaskExecutionServiceBuilder;
use qubit_task::service::TaskServiceCapabilities;
use qubit_task::service::TaskServiceError;
use qubit_task::store::MemoryTaskStore;
use qubit_task::store::StoreError;

type Handler = Rc<dyn Fn(u32) -> ExecutionOutcome>;
type Final = Sender<Result<TaskState, LocalTaskResultError>>;
type Signal = Rc<Cell<bool>>;
type Core = ServiceCore<Handler, Final, Signal>;
type Builder = TaskExecutionServiceBuilder<MemoryTaskStore, LocalTaskExecutionEngine, FairFifoPolicy, Handler>;

/// One attempt that was started and has not ended.
struct Attempt {
    running: TaskRecord,
    handler: Handler,
    release: u64,
    signal: Signal,
}

/// Runs a service step by step, on a clock of its own.
struct Driver {
    core: Core,
    store: MemoryTaskStore,
    engine: LocalTaskExecutionEngine,
    policy: FairFifoPolicy,
    handlers: TaskHandlerRegistry<Handler>,
    now: u64,
    attempts: Vec<Attempt>,
    store_down: bool,
}

impl Driver {
    fn new(builder: Builder) -> Driver {
        let store = builder.store.as_ref().expect("store");
        builder.check(store.capabilities()).expect("valid configuration");
        let core: Core = builder.start(Vec::new(), None);
        Driver {
            core,
            store: builder.store.expect("store"),
            engine: builder.engine.expect("engine"),
            policy: builder.policy.expect("policy"),
            handlers: builder.handlers,
            now: 1_000,
            attempts: Vec::new(),
            store_down: false,
        }
    }

    fn read(&self, id: TaskId) -> Result<Option<TaskRecord>, StoreError> {
        if self.store_down {
            Err(StoreError::Failure("disk".to_owned()))
        } else {
            Ok(self.store.get(id))
        }
    }

    fn tell(fault: Option<StoreFault<Final>>) {
        if let Some(fault) = fault {
            for sender in fault.finalizations {
                let _ = sender.send(Err(LocalTaskResultError::StoreUnavailable(fault.diagnostic.clone())));
            }
        }
    }

    fn submit(&mut self, request: TaskRequest) -> Result<TaskRecord, TaskServiceError> {
        let reservation = self.core.reserve_admission(request.payload.len())?;
        let capacity = self.engine.capacity().capacity;
        if let Err(error) = self.core.submit_start(&request, &capacity) {
            self.core.release_admission(reservation);
            return Err(error);
        }
        let mut rechecking = false;
        let reply = loop {
            let key = request.idempotency_key.clone().expect("checked");
            let found = if self.store_down {
                Err(StoreError::Failure("disk".to_owned()))
            } else {
                Ok(self.store.get_by_idempotency_key(&key))
            };
            match self.core.submit_lookup(&request, found, rechecking) {
                SubmitStep::Reply(reply) => break reply,
                SubmitStep::Recheck => rechecking = true,
                SubmitStep::Accept => {
                    let resources = request.resources.clone();
                    let outcome = self.store.accept(TaskId::generate(), request.clone(), self.now);
                    break self.core.submit_accepted(resources, outcome);
                }
            }
        };
        self.core.release_admission(reservation);
        Driver::tell(reply.fault);
        reply.result
    }

    fn submit_local(
        &mut self,
        handler: Handler,
    ) -> Result<(TaskId, Receiver<Result<TaskState, LocalTaskResultError>>), TaskServiceError> {
        let id = TaskId::generate();
        let (sender, receiver) = channel();
        let capacity = self.engine.capacity().capacity;
        let recovers = self.store.capabilities().restart_recovery;
        let request = self.core.submit_local_start(recovers, id, &capacity, sender)?;
        let resources = request.resources.clone();
        let outcome = self.store.accept(id, request, self.now);
        let reply = self.core.submit_local_accepted(id, resources, handler, outcome);
        Driver::tell(reply.fault);
        reply.result.map(|record| (record.id, receiver))
    }

    /// One scheduling pass; false when the scheduler has ended.
    fn pass(&mut self) -> bool {
        let mut round = match SchedulerRound::start(&mut self.core, self.now) {
            RoundStart::Stop => return false,
            RoundStart::Idle { deadline } => {
                if let Some(deadline) = deadline {
                    self.now = self.now.max(deadline);
                }
                return true;
            }
            RoundStart::Run(round) => round,
        };
        let snapshot = round.snapshot(self.core.settings().scan_budget);
        round.consider(self.policy.order(&snapshot, &self.engine.capacity()));
        let mut step = round.next(&mut self.core);
        let mut chosen: Option<Handler> = None;
        let mut release: Option<u64> = None;
        let mut slot = false;
        loop {
            step = match step {
                CandidateStep::Load(task) => {
                    let found = self.read(task.id);
                    round.loaded(&mut self.core, task, found, self.now)
                }
                CandidateStep::Resolve { task, record } => {
                    chosen = find_handler(&self.core, &self.handlers, &record).cloned();
                    round.resolved(task, record, chosen.is_some())
                }
                CandidateStep::Prepare { task, record } => {
                    if !self.core.acquire_running_slot() {
                        round.no_slot(task)
                    } else {
                        slot = true;
                        match self.engine.prepare(task.id, record.request.resources.clone()) {
                            Ok(mut prepared) => {
                                let step = round.prepared(
                                    &mut self.core,
                                    task,
                                    &record,
                                    Ok(prepared.assigned_resources()),
                                );
                                release = prepared.take_release();
                                step
                            }
                            Err(error) => round.prepared(&mut self.core, task, &record, Err(error)),
                        }
                    }
                }
                CandidateStep::Block { task, command } => {
                    let updated = self.store.transition(command, self.now);
                    round.blocked(&mut self.core, task, updated)
                }
                CandidateStep::Start { task, command } => {
                    let updated = self.store.transition(command, self.now);
                    round.started(&mut self.core, task, updated)
                }
                CandidateStep::Activate(running) => {
                    let signal: Signal = Rc::new(Cell::new(false));
                    round.activated(&mut self.core, &running, signal.clone());
                    let found = self.read(running.id);
                    match round.confirmed(&mut self.core, &running, found) {
                        ConfirmStep::Running { signal: early } => signal.set(early),
                        ConfirmStep::Stop { fault } => {
                            Driver::tell(Some(fault));
                            return false;
                        }
                    }
                    self.attempts.push(Attempt {
                        running,
                        handler: chosen.take().expect("resolved"),
                        release: release.take().expect("prepared"),
                        signal,
                    });
                    slot = false;
                    round.next(&mut self.core)
                }
                CandidateStep::Next { finalize } => {
                    if let Some((sender, state)) = finalize {
                        let _ = sender.send(Ok(state));
                    }
                    if let Some(token) = release.take() {
                        self.engine.release(token);
                    }
                    if slot {
                        self.core.release_running_slot();
                        slot = false;
                    }
                    round.next(&mut self.core)
                }
                CandidateStep::Finish => {
                    if slot {
                        self.core.release_running_slot();
                    }
                    round.finish(&mut self.core);
                    return true;
                }
                CandidateStep::Stop { fault } => {
                    Driver::tell(fault);
                    return false;
                }
            };
        }
    }

    /// Lets the oldest started attempt end.
    fn end_one(&mut self) {
        let attempt = self.attempts.remove(0);
        let outcome = (attempt.handler)(attempt.running.attempt);
        self.engine.release(attempt.release);
        let id = attempt.running.id;
        let end = self.core.finish_attempt(id, attempt.running.attempt, outcome, self.now);
        loop {
            let found = self.read(id);
            let mut step = self.core.finish_loaded(attempt.running.attempt, &end, found);
            if let FinishStep::Transition(command) = step {
                let updated = self.store.transition(command, self.now);
                step = self.core.finish_transitioned(&end, updated);
            }
            match step {
                FinishStep::Transition(_) => unreachable!("a transition is answered"),
                FinishStep::Reload => {}
                FinishStep::Done { finalize, fault } => {
                    if let Some((sender, state)) = finalize {
                        let _ = sender.send(Ok(state));
                    }
                    Driver::tell(fault);
                    break;
                }
            }
        }
        self.core.release_running_slot();
    }

    fn wait(&mut self, id: TaskId) -> Result<TaskRecord, TaskServiceError> {
        loop {
            self.core.wait_check()?;
            let found = self.read(id);
            match self.core.wait_loaded(found) {
                WaitStep::Reply(reply) => {
                    Driver::tell(reply.fault);
                    return reply.result;
                }
                WaitStep::Wait => {}
            }
            if self.attempts.is_empty() {
                assert!(self.pass());
            } else {
                self.end_one();
            }
        }
    }

    fn cancel(&mut self, id: TaskId) -> Result<CancelOutcome, TaskServiceError> {
        self.core.enter()?;
        let mut tried = None;
        loop {
            let found = self.read(id);
            let (record, command) = match self.core.cancel_loaded(found, tried) {
                CancelStep::Reply { result, fault } => {
                    Driver::tell(fault);
                    return result;
                }
                CancelStep::Transition { record, command } => (record, command),
            };
            tried = Some(record.state_version);
            let updated = self.store.transition(command, self.now);
            let attempt = updated.as_ref().map_or(0, |record| record.attempt);
            match self.core.cancel_transitioned(&record, updated) {
                CancelDone::Reload => {}
                CancelDone::Reply { result, finalize, signal, fault } => {
                    if let Some(sender) = finalize {
                        let _ = sender.send(Ok(TaskState::Cancelled));
                    }
                    if signal {
                        self.core.cancellation(id, attempt).expect("running").set(true);
                    }
                    Driver::tell(fault);
                    return result;
                }
            }
        }
    }

    fn retry_blocked(&mut self, id: TaskId) -> Result<TaskRecord, TaskServiceError> {
        self.core.enter_healthy()?;
        let found = self.read(id);
        let command = match self.core.retry_loaded(found) {
            RetryStep::Reply { error, fault } => {
                Driver::tell(fault);
                return Err(error);
            }
            RetryStep::Transition(command) => command,
        };
        let updated = self.store.transition(command, self.now);
        let reply = self.core.retry_transitioned(id, updated);
        Driver::tell(reply.fault);
        reply.result
    }

    fn abandon_blocked(&mut self, id: TaskId, version: u64) -> Result<TaskRecord, TaskServiceError> {
        self.core.enter_healthy()?;
        let current = self.store.get(id).expect("known");
        let updated = self.store.abandon_blocked(id, version, self.now);
        let (reply, sender) = self.core.abandon_transitioned(&current, updated);
        if let Some(sender) = sender {
            let _ = sender.send(Ok(TaskState::Cancelled));
        }
        reply.result
    }

    fn shutdown(&mut self) -> Result<(), TaskServiceError> {
        if self.core.begin_shutdown() {
            assert_eq!(self.core.active(), 0);
            loop {
                let counts = self.store.count_states();
                match self.core.drain_check(Ok(counts)) {
                    DrainStep::Fail { error, fault } => {
                        Driver::tell(fault);
                        self.core.finish_shutdown(Err(error));
                        break;
                    }
                    DrainStep::Settled => {
                        let counts = self.store.count_states();
                        assert!(matches!(self.core.drain_confirm(Ok(counts)), DrainStep::Settled));
                        let (result, fault) = self.core.drain_finish(None);
                        Driver::tell(fault);
                        self.core.finish_shutdown(result);
                        break;
                    }
                    DrainStep::Wait => {
                        if self.attempts.is_empty() {
                            self.pass();
                        } else {
                            self.end_one();
                        }
                    }
                }
            }
        }
        self.core.shutdown_result().expect("published")
    }
}

fn replying(result: fn(u32) -> TaskRunResult) -> Handler {
    Rc::new(move |attempt| ExecutionOutcome::Returned(result(attempt)))
}

fn echo() -> Handler {
    replying(|_| Ok(TaskRunOutcome::Succeeded(TaskOutput::default())))
}

fn failing(retryable: bool) -> Handler {
    Rc::new(move |_| {
        ExecutionOutcome::Returned(Err(TaskRunError {
            category: "io".to_owned(),
            message: "broken".to_owned(),
            retryable,
        }))
    })
}

fn key(task_type: &str) -> TaskHandlerDescriptor {
    TaskHandlerDescriptor { task_type: task_type.to_owned(), version: "1".to_owned() }
}

fn request(task_type: &str, key: &str) -> TaskRequest {
    TaskRequest::new(task_type, "1", Vec::new()).with_idempotency_key(key)
}

fn builder(cpu_slots: u32) -> Builder {
    let capacity = ResourceCapacity { cpu_slots, ..ResourceCapacity::default() };
    let mut registry: TaskHandlerRegistry<Handler> = TaskHandlerRegistry::new();
    registry.register(key("builder-test"), echo()).expect("new key");
    registry
        .register(
            key("retry-once"),
            replying(|attempt| {
                if attempt == 1 {
                    Err(TaskRunError {
                        category: "retry".to_owned(),
                        message: "try again".to_owned(),
                        retryable: true,
                    })
                } else {
                    Ok(TaskRunOutcome::Succeeded(TaskOutput::default()))
                }
            }),
        )
        .expect("new key");
    registry.register(key("flaky"), failing(true)).expect("new key");
    registry.register(key("broken"), failing(false)).expect("new key");
    registry
        .register(key("panics"), Rc::new(|_| ExecutionOutcome::Panicked("\u{e9}".repeat(3_000))))
        .expect("new key");
    registry
        .register(key("stops"), Rc::new(|_| ExecutionOutcome::WorkerStopped("gone".to_owned())))
        .expect("new key");
    registry
        .register(
            key("talks"),
            replying(|_| Ok(TaskRunOutcome::Succeeded(TaskOutput { summary: vec![0; 65_537] }))),
        )
        .expect("new key");
    registry
        .register(
            key("wordy"),
            Rc::new(|_| {
                ExecutionOutcome::Returned(Err(TaskRunError {
                    category: "c".repeat(500),
                    message: "x".repeat(5_000),
                    retryable: true,
                }))
            }),
        )
        .expect("new key");
    registry.register(key("yields"), replying(|_| Ok(TaskRunOutcome::Cancelled))).expect("new key");
    TaskExecutionServiceBuilder::from_components(
        1,
        MemoryTaskStore::new(16),
        LocalTaskExecutionEngine::new(capacity.clone()),
        FairFifoPolicy::default(),
    )
    .register_handler(key("builder-test"), echo())
    .expect("new key")
    .handlers(registry)
    .capacity(capacity)
    .queue_capacity(8)
    .max_running_tasks(2)
    .scan_budget(8)
    .max_attempts(2)
    .require_recovery(false)
}

#[test]
fn test_public_builder_and_service_lifecycle_contracts() {
    let mut service = Driver::new(builder(1).event_bus_buffer_capacity(4));
    let capabilities = TaskServiceCapabilities::of(service.store.capabilities());
    assert!(!capabilities.store.restart_recovery);
    assert!(capabilities.submit_local);
    assert_eq!(service.core.last_store_error(), None);
    assert!(service.store.get(TaskId::generate()).is_none());

    let accepted = service.submit(request("builder-test", "builder-test-submit")).expect("accepted");
    assert!(matches!(service.wait(accepted.id).expect("done").state, TaskState::Succeeded));
    assert!(service.store.get(accepted.id).is_some());
    assert_eq!(service.store.list(TaskQuery::default()).expect("page").records.len(), 1);
    let stats = TaskStats::of(service.store.count_states(), service.engine.capacity());
    assert_eq!(stats.terminal, 1);
    assert!(matches!(service.cancel(accepted.id), Ok(CancelOutcome::AlreadyTerminal)));

    let (local, receiver) = service.submit_local(echo()).expect("accepted");
    let record = service.store.get(local).expect("kept");
    assert_eq!(record.id, local);
    assert_eq!(record.request.task_type, format!("local:{}", local.text()));
    service.wait(local).expect("done");
    let state = receiver.recv().expect("finalized").expect("finished");
    let result: Result<Result<u8, String>, LocalTaskResultError> = local_result(state, Some(Ok(7)));
    assert_eq!(result.expect("succeeded").expect("value"), 7);

    let retrying = service.submit(request("retry-once", "builder-retry-once")).expect("accepted");
    let retried = service.wait(retrying.id).expect("done");
    assert_eq!(retried.attempt, 2);
    assert!(matches!(retried.state, TaskState::Succeeded));

    let blocked = service.submit(request("missing", "builder-missing-handler")).expect("accepted");
    assert!(matches!(service.wait(blocked.id), Err(TaskServiceError::Blocked)));
    service.retry_blocked(blocked.id).expect("requeued");
    assert!(matches!(service.wait(blocked.id), Err(TaskServiceError::Blocked)));
    assert!(matches!(service.cancel(blocked.id), Ok(CancelOutcome::CancelledBeforeStart)));
    assert!(matches!(
        service.cancel(TaskId::generate()),
        Err(TaskServiceError::Store(StoreError::NotFound))
    ));
    service.shutdown().expect("drained");

    let mut memory_service = Driver::new(
        Builder::in_memory(4)
            .engine(LocalTaskExecutionEngine::new(ResourceCapacity::default()))
            .policy(FairFifoPolicy::default()),
    );
    memory_service.shutdown().expect("drained");
}

#[test]
fn repeated_submissions_share_one_record() {
    let mut service = Driver::new(builder(1));
    let first = service.submit(request("builder-test", "k")).expect("accepted");
    let again = service.submit(request("builder-test", "k")).expect("replayed");
    assert_eq!(first.id, again.id);
    assert!(matches!(
        service.submit(request("other", "k")),
        Err(TaskServiceError::Store(StoreError::IdempotencyConflict))
    ));
    assert_eq!(service.core.queue_count(), 1);
    service.wait(first.id).expect("done");
    assert_eq!(service.core.queue_count(), 0);
    let after = service.submit(request("builder-test", "k")).expect("replayed");
    assert!(matches!(after.state, TaskState::Succeeded));
    assert_eq!(service.core.queue_count(), 0);
}

#[test]
fn submissions_are_validated() {
    let mut service = Driver::new(builder(1));
    let message = |error: TaskServiceError| error.message();
    let missing = "invalid task request: task submission requires a non-empty idempotency key";
    assert_eq!(
        message(service.submit(TaskRequest::new("t", "1", Vec::new())).expect_err("no key")),
        missing
    );
    assert_eq!(message(service.submit(request("t", "")).expect_err("empty key")), missing);
    let mut large = request("t", "k");
    large.resources.cpu_slots = 2;
    assert!(matches!(service.submit(large), Err(TaskServiceError::Unsatisfiable)));
    let mut unnamed = request("t", "k");
    unnamed.resources.gpu_labels.push(String::new());
    assert_eq!(
        message(service.submit(unnamed).expect_err("unnamed")),
        "invalid task request: resource names and GPU labels must not be empty"
    );
    assert_eq!(service.core.active(), 0);
}

#[test]
fn a_full_queue_refuses_new_tasks_but_answers_replays() {
    let mut service = Driver::new(builder(1).queue_capacity(1));
    let first = service.submit(request("builder-test", "a")).expect("accepted");
    assert!(matches!(service.submit(request("builder-test", "b")), Err(TaskServiceError::QueueFull)));
    assert_eq!(service.submit(request("builder-test", "a")).expect("replayed").id, first.id);
    assert!(matches!(service.submit_local(echo()), Err(TaskServiceError::QueueFull)));
    service.wait(first.id).expect("done");
    service.submit(request("builder-test", "b")).expect("accepted");
}

#[test]
fn in_flight_payloads_are_bounded() {
    let mut service = Driver::new(builder(1).max_inflight_payload_bytes(10).max_inflight_submissions(2));
    let held = service.core.reserve_admission(8).expect("fits");
    assert!(service.core.holds_admission(&held));
    match service.core.reserve_admission(3) {
        Err(TaskServiceError::PayloadBudgetExceeded { requested_bytes, available_bytes }) => {
            assert_eq!((requested_bytes, available_bytes), (3, 2));
        }
        _ => panic!("the budget is used up"),
    }
    let second = service.core.reserve_admission(2).expect("fits");
    let error = service.core.reserve_admission(0).expect_err("two are in flight");
    assert_eq!(error.message(), "in-flight task submission limit reached (2)");
    service.core.release_admission(held);
    service.core.release_admission(second);
    service.core.reserve_admission(10).expect("all bytes are back");
}

#[test]
fn attempts_end_as_their_outcomes_say() {
    let mut service = Driver::new(builder(1));
    let broken = service.submit(request("broken", "a")).expect("accepted");
    match service.wait(broken.id).expect("done").state {
        TaskState::Failed { category, message } => {
            assert_eq!((category.as_str(), message.as_str()), ("io", "broken"));
        }
        _ => panic!("a final error fails the task"),
    }
    let flaky = service.submit(request("flaky", "b")).expect("accepted");
    assert!(matches!(service.wait(flaky.id), Err(TaskServiceError::Blocked)));
    let record = service.store.get(flaky.id).expect("kept");
    assert_eq!(record.attempt, 2);
    assert!(matches!(record.state, TaskState::Blocked { reason } if reason == "retry limit reached: broken"));
    assert!(matches!(
        service.retry_blocked(flaky.id),
        Err(TaskServiceError::AttemptsExhausted { attempts: 2, limit: 2 })
    ));
    let panics = service.submit(request("panics", "c")).expect("accepted");
    match service.wait(panics.id).expect("done").state {
        TaskState::Panicked { message } => assert_eq!(message, "\u{e9}".repeat(2_048)),
        _ => panic!("a panic is recorded"),
    }
    let stops = service.submit(request("stops", "d")).expect("accepted");
    assert!(matches!(service.wait(stops.id), Err(TaskServiceError::Blocked)));
    let record = service.store.get(stops.id).expect("kept");
    assert!(matches!(
        record.state,
        TaskState::Blocked { reason } if reason == "execution worker stopped after retry limit"
    ));
    let talks = service.submit(request("talks", "e")).expect("accepted");
    let record = service.wait(talks.id).expect("done");
    assert!(record.output.is_none());
    assert!(matches!(record.state, TaskState::Failed { category, .. } if category == "output_too_large"));
    let wordy = service.submit(request("wordy", "g")).expect("accepted");
    assert!(matches!(service.wait(wordy.id), Err(TaskServiceError::Blocked)));
    match service.store.get(wordy.id).expect("kept").state {
        TaskState::Blocked { reason } => {
            assert_eq!(reason.len(), 4_096);
            assert!(reason.starts_with("retry limit reached: xxx"));
        }
        _ => panic!("retries are used up"),
    }
    let yields = service.submit(request("yields", "f")).expect("accepted");
    assert!(matches!(service.wait(yields.id).expect("done").state, TaskState::Cancelled));
}

#[test]
fn retries_wait_for_their_deadline() {
    let mut service = Driver::new(builder(1));
    let task = service.submit(request("retry-once", "a")).expect("accepted");
    assert!(service.pass());
    service.end_one();
    let record = service.store.get(task.id).expect("kept");
    assert!(matches!(record.state, TaskState::Queued));
    let deadline = record.retry_not_before_ms.expect("delayed");
    assert_eq!(deadline, service.now + RetryPolicy::default().initial_delay().as_millis() as u64);
    assert_eq!(service.core.next_deadline(), Some(deadline));
    assert_eq!(service.core.queue_count(), 1);
}

#[test]
fn full_queues_block_retries() {
    let mut service = Driver::new(builder(2).queue_capacity(1));
    let task = service.submit(request("retry-once", "a")).expect("accepted");
    assert!(service.pass());
    service.submit(request("builder-test", "b")).expect("accepted");
    service.end_one();
    let record = service.store.get(task.id).expect("kept");
    assert!(matches!(
        record.state,
        TaskState::Blocked { reason } if reason == "retry queue is full; call retry_blocked when capacity is available"
    ));
    assert!(matches!(service.retry_blocked(task.id), Err(TaskServiceError::QueueFull)));
}

#[test]
fn running_tasks_are_asked_to_stop() {
    let mut service = Driver::new(builder(1));
    let task = service.submit(request("builder-test", "a")).expect("accepted");
    assert!(service.pass());
    assert!(!service.attempts[0].signal.get());
    assert!(matches!(service.cancel(task.id), Ok(CancelOutcome::CancellationRequested)));
    assert!(service.attempts[0].signal.get());
    let record = service.store.get(task.id).expect("kept");
    assert!(record.cancel_requested && matches!(record.state, TaskState::Running));
    // The handler did not acknowledge, so its result stands.
    assert!(matches!(service.wait(task.id).expect("done").state, TaskState::Succeeded));
    assert!(matches!(service.cancel(task.id), Ok(CancelOutcome::AlreadyTerminal)));
}

#[test]
fn queued_tasks_are_cancelled_at_once() {
    let mut service = Driver::new(builder(1));
    let (local, receiver) = service.submit_local(echo()).expect("accepted");
    assert!(matches!(service.cancel(local), Ok(CancelOutcome::CancelledBeforeStart)));
    assert_eq!(service.core.queue_count(), 0);
    assert!(service.core.queue_is_empty());
    let state = receiver.recv().expect("finalized").expect("told");
    let result: Result<Result<u8, String>, LocalTaskResultError> = local_result(state, None);
    assert!(matches!(result, Err(LocalTaskResultError::Cancelled)));
    assert!(service.pass());
    assert!(service.attempts.is_empty());
}

#[test]
fn blocked_tasks_are_abandoned_by_revision() {
    let mut service = Driver::new(builder(1));
    let task = service.submit(request("missing", "a")).expect("accepted");
    assert!(matches!(
        service.abandon_blocked(task.id, task.state_version),
        Err(TaskServiceError::NotBlocked { state: TaskStateKind::Queued })
    ));
    assert!(service.wait(task.id).is_err());
    let blocked = service.store.get(task.id).expect("kept");
    assert!(matches!(&blocked.state, TaskState::Blocked { reason } if reason == "missing handler missing@1"));
    assert!(matches!(
        service.abandon_blocked(task.id, blocked.state_version + 1),
        Err(TaskServiceError::Store(StoreError::Conflict))
    ));
    let gone = service.abandon_blocked(task.id, blocked.state_version).expect("abandoned");
    assert!(matches!(gone.state, TaskState::Cancelled));
    assert!(matches!(service.retry_blocked(task.id), Err(TaskServiceError::Blocked)));
}

#[test]
fn execution_slots_are_bounded() {
    let mut service = Driver::new(builder(8).max_running_tasks(2));
    for name in ["a", "b", "c"] {
        service.submit(request("builder-test", name)).expect("accepted");
    }
    assert!(service.pass());
    assert_eq!(service.attempts.len(), 2);
    assert_eq!(service.core.running_count(), 2);
    assert_eq!(service.core.queue_count(), 1);
    service.end_one();
    assert!(service.pass());
    assert_eq!(service.attempts.len(), 2);
}

#[test]
fn overtaken_tasks_are_tried_alone_in_the_end() {
    let mut service = Driver::new(builder(2).max_running_tasks(8).queue_capacity(64));
    service.submit(request("builder-test", "small")).expect("accepted");
    assert!(service.pass());
    let mut wide = request("builder-test", "wide");
    wide.resources.cpu_slots = 2;
    let wide = service.submit(wide).expect("accepted");
    for i in 0..8 {
        service.submit(request("builder-test", &format!("small-{i}"))).expect("accepted");
        assert!(service.pass());
        assert_eq!(service.attempts.len(), 2);
        service.end_one();
    }
    service.submit(request("builder-test", "late")).expect("accepted");
    assert!(service.pass());
    assert_eq!(service.attempts.len(), 1);
    service.end_one();
    assert!(service.pass());
    assert_eq!(service.attempts.len(), 1);
    assert_eq!(service.attempts[0].running.id, wide.id);
}

#[test]
fn store_failures_pause_the_service() {
    let mut service = Driver::new(builder(1));
    let (local, receiver) = service.submit_local(echo()).expect("accepted");
    service.store_down = true;
    let diagnostic = "task store failure: disk";
    assert!(!service.pass());
    assert_eq!(service.core.last_store_error().as_deref(), Some(diagnostic));
    assert!(matches!(
        receiver.recv().expect("told"),
        Err(LocalTaskResultError::StoreUnavailable(message)) if message == diagnostic
    ));
    assert_eq!(service.core.queue_count(), 1);
    assert!(!service.core.queue_is_empty());
    assert!(matches!(
        service.submit(request("builder-test", "a")),
        Err(TaskServiceError::StoreUnavailable(message)) if message == diagnostic
    ));
    assert!(matches!(service.cancel(local), Err(TaskServiceError::ShuttingDown)));
    assert!(matches!(service.wait(local), Err(TaskServiceError::StoreUnavailable(_))));
    assert!(!service.pass());
}

#[test]
fn shutdown_drains_accepted_work() {
    let mut service = Driver::new(builder(1));
    let task = service.submit(request("retry-once", "a")).expect("accepted");
    service.shutdown().expect("drained");
    assert!(matches!(service.store.get(task.id).expect("kept").state, TaskState::Succeeded));
    assert!(matches!(service.submit(request("builder-test", "b")), Err(TaskServiceError::ShuttingDown)));
    assert!(matches!(service.submit_local(echo()), Err(TaskServiceError::ShuttingDown)));
    assert!(service.shutdown().is_ok());
    assert!(!service.pass());
}

#[test]
fn the_second_look_of_shutdown_goes_by_the_counts_alone() {
    let mut service = Driver::new(builder(1));
    assert!(service.core.begin_shutdown());
    Driver::tell(Some(service.core.record_store_fault("disk".to_owned())));
    let counts = service.store.count_states();
    assert!(matches!(
        service.core.drain_check(Ok(counts)),
        DrainStep::Fail { error: TaskServiceError::StoreUnavailable(message), fault: None } if message == "disk"
    ));
    assert!(matches!(service.core.drain_confirm(Ok(counts)), DrainStep::Settled));
    let mut busy = counts;
    busy.running = 1;
    assert!(matches!(service.core.drain_confirm(Ok(busy)), DrainStep::Wait));
    assert!(matches!(
        service.core.drain_confirm(Err(StoreError::NotFound)),
        DrainStep::Fail { error: TaskServiceError::Store(StoreError::NotFound), fault: None }
    ));
}

#[test]
fn a_task_listed_twice_counts_at_its_last_place() {
    let recovered: Vec<QueuedTask> = [1u128, 2, 1]
        .into_iter()
        .map(|id| QueuedTask {
            id: TaskId(id),
            resources: ResourceRequest::default(),
            retry_not_before_ms: None,
            bypasses: 0,
        })
        .collect();
    let mut core: Core = builder(1).start(recovered, None);
    let mut round = match SchedulerRound::start(&mut core, 0) {
        RoundStart::Run(round) => round,
        _ => panic!("tasks are due"),
    };
    round.consider(vec![TaskId(1)]);
    assert!(matches!(round.next(&mut core), CandidateStep::Load(task) if task.id == TaskId(1)));
    let mut running = initial_record(TaskId(1), request("builder-test", "a"), 0);
    running.state = TaskState::Running;
    running.attempt = 1;
    round.activated(&mut core, &running, Rc::new(Cell::new(false)));
    assert!(matches!(
        round.confirmed(&mut core, &running, Ok(None)),
        ConfirmStep::Running { signal: false }
    ));
    assert!(matches!(round.next(&mut core), CandidateStep::Finish));
    assert!(round.finish(&mut core));
    let left: Vec<(u128, u32)> = core.take_window(0).iter().map(|task| (task.id.0, task.bypasses)).collect();
    assert_eq!(left, vec![(2, 1), (1, 0)]);
}

#[test]
fn failed_activations_block_the_task() {
    let mut service = Driver::new(builder(1));
    let task = service.submit(request("builder-test", "a")).expect("accepted");
    let mut round = match SchedulerRound::start(&mut service.core, service.now) {
        RoundStart::Run(round) => round,
        _ => panic!("a task is due"),
    };
    round.consider(vec![TaskId(1), task.id]);
    let entry = match round.next(&mut service.core) {
        CandidateStep::Load(entry) => entry,
        _ => panic!("unknown candidates are passed over"),
    };
    let found = service.read(entry.id);
    let (entry, record) = match round.loaded(&mut service.core, entry, found, service.now) {
        CandidateStep::Resolve { task, record } => (task, record),
        _ => panic!("the task is queued"),
    };
    let assigned: Vec<String> = Vec::new();
    let command = match round.prepared(&mut service.core, entry.clone(), &record, Ok(&assigned)) {
        CandidateStep::Start { command, .. } => command,
        _ => panic!("resources are reserved"),
    };
    let updated = service.store.transition(command, service.now);
    let running = match round.started(&mut service.core, entry, updated) {
        CandidateStep::Activate(running) => running,
        _ => panic!("the attempt is started"),
    };
    // The task changes before it is blocked, so it is read again.
    assert!(matches!(service.cancel(task.id), Ok(CancelOutcome::CancellationRequested)));
    let attempt = running.attempt;
    let step: ActivationStep<Final> = round.activation_failed(running, EngineError::Closed);
    let command = match step {
        ActivationStep::Block { command, .. } => command,
        _ => panic!("a failed activation blocks the task"),
    };
    let updated = service.store.transition(command, service.now);
    assert!(matches!(round.activation_blocked(&mut service.core, updated), ActivationStep::Reload));
    let found = service.read(task.id);
    let step = round.activation_reloaded(&mut service.core, attempt, EngineError::Closed, found);
    let command = match step {
        ActivationStep::Block { command, .. } => command,
        _ => panic!("the same attempt still runs"),
    };
    let updated = service.store.transition(command, service.now);
    assert!(matches!(
        round.activation_blocked(&mut service.core, updated),
        ActivationStep::Next { finalize: None }
    ));
    assert!(!round.finish(&mut service.core));
    assert!(matches!(
        service.store.get(task.id).expect("kept").state,
        TaskState::Blocked { reason } if reason == "engine activation failed: task execution engine is shut down"
    ));
}
