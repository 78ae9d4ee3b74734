use std::sync::Arc;
use std::sync::Mutex;

use qubit_task::service::execution_state::SubmissionToken;
use qubit_task::service::execution_state::TaskExecutionServiceError;
use qubit_task::service::execution_state::TaskExecutionServiceState;
use qubit_task::service::TaskStatus;

type Cancel = Arc<dyn Fn() -> bool + Send + Sync>;
type State = TaskExecutionServiceState<Cancel>;

fn inert_cancel() -> Cancel {
    Arc::new(|| false)
}

fn complete(state: &mut State, id: u64, status: TaskStatus) -> SubmissionToken {
    let token = state.reserve(id, inert_cancel()).expect("ID should be free");
    assert!(state.accept(id, &token));
    assert!(state.finish(id, &token, status));
    token
}

#[test]
fn test_state_releases_terminal_records_without_reference_cycle() {
    let state = Arc::new(Mutex::new(State::new(1)));
    let weak = Arc::downgrade(&state);
    let cancel = inert_cancel();
    let weak_cancel = Arc::downgrade(&cancel);
    {
        let mut state = state.lock().expect("state lock");
        let token = state.reserve(7, cancel).expect("ID should be free");
        assert!(state.accept(7, &token));
        assert!(state.finish(7, &token, TaskStatus::Succeeded));
    }
    assert!(weak_cancel.upgrade().is_none());
    drop(state);
    assert!(weak.upgrade().is_none());
}

#[test]
fn test_history_capacity_and_reused_id_do_not_retain_stale_entries() {
    let mut state = State::new(1);
    let first = state.reserve(7, inert_cancel()).expect("ID should be free");
    assert!(state.accept(7, &first));
    assert!(state.finish(7, &first, TaskStatus::Succeeded));
    assert_eq!(state.status(7), Some(TaskStatus::Succeeded));
    let second = state.reserve(7, inert_cancel()).expect("ID should be reusable");
    assert_eq!(state.status(7), None);
    assert!(state.accept(7, &second));
    assert!(state.finish(7, &second, TaskStatus::Failed));
    assert_eq!(state.status(7), Some(TaskStatus::Failed));
    let third = state.reserve(8, inert_cancel()).expect("ID should be free");
    assert!(state.accept(8, &third));
    assert!(state.finish(8, &third, TaskStatus::Cancelled));
    assert_eq!(state.status(7), None);
    assert_eq!(state.status(8), Some(TaskStatus::Cancelled));
    assert_eq!(state.completed_len(), 1);
    assert_eq!(state.completed_order().len(), 1);
}

#[test]
fn test_history_capacity_two_keeps_two_newest_completions() {
    let mut state = State::new(2);
    for id in 1..=3 {
        complete(&mut state, id, TaskStatus::Succeeded);
    }
    assert_eq!(state.status(1), None);
    assert_eq!(state.status(2), Some(TaskStatus::Succeeded));
    assert_eq!(state.status(3), Some(TaskStatus::Succeeded));
    assert_eq!(state.stats().total, 2);
    assert_eq!(state.completed_len(), 2);
    assert_eq!(state.completed_order().len(), 2);
}

#[test]
fn test_history_capacity_two_counts_reused_completion_once() {
    let mut state = State::new(2);
    complete(&mut state, 1, TaskStatus::Succeeded);
    complete(&mut state, 2, TaskStatus::Succeeded);

    let reused = state.reserve(2, inert_cancel()).expect("ID should be reusable");
    assert!(state.accept(2, &reused));
    assert!(state.finish(2, &reused, TaskStatus::Failed));

    assert_eq!(state.status(1), Some(TaskStatus::Succeeded));
    assert_eq!(state.status(2), Some(TaskStatus::Failed));
    assert_eq!(state.stats().total, 2);
    assert_eq!(state.completed_order().len(), state.completed_len());
    assert_eq!(state.completed_len(), 2);
}

#[test]
fn test_finishing_reused_id_while_submitting_cleans_previous_marker() {
    let mut state = State::new(2);
    for id in 1..=2 {
        complete(&mut state, id, TaskStatus::Succeeded);
    }

    let replacement = state.reserve(2, inert_cancel()).expect("ID should be reusable");
    assert!(state.finish(2, &replacement, TaskStatus::Failed));

    assert_eq!(state.status(1), Some(TaskStatus::Succeeded));
    assert_eq!(state.status(2), Some(TaskStatus::Failed));
    assert_eq!(state.stats().total, 2);
    assert_eq!(state.completed_order().len(), state.completed_len());
    assert_eq!(state.completed_len(), 2);
}

#[test]
fn test_rejected_reused_id_restores_original_history_position() {
    let mut state = State::new(2);
    for (id, status) in [(1, TaskStatus::Succeeded), (2, TaskStatus::Succeeded)] {
        complete(&mut state, id, status);
    }
    let retry = state.reserve(2, inert_cancel()).expect("ID should be reusable");
    assert_eq!(state.status(2), None);
    assert!(state.discard(2, &retry));
    assert_eq!(state.status(1), Some(TaskStatus::Succeeded));
    assert_eq!(state.status(2), Some(TaskStatus::Succeeded));
    assert_eq!(state.completed_order(), vec![1, 2]);
    assert_eq!(state.completed_order().len(), state.completed_len());

    complete(&mut state, 3, TaskStatus::Succeeded);
    assert_eq!(state.status(1), None);
    assert_eq!(state.status(2), Some(TaskStatus::Succeeded));
    assert_eq!(state.status(3), Some(TaskStatus::Succeeded));
}

#[test]
fn test_rejected_reused_id_is_not_restored_after_history_eviction() {
    let mut state = State::new(2);
    for id in 1..=2 {
        complete(&mut state, id, TaskStatus::Succeeded);
    }
    let retry = state.reserve(2, inert_cancel()).expect("ID should be reusable");

    for id in 3..=4 {
        complete(&mut state, id, TaskStatus::Succeeded);
    }
    assert!(state.discard(2, &retry));
    assert_eq!(state.status(1), None);
    assert_eq!(state.status(2), None);
    assert_eq!(state.status(3), Some(TaskStatus::Succeeded));
    assert_eq!(state.status(4), Some(TaskStatus::Succeeded));
    assert_eq!(state.stats().total, 2);
    assert_eq!(state.completed_order().len(), state.completed_len());
}

#[test]
fn test_rejected_reused_id_does_not_restore_evicted_terminal_record() {
    let mut state = State::new(1);
    complete(&mut state, 1, TaskStatus::Succeeded);

    let retry = state.reserve(1, inert_cancel()).expect("terminal ID should be reusable");
    let second = state.reserve(2, inert_cancel()).expect("second ID should be free");
    assert!(state.accept(2, &second));
    assert!(state.finish(2, &second, TaskStatus::Failed));

    assert!(state.discard(1, &retry));
    assert_eq!(state.status(1), None);
    assert_eq!(state.status(2), Some(TaskStatus::Failed));
    assert_eq!(state.stats().total, 1);
}

#[test]
fn test_zero_history_and_stale_callbacks_do_not_change_new_submission() {
    let mut state = State::new(0);
    let first = state.reserve(7, Arc::new(|| true)).expect("ID should be free");
    assert!(state.accept(7, &first));
    let (stale_token, stale_cancel) = {
        let (token, cancel) = state.cancel_candidate(7).expect("accepted task");
        (token, Arc::clone(cancel))
    };
    assert!(state.discard(7, &first));
    let second = state.reserve(7, inert_cancel()).expect("ID should be reusable");
    assert!(stale_cancel());
    assert!(!state.finish(7, &stale_token, TaskStatus::Cancelled));
    assert!(!state.discard(7, &first));
    assert!(state.accept(7, &second));
    assert_eq!(state.status(7), Some(TaskStatus::Submitted));
    assert!(state.finish(7, &second, TaskStatus::Succeeded));
    assert_eq!(state.status(7), None);
    assert_eq!(state.stats().total, 0);
}

#[test]
fn test_reservation_is_hidden_but_waited_for() {
    let mut state = State::new(2);
    let token = state.reserve(7, inert_cancel()).expect("ID should be free");
    assert_eq!(state.status(7), None);
    assert_eq!(state.stats().total, 0);
    assert!(state.cancel_candidate(7).is_none());
    assert!(!state.is_idle());
    let waiting_for = state.in_flight();
    assert_eq!(waiting_for.len(), 1);
    assert!(state.any_active(&waiting_for));
    assert!(state.discard(7, &token));
    assert!(!state.any_active(&waiting_for));
    assert!(state.is_idle());
}

#[test]
fn suspended_and_duplicate_reservations_are_refused() {
    let mut state = State::new(2);
    let token = state.reserve(7, inert_cancel()).expect("ID should be free");
    let error = state.reserve(7, inert_cancel()).expect_err("the ID is active");
    assert!(matches!(error, TaskExecutionServiceError::DuplicateTask(7)));
    assert_eq!(error.message(), "task 7 already exists");
    state.set_suspended(true);
    assert!(state.is_suspended());
    let error = state.reserve(8, inert_cancel()).expect_err("suspended");
    assert_eq!(error.message(), "task execution service is suspended");
    assert_eq!(state.issued(), 1);
    assert_eq!(state.active_len(), 1);
    assert!(!state.start(7, &token));
    assert!(state.accept(7, &token));
    assert!(!state.accept(7, &token));
    assert!(state.start(7, &token));
    assert!(state.cancel_candidate(7).is_none());
    assert_eq!(state.status(7), Some(TaskStatus::Running));
    let stats = state.stats();
    assert_eq!((stats.total, stats.running, stats.submitted), (1, 1, 0));
    assert!(TaskStatus::Running.is_active());
    assert!(!TaskStatus::Panicked.is_active());
    assert!(state.finish(7, &token, TaskStatus::Panicked));
    assert!(state.discard(7, &token));
    assert_eq!(state.status(7), None);
    assert_eq!(
        TaskExecutionServiceError::Rejected("pool is full".to_owned()).message(),
        "pool is full"
    );
}
