use agent::kanban::{KanbanTypeError, NewTask, PayloadKind, TaskRecord, TaskStatus};
use agent::lifecycle::{
    RequeueOutcome, cancel, claim, claim_task, close_run, complete, created_task, finish_run, first_claim_candidate,
    EventAppendRefusal, event_sequence_for, heartbeat, mark_running, next_event_sequence, opened_run, recover_expired, requeue_for_retry,
    retry, run_started,
};
use agent::time::{Timestamp, claim_expiry};

fn at(secs: i64) -> Timestamp {
    Timestamp { secs, nanos: 0 }
}

fn new_task(max_retries: i64) -> NewTask {
    NewTask {
        source: "manual".into(),
        source_id: None,
        title: "Write docs".into(),
        body: "body".into(),
        payload_kind: PayloadKind::AgentPrompt,
        payload_json: "{\"prompt\":\"say hello\"}".into(),
        priority: 0,
        max_retries,
    }
}

fn running(max_retries: i64) -> TaskRecord {
    let task = created_task("t1", &new_task(max_retries), at(100));
    let claimed = claim(&task, "worker-a", "lock-1", at(110), at(170)).unwrap();
    mark_running(&claimed, "lock-1", at(111)).unwrap()
}

#[test]
fn creates_queued_task() {
    let task = created_task("t1", &new_task(2), at(100));
    assert_eq!(task.id, "t1");
    assert_eq!(task.status, TaskStatus::Queued);
    assert_eq!(task.retry_count, 0);
    assert_eq!(task.created_at, at(100));
    assert_eq!(task.updated_at, at(100));
    assert!(task.claim_lock.is_none());
}

#[test]
fn claim_is_atomic_and_creates_run() {
    let task = created_task("t1", &new_task(0), at(100));
    let claimed = claim_task(&task, "worker-a", "lock-1", "run-1", at(110), 60).unwrap();
    assert_eq!(claimed.task.status, TaskStatus::Claimed);
    assert_eq!(claimed.task.claim_lock.as_deref(), Some("lock-1"));
    assert_eq!(claimed.task.assigned_worker.as_deref(), Some("worker-a"));
    assert_eq!(claimed.task.claim_expires_at, Some(at(170)));
    assert_eq!(claimed.task.started_at, Some(at(110)));
    assert_eq!(claimed.run.status, TaskStatus::Claimed);
    assert_eq!(claimed.run.task_id, "t1");
    assert_eq!(claimed.run.id, "run-1");
    assert_eq!(claimed.claim_lock, "lock-1");
    assert!(claim_task(&claimed.task, "worker-b", "lock-2", "run-2", at(111), 60).is_none());
}

#[test]
fn claim_expiry_adds_the_ttl_to_now() {
    assert_eq!(claim_expiry(at(110), 60), Some(at(170)));
    assert_eq!(claim_expiry(at(110), -10), Some(at(100)));
    assert_eq!(claim_expiry(at(8210266876799), 1), None);
}

#[test]
fn claim_keeps_an_earlier_start_and_refuses_an_unholdable_expiry() {
    let task = created_task("t1", &new_task(1), at(100));
    let mut requeued = claim(&task, "worker-a", "lock-1", at(105), at(165)).unwrap();
    requeued.status = TaskStatus::Queued;
    requeued.claim_lock = None;
    requeued.claim_expires_at = None;
    requeued.assigned_worker = None;
    let again = claim_task(&requeued, "worker-b", "lock-2", "run-2", at(200), 30).unwrap();
    assert_eq!(again.task.started_at, Some(at(105)));
    assert_eq!(again.task.claim_expires_at, Some(at(230)));
    assert_eq!(again.task.updated_at, at(200));
    assert!(claim_task(&task, "worker-a", "lock-1", "run-1", at(8210266876799), 60).is_none());
}

#[test]
fn heartbeat_and_completion_update_task_and_run() {
    let task = running(0);
    let beat = heartbeat(&task, "lock-1", at(130), 60).unwrap();
    assert_eq!(beat.last_heartbeat_at, Some(at(130)));
    assert_eq!(beat.claim_expires_at, Some(at(190)));
    let done = complete(&beat, "lock-1", TaskStatus::Succeeded, None, at(140)).unwrap();
    assert_eq!(done.status, TaskStatus::Succeeded);
    assert_eq!(done.completed_at, Some(at(140)));
    assert!(done.claim_lock.is_none());
    assert!(done.claim_expires_at.is_none());
    assert!(done.assigned_worker.is_none());
    let run = opened_run("run-1", "t1", "worker-a", at(110));
    let run = run_started(&run).unwrap();
    assert_eq!(run.status, TaskStatus::Running);
    let finished = finish_run(&run, TaskStatus::Succeeded, Some("summary"), None, at(140)).unwrap();
    assert_eq!(finished.status, TaskStatus::Succeeded);
    assert_eq!(finished.finished_at, Some(at(140)));
    assert_eq!(finished.output_summary.as_deref(), Some("summary"));
    assert!(finish_run(&finished, TaskStatus::Failed, None, Some("late"), at(150)).is_none());
}

#[test]
fn stale_claim_lock_does_not_mark_running_or_completed() {
    let task = created_task("t1", &new_task(0), at(100));
    let claimed = claim(&task, "worker-a", "lock-1", at(110), at(170)).unwrap();
    assert!(mark_running(&claimed, "stale", at(111)).is_none());
    assert!(complete(&claimed, "stale", TaskStatus::Succeeded, None, at(112)).is_none());
    assert!(heartbeat(&claimed, "stale", at(113), 60).is_none());
    assert!(matches!(requeue_for_retry(&claimed, "stale", "boom", at(114)), RequeueOutcome::NotHeld));
}

#[test]
fn expired_claim_can_be_recovered_to_lost() {
    let task = running(1);
    assert!(recover_expired(&task, 170).is_none());
    let lost = recover_expired(&task, 171).unwrap();
    assert_eq!(lost.status, TaskStatus::Lost);
    assert_eq!(lost.last_error.as_deref(), Some("expired claim without fresh heartbeat"));
    assert_eq!(lost.updated_at, at(171));
    assert!(lost.claim_lock.is_none());
    let run = run_started(&opened_run("run-1", "t1", "worker-a", at(110))).unwrap();
    let closed = close_run(&run, TaskStatus::Lost, Some("expired claim without fresh heartbeat"), at(171)).unwrap();
    assert_eq!(closed.status, TaskStatus::Lost);
    assert_eq!(closed.error.as_deref(), Some("expired claim without fresh heartbeat"));
    assert!(recover_expired(&lost, 500).is_none());
}

#[test]
fn cancel_task_marks_active_task_cancelled() {
    let task = running(0);
    let cancelled = cancel(&task, at(120)).unwrap();
    assert_eq!(cancelled.status, TaskStatus::Cancelled);
    assert_eq!(cancelled.completed_at, Some(at(120)));
    assert!(cancelled.claim_lock.is_none());
    assert!(complete(&cancelled, "lock-1", TaskStatus::Succeeded, None, at(121)).is_none());
    let queued = created_task("t2", &new_task(0), at(100));
    assert!(cancel(&queued, at(101)).is_some());
}

#[test]
fn cancel_task_returns_none_for_completed_task() {
    let task = running(0);
    let done = complete(&task, "lock-1", TaskStatus::Succeeded, None, at(140)).unwrap();
    assert!(cancel(&done, at(141)).is_none());
}

#[test]
fn retry_task_requeues_failed_task() {
    let task = running(1);
    let failed = complete(&task, "lock-1", TaskStatus::Failed, Some("boom"), at(140)).unwrap();
    assert_eq!(failed.last_error.as_deref(), Some("boom"));
    let queued = retry(&failed, at(150)).unwrap();
    assert_eq!(queued.status, TaskStatus::Queued);
    assert_eq!(queued.retry_count, 1);
    assert!(queued.last_error.is_none());
    assert!(queued.completed_at.is_none());
}

#[test]
fn retry_task_returns_none_when_max_retries_reached() {
    let task = running(0);
    let failed = complete(&task, "lock-1", TaskStatus::Failed, Some("boom"), at(140)).unwrap();
    assert!(retry(&failed, at(150)).is_none());
}

#[test]
fn requeue_for_retry_requeues_running_task() {
    let task = running(1);
    match requeue_for_retry(&task, "lock-1", "temporary network error", at(150)) {
        RequeueOutcome::Requeued(t) => {
            assert_eq!(t.status, TaskStatus::Queued);
            assert_eq!(t.retry_count, 1);
            assert_eq!(t.last_error.as_deref(), Some("temporary network error"));
            assert!(t.claim_lock.is_none());
            assert!(t.last_heartbeat_at.is_none());
        },
        _ => panic!("expected a requeue"),
    }
}

#[test]
fn requeue_for_retry_records_exhaustion_when_max_retries_reached() {
    let task = running(0);
    match requeue_for_retry(&task, "lock-1", "temporary network error", at(150)) {
        RequeueOutcome::Exhausted(t) => {
            assert_eq!(t.status, TaskStatus::Failed);
            assert_eq!(t.retry_count, 0);
            assert_eq!(t.completed_at, Some(at(150)));
            assert_eq!(t.last_error.as_deref(), Some("temporary network error"));
        },
        _ => panic!("expected exhaustion"),
    }
}

#[test]
fn lists_task_events_in_order_of_sequence() {
    assert_eq!(next_event_sequence(&Vec::new()), 0);
    assert_eq!(next_event_sequence(&vec![0, 1, 2]), 3);
    assert_eq!(next_event_sequence(&vec![4, 1, 2]), 5);
}

#[test]
fn task_status_and_payload_names_round_trip() {
    for status in [
        TaskStatus::Queued,
        TaskStatus::Claimed,
        TaskStatus::Running,
        TaskStatus::Succeeded,
        TaskStatus::Failed,
        TaskStatus::Blocked,
        TaskStatus::Cancelled,
        TaskStatus::TimedOut,
        TaskStatus::Lost,
    ] {
        assert_eq!(TaskStatus::from_text(status.as_str()).unwrap(), status);
    }
    assert_eq!(TaskStatus::TimedOut.as_str(), "timed_out");
    assert_eq!(PayloadKind::from_text("shell_command").unwrap(), PayloadKind::ShellCommand);
    let error = TaskStatus::from_text("paused").unwrap_err();
    assert_eq!(error.message(), "invalid task status: paused");
    assert!(matches!(PayloadKind::from_text("other"), Err(KanbanTypeError::InvalidPayloadKind(_))));
}

#[test]
fn claims_highest_priority_then_oldest_queued_task() {
    let mut low = created_task("low", &new_task(0), at(100));
    low.priority = 0;
    let mut old_high = created_task("old-high", &new_task(0), at(200));
    old_high.priority = 5;
    let mut new_high = created_task("new-high", &new_task(0), at(300));
    new_high.priority = 5;
    let mut running_top = running(0);
    running_top.priority = 9;
    let tasks = vec![low, new_high, running_top, old_high];
    assert_eq!(first_claim_candidate(&tasks), Some(3));
    assert_eq!(first_claim_candidate(&vec![running(0)]), None);
    assert_eq!(first_claim_candidate(&Vec::new()), None);
}

#[test]
fn appended_event_numbers_stay_without_gaps() {
    let mut numbers: Vec<i64> = Vec::new();
    for expected in 0..5 {
        let next = next_event_sequence(&numbers);
        assert_eq!(next, expected);
        numbers.insert(0, next);
    }
    assert_eq!(next_event_sequence(&vec![2, 0, 1]), 3);
}

#[test]
fn event_numbers_are_refused_for_missing_tasks_and_full_counters() {
    assert_eq!(event_sequence_for(false, &vec![0, 1]), Err(EventAppendRefusal::TaskMissing));
    assert_eq!(event_sequence_for(true, &vec![0, i64::MAX]), Err(EventAppendRefusal::SequenceExhausted));
    assert_eq!(event_sequence_for(true, &vec![]), Ok(0));
    assert_eq!(event_sequence_for(true, &vec![1, 0, 2]), Ok(3));
}
