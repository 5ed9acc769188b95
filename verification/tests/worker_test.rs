use agent::kanban::TaskStatus;
use agent::time::StdDuration;
use agent::worker::{CompletionPlan, ExecutionResult, WorkerSettings, completion_plan, failed_update_means_cancelled, is_retryable_error};

#[test]
fn retry_classifier_rejects_non_retryable_errors() {
    assert!(!is_retryable_error("missing shell command"));
    assert!(!is_retryable_error("permission denied"));
    assert!(!is_retryable_error("forbidden"));
    assert!(!is_retryable_error("validation failed"));
    assert!(!is_retryable_error("cancelled"));
    assert!(is_retryable_error("temporary network error"));
}

#[test]
fn retry_classifier_ignores_case() {
    assert!(!is_retryable_error("PERMISSION Denied"));
    assert!(!is_retryable_error("Request Forbidden"));
    assert!(is_retryable_error("Timeout"));
}

#[test]
fn execution_results() {
    let ok = ExecutionResult::succeeded(Some("recorded".into()));
    assert_eq!(ok.status, TaskStatus::Succeeded);
    assert_eq!(ok.output_summary.as_deref(), Some("recorded"));
    assert!(ok.error.is_none());
    let failed = ExecutionResult::failed("boom".into());
    assert_eq!(failed.status, TaskStatus::Failed);
    assert!(failed.output_summary.is_none());
    assert_eq!(failed.error.as_deref(), Some("boom"));
}

#[test]
fn worker_requeues_retryable_failure() {
    assert_eq!(
        completion_plan(&ExecutionResult::failed("temporary network error".into())),
        CompletionPlan::Requeue("temporary network error".into())
    );
}

#[test]
fn worker_marks_non_retryable_failure_failed() {
    assert_eq!(completion_plan(&ExecutionResult::failed("permission denied".into())), CompletionPlan::Complete);
    assert_eq!(completion_plan(&ExecutionResult::succeeded(None)), CompletionPlan::Complete);
    let no_error = ExecutionResult { status: TaskStatus::Failed, output_summary: None, error: None };
    assert_eq!(completion_plan(&no_error), CompletionPlan::Complete);
}

#[test]
fn heartbeat_interval_is_bounded_by_claim_lifetime() {
    let settings = WorkerSettings::new("worker-a".into());
    assert_eq!(settings.claim_ttl_secs, 60);
    assert_eq!(settings.effective_heartbeat_interval(), StdDuration { secs: 30, nanos: 0 });
    let short = WorkerSettings::new("w".into()).with_claim_ttl_secs(10);
    assert_eq!(short.effective_heartbeat_interval(), StdDuration { secs: 5, nanos: 0 });
    let tiny = WorkerSettings::new("w".into()).with_claim_ttl_secs(1);
    assert_eq!(tiny.effective_heartbeat_interval(), StdDuration { secs: 1, nanos: 0 });
    let negative = WorkerSettings::new("w".into()).with_claim_ttl_secs(-7);
    assert_eq!(negative.effective_heartbeat_interval(), StdDuration { secs: 1, nanos: 0 });
    let fast = WorkerSettings::new("w".into()).with_heartbeat_interval(StdDuration { secs: 0, nanos: 50_000_000 });
    assert_eq!(fast.effective_heartbeat_interval(), StdDuration { secs: 1, nanos: 0 });
    let slow = WorkerSettings::new("w".into()).with_heartbeat_interval(StdDuration { secs: 2, nanos: 500 });
    assert_eq!(slow.effective_heartbeat_interval(), StdDuration { secs: 2, nanos: 500 });
}

#[test]
fn missing_row_of_cancelled_task_counts_as_cancellation() {
    assert!(failed_update_means_cancelled(true, true));
    assert!(!failed_update_means_cancelled(true, false));
    assert!(!failed_update_means_cancelled(false, true));
}
