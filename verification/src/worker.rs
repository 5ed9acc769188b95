//! The decisions of the background worker that runs kanban tasks: which
//! failures are worth a retry, how often a running task sends heartbeats, and
//! how a finished run is recorded.
use vstd::prelude::*;
use crate::kanban::TaskStatus;
use crate::text::{contains, ascii_lower_seq, contains_str, owned, to_ascii_lowercase};
use crate::time::StdDuration;

verus! {

/// The words that mark an error as one a retry cannot mend.
pub open spec fn permanent_markers() -> Seq<Seq<char>> {
    seq!["missing"@, "permission"@, "forbidden"@, "validation"@, "cancelled"@]
}

/// An error is worth a retry unless its ASCII-lowercased text contains one of
/// the permanent markers.
pub open spec fn retryable_text(error: Seq<char>) -> bool {
    forall|i: int| 0 <= i < permanent_markers().len() ==> !contains(ascii_lower_seq(error), #[trigger] permanent_markers()[i])
}

pub fn is_retryable_error(error: &str) -> (r: bool)
    ensures
        r == retryable_text(error@),
{
    let lowered = to_ascii_lowercase(error);
    let text = lowered.as_str();
    let markers = ["missing", "permission", "forbidden", "validation", "cancelled"];
    proof {
        reveal_strlit("missing");
        reveal_strlit("permission");
        reveal_strlit("forbidden");
        reveal_strlit("validation");
        reveal_strlit("cancelled");
    }
    let ghost ms = seq![markers[0]@, markers[1]@, markers[2]@, markers[3]@, markers[4]@];
    assert(ms == permanent_markers());
    let mut i: usize = 0;
    while i < 5
        invariant
            i <= 5,
            text@ == ascii_lower_seq(error@),
            ms == permanent_markers(),
            ms == seq![markers[0]@, markers[1]@, markers[2]@, markers[3]@, markers[4]@],
            forall|k: int| 0 <= k < i ==> !contains(text@, #[trigger] ms[k]),
        decreases 5 - i,
    {
        assert(markers[i as int]@ == ms[i as int]);
        if contains_str(text, markers[i]) {
            return false;
        }
        i = i + 1;
    }
    true
}

/// What a task's execution gave: the status to record, a summary of its
/// output and its error.
#[derive(Debug)]
pub struct ExecutionResult {
    pub status: TaskStatus,
    pub output_summary: Option<String>,
    pub error: Option<String>,
}

impl ExecutionResult {
    pub fn succeeded(output_summary: Option<String>) -> (r: Self)
        ensures
            r.status == TaskStatus::Succeeded,
            r.output_summary == output_summary,
            r.error is None,
    {
        ExecutionResult { status: TaskStatus::Succeeded, output_summary, error: None }
    }

    pub fn failed(error: String) -> (r: Self)
        ensures
            r.status == TaskStatus::Failed,
            r.output_summary is None,
            r.error == Some(error),
    {
        ExecutionResult { status: TaskStatus::Failed, output_summary: None, error: Some(error) }
    }
}

/// A worker's identity and timing: how long a claim lasts and how often the
/// worker renews it while a task runs.
#[derive(Debug)]
pub struct WorkerSettings {
    pub worker_id: String,
    pub claim_ttl_secs: i64,
    pub heartbeat_interval: StdDuration,
}

/// `a` is shorter than `b`.
pub open spec fn shorter(a: StdDuration, b: StdDuration) -> bool {
    a.secs < b.secs || (a.secs == b.secs && a.nanos < b.nanos)
}

/// Half the claim lifetime in whole seconds, and at least one second.
pub open spec fn half_ttl_secs(claim_ttl_secs: i64) -> u64 {
    if claim_ttl_secs >= 2 { (claim_ttl_secs / 2) as u64 } else { 1 }
}

/// The interval between heartbeats: the configured interval, but no longer
/// than half the claim lifetime and no shorter than one second.
pub open spec fn heartbeat_period(claim_ttl_secs: i64, configured: StdDuration) -> StdDuration {
    let cap = StdDuration { secs: half_ttl_secs(claim_ttl_secs), nanos: 0 };
    let bounded = if shorter(cap, configured) { cap } else { configured };
    let one = StdDuration { secs: 1, nanos: 0 };
    if shorter(bounded, one) { one } else { bounded }
}

impl WorkerSettings {
    /// A worker with claims of 60 seconds and heartbeats every 30 seconds.
    pub fn new(worker_id: String) -> (r: Self)
        ensures
            r.worker_id == worker_id,
            r.claim_ttl_secs == 60,
            r.heartbeat_interval == (StdDuration { secs: 30, nanos: 0 }),
    {
        WorkerSettings { worker_id, claim_ttl_secs: 60, heartbeat_interval: StdDuration { secs: 30, nanos: 0 } }
    }

    pub fn with_claim_ttl_secs(self, claim_ttl_secs: i64) -> (r: Self)
        ensures
            r.worker_id == self.worker_id,
            r.claim_ttl_secs == claim_ttl_secs,
            r.heartbeat_interval == self.heartbeat_interval,
    {
        WorkerSettings { claim_ttl_secs, ..self }
    }

    pub fn with_heartbeat_interval(self, heartbeat_interval: StdDuration) -> (r: Self)
        ensures
            r.worker_id == self.worker_id,
            r.claim_ttl_secs == self.claim_ttl_secs,
            r.heartbeat_interval == heartbeat_interval,
    {
        WorkerSettings { heartbeat_interval, ..self }
    }

    pub fn effective_heartbeat_interval(&self) -> (r: StdDuration)
        ensures
            r == heartbeat_period(self.claim_ttl_secs, self.heartbeat_interval),
    {
        let half: i64 = self.claim_ttl_secs / 2;
        let half_secs: u64 = if half >= 1 { half as u64 } else { 1 };
        assert(half_secs == half_ttl_secs(self.claim_ttl_secs)) by (nonlinear_arith)
            requires
                half == self.claim_ttl_secs / 2 || (self.claim_ttl_secs < 0 && half <= 0),
                half_secs == if half >= 1 { half as u64 } else { 1 },
        ;
        let cap = StdDuration { secs: half_secs, nanos: 0 };
        let hb = self.heartbeat_interval;
        let bounded = if cap.secs < hb.secs || (cap.secs == hb.secs && cap.nanos < hb.nanos) {
            cap
        } else {
            hb
        };
        if bounded.secs < 1 {
            StdDuration { secs: 1, nanos: 0 }
        } else {
            bounded
        }
    }
}

/// How a finished execution is recorded.
#[derive(Debug, PartialEq, Eq)]
pub enum CompletionPlan {
    /// Queue the task again with this error, spending a retry.
    Requeue(String),
    /// Record the run with the execution's status, output and error.
    Complete,
}

/// The execution failed with an error worth a retry.
pub open spec fn worth_retry(result: ExecutionResult) -> bool {
    result.status == TaskStatus::Failed && match result.error {
        Some(x) => retryable_text(x@),
        None => false,
    }
}

/// A failed execution whose error is worth a retry is queued again; every
/// other result completes the run as it is.
pub fn completion_plan(result: &ExecutionResult) -> (r: CompletionPlan)
    ensures
        match r {
            CompletionPlan::Requeue(e) => {
                &&& result.status == TaskStatus::Failed
                &&& result.error matches Some(x) && x@ == e@
                &&& retryable_text(e@)
            },
            CompletionPlan::Complete => !worth_retry(*result),
        },
{
    if result.status == TaskStatus::Failed {
        match &result.error {
            Some(e) => {
                if is_retryable_error(e.as_str()) {
                    return CompletionPlan::Requeue(owned(e.as_str()));
                }
            },
            None => {},
        }
    }
    CompletionPlan::Complete
}

/// A store update of a held task (heartbeat or completion) that found no row
/// counts as the task being cancelled when the task now reads as cancelled;
/// any other failure is an error.
pub fn failed_update_means_cancelled(row_not_found: bool, task_cancelled: bool) -> (r: bool)
    ensures
        r == (row_not_found && task_cancelled),
{
    row_not_found && task_cancelled
}

} // verus!
