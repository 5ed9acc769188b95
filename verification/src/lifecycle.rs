//! The life of a kanban task: each change a task store makes to a task, with
//! the condition under which it applies.
use vstd::prelude::*;
use crate::kanban::{ClaimedTask, NewTask, TaskRecord, TaskRunRecord, TaskStatus};
use crate::llm::copy_opt_string;
use crate::text::{owned, str_eq};
use crate::time::{Timestamp, add_span, claim_expiry, seconds_in_range, seconds_span, valid_timestamp};

verus! {

/// A task a worker holds: claimed or running.
pub open spec fn is_active(s: TaskStatus) -> bool {
    s == TaskStatus::Claimed || s == TaskStatus::Running
}

/// A task that can still be cancelled: queued or held by a worker.
pub open spec fn is_cancellable(s: TaskStatus) -> bool {
    s == TaskStatus::Queued || is_active(s)
}

/// A task that may be queued again by hand: failed, timed out or lost.
pub open spec fn is_retryable_status(s: TaskStatus) -> bool {
    s == TaskStatus::Failed || s == TaskStatus::TimedOut || s == TaskStatus::Lost
}

/// The fields no change ever touches.
pub open spec fn same_identity(a: TaskRecord, b: TaskRecord) -> bool {
    &&& a.id == b.id
    &&& a.source == b.source
    &&& a.source_id == b.source_id
    &&& a.title == b.title
    &&& a.body == b.body
    &&& a.payload_kind == b.payload_kind
    &&& a.payload_json == b.payload_json
    &&& a.priority == b.priority
    &&& a.max_retries == b.max_retries
    &&& a.created_at == b.created_at
}

/// The task holds `lock` as its claim lock.
pub open spec fn holds_lock(t: TaskRecord, lock: Seq<char>) -> bool {
    t.claim_lock matches Some(l) && l@ == lock
}

/// The claim fields agree with the status: a task carries a claim lock, an
/// expiry and a worker exactly while a worker holds it.
pub open spec fn claim_consistent(t: TaskRecord) -> bool {
    &&& t.claim_lock is Some <==> is_active(t.status)
    &&& t.claim_expires_at is Some <==> is_active(t.status)
    &&& t.assigned_worker is Some <==> is_active(t.status)
}

/// A status no change leaves: succeeded, blocked or cancelled.
pub open spec fn is_terminal(s: TaskStatus) -> bool {
    s == TaskStatus::Succeeded || s == TaskStatus::Blocked || s == TaskStatus::Cancelled
}

/// The task holds no claim.
pub open spec fn unclaimed(t: TaskRecord) -> bool {
    &&& t.claim_lock is None
    &&& t.claim_expires_at is None
    &&& t.assigned_worker is None
}

/// `b` is what one change of the store can make of `a`: a claim, the start of
/// a run under the same claim, a heartbeat, a release (completion,
/// cancellation, loss) or a queueing again that spends one retry.
pub open spec fn task_step(a: TaskRecord, b: TaskRecord) -> bool {
    &&& same_identity(a, b)
    &&& {
        ||| {
            &&& a.status == TaskStatus::Queued
            &&& b.status == TaskStatus::Claimed
            &&& b.claim_lock is Some
            &&& b.claim_expires_at is Some
            &&& b.assigned_worker is Some
            &&& b.retry_count == a.retry_count
        }
        ||| {
            &&& a.status == TaskStatus::Claimed
            &&& b.status == TaskStatus::Running
            &&& b.claim_lock == a.claim_lock
            &&& b.claim_expires_at == a.claim_expires_at
            &&& b.assigned_worker == a.assigned_worker
            &&& b.retry_count == a.retry_count
        }
        ||| {
            &&& is_active(a.status)
            &&& b.status == a.status
            &&& b.claim_lock == a.claim_lock
            &&& b.claim_expires_at is Some
            &&& b.assigned_worker == a.assigned_worker
            &&& b.retry_count == a.retry_count
        }
        ||| {
            &&& (is_active(a.status) || (a.status == TaskStatus::Queued && b.status == TaskStatus::Cancelled))
            &&& !is_active(b.status)
            &&& unclaimed(b)
            &&& b.retry_count == a.retry_count
        }
        ||| {
            &&& (is_active(a.status) || is_retryable_status(a.status))
            &&& a.retry_count < a.max_retries
            &&& b.status == TaskStatus::Queued
            &&& unclaimed(b)
            &&& b.retry_count == a.retry_count + 1
        }
    }
}

/// Every change keeps the claim fields in agreement with the status.
pub proof fn lemma_step_keeps_claims_consistent(a: TaskRecord, b: TaskRecord)
    requires
        task_step(a, b),
        claim_consistent(a),
    ensures
        claim_consistent(b),
{
}

/// No change starts from a succeeded, blocked or cancelled task.
pub proof fn lemma_terminal_status_is_final(a: TaskRecord, b: TaskRecord)
    requires
        task_step(a, b),
    ensures
        !is_terminal(a.status),
{
}

/// A change spends at most one retry, only while retries are left, so a task
/// never runs more retries than it allows.
pub proof fn lemma_step_spends_retries_within_limit(a: TaskRecord, b: TaskRecord)
    requires
        task_step(a, b),
    ensures
        b.retry_count == a.retry_count || (b.retry_count == a.retry_count + 1 && a.retry_count < a.max_retries),
        a.retry_count <= a.max_retries ==> b.retry_count <= b.max_retries,
        b.retry_count >= a.retry_count,
{
}

/// A claim lock appears only when a queued task is claimed; a held task keeps
/// its lock until it is released.
pub proof fn lemma_lock_changes_only_on_claim(a: TaskRecord, b: TaskRecord)
    requires
        task_step(a, b),
        b.claim_lock is Some,
        b.claim_lock != a.claim_lock,
    ensures
        a.status == TaskStatus::Queued,
        b.status == TaskStatus::Claimed,
{
}

fn status_is_active(s: TaskStatus) -> (r: bool)
    ensures
        r == is_active(s),
{
    match s {
        TaskStatus::Claimed | TaskStatus::Running => true,
        _ => false,
    }
}

fn has_lock(t: &TaskRecord, lock: &str) -> (r: bool)
    ensures
        r == holds_lock(*t, lock@),
{
    match &t.claim_lock {
        Some(l) => str_eq(l.as_str(), lock),
        None => false,
    }
}

fn copy_task(t: &TaskRecord) -> (r: TaskRecord)
    ensures
        r == *t,
{
    TaskRecord {
        id: t.id.clone(),
        source: t.source.clone(),
        source_id: copy_opt_string(&t.source_id),
        title: t.title.clone(),
        body: t.body.clone(),
        payload_kind: t.payload_kind,
        payload_json: t.payload_json.clone(),
        status: t.status,
        priority: t.priority,
        claim_lock: copy_opt_string(&t.claim_lock),
        claim_expires_at: t.claim_expires_at,
        assigned_worker: copy_opt_string(&t.assigned_worker),
        last_heartbeat_at: t.last_heartbeat_at,
        retry_count: t.retry_count,
        max_retries: t.max_retries,
        last_error: copy_opt_string(&t.last_error),
        created_at: t.created_at,
        updated_at: t.updated_at,
        started_at: t.started_at,
        completed_at: t.completed_at,
    }
}

/// A new task as it is stored: queued, unclaimed, never retried.
pub fn created_task(id: &str, task: &NewTask, now: Timestamp) -> (r: TaskRecord)
    ensures
        r.id@ == id@,
        r.source == task.source,
        r.source_id == task.source_id,
        r.title == task.title,
        r.body == task.body,
        r.payload_kind == task.payload_kind,
        r.payload_json == task.payload_json,
        r.priority == task.priority,
        r.max_retries == task.max_retries,
        r.status == TaskStatus::Queued,
        r.retry_count == 0,
        r.claim_lock is None,
        r.claim_expires_at is None,
        r.assigned_worker is None,
        r.last_heartbeat_at is None,
        r.last_error is None,
        r.created_at == now,
        r.updated_at == now,
        r.started_at is None,
        r.completed_at is None,
        claim_consistent(r),
{
    TaskRecord {
        id: owned(id),
        source: task.source.clone(),
        source_id: copy_opt_string(&task.source_id),
        title: task.title.clone(),
        body: task.body.clone(),
        payload_kind: task.payload_kind,
        payload_json: task.payload_json.clone(),
        status: TaskStatus::Queued,
        priority: task.priority,
        claim_lock: None,
        claim_expires_at: None,
        assigned_worker: None,
        last_heartbeat_at: None,
        retry_count: 0,
        max_retries: task.max_retries,
        last_error: None,
        created_at: now,
        updated_at: now,
        started_at: None,
        completed_at: None,
    }
}

/// A worker claims a queued task until `expires_at`; the first claim sets the start.
pub fn claim(task: &TaskRecord, worker_id: &str, claim_lock: &str, now: Timestamp, expires_at: Timestamp) -> (r: Option<TaskRecord>)
    ensures
        r is Some <==> task.status == TaskStatus::Queued,
        r matches Some(t) ==> {
            &&& same_identity(t, *task)
            &&& t.status == TaskStatus::Claimed
            &&& holds_lock(t, claim_lock@)
            &&& t.claim_expires_at == Some(expires_at)
            &&& t.assigned_worker matches Some(w) && w@ == worker_id@
            &&& t.updated_at == now
            &&& t.started_at == if task.started_at is Some { task.started_at } else { Some(now) }
            &&& t.last_heartbeat_at == task.last_heartbeat_at
            &&& t.retry_count == task.retry_count
            &&& t.last_error == task.last_error
            &&& t.completed_at == task.completed_at
        },
        r matches Some(t) ==> task_step(*task, t) && claim_consistent(t),
{
    if task.status != TaskStatus::Queued {
        return None;
    }
    let mut t = copy_task(task);
    t.status = TaskStatus::Claimed;
    t.claim_lock = Some(owned(claim_lock));
    t.claim_expires_at = Some(expires_at);
    t.assigned_worker = Some(owned(worker_id));
    t.updated_at = now;
    if t.started_at.is_none() {
        t.started_at = Some(now);
    }
    Some(t)
}

/// The claimed task whose lock the caller holds starts running.
pub fn mark_running(task: &TaskRecord, claim_lock: &str, now: Timestamp) -> (r: Option<TaskRecord>)
    ensures
        r is Some <==> (task.status == TaskStatus::Claimed && holds_lock(*task, claim_lock@)),
        r matches Some(t) ==> {
            &&& same_identity(t, *task)
            &&& t.status == TaskStatus::Running
            &&& t.last_heartbeat_at == Some(now)
            &&& t.updated_at == now
            &&& t.claim_lock == task.claim_lock
            &&& t.claim_expires_at == task.claim_expires_at
            &&& t.assigned_worker == task.assigned_worker
            &&& t.retry_count == task.retry_count
            &&& t.last_error == task.last_error
            &&& t.started_at == task.started_at
            &&& t.completed_at == task.completed_at
        },
        r matches Some(t) ==> task_step(*task, t),
{
    if task.status != TaskStatus::Claimed || !has_lock(task, claim_lock) {
        return None;
    }
    let mut t = copy_task(task);
    t.status = TaskStatus::Running;
    t.last_heartbeat_at = Some(now);
    t.updated_at = now;
    Some(t)
}

/// The holder of a task's lock extends its claim to `now` plus
/// `claim_ttl_secs` seconds; nothing changes where that expiry falls outside
/// the instants chrono can hold.
pub fn heartbeat(task: &TaskRecord, claim_lock: &str, now: Timestamp, claim_ttl_secs: i64) -> (r: Option<TaskRecord>)
    requires
        valid_timestamp(now),
        seconds_in_range(claim_ttl_secs),
    ensures
        r is Some <==> (is_active(task.status) && holds_lock(*task, claim_lock@) && add_span(
            now,
            seconds_span(claim_ttl_secs),
        ) is Some),
        r matches Some(t) ==> {
            &&& same_identity(t, *task)
            &&& t.status == task.status
            &&& t.last_heartbeat_at == Some(now)
            &&& t.claim_expires_at == add_span(now, seconds_span(claim_ttl_secs))
            &&& t.updated_at == now
            &&& t.claim_lock == task.claim_lock
            &&& t.assigned_worker == task.assigned_worker
            &&& t.retry_count == task.retry_count
            &&& t.last_error == task.last_error
            &&& t.started_at == task.started_at
            &&& t.completed_at == task.completed_at
        },
        r matches Some(t) ==> task_step(*task, t),
{
    if !status_is_active(task.status) || !has_lock(task, claim_lock) {
        return None;
    }
    let expires_at = match claim_expiry(now, claim_ttl_secs) {
        Some(e) => e,
        None => return None,
    };
    let mut t = copy_task(task);
    t.last_heartbeat_at = Some(now);
    t.claim_expires_at = Some(expires_at);
    t.updated_at = now;
    Some(t)
}

/// The holder of a task's lock finishes it with `status` and `error`; the claim is released.
pub fn complete(task: &TaskRecord, claim_lock: &str, status: TaskStatus, error: Option<&str>, now: Timestamp) -> (r: Option<TaskRecord>)
    ensures
        r is Some <==> (is_active(task.status) && holds_lock(*task, claim_lock@)),
        r matches Some(t) ==> {
            &&& same_identity(t, *task)
            &&& t.status == status
            &&& t.claim_lock is None
            &&& t.claim_expires_at is None
            &&& t.assigned_worker is None
            &&& t.completed_at == Some(now)
            &&& t.updated_at == now
            &&& (match error {
                Some(e) => t.last_error matches Some(x) && x@ == e@,
                None => t.last_error is None,
            })
            &&& t.last_heartbeat_at == task.last_heartbeat_at
            &&& t.retry_count == task.retry_count
            &&& t.started_at == task.started_at
        },
        !is_active(status) ==> (r matches Some(t) ==> task_step(*task, t)),
{
    if !status_is_active(task.status) || !has_lock(task, claim_lock) {
        return None;
    }
    let mut t = copy_task(task);
    t.status = status;
    t.claim_lock = None;
    t.claim_expires_at = None;
    t.assigned_worker = None;
    t.completed_at = Some(now);
    t.updated_at = now;
    t.last_error = match error {
        Some(e) => Some(owned(e)),
        None => None,
    };
    Some(t)
}

/// A queued or held task is cancelled; the claim is released.
pub fn cancel(task: &TaskRecord, now: Timestamp) -> (r: Option<TaskRecord>)
    ensures
        r is Some <==> is_cancellable(task.status),
        r matches Some(t) ==> {
            &&& same_identity(t, *task)
            &&& t.status == TaskStatus::Cancelled
            &&& t.claim_lock is None
            &&& t.claim_expires_at is None
            &&& t.assigned_worker is None
            &&& t.completed_at == Some(now)
            &&& t.updated_at == now
            &&& t.last_heartbeat_at == task.last_heartbeat_at
            &&& t.retry_count == task.retry_count
            &&& t.last_error == task.last_error
            &&& t.started_at == task.started_at
        },
        r matches Some(t) ==> task_step(*task, t),
{
    match task.status {
        TaskStatus::Queued | TaskStatus::Claimed | TaskStatus::Running => {},
        _ => return None,
    }
    let mut t = copy_task(task);
    t.status = TaskStatus::Cancelled;
    t.claim_lock = None;
    t.claim_expires_at = None;
    t.assigned_worker = None;
    t.completed_at = Some(now);
    t.updated_at = now;
    Some(t)
}

/// The tasks that can be queued again are exactly the failed, the timed-out
/// and the lost ones: none that is queued, claimed, running, succeeded,
/// blocked or cancelled.
pub proof fn lemma_retryable_statuses(s: TaskStatus)
    ensures
        is_retryable_status(s) <==> (s == TaskStatus::Failed || s == TaskStatus::TimedOut || s
            == TaskStatus::Lost),
        s == TaskStatus::Lost ==> is_retryable_status(s),
        (s == TaskStatus::Queued || s == TaskStatus::Claimed || s == TaskStatus::Running || s
            == TaskStatus::Succeeded || s == TaskStatus::Blocked || s == TaskStatus::Cancelled)
            ==> !is_retryable_status(s),
{
}

/// A failed, timed-out or lost task with retries left is queued again.
pub fn retry(task: &TaskRecord, now: Timestamp) -> (r: Option<TaskRecord>)
    ensures
        r is Some <==> (is_retryable_status(task.status) && task.retry_count < task.max_retries),
        r is Some <==> ((task.status == TaskStatus::Failed || task.status == TaskStatus::TimedOut
            || task.status == TaskStatus::Lost) && task.retry_count < task.max_retries),
        r matches Some(t) ==> {
            &&& same_identity(t, *task)
            &&& t.status == TaskStatus::Queued
            &&& t.claim_lock is None
            &&& t.claim_expires_at is None
            &&& t.assigned_worker is None
            &&& t.last_heartbeat_at is None
            &&& t.completed_at is None
            &&& t.last_error is None
            &&& t.retry_count == task.retry_count + 1
            &&& t.updated_at == now
            &&& t.started_at == task.started_at
        },
        r matches Some(t) ==> task_step(*task, t),
{
    match task.status {
        TaskStatus::Failed | TaskStatus::TimedOut | TaskStatus::Lost => {},
        _ => return None,
    }
    if task.retry_count >= task.max_retries {
        return None;
    }
    let mut t = copy_task(task);
    t.status = TaskStatus::Queued;
    t.claim_lock = None;
    t.claim_expires_at = None;
    t.assigned_worker = None;
    t.last_heartbeat_at = None;
    t.completed_at = None;
    t.last_error = None;
    t.retry_count = task.retry_count + 1;
    t.updated_at = now;
    Some(t)
}

/// What a failed run's holder gets when it asks to queue the task again.
#[derive(Debug, Clone, PartialEq, Eq)]
pub enum RequeueOutcome {
    /// Retries were left: the task is queued again.
    Requeued(TaskRecord),
    /// No retries were left: the task failed for good.
    Exhausted(TaskRecord),
    /// The caller does not hold the task's claim.
    NotHeld,
}

/// The holder of a task's lock queues it again after `error`, or fails it when
/// no retries are left.
pub fn requeue_for_retry(task: &TaskRecord, claim_lock: &str, error: &str, now: Timestamp) -> (r: RequeueOutcome)
    ensures
        r is NotHeld <==> !(is_active(task.status) && holds_lock(*task, claim_lock@)),
        r is Requeued ==> task.retry_count < task.max_retries,
        r is Exhausted ==> task.retry_count >= task.max_retries,
        r matches RequeueOutcome::Requeued(t) ==> {
            &&& same_identity(t, *task)
            &&& t.status == TaskStatus::Queued
            &&& t.claim_lock is None
            &&& t.claim_expires_at is None
            &&& t.assigned_worker is None
            &&& t.last_heartbeat_at is None
            &&& t.completed_at is None
            &&& t.last_error matches Some(x) && x@ == error@
            &&& t.retry_count == task.retry_count + 1
            &&& t.updated_at == now
            &&& t.started_at == task.started_at
        },
        r matches RequeueOutcome::Exhausted(t) ==> {
            &&& same_identity(t, *task)
            &&& t.status == TaskStatus::Failed
            &&& t.claim_lock is None
            &&& t.claim_expires_at is None
            &&& t.assigned_worker is None
            &&& t.completed_at == Some(now)
            &&& t.last_error matches Some(x) && x@ == error@
            &&& t.retry_count == task.retry_count
            &&& t.updated_at == now
            &&& t.last_heartbeat_at == task.last_heartbeat_at
            &&& t.started_at == task.started_at
        },
        r matches RequeueOutcome::Requeued(t) ==> task_step(*task, t),
        r matches RequeueOutcome::Exhausted(t) ==> task_step(*task, t),
{
    if !status_is_active(task.status) || !has_lock(task, claim_lock) {
        return RequeueOutcome::NotHeld;
    }
    let mut t = copy_task(task);
    t.claim_lock = None;
    t.claim_expires_at = None;
    t.assigned_worker = None;
    t.updated_at = now;
    t.last_error = Some(owned(error));
    if task.retry_count < task.max_retries {
        t.status = TaskStatus::Queued;
        t.last_heartbeat_at = None;
        t.completed_at = None;
        t.retry_count = task.retry_count + 1;
        RequeueOutcome::Requeued(t)
    } else {
        t.status = TaskStatus::Failed;
        t.completed_at = Some(now);
        RequeueOutcome::Exhausted(t)
    }
}

/// The error a task lost to an expired claim records.
pub open spec fn expired_claim_error() -> Seq<char> {
    "expired claim without fresh heartbeat"@
}

pub fn expired_claim_error_text() -> (r: &'static str)
    ensures
        r@ == expired_claim_error(),
{
    "expired claim without fresh heartbeat"
}

/// The task's claim expires before the second `cutoff`.
pub open spec fn claim_expired_before(t: TaskRecord, cutoff: i64) -> bool {
    match t.claim_expires_at {
        Some(e) => e.secs < cutoff,
        None => false,
    }
}

/// A held task whose claim expired before the second `cutoff` is lost; the claim is released.
pub fn recover_expired(task: &TaskRecord, cutoff: i64) -> (r: Option<TaskRecord>)
    ensures
        r is Some <==> (is_active(task.status) && claim_expired_before(*task, cutoff)),
        r matches Some(t) ==> {
            &&& same_identity(t, *task)
            &&& t.status == TaskStatus::Lost
            &&& t.claim_lock is None
            &&& t.claim_expires_at is None
            &&& t.assigned_worker is None
            &&& t.last_error matches Some(x) && x@ == expired_claim_error()
            &&& t.updated_at == (Timestamp { secs: cutoff, nanos: 0 })
            &&& t.last_heartbeat_at == task.last_heartbeat_at
            &&& t.retry_count == task.retry_count
            &&& t.started_at == task.started_at
            &&& t.completed_at == task.completed_at
        },
        r matches Some(t) ==> task_step(*task, t),
{
    if !status_is_active(task.status) {
        return None;
    }
    match task.claim_expires_at {
        Some(e) => {
            if e.secs >= cutoff {
                return None;
            }
        },
        None => return None,
    }
    let mut t = copy_task(task);
    t.status = TaskStatus::Lost;
    t.claim_lock = None;
    t.claim_expires_at = None;
    t.assigned_worker = None;
    t.last_error = Some(owned("expired claim without fresh heartbeat"));
    t.updated_at = Timestamp { secs: cutoff, nanos: 0 };
    proof {
        reveal_strlit("expired claim without fresh heartbeat");
    }
    Some(t)
}

/// A run a worker holds: claimed or running.
pub open spec fn run_is_open(r: TaskRunRecord) -> bool {
    is_active(r.status)
}

/// The fields of a run no change touches.
pub open spec fn same_run(a: TaskRunRecord, b: TaskRunRecord) -> bool {
    &&& a.id == b.id
    &&& a.task_id == b.task_id
    &&& a.worker_id == b.worker_id
    &&& a.started_at == b.started_at
    &&& a.duration_ms == b.duration_ms
    &&& a.session_id == b.session_id
    &&& a.log_path == b.log_path
}

/// The run a claim opens: claimed at `now`, nothing recorded yet.
pub fn opened_run(run_id: &str, task_id: &str, worker_id: &str, now: Timestamp) -> (r: TaskRunRecord)
    ensures
        r.id@ == run_id@,
        r.task_id@ == task_id@,
        r.worker_id@ == worker_id@,
        r.status == TaskStatus::Claimed,
        r.started_at == now,
        r.finished_at is None,
        r.duration_ms is None,
        r.session_id is None,
        r.output_summary is None,
        r.error is None,
        r.log_path is None,
{
    TaskRunRecord {
        id: owned(run_id),
        task_id: owned(task_id),
        worker_id: owned(worker_id),
        status: TaskStatus::Claimed,
        started_at: now,
        finished_at: None,
        duration_ms: None,
        session_id: None,
        output_summary: None,
        error: None,
        log_path: None,
    }
}

fn copy_run(r: &TaskRunRecord) -> (c: TaskRunRecord)
    ensures
        c == *r,
{
    TaskRunRecord {
        id: r.id.clone(),
        task_id: r.task_id.clone(),
        worker_id: r.worker_id.clone(),
        status: r.status,
        started_at: r.started_at,
        finished_at: r.finished_at,
        duration_ms: r.duration_ms,
        session_id: copy_opt_string(&r.session_id),
        output_summary: copy_opt_string(&r.output_summary),
        error: copy_opt_string(&r.error),
        log_path: copy_opt_string(&r.log_path),
    }
}

/// A worker claims a queued task for `claim_ttl_secs` seconds: the task is
/// claimed under `claim_lock` until `now` plus that time, and run `run_id` is
/// opened for it. Nothing is claimed where the expiry falls outside the
/// instants chrono can hold.
pub fn claim_task(
    task: &TaskRecord,
    worker_id: &str,
    claim_lock: &str,
    run_id: &str,
    now: Timestamp,
    claim_ttl_secs: i64,
) -> (r: Option<ClaimedTask>)
    requires
        valid_timestamp(now),
        seconds_in_range(claim_ttl_secs),
    ensures
        r is Some <==> (task.status == TaskStatus::Queued && add_span(now, seconds_span(claim_ttl_secs)) is Some),
        r matches Some(c) ==> {
            &&& c.claim_lock@ == claim_lock@
            &&& holds_lock(c.task, claim_lock@)
            &&& task_step(*task, c.task)
            &&& claim_consistent(c.task)
            &&& same_identity(c.task, *task)
            &&& c.task.status == TaskStatus::Claimed
            &&& c.task.claim_expires_at == add_span(now, seconds_span(claim_ttl_secs))
            &&& c.task.assigned_worker matches Some(w) && w@ == worker_id@
            &&& c.task.updated_at == now
            &&& c.task.started_at == if task.started_at is Some { task.started_at } else { Some(now) }
            &&& c.task.last_heartbeat_at == task.last_heartbeat_at
            &&& c.task.retry_count == task.retry_count
            &&& c.task.last_error == task.last_error
            &&& c.task.completed_at == task.completed_at
            &&& c.run.id@ == run_id@
            &&& c.run.task_id@ == task.id@
            &&& c.run.worker_id@ == worker_id@
            &&& c.run.status == TaskStatus::Claimed
            &&& c.run.started_at == now
            &&& c.run.finished_at is None
        },
{
    let expires_at = match claim_expiry(now, claim_ttl_secs) {
        Some(e) => e,
        None => return None,
    };
    match claim(task, worker_id, claim_lock, now, expires_at) {
        Some(t) => {
            let run = opened_run(run_id, task.id.as_str(), worker_id, now);
            Some(ClaimedTask { task: t, run, claim_lock: owned(claim_lock) })
        },
        None => None,
    }
}

/// The claimed run starts running.
pub fn run_started(run: &TaskRunRecord) -> (r: Option<TaskRunRecord>)
    ensures
        r is Some <==> run.status == TaskStatus::Claimed,
        r matches Some(x) ==> {
            &&& same_run(x, *run)
            &&& x.status == TaskStatus::Running
            &&& x.finished_at == run.finished_at
            &&& x.output_summary == run.output_summary
            &&& x.error == run.error
        },
{
    if run.status != TaskStatus::Claimed {
        return None;
    }
    let mut x = copy_run(run);
    x.status = TaskStatus::Running;
    Some(x)
}

/// An open run finishes with `status`, its output summary and its error.
pub fn finish_run(
    run: &TaskRunRecord,
    status: TaskStatus,
    output_summary: Option<&str>,
    error: Option<&str>,
    now: Timestamp,
) -> (r: Option<TaskRunRecord>)
    ensures
        r is Some <==> run_is_open(*run),
        r matches Some(x) ==> {
            &&& same_run(x, *run)
            &&& x.status == status
            &&& x.finished_at == Some(now)
            &&& (match output_summary {
                Some(o) => x.output_summary matches Some(v) && v@ == o@,
                None => x.output_summary is None,
            })
            &&& (match error {
                Some(e) => x.error matches Some(v) && v@ == e@,
                None => x.error is None,
            })
        },
{
    if !status_is_active(run.status) {
        return None;
    }
    let mut x = copy_run(run);
    x.status = status;
    x.finished_at = Some(now);
    x.output_summary = match output_summary {
        Some(o) => Some(owned(o)),
        None => None,
    };
    x.error = match error {
        Some(e) => Some(owned(e)),
        None => None,
    };
    Some(x)
}

/// An open run is closed with `status` at `at` (on cancellation, loss or a
/// failure before a retry); `error`, where given, replaces the recorded one.
pub fn close_run(run: &TaskRunRecord, status: TaskStatus, error: Option<&str>, at: Timestamp) -> (r: Option<TaskRunRecord>)
    ensures
        r is Some <==> run_is_open(*run),
        r matches Some(x) ==> {
            &&& same_run(x, *run)
            &&& x.status == status
            &&& x.finished_at == Some(at)
            &&& x.output_summary == run.output_summary
            &&& (match error {
                Some(e) => x.error matches Some(v) && v@ == e@,
                None => x.error == run.error,
            })
        },
{
    if !status_is_active(run.status) {
        return None;
    }
    let mut x = copy_run(run);
    x.status = status;
    x.finished_at = Some(at);
    match error {
        Some(e) => {
            x.error = Some(owned(e));
        },
        None => {},
    }
    Some(x)
}

/// The greatest of a sequence of integers.
pub open spec fn seq_max(s: Seq<i64>) -> int
    decreases s.len(),
{
    if s.len() == 0 {
        0
    } else if s.len() == 1 {
        s[0] as int
    } else {
        let m = seq_max(s.drop_last());
        if s.last() > m { s.last() as int } else { m }
    }
}

proof fn lemma_seq_max_bounds(s: Seq<i64>)
    requires
        s.len() > 0,
    ensures
        forall|i: int| 0 <= i < s.len() ==> s[i] <= seq_max(s),
        exists|i: int| 0 <= i < s.len() && s[i] == seq_max(s),
    decreases s.len(),
{
    if s.len() > 1 {
        lemma_seq_max_bounds(s.drop_last());
        let m = seq_max(s.drop_last());
        let w = choose|i: int| 0 <= i < s.drop_last().len() && s.drop_last()[i] == m;
        assert(s[w] == s.drop_last()[w]);
        assert forall|i: int| 0 <= i < s.len() implies s[i] <= seq_max(s) by {
            if i < s.len() - 1 {
                assert(s[i] == s.drop_last()[i]);
            }
        }
        if s.last() > m {
            assert(s[s.len() - 1] == seq_max(s));
        } else {
            assert(s[w] == seq_max(s));
        }
    } else {
        assert(s[0] == seq_max(s));
    }
}

/// The sequence number of a task's next event: one past the greatest it has,
/// or 0 for its first.
pub open spec fn next_sequence(existing: Seq<i64>) -> int {
    if existing.len() == 0 { 0 } else { seq_max(existing) + 1 }
}

/// The sequence number the next event of a task gets, from those its events
/// already have.
pub fn next_event_sequence(existing: &Vec<i64>) -> (r: i64)
    requires
        forall|i: int| 0 <= i < existing.len() ==> existing@[i] < i64::MAX,
    ensures
        r == next_sequence(existing@),
        forall|i: int| 0 <= i < existing.len() ==> existing@[i] < r,
{
    if existing.len() == 0 {
        return 0;
    }
    let mut m: i64 = existing[0];
    let mut i: usize = 1;
    while i < existing.len()
        invariant
            1 <= i <= existing.len(),
            m == seq_max(existing@.subrange(0, i as int)),
        decreases existing.len() - i,
    {
        let ghost prefix = existing@.subrange(0, i as int + 1);
        assert(prefix.drop_last() =~= existing@.subrange(0, i as int));
        if existing[i] > m {
            m = existing[i];
        }
        i = i + 1;
    }
    assert(existing@.subrange(0, existing.len() as int) =~= existing@);
    proof {
        lemma_seq_max_bounds(existing@);
        let w = choose|k: int| 0 <= k < existing@.len() && existing@[k] == seq_max(existing@);
        assert(existing@[w] < i64::MAX);
    }
    m + 1
}

/// Why an event cannot be appended to a task.
#[derive(Debug, Clone, Copy, PartialEq, Eq, Structural)]
pub enum EventAppendRefusal {
    /// No task has the identifier.
    TaskMissing,
    /// The task's events already reach the largest number.
    SequenceExhausted,
}

/// The number of an event appended to a task: refused where the task is not
/// found, or where its numbers already reach `i64::MAX`; else one past the
/// greatest number the task's events have (0 for its first).
pub fn event_sequence_for(task_found: bool, existing: &Vec<i64>) -> (r: Result<i64, EventAppendRefusal>)
    ensures
        !task_found ==> r == Err::<i64, EventAppendRefusal>(EventAppendRefusal::TaskMissing),
        task_found ==> (r == Err::<i64, EventAppendRefusal>(EventAppendRefusal::SequenceExhausted) <==> exists|k: int|
            0 <= k < existing@.len() && existing@[k] == i64::MAX),
        r matches Ok(n) ==> n == next_sequence(existing@) && forall|k: int| 0 <= k < existing@.len() ==> existing@[k] < n,
{
    if !task_found {
        return Err(EventAppendRefusal::TaskMissing);
    }
    let mut k: usize = 0;
    while k < existing.len()
        invariant
            task_found,
            k <= existing@.len(),
            forall|j: int| 0 <= j < k ==> existing@[j] < i64::MAX,
        decreases existing@.len() - k,
    {
        if existing[k] == i64::MAX {
            return Err(EventAppendRefusal::SequenceExhausted);
        }
        k += 1;
    }
    Ok(next_event_sequence(existing))
}

/// Each event a store appends comes after every earlier event of its task.
pub proof fn lemma_next_sequence_follows_all(existing: Seq<i64>)
    ensures
        forall|i: int| 0 <= i < existing.len() ==> existing[i] < next_sequence(existing),
{
    if existing.len() > 0 {
        lemma_seq_max_bounds(existing);
    }
}

/// Some event of a task has number `v`.
pub open spec fn has_number(seqs: Seq<i64>, v: int) -> bool {
    exists|i: int| 0 <= i < seqs.len() && #[trigger] seqs[i] == v
}

/// A task's event numbers are exactly 0, 1, ..., n - 1, each once.
pub open spec fn numbered_without_gaps(seqs: Seq<i64>) -> bool {
    &&& forall|i: int| 0 <= i < seqs.len() ==> 0 <= #[trigger] seqs[i] < seqs.len()
    &&& forall|i: int, j: int| 0 <= i < j < seqs.len() ==> seqs[i] != seqs[j]
    &&& forall|v: int| 0 <= v < seqs.len() ==> #[trigger] has_number(seqs, v)
}

/// Appending events one after another keeps a task's event numbers unique and
/// without gaps: where they are 0 to n - 1, the next event gets n, and the
/// numbers are then 0 to n.
pub proof fn lemma_appends_stay_without_gaps(existing: Seq<i64>)
    requires
        existing.len() < i64::MAX,
        numbered_without_gaps(existing),
    ensures
        next_sequence(existing) == existing.len(),
        numbered_without_gaps(existing.push(existing.len() as i64)),
{
    let n = existing.len() as int;
    if n > 0 {
        lemma_seq_max_bounds(existing);
        assert(has_number(existing, n - 1));
        let w = choose|i: int| 0 <= i < n && existing[i] == n - 1;
        assert(existing[w] <= seq_max(existing));
    }
    let after = existing.push(n as i64);
    assert forall|v: int| 0 <= v < after.len() implies #[trigger] has_number(after, v) by {
        if v == n {
            assert(after[n] == v);
        } else {
            assert(has_number(existing, v));
            let i = choose|i: int| 0 <= i < n && #[trigger] existing[i] == v;
            assert(after[i] == v);
        }
    };
}

/// `a` is claimed before `b`: a higher priority first, then the older task.
pub open spec fn claims_before(a: TaskRecord, b: TaskRecord) -> bool {
    a.priority > b.priority || (a.priority == b.priority && crate::time::before(a.created_at, b.created_at))
}

/// The queued task a worker claims first: none is queued with a higher
/// priority, nor with the same priority and created earlier; among equals the
/// first listed.
pub fn first_claim_candidate(tasks: &Vec<TaskRecord>) -> (r: Option<usize>)
    ensures
        r is None <==> forall|j: int| 0 <= j < tasks@.len() ==> tasks@[j].status != TaskStatus::Queued,
        r matches Some(i) ==> {
            &&& i < tasks@.len()
            &&& tasks@[i as int].status == TaskStatus::Queued
            &&& forall|j: int| 0 <= j < tasks@.len() && tasks@[j].status == TaskStatus::Queued
                ==> !claims_before(#[trigger] tasks@[j], tasks@[i as int])
        },
{
    let mut best: Option<usize> = None;
    let mut k: usize = 0;
    while k < tasks.len()
        invariant
            k <= tasks@.len(),
            best is None <==> forall|j: int| 0 <= j < k ==> tasks@[j].status != TaskStatus::Queued,
            best matches Some(i) ==> {
                &&& i < k
                &&& tasks@[i as int].status == TaskStatus::Queued
                &&& forall|j: int| 0 <= j < k && tasks@[j].status == TaskStatus::Queued
                    ==> !claims_before(#[trigger] tasks@[j], tasks@[i as int])
            },
        decreases tasks.len() - k,
    {
        if tasks[k].status == TaskStatus::Queued {
            match best {
                None => {
                    best = Some(k);
                },
                Some(i) => {
                    let a = &tasks[k];
                    let b = &tasks[i];
                    if a.priority > b.priority || (a.priority == b.priority && crate::time::is_before(a.created_at, b.created_at)) {
                        best = Some(k);
                    }
                },
            }
        }
        k = k + 1;
    }
    best
}

} // verus!
