//! Kanban tasks: their statuses and payloads, and the records a task store keeps.
use vstd::prelude::*;
use crate::text::{join2, owned, str_eq};
use crate::time::Timestamp;

verus! {

#[derive(Debug, Clone, Copy, PartialEq, Eq, Structural)]
pub enum TaskStatus {
    Queued,
    Claimed,
    Running,
    Succeeded,
    Failed,
    Blocked,
    Cancelled,
    TimedOut,
    Lost,
}

pub open spec fn task_status_text(s: TaskStatus) -> Seq<char> {
    match s {
        TaskStatus::Queued => "queued"@,
        TaskStatus::Claimed => "claimed"@,
        TaskStatus::Running => "running"@,
        TaskStatus::Succeeded => "succeeded"@,
        TaskStatus::Failed => "failed"@,
        TaskStatus::Blocked => "blocked"@,
        TaskStatus::Cancelled => "cancelled"@,
        TaskStatus::TimedOut => "timed_out"@,
        TaskStatus::Lost => "lost"@,
    }
}

/// Distinct statuses have distinct stored names, so a name read back gives the
/// status that was written.
pub proof fn lemma_task_status_text_injective(a: TaskStatus, b: TaskStatus)
    requires
        task_status_text(a) == task_status_text(b),
    ensures
        a == b,
{
    reveal_strlit("queued");
    reveal_strlit("claimed");
    reveal_strlit("running");
    reveal_strlit("succeeded");
    reveal_strlit("failed");
    reveal_strlit("blocked");
    reveal_strlit("cancelled");
    reveal_strlit("timed_out");
    reveal_strlit("lost");
    let x = task_status_text(a);
    let y = task_status_text(b);
    assert(x.len() == y.len());
    assert(x[0] == y[0]);
    if x.len() > 1 {
        assert(x[1] == y[1]);
    }
}

impl TaskStatus {
    pub fn as_str(self) -> (r: &'static str)
        ensures
            r@ == task_status_text(self),
    {
        match self {
            TaskStatus::Queued => "queued",
            TaskStatus::Claimed => "claimed",
            TaskStatus::Running => "running",
            TaskStatus::Succeeded => "succeeded",
            TaskStatus::Failed => "failed",
            TaskStatus::Blocked => "blocked",
            TaskStatus::Cancelled => "cancelled",
            TaskStatus::TimedOut => "timed_out",
            TaskStatus::Lost => "lost",
        }
    }

    /// The status a stored name denotes (the inverse of `as_str`).
    pub fn from_text(value: &str) -> (r: Result<Self, KanbanTypeError>)
        ensures
            r matches Ok(s) ==> task_status_text(s) == value@,
            r is Err <==> forall|s: TaskStatus| task_status_text(s) != value@,
            r matches Err(e) ==> e matches KanbanTypeError::InvalidStatus(t) && t@ == value@,
    {
        let all = [
            TaskStatus::Queued,
            TaskStatus::Claimed,
            TaskStatus::Running,
            TaskStatus::Succeeded,
            TaskStatus::Failed,
            TaskStatus::Blocked,
            TaskStatus::Cancelled,
            TaskStatus::TimedOut,
            TaskStatus::Lost,
        ];
        let mut i: usize = 0;
        while i < 9
            invariant
                i <= 9,
                all@ == seq![
                    TaskStatus::Queued,
                    TaskStatus::Claimed,
                    TaskStatus::Running,
                    TaskStatus::Succeeded,
                    TaskStatus::Failed,
                    TaskStatus::Blocked,
                    TaskStatus::Cancelled,
                    TaskStatus::TimedOut,
                    TaskStatus::Lost,
                ],
                forall|k: int| 0 <= k < i ==> task_status_text(all@[k]) != value@,
            decreases 9 - i,
        {
            if str_eq(all[i].as_str(), value) {
                return Ok(all[i]);
            }
            i = i + 1;
        }
        assert forall|s: TaskStatus| task_status_text(s) != value@ by {
            match s {
                TaskStatus::Queued => assert(all@[0] == s),
                TaskStatus::Claimed => assert(all@[1] == s),
                TaskStatus::Running => assert(all@[2] == s),
                TaskStatus::Succeeded => assert(all@[3] == s),
                TaskStatus::Failed => assert(all@[4] == s),
                TaskStatus::Blocked => assert(all@[5] == s),
                TaskStatus::Cancelled => assert(all@[6] == s),
                TaskStatus::TimedOut => assert(all@[7] == s),
                TaskStatus::Lost => assert(all@[8] == s),
            }
        }
        Err(KanbanTypeError::InvalidStatus(owned(value)))
    }
}

#[derive(Debug, Clone, Copy, PartialEq, Eq, Structural)]
pub enum PayloadKind {
    AgentPrompt,
    ShellCommand,
}

pub open spec fn kanban_payload_text(k: PayloadKind) -> Seq<char> {
    match k {
        PayloadKind::AgentPrompt => "agent_prompt"@,
        PayloadKind::ShellCommand => "shell_command"@,
    }
}

/// The two payload kinds have distinct stored names.
pub proof fn lemma_kanban_payload_text_injective(a: PayloadKind, b: PayloadKind)
    requires
        kanban_payload_text(a) == kanban_payload_text(b),
    ensures
        a == b,
{
    reveal_strlit("agent_prompt");
    reveal_strlit("shell_command");
    assert(kanban_payload_text(a).len() == kanban_payload_text(b).len());
    assert("agent_prompt"@.len() != "shell_command"@.len());
}

impl PayloadKind {
    pub fn as_str(self) -> (r: &'static str)
        ensures
            r@ == kanban_payload_text(self),
    {
        match self {
            PayloadKind::AgentPrompt => "agent_prompt",
            PayloadKind::ShellCommand => "shell_command",
        }
    }

    /// The kind a stored name denotes (the inverse of `as_str`).
    pub fn from_text(value: &str) -> (r: Result<Self, KanbanTypeError>)
        ensures
            r matches Ok(k) ==> kanban_payload_text(k) == value@,
            r is Err <==> (value@ != "agent_prompt"@ && value@ != "shell_command"@),
            r matches Err(e) ==> e matches KanbanTypeError::InvalidPayloadKind(t) && t@ == value@,
    {
        if str_eq(value, "agent_prompt") {
            Ok(PayloadKind::AgentPrompt)
        } else if str_eq(value, "shell_command") {
            Ok(PayloadKind::ShellCommand)
        } else {
            Err(KanbanTypeError::InvalidPayloadKind(owned(value)))
        }
    }
}

#[derive(Debug)]
pub enum KanbanTypeError {
    InvalidStatus(String),
    InvalidPayloadKind(String),
}

pub open spec fn kanban_type_error_text(e: KanbanTypeError) -> Seq<char> {
    match e {
        KanbanTypeError::InvalidStatus(t) => "invalid task status: "@ + t@,
        KanbanTypeError::InvalidPayloadKind(t) => "invalid payload kind: "@ + t@,
    }
}

impl KanbanTypeError {
    pub fn message(&self) -> (r: String)
        ensures
            r@ == kanban_type_error_text(*self),
    {
        match self {
            KanbanTypeError::InvalidStatus(t) => join2("invalid task status: ", t.as_str()),
            KanbanTypeError::InvalidPayloadKind(t) => join2("invalid payload kind: ", t.as_str()),
        }
    }
}

/// A task to create; the payload is JSON text.
#[derive(Debug, Clone, PartialEq, Eq)]
pub struct NewTask {
    pub source: String,
    pub source_id: Option<String>,
    pub title: String,
    pub body: String,
    pub payload_kind: PayloadKind,
    pub payload_json: String,
    pub priority: i64,
    pub max_retries: i64,
}

/// A stored task; the payload is JSON text and instants are `Timestamp`s.
#[derive(Debug, Clone, PartialEq, Eq)]
pub struct TaskRecord {
    pub id: String,
    pub source: String,
    pub source_id: Option<String>,
    pub title: String,
    pub body: String,
    pub payload_kind: PayloadKind,
    pub payload_json: String,
    pub status: TaskStatus,
    pub priority: i64,
    pub claim_lock: Option<String>,
    pub claim_expires_at: Option<Timestamp>,
    pub assigned_worker: Option<String>,
    pub last_heartbeat_at: Option<Timestamp>,
    pub retry_count: i64,
    pub max_retries: i64,
    pub last_error: Option<String>,
    pub created_at: Timestamp,
    pub updated_at: Timestamp,
    pub started_at: Option<Timestamp>,
    pub completed_at: Option<Timestamp>,
}

#[derive(Debug, Clone, PartialEq, Eq)]
pub struct TaskRunRecord {
    pub id: String,
    pub task_id: String,
    pub worker_id: String,
    pub status: TaskStatus,
    pub started_at: Timestamp,
    pub finished_at: Option<Timestamp>,
    pub duration_ms: Option<i64>,
    pub session_id: Option<String>,
    pub output_summary: Option<String>,
    pub error: Option<String>,
    pub log_path: Option<String>,
}

/// An event in a task's history; the payload is JSON text.
#[derive(Debug, Clone, PartialEq, Eq)]
pub struct TaskEventRecord {
    pub id: String,
    pub task_id: String,
    pub run_id: Option<String>,
    pub event_type: String,
    pub payload_json: String,
    pub created_at: Timestamp,
    pub sequence: i64,
}

#[derive(Debug, Clone, PartialEq, Eq)]
pub struct ClaimedTask {
    pub task: TaskRecord,
    pub run: TaskRunRecord,
    pub claim_lock: String,
}

} // verus!
