//! The rules of the HTTP gateway: who may bind where, which requests are
//! authorised, which payloads are refused, the error replies, the run output
//! it reports, and how a background task's execution is judged.
use vstd::prelude::*;
use crate::agent::{AgentError, AgentEvent, AgentOutput, agent_error_text};
use crate::kanban::{self, NewTask, TaskRecord};
use crate::schedule;
use crate::scheduler::NewCronJob;
use crate::text::{is_blank, is_blank_str, join2, join3, owned, str_eq, trim, trim_str};
use crate::worker::ExecutionResult;
use crate::kanban::TaskStatus;
use crate::json::{field_str, json_value_of, opt_text, read_json_value, read_str_field};

verus! {

/// The page that lists cron jobs, refreshed every five seconds.
pub open spec fn cron_dashboard_text() -> Seq<char> {
    "<!doctype html>\n<html>\n<head><title>Cron Jobs</title></head>\n<body>\n<h1>Cron Jobs</h1>\n<pre id=\"jobs\"></pre>\n<script>\nasync function loadCronJobs() {\n  const response = await fetch('/api/cron/jobs');\n  document.getElementById('jobs').textContent = JSON.stringify(await response.json(), null, 2);\n}\nloadCronJobs();\nsetInterval(loadCronJobs, 5000);\n</script>\n</body>\n</html>"@
}

/// The page that lists kanban tasks, refreshed every five seconds.
pub open spec fn tasks_dashboard_text() -> Seq<char> {
    "<!doctype html>\n<html>\n<head><title>Kanban Tasks</title></head>\n<body>\n<h1>Kanban Tasks</h1>\n<nav>queued running failed</nav>\n<pre id=\"tasks\"></pre>\n<script>\nasync function loadTasks() {\n  const response = await fetch('/api/tasks');\n  document.getElementById('tasks').textContent = JSON.stringify(await response.json(), null, 2);\n}\nloadTasks();\nsetInterval(loadTasks, 5000);\n</script>\n</body>\n</html>"@
}

pub fn cron_dashboard_html() -> (r: String)
    ensures
        r@ == cron_dashboard_text(),
{
    owned("<!doctype html>\n<html>\n<head><title>Cron Jobs</title></head>\n<body>\n<h1>Cron Jobs</h1>\n<pre id=\"jobs\"></pre>\n<script>\nasync function loadCronJobs() {\n  const response = await fetch('/api/cron/jobs');\n  document.getElementById('jobs').textContent = JSON.stringify(await response.json(), null, 2);\n}\nloadCronJobs();\nsetInterval(loadCronJobs, 5000);\n</script>\n</body>\n</html>")
}

pub fn tasks_dashboard_html() -> (r: String)
    ensures
        r@ == tasks_dashboard_text(),
{
    owned("<!doctype html>\n<html>\n<head><title>Kanban Tasks</title></head>\n<body>\n<h1>Kanban Tasks</h1>\n<nav>queued running failed</nav>\n<pre id=\"tasks\"></pre>\n<script>\nasync function loadTasks() {\n  const response = await fetch('/api/tasks');\n  document.getElementById('tasks').textContent = JSON.stringify(await response.json(), null, 2);\n}\nloadTasks();\nsetInterval(loadTasks, 5000);\n</script>\n</body>\n</html>")
}

/// The hosts that only this machine can reach.
pub open spec fn loopback(host: Seq<char>) -> bool {
    host == "127.0.0.1"@ || host == "localhost"@ || host == "::1"@
}

pub fn is_loopback_host(host: &str) -> (r: bool)
    ensures
        r == loopback(host@),
{
    str_eq(host, "127.0.0.1") || str_eq(host, "localhost") || str_eq(host, "::1")
}

/// The refusal to bind to a host other machines can reach without a token.
pub open spec fn token_required_text(host: Seq<char>) -> Seq<char> {
    "AGENT_HTTP_TOKEN is required when binding Agent Gateway to non-loopback host "@ + host
}

/// The gateway may bind to a loopback host freely, and to any other host only
/// with a token that is not blank.
pub fn validate_http_token_for_host(host: &str, token: Option<&str>) -> (r: Result<(), String>)
    ensures
        r is Ok <==> (loopback(host@) || (token matches Some(t) && !is_blank(t@))),
        r matches Err(m) ==> m@ == token_required_text(host@),
{
    if is_loopback_host(host) {
        return Ok(());
    }
    match token {
        Some(t) => {
            if !is_blank_str(t) {
                return Ok(());
            }
        },
        None => {},
    }
    Err(join2("AGENT_HTTP_TOKEN is required when binding Agent Gateway to non-loopback host ", host))
}

/// The body of an error reply.
#[derive(Debug, Clone, PartialEq, Eq)]
pub struct ErrorResponse {
    pub error: String,
}

/// An error reply: its HTTP status code and body.
#[derive(Debug, Clone, PartialEq, Eq)]
pub struct ApiError {
    pub status: u16,
    pub body: ErrorResponse,
}

pub fn unauthorized() -> (r: ApiError)
    ensures
        r.status == 401,
        r.body.error@ == "missing or invalid bearer token"@,
{
    ApiError { status: 401, body: ErrorResponse { error: owned("missing or invalid bearer token") } }
}

pub fn internal_error(message: &str) -> (r: ApiError)
    ensures
        r.status == 500,
        r.body.error@ == message@,
{
    ApiError { status: 500, body: ErrorResponse { error: owned(message) } }
}

pub fn not_found(resource: &str, id: &str) -> (r: ApiError)
    ensures
        r.status == 404,
        r.body.error@ == resource@ + " not found: "@ + id@,
{
    ApiError { status: 404, body: ErrorResponse { error: join3(resource, " not found: ", id) } }
}

pub fn conflict(message: &str) -> (r: ApiError)
    ensures
        r.status == 409,
        r.body.error@ == message@,
{
    ApiError { status: 409, body: ErrorResponse { error: owned(message) } }
}

/// The reply to a request that would create a shell command over HTTP.
pub open spec fn forbidden_shell_text() -> Seq<char> {
    "shell_command payloads cannot be created over HTTP"@
}

pub fn forbidden_shell_command() -> (r: ApiError)
    ensures
        r.status == 403,
        r.body.error@ == forbidden_shell_text(),
{
    ApiError {
        status: 403,
        body: ErrorResponse { error: owned("shell_command payloads cannot be created over HTTP") },
    }
}

/// A configured token is one that is present and not blank.
pub open spec fn configured_token(expected: Option<&str>) -> Option<Seq<char>> {
    match expected {
        Some(t) => if is_blank(t@) { None } else { Some(t@) },
        None => None,
    }
}

/// A request passes when no token is configured, or when its `Authorization`
/// header is exactly `Bearer ` followed by the token.
pub fn authorize_bearer_header(authorization: Option<&str>, expected_token: Option<&str>) -> (r: Result<(), ApiError>)
    ensures
        r is Ok <==> match configured_token(expected_token) {
            None => true,
            Some(t) => authorization matches Some(a) && a@ == "Bearer "@ + t,
        },
        r matches Err(e) ==> e.status == 401 && e.body.error@ == "missing or invalid bearer token"@,
{
    let token = match expected_token {
        Some(t) => {
            if is_blank_str(t) {
                return Ok(());
            }
            t
        },
        None => return Ok(()),
    };
    let expected_header = join2("Bearer ", token);
    match authorization {
        Some(a) => {
            if str_eq(a, expected_header.as_str()) {
                return Ok(());
            }
        },
        None => {},
    }
    Err(unauthorized())
}

/// Cron jobs created over HTTP may not run shell commands.
pub fn validate_http_cron_job(payload: &NewCronJob) -> (r: Result<(), ApiError>)
    ensures
        r is Ok <==> payload.payload_kind == schedule::PayloadKind::AgentPrompt,
        r matches Err(e) ==> e.status == 403 && e.body.error@ == forbidden_shell_text(),
{
    match payload.payload_kind {
        schedule::PayloadKind::ShellCommand => Err(forbidden_shell_command()),
        schedule::PayloadKind::AgentPrompt => Ok(()),
    }
}

/// Tasks created over HTTP may not run shell commands.
pub fn validate_http_task(payload: &NewTask) -> (r: Result<(), ApiError>)
    ensures
        r is Ok <==> payload.payload_kind == kanban::PayloadKind::AgentPrompt,
        r matches Err(e) ==> e.status == 403 && e.body.error@ == forbidden_shell_text(),
{
    match payload.payload_kind {
        kanban::PayloadKind::ShellCommand => Err(forbidden_shell_command()),
        kanban::PayloadKind::AgentPrompt => Ok(()),
    }
}

/// The reply of a retry request: the task must exist, and the store must have
/// queued it again.
pub fn retry_reply(id: &str, task_exists: bool, retried: bool) -> (r: Result<(), ApiError>)
    ensures
        r is Ok <==> task_exists && retried,
        r matches Err(e) ==> if !task_exists {
            e.status == 404 && e.body.error@ == "task not found: "@ + id@
        } else {
            e.status == 409 && e.body.error@ == "task cannot be retried: "@ + id@
        },
{
    if !task_exists {
        let r = not_found("task", id);
        proof {
            reveal_strlit("task");
            reveal_strlit(" not found: ");
            reveal_strlit("task not found: ");
            assert("task"@ + " not found: "@ =~= "task not found: "@);
        }
        return Err(r);
    }
    if !retried {
        let message = join2("task cannot be retried: ", id);
        return Err(conflict(message.as_str()));
    }
    Ok(())
}

/// The reply of a cancel request: the store must have cancelled the task.
pub fn cancel_reply(id: &str, cancelled: bool) -> (r: Result<(), ApiError>)
    ensures
        r is Ok <==> cancelled,
        r matches Err(e) ==> e.status == 404 && e.body.error@ == "task not found: "@ + id@,
{
    if !cancelled {
        let r = not_found("task", id);
        proof {
            reveal_strlit("task");
            reveal_strlit(" not found: ");
            reveal_strlit("task not found: ");
            assert("task"@ + " not found: "@ =~= "task not found: "@);
        }
        return Err(r);
    }
    Ok(())
}

/// The output a run reports: that of its last final or budget event, else the
/// error that stopped it, else nothing.
pub open spec fn last_outcome(events: Seq<AgentEvent>) -> Option<Seq<char>>
    decreases events.len(),
{
    if events.len() == 0 {
        None
    } else {
        match events.last() {
            AgentEvent::Final { content } => Some(content@),
            AgentEvent::BudgetExhausted { reason } => Some("[Budget exhausted] "@ + reason@),
            _ => last_outcome(events.drop_last()),
        }
    }
}

pub open spec fn run_output(events: Seq<AgentEvent>, error: Option<Seq<char>>) -> Seq<char> {
    match last_outcome(events) {
        Some(o) => o,
        None => match error {
            Some(e) => "[Error] "@ + e,
            None => Seq::<char>::empty(),
        },
    }
}

/// The event is one that ends a run with an answer: a final answer or a spent
/// budget.
pub open spec fn is_outcome_event(e: AgentEvent) -> bool {
    e is Final || e is BudgetExhausted
}

proof fn lemma_no_outcome(events: Seq<AgentEvent>)
    requires
        forall|i: int| 0 <= i < events.len() ==> !is_outcome_event(#[trigger] events[i]),
    ensures
        last_outcome(events) is None,
    decreases events.len(),
{
    if events.len() > 0 {
        assert(!is_outcome_event(events[events.len() - 1]));
        assert forall|i: int| 0 <= i < events.drop_last().len() implies !is_outcome_event(
            #[trigger] events.drop_last()[i],
        ) by {
            assert(events.drop_last()[i] == events[i]);
        };
        lemma_no_outcome(events.drop_last());
    }
}

proof fn lemma_last_outcome_at(events: Seq<AgentEvent>, k: int)
    requires
        0 <= k < events.len(),
        is_outcome_event(events[k]),
        forall|j: int| k < j < events.len() ==> !is_outcome_event(#[trigger] events[j]),
    ensures
        last_outcome(events) == match events[k] {
            AgentEvent::Final { content } => Some(content@),
            AgentEvent::BudgetExhausted { reason } => Some("[Budget exhausted] "@ + reason@),
            _ => None::<Seq<char>>,
        },
    decreases events.len(),
{
    if k < events.len() - 1 {
        assert(!is_outcome_event(events[events.len() - 1]));
        assert forall|j: int| k < j < events.drop_last().len() implies !is_outcome_event(
            #[trigger] events.drop_last()[j],
        ) by {
            assert(events.drop_last()[j] == events[j]);
        };
        assert(events.drop_last()[k] == events[k]);
        lemma_last_outcome_at(events.drop_last(), k);
    }
}

/// A run whose events hold no final answer and no budget notice reports the
/// error that stopped it, as "[Error] " and the error, whatever other events
/// it emitted; with no error it reports nothing. Otherwise it reports its last
/// such event: a final answer's text, or "[Budget exhausted] " and the reason,
/// whether or not there was an error.
pub proof fn lemma_run_output(events: Seq<AgentEvent>, error: Option<Seq<char>>)
    ensures
        (forall|i: int| 0 <= i < events.len() ==> !is_outcome_event(#[trigger] events[i])) ==> run_output(
            events,
            error,
        ) == match error {
            Some(e) => "[Error] "@ + e,
            None => Seq::<char>::empty(),
        },
        forall|k: int|
            0 <= k < events.len() && (forall|j: int| k < j < events.len() ==> !is_outcome_event(
                #[trigger] events[j],
            )) ==> {
                &&& (#[trigger] events[k] matches AgentEvent::Final { content } ==> run_output(events, error)
                    == content@)
                &&& (events[k] matches AgentEvent::BudgetExhausted { reason } ==> run_output(events, error)
                    == "[Budget exhausted] "@ + reason@)
            },
{
    if forall|i: int| 0 <= i < events.len() ==> !is_outcome_event(#[trigger] events[i]) {
        lemma_no_outcome(events);
    }
    assert forall|k: int|
        0 <= k < events.len() && (forall|j: int| k < j < events.len() ==> !is_outcome_event(
            #[trigger] events[j],
        )) implies {
        &&& (#[trigger] events[k] matches AgentEvent::Final { content } ==> run_output(events, error)
            == content@)
        &&& (events[k] matches AgentEvent::BudgetExhausted { reason } ==> run_output(events, error)
            == "[Budget exhausted] "@ + reason@)
    } by {
        if is_outcome_event(events[k]) {
            lemma_last_outcome_at(events, k);
        }
    };
}

pub fn output_from_events(events: &[AgentEvent], error: Option<&str>) -> (r: String)
    ensures
        r@ == run_output(events@, match error { Some(e) => Some(e@), None => None }),
{
    let mut i: usize = events.len();
    assert(events@.subrange(0, i as int) =~= events@);
    while i > 0
        invariant
            i <= events@.len(),
            last_outcome(events@) == last_outcome(events@.subrange(0, i as int)),
        decreases i,
    {
        let ghost prefix = events@.subrange(0, i as int);
        assert(prefix.drop_last() =~= events@.subrange(0, i as int - 1));
        assert(prefix.last() == events@[i as int - 1]);
        match &events[i - 1] {
            AgentEvent::Final { content } => return content.clone(),
            AgentEvent::BudgetExhausted { reason } => return join2("[Budget exhausted] ", reason.as_str()),
            _ => {},
        }
        i = i - 1;
    }
    assert(events@.subrange(0, 0) =~= Seq::<AgentEvent>::empty());
    match error {
        Some(e) => join2("[Error] ", e),
        None => String::new(),
    }
}

/// An event as the gateway serialises it.
#[derive(Debug, Clone, PartialEq, Eq)]
pub enum SerializableAgentEvent {
    UserMessage { content: String },
    ToolCall { id: String, name: String },
    ToolResult { id: String, ok: bool, content: String, error: Option<String> },
    Final { content: String },
    BudgetExhausted { reason: String },
}

pub open spec fn serializable_of(event: AgentEvent) -> SerializableAgentEvent {
    match event {
        AgentEvent::UserMessage { content } => SerializableAgentEvent::UserMessage { content },
        AgentEvent::ToolCall { id, name } => SerializableAgentEvent::ToolCall { id, name },
        AgentEvent::ToolResult { id, ok, content, error } => SerializableAgentEvent::ToolResult { id, ok, content, error },
        AgentEvent::Final { content } => SerializableAgentEvent::Final { content },
        AgentEvent::BudgetExhausted { reason } => SerializableAgentEvent::BudgetExhausted { reason },
    }
}

impl From<AgentEvent> for SerializableAgentEvent {
    fn from(event: AgentEvent) -> (r: Self) {
        match event {
            AgentEvent::UserMessage { content } => SerializableAgentEvent::UserMessage { content },
            AgentEvent::ToolCall { id, name } => SerializableAgentEvent::ToolCall { id, name },
            AgentEvent::ToolResult { id, ok, content, error } => SerializableAgentEvent::ToolResult { id, ok, content, error },
            AgentEvent::Final { content } => SerializableAgentEvent::Final { content },
            AgentEvent::BudgetExhausted { reason } => SerializableAgentEvent::BudgetExhausted { reason },
        }
    }
}

impl vstd::std_specs::convert::FromSpecImpl<AgentEvent> for SerializableAgentEvent {
    open spec fn obeys_from_spec() -> bool {
        true
    }

    open spec fn from_spec(event: AgentEvent) -> Self {
        serializable_of(event)
    }
}

/// The reply to a health check or a webhook.
#[derive(Debug, Clone, PartialEq, Eq)]
pub struct StatusResponse {
    pub status: String,
    pub port: u16,
}

/// A request to run the agent once.
#[derive(Debug, Clone, PartialEq, Eq)]
pub struct RunRequest {
    pub message: String,
    pub session_id: Option<String>,
}

/// The reply to a run: the session, the output and every event.
#[derive(Debug, Clone, PartialEq, Eq)]
pub struct RunResponse {
    pub session_id: String,
    pub output: String,
    pub events: Vec<SerializableAgentEvent>,
}

/// The filter of a task listing.
#[derive(Debug, Clone, PartialEq, Eq)]
pub struct TaskListQuery {
    pub status: Option<TaskStatus>,
}

#[derive(Debug, Clone, PartialEq, Eq)]
pub struct TelegramWebhook {
    pub message: Option<TelegramMessage>,
}

#[derive(Debug, Clone, PartialEq, Eq)]
pub struct TelegramMessage {
    pub chat: TelegramChat,
    pub text: Option<String>,
}

#[derive(Debug, Clone, PartialEq, Eq)]
pub struct TelegramChat {
    pub id: i64,
}

/// The session a background agent task runs in.
pub fn task_session_id(task_id: &str) -> (r: String)
    ensures
        r@ == "task-"@ + task_id@,
{
    join2("task-", task_id)
}

/// What a background agent run yields as a task result: its final answer is a
/// success; a cancellation, a spent budget or an error is a failure with the
/// matching text.
pub fn agent_task_result(output: Result<AgentOutput, AgentError>) -> (r: ExecutionResult)
    ensures
        match output {
            Ok(AgentOutput::Final(content)) => {
                &&& r.status == TaskStatus::Succeeded
                &&& r.output_summary == Some(content)
                &&& r.error is None
            },
            Ok(AgentOutput::Cancelled) => {
                &&& r.status == TaskStatus::Failed
                &&& r.output_summary is None
                &&& r.error matches Some(e) && e@ == "Cancelled"@
            },
            Ok(AgentOutput::BudgetExhausted(reason)) => {
                &&& r.status == TaskStatus::Failed
                &&& r.output_summary is None
                &&& r.error == Some(reason)
            },
            Err(error) => {
                &&& r.status == TaskStatus::Failed
                &&& r.output_summary is None
                &&& r.error matches Some(e) && e@ == agent_error_text(error)
            },
        },
{
    match output {
        Ok(AgentOutput::Final(content)) => ExecutionResult::succeeded(Some(content)),
        Ok(AgentOutput::Cancelled) => ExecutionResult::failed(owned("Cancelled")),
        Ok(AgentOutput::BudgetExhausted(reason)) => ExecutionResult::failed(reason),
        Err(error) => ExecutionResult::failed(error.message()),
    }
}

/// The failure text of a shell command that exited unsuccessfully and wrote
/// nothing to its error stream.
pub open spec fn shell_status_text(status: Seq<char>, stdout: Seq<char>) -> Seq<char> {
    "shell command failed with status "@ + status + " and stdout: "@ + trim(stdout)
}

/// What a shell command yields as a task result: on success its trimmed
/// output; on failure its trimmed error stream, or, when that is blank, its
/// exit status and trimmed output.
pub fn shell_task_result(success: bool, status_text: &str, stdout: &str, stderr: &str) -> (r: ExecutionResult)
    ensures
        success ==> {
            &&& r.status == TaskStatus::Succeeded
            &&& r.output_summary matches Some(o) && o@ == trim(stdout@)
            &&& r.error is None
        },
        !success ==> {
            &&& r.status == TaskStatus::Failed
            &&& r.output_summary is None
            &&& r.error matches Some(e) && e@ == if trim(stderr@).len() == 0 {
                shell_status_text(status_text@, stdout@)
            } else {
                trim(stderr@)
            }
        },
{
    if success {
        return ExecutionResult::succeeded(Some(owned(trim_str(stdout))));
    }
    let err = trim_str(stderr);
    if err.unicode_len() == 0 {
        let out = trim_str(stdout);
        let head = join3("shell command failed with status ", status_text, " and stdout: ");
        ExecutionResult::failed(head.concat(out))
    } else {
        ExecutionResult::failed(owned(err))
    }
}

/// The string stored under `key` in the JSON object that `text` holds, if
/// the text is JSON and the field is a string.
pub open spec fn json_string_field(text: Seq<char>, key: Seq<char>) -> Option<Seq<char>> {
    match json_value_of(text) {
        Ok(v) => field_str(v, key),
        Err(_) => None,
    }
}

/// Reads the string field `key` of the JSON object in `text`.
fn read_json_string_field(text: &str, key: &str) -> (r: Option<String>)
    ensures
        opt_text(r) == json_string_field(text@, key@),
{
    match read_json_value(text) {
        Ok(v) => read_str_field(&v, key),
        Err(_) => None,
    }
}

/// The prompt of an agent task, or the failure of a task that has none.
pub fn agent_prompt(task: &TaskRecord) -> (r: Result<String, ExecutionResult>)
    ensures
        match r {
            Ok(p) => json_string_field(task.payload_json@, "prompt"@) == Some(p@),
            Err(f) => {
                &&& json_string_field(task.payload_json@, "prompt"@) is None
                &&& f.status == TaskStatus::Failed
                &&& f.output_summary is None
                &&& f.error matches Some(e) && e@ == "agent task missing prompt"@
            },
        },
{
    let key = "prompt";
    proof {
        reveal_strlit("prompt");
    }
    match read_json_string_field(task.payload_json.as_str(), key) {
        Some(p) => Ok(p),
        None => Err(ExecutionResult::failed(owned("agent task missing prompt"))),
    }
}

/// The command of a shell task, or the failure of a task that has none.
pub fn shell_command(task: &TaskRecord) -> (r: Result<String, ExecutionResult>)
    ensures
        match r {
            Ok(c) => json_string_field(task.payload_json@, "command"@) == Some(c@),
            Err(f) => {
                &&& json_string_field(task.payload_json@, "command"@) is None
                &&& f.status == TaskStatus::Failed
                &&& f.output_summary is None
                &&& f.error matches Some(e) && e@ == "missing shell command"@
            },
        },
{
    let key = "command";
    proof {
        reveal_strlit("command");
    }
    match read_json_string_field(task.payload_json.as_str(), key) {
        Some(c) => Ok(c),
        None => Err(ExecutionResult::failed(owned("missing shell command"))),
    }
}

} // verus!
