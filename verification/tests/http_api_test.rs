use agent::agent::{AgentError, AgentEvent, AgentOutput};
use agent::http_api::{
    SerializableAgentEvent, agent_prompt, agent_task_result, authorize_bearer_header,
    cancel_reply, cron_dashboard_html, is_loopback_host, output_from_events, retry_reply,
    shell_command, shell_task_result, task_session_id, tasks_dashboard_html,
    validate_http_cron_job, validate_http_task, validate_http_token_for_host,
};
use agent::kanban::{NewTask, PayloadKind, TaskRecord, TaskStatus};
use agent::schedule::{self, MissedRunPolicy, Schedule};
use agent::scheduler::NewCronJob;
use agent::time::Timestamp;

#[test]
fn cron_dashboard_points_at_cron_jobs_api() {
    let html = cron_dashboard_html();

    assert!(html.contains("Cron Jobs"));
    assert!(html.contains("/api/cron/jobs"));
}

#[test]
fn tasks_dashboard_lists_kanban_statuses() {
    let html = tasks_dashboard_html();

    assert!(html.contains("Kanban Tasks"));
    assert!(html.contains("queued"));
    assert!(html.contains("running"));
    assert!(html.contains("failed"));
}

#[test]
fn response_output_is_derived_from_final_event() {
    let output = output_from_events(
        &[AgentEvent::Final {
            content: "answer".into(),
        }],
        None,
    );

    assert_eq!(output, "answer");
}

#[test]
fn response_output_reports_runtime_error_when_no_final_event() {
    let output = output_from_events(&[], Some("boom"));

    assert_eq!(output, "[Error] boom");
}

#[test]
fn response_output_takes_the_last_outcome() {
    let events = [
        AgentEvent::Final { content: "first".into() },
        AgentEvent::BudgetExhausted { reason: "Iteration budget exhausted".into() },
        AgentEvent::ToolCall { id: "c".into(), name: "echo".into() },
    ];
    assert_eq!(output_from_events(&events, Some("ignored")), "[Budget exhausted] Iteration budget exhausted");
    assert_eq!(output_from_events(&[AgentEvent::UserMessage { content: "hi".into() }], None), "");
}

#[test]
fn loopback_host_allows_missing_http_token() {
    assert!(validate_http_token_for_host("127.0.0.1", None).is_ok());
    assert!(validate_http_token_for_host("localhost", None).is_ok());
}

#[test]
fn non_loopback_host_requires_http_token() {
    let error = validate_http_token_for_host("0.0.0.0", None).unwrap_err();
    assert!(error.contains("AGENT_HTTP_TOKEN"));
}

#[test]
fn non_loopback_host_treats_blank_http_token_as_missing() {
    let error = validate_http_token_for_host("0.0.0.0", Some("   ")).unwrap_err();
    assert!(error.contains("AGENT_HTTP_TOKEN"));
}

#[test]
fn non_loopback_host_accepts_token_and_names_host_in_refusal() {
    assert!(validate_http_token_for_host("0.0.0.0", Some("secret")).is_ok());
    assert!(is_loopback_host("::1"));
    assert!(!is_loopback_host("10.0.0.1"));
    assert_eq!(
        validate_http_token_for_host("10.0.0.1", None).unwrap_err(),
        "AGENT_HTTP_TOKEN is required when binding Agent Gateway to non-loopback host 10.0.0.1"
    );
}

#[test]
fn bearer_token_auth_accepts_valid_token() {
    assert!(authorize_bearer_header(Some("Bearer secret"), Some("secret")).is_ok());
}

#[test]
fn bearer_token_auth_rejects_missing_or_invalid_token() {
    assert!(authorize_bearer_header(None, Some("secret")).is_err());
    assert!(authorize_bearer_header(Some("Bearer wrong"), Some("secret")).is_err());
}

#[test]
fn bearer_token_auth_treats_blank_expected_token_as_unconfigured() {
    assert!(authorize_bearer_header(None, Some("   ")).is_ok());
}

#[test]
fn bearer_token_refusal_is_unauthorized() {
    let error = authorize_bearer_header(Some("secret"), Some("secret")).unwrap_err();
    assert_eq!(error.status, 401);
    assert_eq!(error.body.error, "missing or invalid bearer token");
    assert!(authorize_bearer_header(None, None).is_ok());
}

#[test]
fn http_task_creation_rejects_shell_command_payload() {
    let payload = NewTask {
        source: "http".into(),
        source_id: None,
        title: "run shell".into(),
        body: String::new(),
        payload_kind: PayloadKind::ShellCommand,
        payload_json: "{\"command\":\"id\"}".into(),
        priority: 0,
        max_retries: 0,
    };

    let error = validate_http_task(&payload).unwrap_err();

    assert_eq!(error.status, 403);
    assert_eq!(
        error.body.error,
        "shell_command payloads cannot be created over HTTP"
    );
}

#[test]
fn http_cron_creation_rejects_shell_command_payload() {
    let payload = NewCronJob {
        name: "run shell later".into(),
        description: String::new(),
        schedule: Schedule::parse("1h").unwrap(),
        payload_kind: schedule::PayloadKind::ShellCommand,
        payload_json: "{\"command\":\"id\"}".into(),
        enabled: true,
        missed_run_policy: MissedRunPolicy::RunOnce,
    };

    let error = validate_http_cron_job(&payload).unwrap_err();

    assert_eq!(error.status, 403);
    assert_eq!(
        error.body.error,
        "shell_command payloads cannot be created over HTTP"
    );
}

#[test]
fn http_creation_accepts_agent_prompts() {
    let payload = NewTask {
        source: "http".into(),
        source_id: None,
        title: "ask".into(),
        body: String::new(),
        payload_kind: PayloadKind::AgentPrompt,
        payload_json: "{\"prompt\":\"hi\"}".into(),
        priority: 0,
        max_retries: 0,
    };
    assert!(validate_http_task(&payload).is_ok());
}

#[test]
fn retry_and_cancel_replies() {
    let missing = retry_reply("t1", false, false).unwrap_err();
    assert_eq!(missing.status, 404);
    assert_eq!(missing.body.error, "task not found: t1");
    let refused = retry_reply("t1", true, false).unwrap_err();
    assert_eq!(refused.status, 409);
    assert_eq!(refused.body.error, "task cannot be retried: t1");
    assert!(retry_reply("t1", true, true).is_ok());
    assert_eq!(cancel_reply("t2", false).unwrap_err().body.error, "task not found: t2");
    assert!(cancel_reply("t2", true).is_ok());
}

#[test]
fn serializable_event_keeps_fields() {
    let event = SerializableAgentEvent::from(AgentEvent::ToolResult {
        id: "call_1".into(),
        ok: false,
        content: String::new(),
        error: Some("denied".into()),
    });
    assert_eq!(
        event,
        SerializableAgentEvent::ToolResult {
            id: "call_1".into(),
            ok: false,
            content: String::new(),
            error: Some("denied".into()),
        }
    );
}

fn task_with_payload(kind: PayloadKind, payload: &str) -> TaskRecord {
    let t = Timestamp { secs: 0, nanos: 0 };
    TaskRecord {
        id: "t1".into(),
        source: "manual".into(),
        source_id: None,
        title: "x".into(),
        body: String::new(),
        payload_kind: kind,
        payload_json: payload.into(),
        status: TaskStatus::Running,
        priority: 0,
        claim_lock: None,
        claim_expires_at: None,
        assigned_worker: None,
        last_heartbeat_at: None,
        retry_count: 0,
        max_retries: 0,
        last_error: None,
        created_at: t,
        updated_at: t,
        started_at: None,
        completed_at: None,
    }
}

#[test]
fn reads_prompt_and_command_from_payload() {
    let task = task_with_payload(PayloadKind::AgentPrompt, "{\"prompt\":\"summarise\"}");
    assert_eq!(agent_prompt(&task).unwrap(), "summarise");
    let missing = agent_prompt(&task_with_payload(PayloadKind::AgentPrompt, "{\"prompt\":3}")).unwrap_err();
    assert_eq!(missing.error.as_deref(), Some("agent task missing prompt"));
    assert_eq!(missing.status, TaskStatus::Failed);
    let shell = task_with_payload(PayloadKind::ShellCommand, "{\"command\":\"pwd\"}");
    assert_eq!(shell_command(&shell).unwrap(), "pwd");
    let no_command = shell_command(&task_with_payload(PayloadKind::ShellCommand, "{}")).unwrap_err();
    assert_eq!(no_command.error.as_deref(), Some("missing shell command"));
}

#[test]
fn judges_agent_task_outcomes() {
    let ok = agent_task_result(Ok(AgentOutput::Final("done".into())));
    assert_eq!(ok.status, TaskStatus::Succeeded);
    assert_eq!(ok.output_summary.as_deref(), Some("done"));
    let cancelled = agent_task_result(Ok(AgentOutput::Cancelled));
    assert_eq!(cancelled.error.as_deref(), Some("Cancelled"));
    let budget = agent_task_result(Ok(AgentOutput::BudgetExhausted("Iteration budget exhausted".into())));
    assert_eq!(budget.status, TaskStatus::Failed);
    assert_eq!(budget.error.as_deref(), Some("Iteration budget exhausted"));
    let failed = agent_task_result(Err(AgentError::LlmError("boom".into())));
    assert_eq!(failed.error.as_deref(), Some("LLM error: boom"));
    assert_eq!(task_session_id("t1"), "task-t1");
}

#[test]
fn judges_shell_task_outcomes() {
    let ok = shell_task_result(true, "exit status: 0", "  out\n", "");
    assert_eq!(ok.status, TaskStatus::Succeeded);
    assert_eq!(ok.output_summary.as_deref(), Some("out"));
    let err = shell_task_result(false, "exit status: 1", "", " bad thing\n");
    assert_eq!(err.error.as_deref(), Some("bad thing"));
    let status = shell_task_result(false, "exit status: 2", " partial \n", "  ");
    assert_eq!(
        status.error.as_deref(),
        Some("shell command failed with status exit status: 2 and stdout: partial")
    );
}
