use std::sync::{Arc, Mutex};
use agent::agent::{AgentEvent, AgentEventCollector, AgentEventSink, AgentInput, AgentOutput, build_api_messages, callback_event_sink};
use agent::agent_loop::{
    ArgumentsStep, LoopAction, LoopEvent, LoopPhase, LoopState, ResponseStep, begin_run, check_budget,
    loop_step, read_tool_arguments, record_tool_result, reject_tool_arguments, response_step, start_run,
    tool_call_event,
};
use agent::budget::IterationBudget;
use agent::config::PermissionPolicy;
use agent::llm::{ChatMessage, ChatResponse, FunctionCall, LlmToolCall, MessageRole};
use agent::tools::{PermissionCheck, PermissionResult, ResolvedPaths, ToolResult, tool_permission_for_policy, tool_result_message_content};

#[test]
fn test_budget_counts_iterations() {
    let mut budget = IterationBudget::new(3);
    assert!(!budget.exhausted());
    assert_eq!(budget.remaining(), 3);

    budget.increment();
    assert!(!budget.exhausted());
    assert_eq!(budget.remaining(), 2);

    budget.increment();
    budget.increment();
    assert!(budget.exhausted());
    assert_eq!(budget.remaining(), 0);
}

#[test]
fn test_budget_large_value() {
    let budget = IterationBudget::new(9999);
    assert!(!budget.exhausted());
    assert_eq!(budget.remaining(), 9999);
}

#[test]
fn budget_of_zero_is_spent_by_the_first_iteration() {
    let mut budget = IterationBudget::new(0);
    assert!(!budget.exhausted());
    assert_eq!(budget.remaining(), 0);
    budget.increment();
    assert!(budget.exhausted());
    assert_eq!(budget.iterations_used(), 1);
    assert!(budget.has_grace_call());
}

#[test]
fn test_build_messages() {
    let messages = build_api_messages(
        "You are a helpful assistant",
        &[ChatMessage {
            role: MessageRole::User,
            content: Some("Hello!".into()),
            tool_calls: None,
            tool_call_id: None,
        }],
    );

    assert_eq!(messages.len(), 2);
    assert_eq!(messages[0].role, MessageRole::System);
    assert_eq!(messages[1].role, MessageRole::User);
    assert_eq!(messages[1].content.as_deref(), Some("Hello!"));
}

#[test]
fn test_build_messages_does_not_duplicate_current_user_message() {
    let history = vec![ChatMessage {
        role: MessageRole::User,
        content: Some("Hello!".into()),
        tool_calls: None,
        tool_call_id: None,
    }];

    let messages = build_api_messages("You are a helpful assistant", &history);

    let user_messages: Vec<_> = messages
        .iter()
        .filter(|message| message.role == MessageRole::User)
        .collect();

    assert_eq!(user_messages.len(), 1);
    assert_eq!(user_messages[0].content.as_deref(), Some("Hello!"));
}

#[test]
fn test_agent_event_collector_records_events_in_order() {
    let mut collector = AgentEventCollector::new();
    collector
        .emit(AgentEvent::UserMessage {
            content: "hello".into(),
        })
        .unwrap();
    collector
        .emit(AgentEvent::Final {
            content: "world".into(),
        })
        .unwrap();

    assert_eq!(
        collector.events(),
        &[
            AgentEvent::UserMessage {
                content: "hello".into()
            },
            AgentEvent::Final {
                content: "world".into()
            }
        ]
    );
    assert_eq!(collector.into_events().len(), 2);
}

#[test]
fn test_tool_result_content_prefers_error_when_content_is_empty() {
    let result = ToolResult {
        ok: false,
        content: String::new(),
        error: Some("permission denied".into()),
    };

    assert_eq!(tool_result_message_content(&result), "permission denied");
}

#[test]
fn test_tool_result_content_keeps_success_content() {
    let result = ToolResult {
        ok: true,
        content: "file contents".into(),
        error: None,
    };

    assert_eq!(tool_result_message_content(&result), "file contents");
}

fn policy(auto: bool, read_only: bool, destructive: bool, allowed: &[&str], ask: &[&str], dirs: &[&str]) -> PermissionPolicy {
    PermissionPolicy {
        auto_approve_tools: auto,
        read_only,
        allow_destructive_tools: destructive,
        allowed_tools: allowed.iter().map(|s| s.to_string()).collect(),
        ask_tools: ask.iter().map(|s| s.to_string()).collect(),
        allowed_dirs: dirs.iter().map(|s| s.to_string()).collect(),
    }
}

fn check(name: &str, path: Option<&str>, read_only: bool, destructive: bool) -> PermissionCheck {
    PermissionCheck {
        tool_name: name.into(),
        input_path: path.map(|p| p.to_string()),
        is_read_only: read_only,
        is_destructive: destructive,
    }
}

fn components(path: &str) -> Vec<String> {
    path.split('/').filter(|c| !c.is_empty()).map(|c| c.to_string()).collect()
}

fn no_paths() -> ResolvedPaths {
    ResolvedPaths { requested: Err("unused".into()), requested_display: String::new(), allowed_dirs: Vec::new() }
}

#[test]
fn test_permission_policy_denies_tools_not_in_allowlist() {
    let result = tool_permission_for_policy(
        &policy(false, false, false, &["read_file"], &[], &[]),
        &check("write_file", Some("notes.md"), false, false),
        &no_paths(),
    );
    assert!(matches!(result, PermissionResult::Deny(_)));
    assert_eq!(result, PermissionResult::Deny("Tool not allowed by policy: write_file".into()));
}

#[test]
fn test_permission_policy_allows_allowlisted_tools() {
    let result = tool_permission_for_policy(
        &policy(false, false, false, &["read_file"], &[], &[]),
        &check("read_file", Some("notes.md"), true, false),
        &no_paths(),
    );
    assert!(matches!(result, PermissionResult::Allow));
}

#[test]
fn test_permission_policy_denies_paths_outside_allowed_dirs() {
    let paths = ResolvedPaths {
        requested: Ok(components("/tmp/outside")),
        requested_display: "/tmp/outside".into(),
        allowed_dirs: vec![Some(components("/tmp/dir"))],
    };
    let result = tool_permission_for_policy(
        &policy(false, false, false, &["read_file"], &[], &["/tmp/dir"]),
        &check("read_file", Some("/tmp/outside/secret.txt"), true, false),
        &paths,
    );
    assert!(matches!(result, PermissionResult::Deny(_)));
    assert_eq!(result, PermissionResult::Deny("Tool path outside allowed directories: /tmp/outside".into()));
}

#[test]
fn test_permission_policy_allows_new_file_under_allowed_dir() {
    let paths = ResolvedPaths {
        requested: Ok(components("/tmp/dir")),
        requested_display: "/tmp/dir".into(),
        allowed_dirs: vec![Some(components("/tmp/dir"))],
    };
    let result = tool_permission_for_policy(
        &policy(false, false, false, &["write_file"], &[], &["/tmp/dir"]),
        &check("write_file", Some("/tmp/dir/new.txt"), false, false),
        &paths,
    );
    assert!(matches!(result, PermissionResult::Allow));
}

#[test]
fn permission_policy_denies_unresolvable_paths() {
    let paths = ResolvedPaths {
        requested: Err("No such file or directory (os error 2)".into()),
        requested_display: String::new(),
        allowed_dirs: vec![Some(components("/tmp/dir"))],
    };
    let result = tool_permission_for_policy(
        &policy(false, false, false, &["read_file"], &[], &["/tmp/dir"]),
        &check("read_file", Some("/nope/x"), true, false),
        &paths,
    );
    assert_eq!(
        result,
        PermissionResult::Deny("Tool path cannot be resolved: /nope/x (No such file or directory (os error 2))".into())
    );
}

#[test]
fn test_permission_policy_read_only_denies_non_read_only_tools() {
    let result = tool_permission_for_policy(
        &policy(true, true, false, &["write_file"], &[], &[]),
        &check("write_file", Some("notes.md"), false, false),
        &no_paths(),
    );
    assert!(matches!(result, PermissionResult::Deny(_)));
    assert_eq!(result, PermissionResult::Deny("Tool not allowed in read-only mode: write_file".into()));
}

#[test]
fn test_permission_policy_denies_destructive_tools_by_default() {
    let result = tool_permission_for_policy(
        &policy(true, false, false, &["shell"], &[], &[]),
        &check("shell", None, false, true),
        &no_paths(),
    );
    assert!(matches!(result, PermissionResult::Deny(_)));
    assert_eq!(result, PermissionResult::Deny("Destructive tool not allowed by policy: shell".into()));
}

#[test]
fn test_permission_policy_allows_read_only_input_for_destructive_tool_type() {
    let result = tool_permission_for_policy(
        &policy(false, false, false, &["execute_command"], &[], &[]),
        &check("execute_command", None, true, true),
        &no_paths(),
    );
    assert!(matches!(result, PermissionResult::Allow));
}

#[test]
fn test_permission_policy_asks_for_tools_when_not_auto_approved() {
    let result = tool_permission_for_policy(
        &policy(false, false, true, &[], &["shell"], &[]),
        &check("shell", None, false, false),
        &no_paths(),
    );
    assert!(matches!(result, PermissionResult::Ask(_)));
    assert_eq!(result, PermissionResult::Ask("Tool requires approval: shell".into()));
}

fn call(id: &str, name: &str, arguments: &str) -> LlmToolCall {
    LlmToolCall {
        id: id.into(),
        call_type: "function".into(),
        function: FunctionCall { name: name.into(), arguments: arguments.into() },
    }
}

#[test]
fn run_begins_with_user_message() {
    let mut input = AgentInput {
        user_message: "hello".into(),
        session_id: "s".into(),
        system_prompt: "system".into(),
        history: Vec::new(),
        workspace_dir: ".".into(),
    };
    let (messages, event) = begin_run(&mut input);
    assert_eq!(input.history.len(), 1);
    assert_eq!(input.history[0].role, MessageRole::User);
    assert_eq!(messages.len(), 2);
    assert_eq!(messages[0].content.as_deref(), Some("system"));
    assert_eq!(messages[1].content.as_deref(), Some("hello"));
    assert_eq!(event, AgentEvent::UserMessage { content: "hello".into() });
}

#[test]
fn spent_budget_ends_run_with_grace_note() {
    let mut budget = IterationBudget::new(1);
    let mut messages = Vec::new();
    assert!(check_budget(&budget, &mut messages).is_none());
    assert!(messages.is_empty());
    budget.increment();
    let (event, output) = check_budget(&budget, &mut messages).unwrap();
    assert_eq!(event, AgentEvent::BudgetExhausted { reason: "Iteration budget exhausted".into() });
    assert_eq!(output, AgentOutput::BudgetExhausted("Iteration budget exhausted".into()));
    assert_eq!(messages.len(), 1);
    assert_eq!(messages[0].role, MessageRole::System);
    assert_eq!(
        messages[0].content.as_deref(),
        Some("Budget exhausted. Please summarize what you've accomplished so far.")
    );
}

#[test]
fn budget_without_grace_adds_no_note() {
    let mut budget = IterationBudget::new(1);
    budget.grace_call = false;
    budget.increment();
    let mut messages = Vec::new();
    assert!(check_budget(&budget, &mut messages).is_some());
    assert!(messages.is_empty());
}

fn response(content: Option<&str>, calls: Option<Vec<LlmToolCall>>) -> ChatResponse {
    ChatResponse {
        message: ChatMessage {
            role: MessageRole::Assistant,
            content: content.map(|c| c.to_string()),
            tool_calls: calls,
            tool_call_id: None,
        },
        usage: None,
        finish_reason: Some("stop".into()),
    }
}

#[test]
fn answers_without_tool_calls_finish_the_run() {
    match response_step(response(Some("done"), None)) {
        ResponseStep::Finish(event, output) => {
            assert_eq!(event, AgentEvent::Final { content: "done".into() });
            assert_eq!(output, AgentOutput::Final("done".into()));
        },
        ResponseStep::RunTools(_) => panic!("expected the run to finish"),
    }
    match response_step(response(None, Some(Vec::new()))) {
        ResponseStep::Finish(event, _) => assert_eq!(event, AgentEvent::Final { content: String::new() }),
        ResponseStep::RunTools(_) => panic!("an empty list of calls asks for no tool"),
    }
    match response_step(response(Some("reading"), Some(vec![call("c1", "echo", "{}")]))) {
        ResponseStep::RunTools(calls) => assert_eq!(calls.len(), 1),
        ResponseStep::Finish(_, _) => panic!("expected tool calls"),
    }
}

#[test]
fn tool_results_are_sent_back_and_reported() {
    let c = call("call_1", "echo", "{\"text\":\"hi\"}");
    assert_eq!(tool_call_event(&c), AgentEvent::ToolCall { id: "call_1".into(), name: "echo".into() });
    let mut messages = Vec::new();
    let result = ToolResult { ok: false, content: String::new(), error: Some("denied".into()) };
    let event = record_tool_result(&mut messages, &c, &result);
    assert_eq!(messages.len(), 1);
    assert_eq!(messages[0].role, MessageRole::Tool);
    assert_eq!(messages[0].content.as_deref(), Some("denied"));
    assert_eq!(messages[0].tool_call_id.as_deref(), Some("call_1"));
    assert_eq!(
        event,
        AgentEvent::ToolResult { id: "call_1".into(), ok: false, content: String::new(), error: Some("denied".into()) }
    );
}

#[test]
fn invalid_tool_arguments_are_rejected() {
    let c = call("call_2", "echo", "{not json");
    let mut messages = Vec::new();
    match read_tool_arguments(&mut messages, &c) {
        ArgumentsStep::Rejected(AgentEvent::ToolResult { id, ok, content, error }) => {
            assert_eq!(id, "call_2");
            assert!(!ok);
            assert!(content.is_empty());
            assert!(error.unwrap().starts_with("Invalid tool arguments: "));
        },
        _ => panic!("expected a rejection"),
    }
    assert_eq!(messages.len(), 1);
    assert_eq!(messages[0].content.as_deref(), Some(""));
    let good = call("call_3", "echo", "{\"text\":\"again\"}");
    match read_tool_arguments(&mut messages, &good) {
        ArgumentsStep::Run(value) => {
            assert_eq!(value.get("text").and_then(|v| v.as_str()), Some("again"));
            assert_eq!(value.as_object().map(|o| o.len()), Some(1));
        },
        _ => panic!("expected the call to run"),
    }
    assert_eq!(messages.len(), 1);
    let event = reject_tool_arguments(&mut messages, &good, "eof");
    assert_eq!(
        event,
        AgentEvent::ToolResult { id: "call_3".into(), ok: false, content: String::new(), error: Some("Invalid tool arguments: eof".into()) }
    );
}

#[test]
fn test_agent_event_callback_sink_receives_events_immediately() {
    let events = Arc::new(Mutex::new(Vec::new()));
    let captured = Arc::clone(&events);
    let mut sink = callback_event_sink(move |event| {
        captured.lock().unwrap().push(event);
    });

    sink.emit(AgentEvent::Final {
        content: "done".into(),
    })
    .unwrap();

    assert_eq!(
        events.lock().unwrap().as_slice(),
        &[AgentEvent::Final {
            content: "done".into()
        }]
    );
}

#[test]
fn budget_counts_k_increments() {
    for m in 0..4u32 {
        let mut budget = IterationBudget::new(m);
        assert!(!budget.exhausted());
        assert_eq!(budget.remaining(), m);
        let mut last_remaining = m;
        for k in 1..7u32 {
            budget.increment();
            assert_eq!(budget.exhausted(), k >= m);
            assert_eq!(budget.remaining(), m.saturating_sub(k));
            assert!(budget.remaining() <= last_remaining);
            if budget.exhausted() {
                assert_eq!(budget.remaining(), 0);
            }
            last_remaining = budget.remaining();
        }
    }
}

fn chat_input() -> AgentInput {
    AgentInput {
        user_message: "hello".into(),
        session_id: "s".into(),
        system_prompt: "system".into(),
        history: Vec::new(),
        workspace_dir: ".".into(),
    }
}

fn step(state: LoopState, budget: &mut IterationBudget, event: LoopEvent) -> (LoopState, LoopAction) {
    loop_step(state, budget, event)
}

#[test]
fn loop_counts_one_iteration_per_tool_round_and_stops_when_spent() {
    let mut input = chat_input();
    let mut budget = IterationBudget::new(1);
    let (state, first) = start_run(&mut input);
    assert_eq!(first, AgentEvent::UserMessage { content: "hello".into() });
    let (state, action) = step(state, &mut budget, LoopEvent::Continue);
    assert!(matches!(action, LoopAction::CallModel { ref events } if events.is_empty()));
    assert!(matches!(state.phase, LoopPhase::AwaitModel));
    let answer = response(None, Some(vec![call("c1", "echo", "{\"text\":\"x\"}"), call("c2", "echo", "bad")]));
    let (state, action) = step(state, &mut budget, LoopEvent::ModelAnswered(answer));
    match action {
        LoopAction::RunTool { events, arguments } => {
            assert_eq!(events, vec![AgentEvent::ToolCall { id: "c1".into(), name: "echo".into() }]);
            assert_eq!(arguments.get("text").and_then(|v| v.as_str()), Some("x"));
        },
        _ => panic!("expected the first tool to run"),
    }
    assert_eq!(budget.iterations_used(), 0);
    let result = ToolResult { ok: true, content: "x".into(), error: None };
    let (state, action) = step(state, &mut budget, LoopEvent::ToolFinished(result));
    assert_eq!(budget.iterations_used(), 1);
    assert!(budget.exhausted());
    match action {
        LoopAction::Finish { events, output } => {
            assert_eq!(events.len(), 4);
            assert_eq!(events[0], AgentEvent::ToolResult { id: "c1".into(), ok: true, content: "x".into(), error: None });
            assert_eq!(events[1], AgentEvent::ToolCall { id: "c2".into(), name: "echo".into() });
            assert!(matches!(events[2], AgentEvent::ToolResult { ok: false, .. }));
            assert_eq!(events[3], AgentEvent::BudgetExhausted { reason: "Iteration budget exhausted".into() });
            assert_eq!(output, AgentOutput::BudgetExhausted("Iteration budget exhausted".into()));
        },
        _ => panic!("expected the run to end"),
    }
    assert!(matches!(state.phase, LoopPhase::Done));
    assert_eq!(state.messages.len(), 5);
}

#[test]
fn loop_asks_again_after_a_rejected_round_and_ends_on_a_final_answer() {
    let mut input = chat_input();
    let mut budget = IterationBudget::new(5);
    let (state, _) = start_run(&mut input);
    let (state, _) = step(state, &mut budget, LoopEvent::Continue);
    let answer = response(None, Some(vec![call("c1", "echo", "not json")]));
    let (state, action) = step(state, &mut budget, LoopEvent::ModelAnswered(answer));
    assert_eq!(budget.iterations_used(), 1);
    match action {
        LoopAction::CallModel { events } => assert_eq!(events.len(), 2),
        _ => panic!("expected the model to be asked again"),
    }
    let (state, action) = step(state, &mut budget, LoopEvent::ModelAnswered(response(Some("done"), None)));
    assert_eq!(budget.iterations_used(), 1);
    match action {
        LoopAction::Finish { events, output } => {
            assert_eq!(events, vec![AgentEvent::Final { content: "done".into() }]);
            assert_eq!(output, AgentOutput::Final("done".into()));
        },
        _ => panic!("expected the run to end"),
    }
    assert!(matches!(state.phase, LoopPhase::Done));
}

#[test]
fn loop_with_spent_budget_never_asks_the_model() {
    let mut input = chat_input();
    let mut budget = IterationBudget::new(0);
    budget.increment();
    let (state, _) = start_run(&mut input);
    let (_, action) = step(state, &mut budget, LoopEvent::Continue);
    assert!(matches!(action, LoopAction::Finish { output: AgentOutput::BudgetExhausted(_), .. }));
}
