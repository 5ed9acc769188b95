use agent::agent::AgentEvent;
use agent::gateway::{GatewayClient, rpc_error_message, signed_decimal_string};
use agent::llm::{ChatMessage, MessageRole};
use agent::memory::{BuiltinMemory, MemoryError, MemoryManager, context_block, memory_content, memory_file_initial_text, memory_file_names, system_prompt_block};
use agent::permission::{PermissionPolicy, check_permission};
use agent::platforms::{DiscordAdapter, PlatformError, TelegramAdapter};
use agent::plugin::{HookError, hook_failure};
use agent::sessions::{chat_message_to_record, history_from_events, history_message, message_record, messages_to_store};

#[test]
fn builtin_memory_reads_present_files_in_order() {
    assert_eq!(memory_file_names(), vec!["MEMORY.md", "USER.md", "SOUL.md", "AGENTS.md", "TOOLS.md"]);
    let texts = vec![Some("remember".to_string()), None, None, Some("agents".to_string()), None];
    assert_eq!(memory_content(&texts), "# MEMORY.md\n\nremember\n\n# AGENTS.md\n\nagents\n\n");
    assert_eq!(memory_content(&vec![None, None, None, None, None]), "");
    assert_eq!(memory_file_initial_text("USER.md"), "# USER.md\n\n");
}

#[test]
fn memory_blocks_wrap_non_empty_content() {
    assert_eq!(system_prompt_block(""), "");
    assert_eq!(system_prompt_block("x"), "<memory-context>\nx\n</memory-context>\n");
    assert_eq!(context_block(Some("B"), Some("E")), "B<external-memory>\nE\n</external-memory>\n");
    assert_eq!(context_block(Some(""), Some("")), "");
    assert_eq!(context_block(None, None), "");
}

#[test]
fn memory_manager_keeps_one_provider_of_each_kind() {
    let mut manager: MemoryManager<u32> = MemoryManager::new();
    manager.register_builtin(1);
    manager.register_external(2);
    manager.register_external(3);
    manager.set_active_session("s1");
    assert_eq!(manager.builtin, Some(1));
    assert_eq!(manager.external, Some(3));
    assert_eq!(manager.active_session, "s1");
    let mut memory = BuiltinMemory::new("/tmp/ws");
    assert_eq!(memory.name(), "builtin");
    memory.begin_session("s2", "/tmp/other");
    memory.remember_prefetch("content");
    assert_eq!(memory.session_id.as_deref(), Some("s2"));
    assert_eq!(memory.workspace, "/tmp/other");
    assert_eq!(memory.last_prefetch.as_deref(), Some("content"));
    assert_eq!(MemoryError::NotInitialized.message(), "not initialized");
    assert_eq!(MemoryError::Io("disk".into()).message(), "io error: disk");
}

#[test]
fn simple_policy_checks_the_allow_list() {
    let policy = PermissionPolicy::default_in("/work");
    assert_eq!(policy.allowed_tools, vec!["read_file", "todo", "web_search"]);
    assert_eq!(policy.allowed_dirs, vec!["/work"]);
    assert!(check_permission(&policy, "todo", "/work"));
    assert!(!check_permission(&policy, "shell", "/work"));
    let open = PermissionPolicy { auto_approve_tools: true, allowed_tools: Vec::new(), allowed_dirs: Vec::new() };
    assert!(check_permission(&open, "shell", "/"));
}

#[test]
fn platform_adapters_address_their_apis() {
    let discord = DiscordAdapter::new("token");
    assert_eq!(discord.name(), "discord");
    assert_eq!(discord.send_url("42"), "https://discord.com/api/v10/channels/42/messages");
    let telegram = TelegramAdapter::new("abc");
    assert_eq!(telegram.name(), "telegram");
    assert_eq!(telegram.send_url(), "https://api.telegram.org/botabc/sendMessage");
    assert_eq!(PlatformError::SendError("x".into()).message(), "send error: x");
}

#[test]
fn hook_failures_name_the_plugin() {
    let inner = HookError::ExecutionError("bad".into());
    assert_eq!(inner.message(), "hook failed: bad");
    let outer = hook_failure("p1", &inner);
    assert_eq!(outer.message(), "hook failed: Hook p1 failed: hook failed: bad");
}

#[test]
fn gateway_client_and_rpc_errors() {
    let client = GatewayClient::new("/tmp/agent.sock");
    assert_eq!(client.socket_path(), "/tmp/agent.sock");
    assert_eq!(rpc_error_message(-32601, "Method not found"), "RPC error -32601: Method not found");
    assert_eq!(signed_decimal_string(i64::MIN), "-9223372036854775808");
    assert_eq!(signed_decimal_string(7), "7");
}

fn msg(role: MessageRole, content: Option<&str>) -> ChatMessage {
    ChatMessage { role, content: content.map(|c| c.to_string()), tool_calls: None, tool_call_id: None }
}

#[test]
fn stores_user_and_assistant_messages_with_positions() {
    let rows = messages_to_store(&[
        msg(MessageRole::System, Some("sys")),
        msg(MessageRole::User, Some("hi")),
        msg(MessageRole::Assistant, None),
        msg(MessageRole::Tool, Some("out")),
        msg(MessageRole::Assistant, Some("hello")),
    ]);
    assert_eq!(rows.len(), 2);
    assert_eq!((rows[0].role, rows[0].content.as_str(), rows[0].sequence), ("user", "hi", 1));
    assert_eq!((rows[1].role, rows[1].content.as_str(), rows[1].sequence), ("assistant", "hello", 4));
    assert_eq!(history_message("assistant", "a".into()).role, MessageRole::Assistant);
    assert_eq!(history_message("weird", "b".into()).role, MessageRole::User);
}

#[test]
fn events_can_be_reconstructed_as_chat_history() {
    let history = history_from_events(vec![
        AgentEvent::UserMessage { content: "hi".into() },
        AgentEvent::ToolCall { id: "c1".into(), name: "echo".into() },
        AgentEvent::ToolResult { id: "c1".into(), ok: false, content: String::new(), error: Some("denied".into()) },
        AgentEvent::BudgetExhausted { reason: "r".into() },
        AgentEvent::Final { content: "bye".into() },
    ]);
    assert_eq!(history.len(), 3);
    assert_eq!(history[0].role, MessageRole::User);
    assert_eq!(history[1].role, MessageRole::Tool);
    assert_eq!(history[1].content.as_deref(), Some("denied"));
    assert_eq!(history[1].tool_call_id.as_deref(), Some("c1"));
    assert_eq!(history[2].role, MessageRole::Assistant);
    assert_eq!(history[2].content.as_deref(), Some("bye"));
}

#[test]
fn chat_message_record_keeps_fields_and_defaults() {
    let msg = ChatMessage { role: MessageRole::Tool, content: None, tool_calls: None, tool_call_id: Some("call-1".into()) };
    let rec = message_record(&msg, "s1", "id-1", "[]", 42);
    assert_eq!(rec.id, "id-1");
    assert_eq!(rec.session_id, "s1");
    assert_eq!(rec.role, "Tool");
    assert_eq!(rec.content, "");
    assert_eq!(rec.tool_calls, "");
    assert_eq!(rec.tool_call_id, "call-1");
    assert_eq!(rec.created_at, 42);
    let with_calls = ChatMessage { role: MessageRole::Assistant, content: Some("hi".into()), tool_calls: Some(Vec::new()), tool_call_id: None };
    let rec = chat_message_to_record(&with_calls, "s2", "[]", 7);
    assert_eq!(rec.role, "Assistant");
    assert_eq!(rec.content, "hi");
    assert_eq!(rec.tool_calls, "[]");
    assert_eq!(rec.tool_call_id, "");
    assert_eq!(rec.id.len(), 36);
    assert_eq!(rec.id.matches('-').count(), 4);
}
