use agent::llm::{ChatMessage, LlmError, LlmProviderType, MessageRole, Usage};
use agent::llm_wire::{
    AnthropicReply, OpenAiChoice, OpenAiReply, ProviderRoute, anthropic_max_tokens,
    anthropic_message, anthropic_messages_url, anthropic_system_prompt, bearer_header,
    client_provider_gate, completions_url, http_failure, openai_chat_url, parse_anthropic_reply,
    parse_openai_reply, provider_route, stream_chunk, stream_http_failure, trim_trailing_slashes,
};

#[test]
fn test_provider_default_is_openai_compatible() {
    assert!(matches!(
        LlmProviderType::default(),
        LlmProviderType::OpenAI
    ));
}

#[test]
fn chat_url_uses_v1_chat_completions() {
    assert_eq!(openai_chat_url("https://example.com"), "https://example.com/v1/chat/completions");
    assert_eq!(openai_chat_url("https://example.com/v1/"), "https://example.com/v1/chat/completions");
    assert_eq!(openai_chat_url("http://localhost:8317//"), "http://localhost:8317/v1/chat/completions");
    assert_eq!(completions_url("http://localhost:11434/"), "http://localhost:11434/v1/chat/completions");
    assert_eq!(anthropic_messages_url("https://api.anthropic.com"), "https://api.anthropic.com/v1/messages");
    assert_eq!(trim_trailing_slashes("///"), "");
    assert_eq!(bearer_header("k"), "Bearer k");
}

#[test]
fn providers_are_routed_or_refused() {
    assert_eq!(provider_route("openai").unwrap(), ProviderRoute::OpenAiCompatible);
    assert_eq!(provider_route("ollama").unwrap(), ProviderRoute::OpenAiCompatible);
    assert_eq!(provider_route("anthropic").unwrap(), ProviderRoute::Anthropic);
    assert!(matches!(provider_route("mistral"), Err(LlmError::ApiError(m)) if m == "Unknown provider: mistral"));
    assert!(client_provider_gate(LlmProviderType::OpenAI).is_ok());
    assert!(matches!(client_provider_gate(LlmProviderType::Anthropic), Err(LlmError::UnsupportedProvider(p)) if p == "anthropic"));
    assert!(matches!(client_provider_gate(LlmProviderType::Google), Err(LlmError::UnsupportedProvider(p)) if p == "google"));
}

#[test]
fn http_statuses_are_classified() {
    assert!(matches!(http_failure(429, "429 Too Many Requests", ""), Some(LlmError::RateLimit)));
    assert!(matches!(http_failure(401, "401 Unauthorized", ""), Some(LlmError::AuthFailed)));
    assert!(http_failure(200, "200 OK", "").is_none());
    assert!(matches!(
        http_failure(500, "500 Internal Server Error", "oops"),
        Some(LlmError::ApiError(m)) if m == "HTTP 500 Internal Server Error: oops"
    ));
    assert!(matches!(stream_http_failure(401, "401 Unauthorized", "no"), Some(LlmError::ApiError(_))));
    assert!(matches!(stream_http_failure(429, "429 Too Many Requests", ""), Some(LlmError::RateLimit)));
    assert!(stream_http_failure(204, "204 No Content", "").is_none());
}

#[test]
fn openai_reply_becomes_assistant_message() {
    let usage = Usage { prompt_tokens: 10, completion_tokens: 5, total_tokens: 15 };
    let response = parse_openai_reply(OpenAiReply {
        first_choice: Some(OpenAiChoice {
            content: Some("I'll read it.".into()),
            tool_calls: Some(Vec::new()),
            finish_reason: Some("tool_calls".into()),
        }),
        usage: Some(usage),
    })
    .unwrap();
    assert_eq!(response.message.role, MessageRole::Assistant);
    assert_eq!(response.message.content.as_deref(), Some("I'll read it."));
    assert_eq!(response.usage.unwrap().total_tokens, 15);
    assert_eq!(response.finish_reason.as_deref(), Some("tool_calls"));
    let empty = parse_openai_reply(OpenAiReply { first_choice: None, usage: None });
    assert!(matches!(empty, Err(LlmError::ApiError(m)) if m == "Empty choices in response"));
}

#[test]
fn anthropic_wire_forms() {
    let reply = parse_anthropic_reply(AnthropicReply { text: Some("hi".into()), usage: None, stop_reason: Some("end_turn".into()) });
    assert_eq!(reply.message.role, MessageRole::Assistant);
    assert_eq!(reply.message.content.as_deref(), Some("hi"));
    assert!(reply.message.tool_calls.is_none());
    assert_eq!(anthropic_max_tokens(None), 4096);
    assert_eq!(anthropic_max_tokens(Some(10)), 10);
    let messages = vec![
        ChatMessage { role: MessageRole::User, content: Some("q".into()), tool_calls: None, tool_call_id: None },
        ChatMessage { role: MessageRole::System, content: Some("be brief".into()), tool_calls: None, tool_call_id: None },
        ChatMessage { role: MessageRole::System, content: Some("second".into()), tool_calls: None, tool_call_id: None },
    ];
    assert_eq!(anthropic_system_prompt(&messages), "be brief");
    assert_eq!(anthropic_system_prompt(&[]), "");
    let (role, text) = anthropic_message(&ChatMessage { role: MessageRole::Tool, content: None, tool_calls: None, tool_call_id: None });
    assert_eq!(role, "user");
    assert_eq!(text, "");
    assert_eq!(anthropic_message(&messages[0]).0, "user");
}

#[test]
fn stream_pieces_become_chunks() {
    let chunk = stream_chunk("data: {\"choices\":[{\"delta\":{\"content\":\"Hel\"},\"finish_reason\":null}]}\n\n").unwrap();
    assert_eq!(chunk.text, "Hel");
    assert_eq!(chunk.finish_reason, None);
    let last = stream_chunk("event: x\r\ndata: {\"choices\":[{\"delta\":{},\"finish_reason\":\"stop\"}]}\r\n").unwrap();
    assert_eq!(last.text, "");
    assert_eq!(last.finish_reason.as_deref(), Some("stop"));
    assert!(stream_chunk("data: [DONE]\n\n").is_none());
    assert!(stream_chunk("data: not json\n").is_none());
    assert!(stream_chunk("").is_none());
    let second = stream_chunk("data: nope\ndata: {\"choices\":[{\"delta\":{\"content\":\"x\"}}]}").unwrap();
    assert_eq!(second.text, "x");
}
