//! Chat messages exchanged with a language model, and the model client's settings.
use vstd::prelude::*;
use crate::text::owned;

verus! {

#[derive(Debug, Clone, Copy, PartialEq, Eq, Structural)]
pub enum MessageRole {
    System,
    User,
    Assistant,
    Tool,
}

/// The function part of a tool call: the tool's name and its JSON arguments as text.
#[derive(Debug, Clone, PartialEq, Eq)]
pub struct FunctionCall {
    pub name: String,
    pub arguments: String,
}

/// One tool call that the model asked for.
#[derive(Debug, Clone, PartialEq, Eq)]
pub struct LlmToolCall {
    pub id: String,
    pub call_type: String,
    pub function: FunctionCall,
}

#[derive(Debug, Clone, PartialEq, Eq)]
pub struct ChatMessage {
    pub role: MessageRole,
    pub content: Option<String>,
    pub tool_calls: Option<Vec<LlmToolCall>>,
    pub tool_call_id: Option<String>,
}

/// What a message holds, with its tool calls as a sequence.
pub ghost struct ChatMessageView {
    pub role: MessageRole,
    pub content: Option<String>,
    pub tool_calls: Option<Seq<LlmToolCall>>,
    pub tool_call_id: Option<String>,
}

impl View for ChatMessage {
    type V = ChatMessageView;

    open spec fn view(&self) -> ChatMessageView {
        ChatMessageView {
            role: self.role,
            content: self.content,
            tool_calls: match self.tool_calls {
                Some(v) => Some(v@),
                None => None,
            },
            tool_call_id: self.tool_call_id,
        }
    }
}

/// The views of a sequence of messages.
pub open spec fn messages_view(s: Seq<ChatMessage>) -> Seq<ChatMessageView> {
    s.map_values(|m: ChatMessage| m@)
}

#[derive(Debug, Clone, Copy, PartialEq, Eq, Default)]
pub struct Usage {
    pub prompt_tokens: u32,
    pub completion_tokens: u32,
    pub total_tokens: u32,
}

#[derive(Debug, Clone, PartialEq, Eq)]
pub struct ChatResponse {
    pub message: ChatMessage,
    pub usage: Option<Usage>,
    pub finish_reason: Option<String>,
}

/// Failures of a model call; a network failure carries the transport's message.
#[derive(Debug)]
pub enum LlmError {
    NetworkError(String),
    ApiError(String),
    RateLimit,
    AuthFailed,
    UnsupportedProvider(String),
}

#[derive(Debug, Clone, Copy, PartialEq, Eq, Structural)]
pub enum LlmProviderType {
    OpenAI,
    Anthropic,
    Google,
}

impl LlmProviderType {
    /// The OpenAI-compatible provider is the default.
    pub fn default_provider() -> (r: Self)
        ensures
            r == LlmProviderType::OpenAI,
    {
        LlmProviderType::OpenAI
    }
}

impl Default for LlmProviderType {
    fn default() -> (r: Self)
        ensures
            r == LlmProviderType::OpenAI,
    {
        LlmProviderType::OpenAI
    }
}

/// One piece of a streamed answer.
#[derive(Debug, Clone, PartialEq, Eq)]
pub struct ChatStreamChunk {
    pub text: String,
    pub finish_reason: Option<String>,
}

pub fn copy_opt_string(s: &Option<String>) -> (r: Option<String>)
    ensures
        r == *s,
{
    match s {
        Some(t) => Some(t.clone()),
        None => None,
    }
}

pub fn copy_tool_call(c: &LlmToolCall) -> (r: LlmToolCall)
    ensures
        r == *c,
{
    LlmToolCall {
        id: c.id.clone(),
        call_type: c.call_type.clone(),
        function: FunctionCall {
            name: c.function.name.clone(),
            arguments: c.function.arguments.clone(),
        },
    }
}

pub fn copy_tool_calls(v: &Vec<LlmToolCall>) -> (r: Vec<LlmToolCall>)
    ensures
        r@ == v@,
{
    let mut out: Vec<LlmToolCall> = Vec::new();
    let mut i: usize = 0;
    while i < v.len()
        invariant
            i <= v.len(),
            out@ == v@.subrange(0, i as int),
        decreases v.len() - i,
    {
        out.push(copy_tool_call(&v[i]));
        i = i + 1;
        assert(out@ =~= v@.subrange(0, i as int));
    }
    assert(v@.subrange(0, v.len() as int) =~= v@);
    out
}

pub fn copy_message(m: &ChatMessage) -> (r: ChatMessage)
    ensures
        r@ == m@,
{
    ChatMessage {
        role: m.role,
        content: copy_opt_string(&m.content),
        tool_calls: match &m.tool_calls {
            Some(v) => Some(copy_tool_calls(v)),
            None => None,
        },
        tool_call_id: copy_opt_string(&m.tool_call_id),
    }
}

pub fn copy_messages(v: &[ChatMessage]) -> (r: Vec<ChatMessage>)
    ensures
        messages_view(r@) == messages_view(v@),
{
    let mut out: Vec<ChatMessage> = Vec::new();
    let mut i: usize = 0;
    while i < v.len()
        invariant
            i <= v.len(),
            messages_view(out@) == messages_view(v@.subrange(0, i as int)),
        decreases v.len() - i,
    {
        let ghost before = out@;
        out.push(copy_message(&v[i]));
        assert(before.len() == messages_view(before).len());
        assert forall|k: int| 0 <= k <= i implies #[trigger] out@[k]@ == v@[k]@ by {
            if k < i {
                assert(messages_view(before)[k] == before[k]@);
                assert(messages_view(v@.subrange(0, i as int))[k] == v@.subrange(0, i as int)[k]@);
                assert(out@[k] == before[k]);
            }
        }
        i = i + 1;
        assert(messages_view(out@) =~= messages_view(v@.subrange(0, i as int)));
    }
    assert(v@.subrange(0, v@.len() as int) =~= v@);
    out
}

/// A message with this role and text, and no tool data.
pub open spec fn is_plain_message(m: ChatMessageView, role: MessageRole, text: Seq<char>) -> bool {
    &&& m.role == role
    &&& m.content matches Some(c) && c@ == text
    &&& m.tool_calls is None
    &&& m.tool_call_id is None
}

pub fn plain_message(role: MessageRole, text: &str) -> (r: ChatMessage)
    ensures
        is_plain_message(r@, role, text@),
{
    ChatMessage { role, content: Some(owned(text)), tool_calls: None, tool_call_id: None }
}

} // verus!
