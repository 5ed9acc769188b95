//! Events of an agent run, their sinks, the messages sent to the model and the
//! tool permission policy.
use vstd::prelude::*;
use crate::config::PermissionPolicy;
use crate::llm::{
    ChatMessage, ChatMessageView, MessageRole, copy_messages, is_plain_message, messages_view,
    plain_message,
};
use crate::text::{join2, join3, str_eq};

verus! {

#[derive(Debug)]
pub enum AgentError {
    LlmError(String),
    ToolError(String),
    ConfigError(String),
    IoError(String),
}

/// The text an error shows: its kind, a colon and its detail.
pub open spec fn agent_error_text(e: AgentError) -> Seq<char> {
    match e {
        AgentError::LlmError(d) => "LLM error: "@ + d@,
        AgentError::ToolError(d) => "Tool error: "@ + d@,
        AgentError::ConfigError(d) => "Config error: "@ + d@,
        AgentError::IoError(d) => "IO error: "@ + d@,
    }
}

impl AgentError {
    /// The text of this error.
    pub fn message(&self) -> (r: String)
        ensures
            r@ == agent_error_text(*self),
    {
        match self {
            AgentError::LlmError(d) => join2("LLM error: ", d.as_str()),
            AgentError::ToolError(d) => join2("Tool error: ", d.as_str()),
            AgentError::ConfigError(d) => join2("Config error: ", d.as_str()),
            AgentError::IoError(d) => join2("IO error: ", d.as_str()),
        }
    }
}

#[derive(Debug, PartialEq, Eq)]
pub enum AgentOutput {
    Final(String),
    BudgetExhausted(String),
    Cancelled,
}

#[derive(Debug, Clone, PartialEq, Eq)]
pub enum AgentEvent {
    UserMessage { content: String },
    ToolCall { id: String, name: String },
    ToolResult { id: String, ok: bool, content: String, error: Option<String> },
    Final { content: String },
    BudgetExhausted { reason: String },
}

pub fn copy_event(e: &AgentEvent) -> (r: AgentEvent)
    ensures
        r == *e,
{
    match e {
        AgentEvent::UserMessage { content } => AgentEvent::UserMessage { content: content.clone() },
        AgentEvent::ToolCall { id, name } => AgentEvent::ToolCall { id: id.clone(), name: name.clone() },
        AgentEvent::ToolResult { id, ok, content, error } => AgentEvent::ToolResult {
            id: id.clone(),
            ok: *ok,
            content: content.clone(),
            error: match error {
                Some(x) => Some(x.clone()),
                None => None,
            },
        },
        AgentEvent::Final { content } => AgentEvent::Final { content: content.clone() },
        AgentEvent::BudgetExhausted { reason } => AgentEvent::BudgetExhausted { reason: reason.clone() },
    }
}

/// Where an agent run reports its events, one at a time as they happen.
pub trait AgentEventSink {
    fn emit(&mut self, event: AgentEvent) -> Result<(), AgentError>;
}

/// A sink that keeps every event, in the order they came.
#[derive(Debug)]
pub struct AgentEventCollector {
    events: Vec<AgentEvent>,
}

impl AgentEventCollector {
    /// The events collected so far.
    pub closed spec fn collected(&self) -> Seq<AgentEvent> {
        self.events@
    }

    pub fn new() -> (r: Self)
        ensures
            r.collected() == Seq::<AgentEvent>::empty(),
    {
        AgentEventCollector { events: Vec::new() }
    }

    pub fn events(&self) -> (r: &[AgentEvent])
        ensures
            r@ == self.collected(),
    {
        self.events.as_slice()
    }

    pub fn into_events(self) -> (r: Vec<AgentEvent>)
        ensures
            r@ == self.collected(),
    {
        self.events
    }
}

impl Default for AgentEventCollector {
    fn default() -> (r: Self)
        ensures
            r.collected() == Seq::<AgentEvent>::empty(),
    {
        AgentEventCollector { events: Vec::new() }
    }
}

impl AgentEventSink for AgentEventCollector {
    /// Appends the event; never fails.
    fn emit(&mut self, event: AgentEvent) -> (r: Result<(), AgentError>)
        ensures
            r is Ok,
            final(self).collected() == old(self).collected().push(event),
    {
        self.events.push(event);
        Ok(())
    }
}

/// A sink that hands each event to a closure as it comes.
pub struct CallbackEventSink<F: Fn(AgentEvent)> {
    callback: F,
}

impl<F: Fn(AgentEvent)> CallbackEventSink<F> {
    /// The closure events are handed to.
    pub closed spec fn handler(&self) -> F {
        self.callback
    }

    /// The closure accepts every event.
    #[verifier::type_invariant]
    spec fn accepts_every_event(self) -> bool {
        forall|e: AgentEvent| call_requires(self.callback, (e,))
    }
}

impl<F: Fn(AgentEvent)> AgentEventSink for CallbackEventSink<F> {
    /// Calls the closure with the event; never fails.
    fn emit(&mut self, event: AgentEvent) -> (r: Result<(), AgentError>)
        ensures
            r is Ok,
            call_ensures(old(self).handler(), (event,), ()),
            final(self).handler() == old(self).handler(),
    {
        proof {
            use_type_invariant(&*self);
        }
        (self.callback)(event);
        Ok(())
    }
}

/// A sink that calls `callback` with each event.
pub fn callback_event_sink<F: Fn(AgentEvent)>(callback: F) -> (r: CallbackEventSink<F>)
    requires
        forall|e: AgentEvent| call_requires(callback, (e,)),
    ensures
        r.handler() == callback,
{
    CallbackEventSink { callback }
}

/// The input of one agent run; the workspace directory is held as text.
#[derive(Debug, Clone)]
pub struct AgentInput {
    pub user_message: String,
    pub session_id: String,
    pub system_prompt: String,
    pub history: Vec<ChatMessage>,
    pub workspace_dir: String,
}

/// The messages sent to the model: the system prompt, then the history as it is.
pub fn build_api_messages(system_prompt: &str, history: &[ChatMessage]) -> (r: Vec<ChatMessage>)
    ensures
        r@.len() == history@.len() + 1,
        is_plain_message(r@[0]@, MessageRole::System, system_prompt@),
        messages_view(r@).drop_first() == messages_view(history@),
{
    let mut messages: Vec<ChatMessage> = Vec::new();
    messages.push(plain_message(MessageRole::System, system_prompt));
    let mut rest = copy_messages(history);
    let ghost copied = rest@;
    let ghost head = messages@;
    assert(head.len() == 1);
    assert(copied.len() == messages_view(copied).len());
    assert(history@.len() == messages_view(history@).len());
    messages.append(&mut rest);
    assert(messages@ == head + copied);
    assert forall|k: int| 0 <= k < history@.len() implies messages_view(messages@).drop_first()[k]
        == messages_view(history@)[k] by {
        assert(messages_view(copied)[k] == messages_view(history@)[k]);
        assert(messages@[k + 1] == (head + copied)[k + 1]);
    }
    assert(messages_view(messages@).drop_first() =~= messages_view(history@));
    messages
}

} // verus!
