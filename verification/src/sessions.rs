//! Conversation sessions: which messages of a run are stored, how stored rows
//! become history again, and how a run's events are replayed as history.
use vstd::prelude::*;
use crate::agent::AgentEvent;
use crate::llm::{ChatMessage, ChatMessageView, MessageRole, messages_view};
use crate::delegate::{is_hyphenated_uuid, random_uuid};
use crate::text::{owned, str_eq};

verus! {

#[derive(Debug, Clone, PartialEq, Eq)]
pub struct SessionSummary {
    pub id: String,
    pub created_at: i64,
}

/// A message as the session store keeps it: its role, its text and its
/// position in the batch it was appended with.
#[derive(Debug, Clone, PartialEq, Eq)]
pub struct StoredMessage {
    pub role: &'static str,
    pub content: String,
    pub sequence: i64,
}

/// What the store keeps of a message: user and assistant messages that carry
/// text or tool calls, with their text (empty when there is none); others are
/// left out.
pub open spec fn stored_form(m: ChatMessageView) -> Option<(Seq<char>, Seq<char>)> {
    if m.content is None && m.tool_calls is None {
        None
    } else {
        let text = match m.content {
            Some(c) => c@,
            None => Seq::<char>::empty(),
        };
        match m.role {
            MessageRole::User => Some(("user"@, text)),
            MessageRole::Assistant => Some(("assistant"@, text)),
            _ => None,
        }
    }
}

/// The rows a batch of messages becomes, each with the position of its message
/// in the batch.
pub open spec fn stored_rows(messages: Seq<ChatMessageView>) -> Seq<(Seq<char>, Seq<char>, int)>
    decreases messages.len(),
{
    if messages.len() == 0 {
        Seq::empty()
    } else {
        let rest = stored_rows(messages.drop_last());
        match stored_form(messages.last()) {
            Some((role, text)) => rest.push((role, text, messages.len() - 1)),
            None => rest,
        }
    }
}

pub open spec fn row_view(r: StoredMessage) -> (Seq<char>, Seq<char>, int) {
    (r.role@, r.content@, r.sequence as int)
}

/// The rows to append for a batch of messages.
pub fn messages_to_store(messages: &[ChatMessage]) -> (r: Vec<StoredMessage>)
    requires
        messages@.len() <= i64::MAX,
    ensures
        r@.map_values(|x: StoredMessage| row_view(x)) == stored_rows(messages_view(messages@)),
{
    let mut rows: Vec<StoredMessage> = Vec::new();
    let mut i: usize = 0;
    while i < messages.len()
        invariant
            i <= messages@.len(),
            messages@.len() <= i64::MAX,
            rows@.map_values(|x: StoredMessage| row_view(x)) == stored_rows(messages_view(messages@.subrange(0, i as int))),
        decreases messages.len() - i,
    {
        let ghost before = messages_view(messages@.subrange(0, i as int));
        let ghost after = messages_view(messages@.subrange(0, i as int + 1));
        assert(after.drop_last() =~= before);
        assert(after.last() == messages@[i as int]@);
        let m = &messages[i];
        let keep = !(m.content.is_none() && m.tool_calls.is_none());
        if keep {
            let text = match &m.content {
                Some(c) => c.clone(),
                None => String::new(),
            };
            let role: Option<&'static str> = match m.role {
                MessageRole::User => Some("user"),
                MessageRole::Assistant => Some("assistant"),
                _ => None,
            };
            proof {
                reveal_strlit("user");
                reveal_strlit("assistant");
            }
            match role {
                Some(role) => {
                    let ghost old_rows = rows@;
                    rows.push(StoredMessage { role, content: text, sequence: i as i64 });
                    assert(rows@.map_values(|x: StoredMessage| row_view(x)) =~= old_rows.map_values(
                        |x: StoredMessage| row_view(x),
                    ).push(row_view(rows@.last())));
                },
                None => {},
            }
        }
        i = i + 1;
    }
    assert(messages@.subrange(0, messages@.len() as int) =~= messages@);
    rows
}

/// The message a stored row becomes: an assistant message for the role
/// `assistant`, a user message for any other role.
pub fn history_message(role: &str, content: String) -> (r: ChatMessage)
    ensures
        r.role == if role@ == "assistant"@ { MessageRole::Assistant } else { MessageRole::User },
        r.content == Some(content),
        r.tool_calls is None,
        r.tool_call_id is None,
{
    let r = if str_eq(role, "assistant") { MessageRole::Assistant } else { MessageRole::User };
    ChatMessage { role: r, content: Some(content), tool_calls: None, tool_call_id: None }
}

/// A history message as role, text and the tool call it answers.
pub open spec fn entry_of(m: ChatMessage) -> (MessageRole, Option<Seq<char>>, Option<Seq<char>>, bool) {
    (
        m.role,
        match m.content { Some(c) => Some(c@), None => None },
        match m.tool_call_id { Some(i) => Some(i@), None => None },
        m.tool_calls is Some,
    )
}

/// The history message an event stands for, if any: the user's message, a
/// tool result (its content, or its error when the content is empty) answering
/// its call, and the final answer; tool calls and budget notices stand for none.
pub open spec fn event_entry(e: AgentEvent) -> Option<(MessageRole, Option<Seq<char>>, Option<Seq<char>>, bool)> {
    match e {
        AgentEvent::UserMessage { content } => Some((MessageRole::User, Some(content@), None, false)),
        AgentEvent::ToolResult { id, ok: _, content, error } => Some((
            MessageRole::Tool,
            Some(if content@.len() == 0 {
                match error { Some(x) => x@, None => Seq::<char>::empty() }
            } else {
                content@
            }),
            Some(id@),
            false,
        )),
        AgentEvent::Final { content } => Some((MessageRole::Assistant, Some(content@), None, false)),
        _ => None,
    }
}

/// The history a sequence of events replays to, in order.
pub open spec fn event_history(events: Seq<AgentEvent>) -> Seq<(MessageRole, Option<Seq<char>>, Option<Seq<char>>, bool)>
    decreases events.len(),
{
    if events.len() == 0 {
        Seq::empty()
    } else {
        let rest = event_history(events.drop_last());
        match event_entry(events.last()) {
            Some(x) => rest.push(x),
            None => rest,
        }
    }
}

/// The history messages a session's stored events stand for.
pub fn history_from_events(events: Vec<AgentEvent>) -> (r: Vec<ChatMessage>)
    ensures
        r@.map_values(|m: ChatMessage| entry_of(m)) == event_history(events@),
{
    let mut out: Vec<ChatMessage> = Vec::new();
    let mut i: usize = 0;
    while i < events.len()
        invariant
            i <= events@.len(),
            out@.map_values(|m: ChatMessage| entry_of(m)) == event_history(events@.subrange(0, i as int)),
        decreases events.len() - i,
    {
        let ghost before = events@.subrange(0, i as int);
        let ghost after = events@.subrange(0, i as int + 1);
        assert(after.drop_last() =~= before);
        let ghost old_out = out@;
        let message: Option<ChatMessage> = match &events[i] {
            AgentEvent::UserMessage { content } => Some(ChatMessage {
                role: MessageRole::User,
                content: Some(content.clone()),
                tool_calls: None,
                tool_call_id: None,
            }),
            AgentEvent::ToolResult { id, ok: _, content, error } => {
                let text = if content.unicode_len() == 0 {
                    match error {
                        Some(x) => x.clone(),
                        None => String::new(),
                    }
                } else {
                    content.clone()
                };
                Some(ChatMessage {
                    role: MessageRole::Tool,
                    content: Some(text),
                    tool_calls: None,
                    tool_call_id: Some(id.clone()),
                })
            },
            AgentEvent::Final { content } => Some(ChatMessage {
                role: MessageRole::Assistant,
                content: Some(content.clone()),
                tool_calls: None,
                tool_call_id: None,
            }),
            _ => None,
        };
        match message {
            Some(m) => {
                out.push(m);
                assert(out@.map_values(|m: ChatMessage| entry_of(m)) =~= old_out.map_values(
                    |m: ChatMessage| entry_of(m),
                ).push(entry_of(out@.last())));
            },
            None => {},
        }
        i = i + 1;
    }
    assert(events@.subrange(0, events@.len() as int) =~= events@);
    out
}

/// Replaying one more stored tool result appends exactly one history message:
/// a tool message answering that call, whose text is the tool's output where
/// the output is not empty, and otherwise the error it reported (or nothing).
pub proof fn lemma_replayed_tool_result(events: Seq<AgentEvent>, e: AgentEvent)
    requires
        e is ToolResult,
    ensures
        event_history(events.push(e)).len() == event_history(events).len() + 1,
        event_history(events.push(e)).drop_last() == event_history(events),
        e matches AgentEvent::ToolResult { id, ok: _, content, error } ==> {
            let last = event_history(events.push(e)).last();
            &&& last.0 == MessageRole::Tool
            &&& last.2 == Some(id@)
            &&& !last.3
            &&& content@.len() > 0 ==> last.1 == Some(content@)
            &&& content@.len() == 0 && error is None ==> last.1 == Some(Seq::<char>::empty())
            &&& content@.len() == 0 && error is Some ==> last.1 == Some(error.unwrap()@)
        },
{
    assert(events.push(e).drop_last() =~= events);
}

/// Replaying a stored user message or final answer appends one message of
/// that role with its text; a tool call or a budget notice appends nothing.
pub proof fn lemma_replayed_messages(events: Seq<AgentEvent>, e: AgentEvent)
    ensures
        e matches AgentEvent::UserMessage { content } ==> event_history(events.push(e)) == event_history(
            events,
        ).push((MessageRole::User, Some(content@), None, false)),
        e matches AgentEvent::Final { content } ==> event_history(events.push(e)) == event_history(
            events,
        ).push((MessageRole::Assistant, Some(content@), None, false)),
        (e is ToolCall || e is BudgetExhausted) ==> event_history(events.push(e)) == event_history(events),
{
    assert(events.push(e).drop_last() =~= events);
}

/// A message as a session log records it: its identifier, its session, its
/// role's name, its text, the JSON text of its tool calls, the call it
/// answers and when it was recorded (each text empty where there is none).
#[derive(Debug, Clone, PartialEq, Eq)]
pub struct MessageRecord {
    pub id: String,
    pub session_id: String,
    pub role: String,
    pub content: String,
    pub tool_calls: String,
    pub tool_call_id: String,
    pub created_at: i64,
}

/// The name a role is recorded under: the variant's name.
pub open spec fn role_name(r: MessageRole) -> Seq<char> {
    match r {
        MessageRole::System => "System"@,
        MessageRole::User => "User"@,
        MessageRole::Assistant => "Assistant"@,
        MessageRole::Tool => "Tool"@,
    }
}

/// The fields of `rec` other than its identifier record `msg` of session
/// `session_id` at `created_at`, with `tool_calls_json` as the JSON text of
/// its tool calls.
pub open spec fn records_message(
    rec: MessageRecord,
    msg: ChatMessage,
    session_id: Seq<char>,
    tool_calls_json: Seq<char>,
    created_at: i64,
) -> bool {
    &&& rec.session_id@ == session_id
    &&& rec.role@ == role_name(msg.role)
    &&& rec.content@ == match msg.content {
        Some(c) => c@,
        None => Seq::<char>::empty(),
    }
    &&& rec.tool_calls@ == if msg.tool_calls is Some {
        tool_calls_json
    } else {
        Seq::<char>::empty()
    }
    &&& rec.tool_call_id@ == match msg.tool_call_id {
        Some(c) => c@,
        None => Seq::<char>::empty(),
    }
    &&& rec.created_at == created_at
}

fn text_or_empty(s: &Option<String>) -> (r: String)
    ensures
        r@ == match s {
            Some(t) => t@,
            None => Seq::<char>::empty(),
        },
{
    match s {
        Some(t) => t.clone(),
        None => String::new(),
    }
}

/// The record of `msg` in session `session_id` under identifier `id`.
pub fn message_record(
    msg: &ChatMessage,
    session_id: &str,
    id: &str,
    tool_calls_json: &str,
    created_at: i64,
) -> (r: MessageRecord)
    ensures
        r.id@ == id@,
        records_message(r, *msg, session_id@, tool_calls_json@, created_at),
{
    let role = match msg.role {
        MessageRole::System => "System",
        MessageRole::User => "User",
        MessageRole::Assistant => "Assistant",
        MessageRole::Tool => "Tool",
    };
    proof {
        reveal_strlit("System");
        reveal_strlit("User");
        reveal_strlit("Assistant");
        reveal_strlit("Tool");
    }
    let tool_calls = match &msg.tool_calls {
        Some(_) => owned(tool_calls_json),
        None => String::new(),
    };
    MessageRecord {
        id: owned(id),
        session_id: owned(session_id),
        role: owned(role),
        content: text_or_empty(&msg.content),
        tool_calls,
        tool_call_id: text_or_empty(&msg.tool_call_id),
        created_at,
    }
}

/// The record of `msg` in session `session_id` at `created_at`, under a fresh
/// random identifier.
pub fn chat_message_to_record(msg: &ChatMessage, session_id: &str, tool_calls_json: &str, created_at: i64) -> (r: MessageRecord)
    ensures
        is_hyphenated_uuid(r.id@),
        records_message(r, *msg, session_id@, tool_calls_json@, created_at),
{
    let id = random_uuid();
    message_record(msg, session_id, id.as_str(), tool_calls_json, created_at)
}

} // verus!
