//! The wire side of the model clients: endpoints, headers, how HTTP failures
//! are classified, how provider replies become chat responses, and how a
//! streamed reply is cut into chunks.
use vstd::prelude::*;
use crate::json::{
    field_str, json_field, json_get, json_get_item, json_item, json_value_of, opt_text, read_json_value,
    read_str_field,
};
use crate::llm::{
    ChatMessage, ChatResponse, ChatStreamChunk, LlmError, LlmProviderType, LlmToolCall,
    MessageRole, Usage,
};
use crate::text::{ends_with, ends_with_str, join2, join3, owned, starts_with, starts_with_str, str_eq, trim, trim_str};

verus! {

/// The API family a provider name selects.
#[derive(Debug, Clone, Copy, PartialEq, Eq, Structural)]
pub enum ProviderRoute {
    OpenAiCompatible,
    Anthropic,
}

/// `openai` and `ollama` speak the OpenAI-compatible API, `anthropic` its own;
/// any other name is an error.
pub fn provider_route(provider: &str) -> (r: Result<ProviderRoute, LlmError>)
    ensures
        match r {
            Ok(route) => {
                &&& route == if provider@ == "anthropic"@ {
                    ProviderRoute::Anthropic
                } else {
                    ProviderRoute::OpenAiCompatible
                }
                &&& (provider@ == "openai"@ || provider@ == "ollama"@ || provider@ == "anthropic"@)
            },
            Err(e) => {
                &&& !(provider@ == "openai"@ || provider@ == "ollama"@ || provider@ == "anthropic"@)
                &&& e matches LlmError::ApiError(m) && m@ == "Unknown provider: "@ + provider@
            },
        },
{
    proof {
        reveal_strlit("openai");
        reveal_strlit("ollama");
        reveal_strlit("anthropic");
        assert("openai"@.len() != "anthropic"@.len());
        assert("ollama"@.len() != "anthropic"@.len());
    }
    if str_eq(provider, "openai") || str_eq(provider, "ollama") {
        Ok(ProviderRoute::OpenAiCompatible)
    } else if str_eq(provider, "anthropic") {
        Ok(ProviderRoute::Anthropic)
    } else {
        Err(LlmError::ApiError(join2("Unknown provider: ", provider)))
    }
}

/// The chat client speaks only the OpenAI-compatible API: the other provider
/// types are reported as unsupported.
pub fn client_provider_gate(provider: LlmProviderType) -> (r: Result<(), LlmError>)
    ensures
        match provider {
            LlmProviderType::OpenAI => r is Ok,
            LlmProviderType::Anthropic => r matches Err(LlmError::UnsupportedProvider(p)) && p@ == "anthropic"@,
            LlmProviderType::Google => r matches Err(LlmError::UnsupportedProvider(p)) && p@ == "google"@,
        },
{
    match provider {
        LlmProviderType::OpenAI => Ok(()),
        LlmProviderType::Anthropic => Err(LlmError::UnsupportedProvider(owned("anthropic"))),
        LlmProviderType::Google => Err(LlmError::UnsupportedProvider(owned("google"))),
    }
}

/// `s` without its trailing slashes (`trim_end_matches('/')`).
pub open spec fn without_trailing_slashes(s: Seq<char>) -> Seq<char>
    decreases s.len(),
{
    if s.len() > 0 && s.last() == '/' {
        without_trailing_slashes(s.drop_last())
    } else {
        s
    }
}

pub fn trim_trailing_slashes(s: &str) -> (r: &str)
    ensures
        r@ == without_trailing_slashes(s@),
{
    let mut j: usize = s.unicode_len();
    assert(s@.subrange(0, j as int) =~= s@);
    while j > 0 && s.get_char(j - 1) == '/'
        invariant
            j <= s@.len(),
            without_trailing_slashes(s@) == without_trailing_slashes(s@.subrange(0, j as int)),
        decreases j,
    {
        assert(s@.subrange(0, j as int).drop_last() =~= s@.subrange(0, j as int - 1));
        j = j - 1;
    }
    s.substring_char(0, j)
}

/// The chat endpoint of the chat client: `/chat/completions` after a base that
/// already ends in `/v1`, else `/v1/chat/completions`.
pub open spec fn openai_chat_endpoint(base_url: Seq<char>) -> Seq<char> {
    let base = without_trailing_slashes(base_url);
    if ends_with(base, "/v1"@) { base + "/chat/completions"@ } else { base + "/v1/chat/completions"@ }
}

pub fn openai_chat_url(base_url: &str) -> (r: String)
    ensures
        r@ == openai_chat_endpoint(base_url@),
{
    let base = trim_trailing_slashes(base_url);
    if ends_with_str(base, "/v1") {
        join2(base, "/chat/completions")
    } else {
        join2(base, "/v1/chat/completions")
    }
}

/// The chat endpoint the provider clients and the streaming call use.
pub fn completions_url(base_url: &str) -> (r: String)
    ensures
        r@ == without_trailing_slashes(base_url@) + "/v1/chat/completions"@,
{
    join2(trim_trailing_slashes(base_url), "/v1/chat/completions")
}

/// The Anthropic messages endpoint.
pub fn anthropic_messages_url(base_url: &str) -> (r: String)
    ensures
        r@ == without_trailing_slashes(base_url@) + "/v1/messages"@,
{
    join2(trim_trailing_slashes(base_url), "/v1/messages")
}

/// The `Authorization` header value for an API key.
pub fn bearer_header(api_key: &str) -> (r: String)
    ensures
        r@ == "Bearer "@ + api_key@,
{
    join2("Bearer ", api_key)
}

/// The failure an HTTP status means for a chat call: 429 is a rate limit,
/// 401 a refused key, any other status outside 200..=299 an API error with the
/// status and the body; success means none.
pub fn http_failure(status: u16, status_text: &str, body: &str) -> (r: Option<LlmError>)
    ensures
        status == 429 ==> r matches Some(LlmError::RateLimit),
        status == 401 ==> r matches Some(LlmError::AuthFailed),
        status != 429 && status != 401 && 200 <= status <= 299 ==> r is None,
        status != 429 && status != 401 && !(200 <= status <= 299) ==> (r matches Some(LlmError::ApiError(m))
            && m@ == "HTTP "@ + status_text@ + ": "@ + body@),
{
    if status == 429 {
        return Some(LlmError::RateLimit);
    }
    if status == 401 {
        return Some(LlmError::AuthFailed);
    }
    if 200 <= status && status <= 299 {
        return None;
    }
    Some(LlmError::ApiError(join3("HTTP ", status_text, ": ").concat(body)))
}

/// The streaming call checks only for a rate limit before the generic failure.
pub fn stream_http_failure(status: u16, status_text: &str, body: &str) -> (r: Option<LlmError>)
    ensures
        status == 429 ==> r matches Some(LlmError::RateLimit),
        status != 429 && 200 <= status <= 299 ==> r is None,
        status != 429 && !(200 <= status <= 299) ==> (r matches Some(LlmError::ApiError(m))
            && m@ == "HTTP "@ + status_text@ + ": "@ + body@),
{
    if status == 429 {
        return Some(LlmError::RateLimit);
    }
    if 200 <= status && status <= 299 {
        return None;
    }
    Some(LlmError::ApiError(join3("HTTP ", status_text, ": ").concat(body)))
}

/// The first choice of an OpenAI-compatible reply as read from its JSON:
/// the message's text (when it is a string), its tool calls (when the field is
/// an array; empty when they could not be read) and the finish reason.
#[derive(Debug, Clone, PartialEq, Eq)]
pub struct OpenAiChoice {
    pub content: Option<String>,
    pub tool_calls: Option<Vec<LlmToolCall>>,
    pub finish_reason: Option<String>,
}

/// An OpenAI-compatible reply as read from its JSON: its first choice, if it
/// has any, and its usage, when that is an object.
#[derive(Debug, Clone, PartialEq, Eq)]
pub struct OpenAiReply {
    pub first_choice: Option<OpenAiChoice>,
    pub usage: Option<Usage>,
}

/// A reply without choices is an API error; otherwise the first choice is the
/// assistant's message.
pub fn parse_openai_reply(reply: OpenAiReply) -> (r: Result<ChatResponse, LlmError>)
    ensures
        r is Err <==> reply.first_choice is None,
        r matches Err(e) ==> e matches LlmError::ApiError(m) && m@ == "Empty choices in response"@,
        r matches Ok(resp) ==> reply.first_choice matches Some(c) && {
            &&& resp.message.role == MessageRole::Assistant
            &&& resp.message.content == c.content
            &&& resp.message.tool_calls == c.tool_calls
            &&& resp.message.tool_call_id is None
            &&& resp.usage == reply.usage
            &&& resp.finish_reason == c.finish_reason
        },
{
    let OpenAiReply { first_choice, usage } = reply;
    match first_choice {
        None => Err(LlmError::ApiError(owned("Empty choices in response"))),
        Some(choice) => {
            let OpenAiChoice { content, tool_calls, finish_reason } = choice;
            Ok(ChatResponse {
                message: ChatMessage { role: MessageRole::Assistant, content, tool_calls, tool_call_id: None },
                usage,
                finish_reason,
            })
        },
    }
}

/// An Anthropic reply as read from its JSON: the text of its first content
/// block, its usage and its stop reason.
#[derive(Debug, Clone, PartialEq, Eq)]
pub struct AnthropicReply {
    pub text: Option<String>,
    pub usage: Option<Usage>,
    pub stop_reason: Option<String>,
}

/// The assistant's message is the reply's first text; Anthropic replies carry
/// no tool calls here.
pub fn parse_anthropic_reply(reply: AnthropicReply) -> (r: ChatResponse)
    ensures
        r.message.role == MessageRole::Assistant,
        r.message.content == reply.text,
        r.message.tool_calls is None,
        r.message.tool_call_id is None,
        r.usage == reply.usage,
        r.finish_reason == reply.stop_reason,
{
    let AnthropicReply { text, usage, stop_reason } = reply;
    ChatResponse {
        message: ChatMessage { role: MessageRole::Assistant, content: text, tool_calls: None, tool_call_id: None },
        usage,
        finish_reason: stop_reason,
    }
}

/// The role Anthropic is told for a message: system and tool messages are sent
/// as the user's.
pub open spec fn anthropic_role_text(role: MessageRole) -> Seq<char> {
    match role {
        MessageRole::Assistant => "assistant"@,
        _ => "user"@,
    }
}

pub fn anthropic_role(role: MessageRole) -> (r: &'static str)
    ensures
        r@ == anthropic_role_text(role),
{
    proof {
        reveal_strlit("assistant");
        reveal_strlit("user");
    }
    match role {
        MessageRole::Assistant => "assistant",
        _ => "user",
    }
}

/// A message as Anthropic receives it: its role and its text (empty when it has none).
pub fn anthropic_message(m: &ChatMessage) -> (r: (&'static str, String))
    ensures
        r.0@ == anthropic_role_text(m.role),
        r.1@ == match m.content { Some(c) => c@, None => Seq::<char>::empty() },
{
    let text = match &m.content {
        Some(c) => c.clone(),
        None => String::new(),
    };
    (anthropic_role(m.role), text)
}

/// The system prompt sent to Anthropic: the text of the first system message,
/// or nothing when that message has no text or there is none.
pub open spec fn anthropic_system_text(messages: Seq<ChatMessage>) -> Seq<char>
    decreases messages.len(),
{
    if messages.len() == 0 {
        Seq::<char>::empty()
    } else if messages[0].role == MessageRole::System {
        match messages[0].content {
            Some(c) => c@,
            None => Seq::<char>::empty(),
        }
    } else {
        anthropic_system_text(messages.drop_first())
    }
}

pub fn anthropic_system_prompt(messages: &[ChatMessage]) -> (r: String)
    ensures
        r@ == anthropic_system_text(messages@),
{
    let mut i: usize = 0;
    assert(messages@.subrange(0, messages@.len() as int) =~= messages@);
    while i < messages.len()
        invariant
            i <= messages@.len(),
            anthropic_system_text(messages@) == anthropic_system_text(messages@.subrange(i as int, messages@.len() as int)),
        decreases messages.len() - i,
    {
        let ghost rest = messages@.subrange(i as int, messages@.len() as int);
        assert(rest.drop_first() =~= messages@.subrange(i as int + 1, messages@.len() as int));
        assert(rest[0] == messages@[i as int]);
        if messages[i].role == MessageRole::System {
            return match &messages[i].content {
                Some(c) => c.clone(),
                None => String::new(),
            };
        }
        i = i + 1;
    }
    assert(messages@.subrange(i as int, messages@.len() as int) =~= Seq::<ChatMessage>::empty());
    String::new()
}

/// Anthropic requires a token limit: the configured one, or 4096.
pub fn anthropic_max_tokens(configured: Option<u32>) -> (r: u32)
    ensures
        r == match configured { Some(n) => n, None => 4096 },
{
    match configured {
        Some(n) => n,
        None => 4096,
    }
}

/// `s` without a final carriage return.
pub open spec fn strip_cr(s: Seq<char>) -> Seq<char> {
    if s.len() > 0 && s.last() == '\r' { s.drop_last() } else { s }
}

/// The position of the first line feed in `s` at or after `from`, if any.
pub open spec fn next_newline(s: Seq<char>, from: int) -> Option<int>
    decreases s.len() - from,
{
    if from < 0 || from >= s.len() {
        None
    } else if s[from] == '\n' {
        Some(from)
    } else {
        next_newline(s, from + 1)
    }
}

/// The lines of `s` from position `from`, as `str::lines` gives them: split at
/// each line feed, a carriage return before a line feed dropped, and no empty
/// line after a final line feed.
pub open spec fn lines_from(s: Seq<char>, from: int) -> Seq<Seq<char>>
    decreases s.len() - from,
{
    if from < 0 || from >= s.len() {
        Seq::empty()
    } else {
        match next_newline(s, from) {
            None => seq![s.subrange(from, s.len() as int)],
            Some(k) => if k + 1 <= s.len() && k >= from {
                seq![strip_cr(s.subrange(from, k))] + lines_from(s, k + 1)
            } else {
                Seq::empty()
            },
        }
    }
}

/// The value at `choices[0]` of a JSON value, where there is one.
pub open spec fn first_choice(v: serde_json::Value) -> Option<serde_json::Value> {
    match json_field(v, "choices"@) {
        Some(c) => json_item(c, 0),
        None => None,
    }
}

/// The string at `choices[0].delta.content`, where there is one.
pub open spec fn delta_content(v: serde_json::Value) -> Option<Seq<char>> {
    match first_choice(v) {
        Some(c) => match json_field(c, "delta"@) {
            Some(d) => field_str(d, "content"@),
            None => None,
        },
        None => None,
    }
}

/// The string at `choices[0].finish_reason`, where there is one.
pub open spec fn delta_finish_reason(v: serde_json::Value) -> Option<Seq<char>> {
    match first_choice(v) {
        Some(c) => field_str(c, "finish_reason"@),
        None => None,
    }
}

/// What the data of one streamed event holds: none when it is not JSON, else
/// the text of `choices[0].delta.content` and of `choices[0].finish_reason`,
/// each when it is a string.
pub open spec fn stream_delta(data: Seq<char>) -> Option<(Option<Seq<char>>, Option<Seq<char>>)> {
    match json_value_of(data) {
        Ok(v) => Some((delta_content(v), delta_finish_reason(v))),
        Err(_) => None,
    }
}

fn read_first_choice(v: &serde_json::Value) -> (r: Option<serde_json::Value>)
    ensures
        r == first_choice(*v),
{
    match json_get(v, "choices") {
        Some(c) => json_get_item(&c, 0),
        None => None,
    }
}

/// Reads one streamed event's data.
fn read_stream_delta(data: &str) -> (r: Option<(Option<String>, Option<String>)>)
    ensures
        match r {
            None => stream_delta(data@) is None,
            Some((c, f)) => stream_delta(data@) == Some((opt_text(c), opt_text(f))),
        },
{
    let parsed = match read_json_value(data) {
        Ok(v) => v,
        Err(_) => return None,
    };
    match read_first_choice(&parsed) {
        Some(choice) => {
            let content = match json_get(&choice, "delta") {
                Some(d) => read_str_field(&d, "content"),
                None => None,
            };
            Some((content, read_str_field(&choice, "finish_reason")))
        },
        None => Some((None, None)),
    }
}

/// The chunk a piece of a streamed reply yields, judged line by line: the first
/// `data: ` line whose data is `[DONE]` ends the piece with no chunk; the first
/// one whose data is JSON gives the chunk (its text empty when there is none);
/// other lines are passed over.
pub open spec fn chunk_of_lines(lines: Seq<Seq<char>>) -> Option<(Seq<char>, Option<Seq<char>>)>
    decreases lines.len(),
{
    if lines.len() == 0 {
        None
    } else {
        let line = lines[0];
        if starts_with(line, "data: "@) {
            let data = line.subrange(6, line.len() as int);
            if trim(data) == "[DONE]"@ {
                None
            } else {
                match stream_delta(data) {
                    Some((content, finish)) => Some((
                        match content { Some(c) => c, None => Seq::<char>::empty() },
                        finish,
                    )),
                    None => chunk_of_lines(lines.drop_first()),
                }
            }
        } else {
            chunk_of_lines(lines.drop_first())
        }
    }
}

proof fn lemma_next_newline_bounds(s: Seq<char>, from: int)
    requires
        from >= 0,
    ensures
        next_newline(s, from) matches Some(k) ==> from <= k < s.len() && s[k] == '\n'
            && forall|j: int| from <= j < k ==> s[j] != '\n',
        next_newline(s, from) is None ==> forall|j: int| from <= j < s.len() ==> s[j] != '\n',
    decreases s.len() - from,
{
    if from >= 0 && from < s.len() && s[from] != '\n' {
        lemma_next_newline_bounds(s, from + 1);
    }
}

/// Judges one piece of a streamed reply as `chunk_of_lines` says.
pub fn stream_chunk(text: &str) -> (r: Option<ChatStreamChunk>)
    ensures
        match r {
            None => chunk_of_lines(lines_from(text@, 0)) is None,
            Some(c) => chunk_of_lines(lines_from(text@, 0)) == Some((
                c.text@,
                match c.finish_reason { Some(f) => Some(f@), None => None },
            )),
        },
{
    let n = text.unicode_len();
    let mut start: usize = 0;
    while start < n
        invariant
            n == text@.len(),
            start <= n,
            chunk_of_lines(lines_from(text@, 0)) == chunk_of_lines(lines_from(text@, start as int)),
        decreases n - start,
    {
        let mut k: usize = start;
        while k < n && text.get_char(k) != '\n'
            invariant
                n == text@.len(),
                start <= k <= n,
                forall|j: int| start <= j < k ==> text@[j] != '\n',
            decreases n - k,
        {
            k = k + 1;
        }
        proof {
            lemma_next_newline_bounds(text@, start as int);
        }
        let raw = text.substring_char(start, k);
        let line = if k < n && k > start && text.get_char(k - 1) == '\r' {
            text.substring_char(start, k - 1)
        } else {
            raw
        };
        let ghost next: int = if k < n { k as int + 1 } else { n as int };
        proof {
            if k < n {
                assert(next_newline(text@, start as int) == Some(k as int));
                assert(line@ =~= strip_cr(text@.subrange(start as int, k as int)));
                assert(lines_from(text@, start as int) =~= seq![line@] + lines_from(text@, next));
            } else {
                assert(next_newline(text@, start as int) is None);
                assert(line@ =~= text@.subrange(start as int, n as int));
                assert(lines_from(text@, start as int) =~= seq![line@]);
                assert(lines_from(text@, next) =~= Seq::<Seq<char>>::empty());
            }
            assert((seq![line@] + lines_from(text@, next)).drop_first() =~= lines_from(text@, next));
        }
        proof {
            reveal_strlit("data: ");
        }
        if starts_with_str(line, "data: ") {
            let data = line.substring_char(6, line.unicode_len());
            if str_eq(trim_str(data), "[DONE]") {
                return None;
            }
            match read_stream_delta(data) {
                Some((content, finish)) => {
                    let text_part = match content {
                        Some(c) => c,
                        None => String::new(),
                    };
                    return Some(ChatStreamChunk { text: text_part, finish_reason: finish });
                },
                None => {},
            }
        }
        start = if k < n { k + 1 } else { n };
    }
    assert(lines_from(text@, start as int) =~= Seq::<Seq<char>>::empty());
    None
}

} // verus!
