//! What the command line shows and decides: progress lines of a run, the
//! provider a configuration names, the diagnostics report and its paths.
use vstd::prelude::*;
use crate::agent::{AgentError, AgentEvent, AgentOutput};
use crate::config::PathConfig;
use crate::llm::{ChatMessage, LlmProviderType, MessageRole, is_plain_message, plain_message};
use crate::text::{
    ascii_lower_seq, contains, contains_str, is_blank, is_blank_str, join2, owned, str_eq,
    to_ascii_lowercase, trim, trim_str,
};

verus! {

/// The line printed for an event while a run makes progress, if any.
pub open spec fn event_line(e: AgentEvent) -> Option<Seq<char>> {
    match e {
        AgentEvent::ToolCall { id: _, name } => Some("→ tool: "@ + name@),
        AgentEvent::ToolResult { id: _, ok, content: _, error } => if !ok {
            Some("× tool failed: "@ + match error {
                Some(x) => x@,
                None => "unknown error"@,
            })
        } else {
            None
        },
        AgentEvent::BudgetExhausted { reason } => Some("× budget exhausted: "@ + reason@),
        _ => None,
    }
}

pub fn format_event_line(event: &AgentEvent) -> (r: Option<String>)
    ensures
        match r {
            Some(s) => event_line(*event) == Some(s@),
            None => event_line(*event) is None,
        },
{
    match event {
        AgentEvent::ToolCall { id: _, name } => Some(join2("→ tool: ", name.as_str())),
        AgentEvent::ToolResult { id: _, ok, content: _, error } => {
            if *ok {
                None
            } else {
                match error {
                    Some(x) => Some(join2("× tool failed: ", x.as_str())),
                    None => {
                        let r = join2("× tool failed: ", "unknown error");
                        proof {
                            reveal_strlit("unknown error");
                        }
                        Some(r)
                    },
                }
            }
        },
        AgentEvent::BudgetExhausted { reason } => Some(join2("× budget exhausted: ", reason.as_str())),
        _ => None,
    }
}

/// The provider a configuration's provider name selects: Anthropic and Google
/// by name, the OpenAI-compatible provider for any other name.
pub open spec fn provider_for(name: Seq<char>) -> LlmProviderType {
    if name == "anthropic"@ {
        LlmProviderType::Anthropic
    } else if name == "google"@ {
        LlmProviderType::Google
    } else {
        LlmProviderType::OpenAI
    }
}

pub fn provider_from_config(provider: &str) -> (r: LlmProviderType)
    ensures
        r == provider_for(provider@),
{
    if str_eq(provider, "anthropic") {
        LlmProviderType::Anthropic
    } else if str_eq(provider, "google") {
        LlmProviderType::Google
    } else {
        LlmProviderType::OpenAI
    }
}

/// How the diagnostics report a configured provider.
pub open spec fn provider_support(name: Seq<char>) -> Seq<char> {
    if name == "openai"@ {
        "Supported"@
    } else if name == "anthropic"@ || name == "google"@ {
        "Unsupported in current runtime"@
    } else {
        "Treated as OpenAI-compatible"@
    }
}

pub fn provider_status(provider: &str) -> (r: &'static str)
    ensures
        r@ == provider_support(provider@),
{
    proof {
        reveal_strlit("Supported");
        reveal_strlit("Unsupported in current runtime");
        reveal_strlit("Treated as OpenAI-compatible");
    }
    if str_eq(provider, "openai") {
        "Supported"
    } else if str_eq(provider, "anthropic") || str_eq(provider, "google") {
        "Unsupported in current runtime"
    } else {
        "Treated as OpenAI-compatible"
    }
}

/// A secret read from the environment counts as configured when it is set
/// and not blank.
pub fn env_secret_status(value: Option<String>) -> (r: &'static str)
    ensures
        r@ == if value matches Some(v) && !is_blank(v@) { "Configured"@ } else { "Missing"@ },
{
    proof {
        reveal_strlit("Configured");
        reveal_strlit("Missing");
    }
    match value {
        Some(v) => {
            if is_blank_str(v.as_str()) {
                "Missing"
            } else {
                "Configured"
            }
        },
        None => "Missing",
    }
}

/// A configuration file is valid when it has a `[model]` section.
pub open spec fn config_status(content: Seq<char>) -> Seq<char> {
    if contains(content, "[model]"@) { "OK"@ } else { "INVALID (Missing [model])"@ }
}

pub fn config_status_from_content(content: &str) -> (r: &'static str)
    ensures
        r@ == config_status(content@),
{
    proof {
        reveal_strlit("OK");
        reveal_strlit("INVALID (Missing [model])");
    }
    if contains_str(content, "[model]") {
        "OK"
    } else {
        "INVALID (Missing [model])"
    }
}

/// The status of a configuration file that was read, or of the error reading
/// it (given by its message).
pub fn config_status_from_read_result(result: Result<String, String>) -> (r: String)
    ensures
        r@ == match result {
            Ok(content) => config_status(content@),
            Err(e) => "ERROR ("@ + e@ + ")"@,
        },
{
    match result {
        Ok(content) => owned(config_status_from_content(content.as_str())),
        Err(e) => join2("ERROR (", e.as_str()).concat(")"),
    }
}

/// The query counting cron jobs; it only reads.
pub fn cron_jobs_count_query() -> (r: &'static str)
    ensures
        r@ == "SELECT COUNT(*) FROM cron_jobs"@,
{
    let r = "SELECT COUNT(*) FROM cron_jobs";
    proof {
        reveal_strlit("SELECT COUNT(*) FROM cron_jobs");
    }
    r
}

/// The query counting the tasks of a status, which is bound as its one
/// parameter; it only reads.
pub fn task_count_query(_status: &str) -> (r: &'static str)
    ensures
        r@ == "SELECT COUNT(*) FROM tasks WHERE status = ?"@,
{
    let r = "SELECT COUNT(*) FROM tasks WHERE status = ?";
    proof {
        reveal_strlit("SELECT COUNT(*) FROM tasks WHERE status = ?");
    }
    r
}

/// `rel` under `base` as a path join gives it: `rel` alone under an empty
/// base, else with one separator between them.
pub open spec fn path_under(base: Seq<char>, rel: Seq<char>) -> Seq<char> {
    if base.len() == 0 {
        rel
    } else if base.last() == '/' {
        base + rel
    } else {
        base + "/"@ + rel
    }
}

pub fn join_path(base: &str, rel: &str) -> (r: String)
    ensures
        r@ == path_under(base@, rel@),
{
    let n = base.unicode_len();
    if n == 0 {
        owned(rel)
    } else if base.get_char(n - 1) == '/' {
        join2(base, rel)
    } else {
        join2(base, "/").concat(rel)
    }
}

/// The user's home directory as `dirs::home_dir` finds it, as text. It depends
/// on the environment, so nothing is stated of it.
#[verifier::external_body]
fn home_dir_text() -> (r: Option<String>) {
    dirs::home_dir().map(|p| p.to_string_lossy().into_owned())
}

/// A file below the agent's home directory `.agent` in the user's home (or
/// relative to the working directory when no home is known).
pub fn agent_home_file(rel: &str) -> (r: String)
    ensures
        exists|home: Seq<char>| r@ == path_under(home, path_under(".agent"@, rel@)),
{
    let home = match home_dir_text() {
        Some(h) => h,
        None => String::new(),
    };
    let under = join_path(".agent", rel);
    proof {
        reveal_strlit(".agent");
    }
    join_path(home.as_str(), under.as_str())
}

/// Where the legacy cron jobs file lives: `.agent/cron/jobs.json` under the home.
pub fn legacy_jobs_file_path() -> (r: String)
    ensures
        exists|home: Seq<char>| r@ == path_under(home, ".agent/cron/jobs.json"@),
{
    let r = agent_home_file("cron/jobs.json");
    proof {
        reveal_strlit("cron/jobs.json");
        reveal_strlit(".agent");
        reveal_strlit(".agent/cron/jobs.json");
        reveal_strlit("/");
        assert(".agent"@.last() == 't');
        assert(path_under(".agent"@, "cron/jobs.json"@) =~= ".agent/cron/jobs.json"@);
    }
    r
}

/// The automation database: `.agent/automation.db` under the home.
pub fn automation_db_path() -> (r: String)
    ensures
        exists|home: Seq<char>| r@ == path_under(home, path_under(".agent"@, "automation.db"@)),
{
    agent_home_file("automation.db")
}

/// The session database: `.agent/sessions.db` under the home.
pub fn default_session_db_path() -> (r: String)
    ensures
        exists|home: Seq<char>| r@ == path_under(home, path_under(".agent"@, "sessions.db"@)),
{
    agent_home_file("sessions.db")
}

/// The log file: `.agent/logs/agent.log` under the home.
pub fn default_log_path() -> (r: String)
    ensures
        exists|home: Seq<char>| r@ == path_under(home, path_under(".agent"@, "logs/agent.log"@)),
{
    agent_home_file("logs/agent.log")
}

/// The skills found on disk: none are looked up, so the list is empty.
pub fn list_skills() -> (r: Vec<(String, String)>)
    ensures
        r@.len() == 0,
{
    Vec::new()
}

/// The `cron` subcommands.
#[derive(Debug, Clone, PartialEq, Eq)]
pub enum CronCommand {
    List,
    Delete { id: String },
    Pause { id: String },
    Resume { id: String },
}

/// The `sessions` subcommands.
#[derive(Debug, Clone, PartialEq, Eq)]
pub enum SessionsCommand {
    List,
}

/// The `skills` subcommands.
#[derive(Debug, Clone, PartialEq, Eq)]
pub enum SkillsCommand {
    List,
    View { name: String },
}

/// The agent's home: the configured one, else `.agent` under the user's home.
pub fn agent_home(paths: &PathConfig) -> (r: String)
    ensures
        match paths.home {
            Some(h) => r@ == h@,
            None => exists|home: Seq<char>| r@ == path_under(home, ".agent"@),
        },
{
    match &paths.home {
        Some(h) => h.clone(),
        None => {
            let home = match home_dir_text() {
                Some(h) => h,
                None => String::new(),
            };
            join_path(home.as_str(), ".agent")
        },
    }
}

/// The words of a command line joined by single spaces.
pub open spec fn joined_words(words: Seq<String>) -> Seq<char>
    decreases words.len(),
{
    if words.len() == 0 {
        Seq::<char>::empty()
    } else if words.len() == 1 {
        words[0]@
    } else {
        joined_words(words.drop_last()) + " "@ + words.last()@
    }
}

pub fn join_words(words: &Vec<String>) -> (r: String)
    ensures
        r@ == joined_words(words@),
{
    let mut out = String::new();
    let mut i: usize = 0;
    while i < words.len()
        invariant
            i <= words@.len(),
            out@ == joined_words(words@.subrange(0, i as int)),
        decreases words.len() - i,
    {
        let ghost next = words@.subrange(0, i as int + 1);
        assert(next.drop_last() =~= words@.subrange(0, i as int));
        if i == 0 {
            out = words[i].clone();
        } else {
            out = out.concat(" ").concat(words[i].as_str());
        }
        i = i + 1;
    }
    assert(words@.subrange(0, i as int) =~= words@);
    out
}

/// The session a one-shot run uses: the one asked for, else `adhoc-session`.
pub fn run_session_id(requested: Option<String>) -> (r: String)
    ensures
        r@ == match requested { Some(s) => s@, None => "adhoc-session"@ },
{
    match requested {
        Some(s) => s,
        None => owned("adhoc-session"),
    }
}

/// The connection settings of the model client: the configured base URL or
/// the OpenAI one; the configured key, else the one in the environment, else a
/// placeholder; the model asked for on the command line, else the configured one.
pub fn llm_connection(
    base_url: Option<String>,
    api_key: Option<String>,
    env_api_key: Option<String>,
    configured_model: String,
    override_model: Option<String>,
) -> (r: (String, String, String))
    ensures
        r.0@ == match base_url { Some(b) => b@, None => "https://api.openai.com/v1"@ },
        r.1@ == match api_key {
            Some(k) => k@,
            None => match env_api_key { Some(k) => k@, None => "no-key-provided"@ },
        },
        r.2@ == match override_model { Some(m) => m@, None => configured_model@ },
{
    let url = match base_url {
        Some(b) => b,
        None => owned("https://api.openai.com/v1"),
    };
    let key = match api_key {
        Some(k) => k,
        None => match env_api_key {
            Some(k) => k,
            None => owned("no-key-provided"),
        },
    };
    let model = match override_model {
        Some(m) => m,
        None => configured_model,
    };
    (url, key, model)
}

/// What a line typed at the chat prompt asks for.
pub enum ChatLine {
    /// Leave the chat.
    Quit,
    /// Send this message.
    Send(String),
}

/// A chat line, trimmed, leaves the chat when it is empty or reads `exit` in
/// any case of ASCII letters; otherwise it is sent as it stands, trimmed.
pub fn read_chat_line(line: &str) -> (r: ChatLine)
    ensures
        r is Quit <==> (trim(line@).len() == 0 || ascii_lower_seq(trim(line@)) == "exit"@),
        r matches ChatLine::Send(t) ==> t@ == trim(line@),
{
    let t = trim_str(line);
    if t.unicode_len() == 0 {
        return ChatLine::Quit;
    }
    let lowered = to_ascii_lowercase(t);
    if str_eq(lowered.as_str(), "exit") {
        return ChatLine::Quit;
    }
    ChatLine::Send(owned(t))
}

/// What the chat does after a run: whether it goes on, whether the run's
/// events are stored, and the assistant message that joins the history.
pub struct ChatTurn {
    pub keep_going: bool,
    pub store_events: bool,
    pub reply: Option<ChatMessage>,
}

/// After a run: a final answer is kept as the assistant's reply and the chat
/// goes on; a spent budget ends the chat; both store the run's events. A
/// cancelled or failed run stores nothing and the chat goes on.
pub fn chat_turn(outcome: &Result<AgentOutput, AgentError>) -> (r: ChatTurn)
    ensures
        match outcome {
            Ok(AgentOutput::Final(text)) => {
                &&& r.keep_going
                &&& r.store_events
                &&& r.reply matches Some(m) && is_plain_message(m@, MessageRole::Assistant, text@)
            },
            Ok(AgentOutput::BudgetExhausted(_)) => !r.keep_going && r.store_events && r.reply is None,
            _ => r.keep_going && !r.store_events && r.reply is None,
        },
{
    match outcome {
        Ok(AgentOutput::Final(text)) => ChatTurn {
            keep_going: true,
            store_events: true,
            reply: Some(plain_message(MessageRole::Assistant, text.as_str())),
        },
        Ok(AgentOutput::BudgetExhausted(_)) => ChatTurn { keep_going: false, store_events: true, reply: None },
        _ => ChatTurn { keep_going: true, store_events: false, reply: None },
    }
}

} // verus!
