//! The decisions of one agent run, step by step: the driver calls the model
//! and the tools and hands each answer to these functions, which say what is
//! sent next, which event is reported and when the run ends.
use vstd::prelude::*;
use crate::agent::{AgentEvent, AgentInput, AgentOutput, build_api_messages};
use crate::budget::IterationBudget;
use crate::json::{json_value_error, json_value_of, read_json_value};
use crate::llm::{
    ChatMessage, ChatMessageView, ChatResponse, LlmToolCall, MessageRole, is_plain_message,
    messages_view, plain_message,
};
use crate::text::{join2, owned};
use crate::tools::{ToolResult, tool_message_text, tool_result_message_content};

verus! {

/// The note a budget with a grace call adds before the run ends.
pub open spec fn grace_note() -> Seq<char> {
    "Budget exhausted. Please summarize what you've accomplished so far."@
}

/// The reason a run gives when its budget is spent.
pub open spec fn budget_reason() -> Seq<char> {
    "Iteration budget exhausted"@
}

/// The text an event reports for tool arguments that are not JSON.
pub open spec fn invalid_arguments_text(error: Seq<char>) -> Seq<char> {
    "Invalid tool arguments: "@ + error
}

/// A tool message answering call `call_id` with `text`.
pub open spec fn is_tool_message(m: ChatMessageView, call_id: Seq<char>, text: Seq<char>) -> bool {
    &&& m.role == MessageRole::Tool
    &&& m.content matches Some(c) && c@ == text
    &&& m.tool_calls is None
    &&& m.tool_call_id matches Some(i) && i@ == call_id
}

/// The run starts: the user's message joins the history, and the messages for
/// the model are the system prompt followed by that history.
pub fn begin_run(input: &mut AgentInput) -> (r: (Vec<ChatMessage>, AgentEvent))
    ensures
        final(input).user_message == old(input).user_message,
        final(input).session_id == old(input).session_id,
        final(input).system_prompt == old(input).system_prompt,
        final(input).workspace_dir == old(input).workspace_dir,
        final(input).history@.len() == old(input).history@.len() + 1,
        final(input).history@.drop_last() == old(input).history@,
        is_plain_message(final(input).history@.last()@, MessageRole::User, old(input).user_message@),
        r.0@.len() == final(input).history@.len() + 1,
        is_plain_message(r.0@[0]@, MessageRole::System, old(input).system_prompt@),
        messages_view(r.0@).drop_first() == messages_view(final(input).history@),
        r.1 matches AgentEvent::UserMessage { content } && content@ == old(input).user_message@,
{
    let message = plain_message(MessageRole::User, input.user_message.as_str());
    input.history.push(message);
    let event = AgentEvent::UserMessage { content: input.user_message.clone() };
    let messages = build_api_messages(input.system_prompt.as_str(), input.history.as_slice());
    (messages, event)
}

/// Before each model call: a spent budget ends the run, with the grace note
/// added to the messages when the budget grants one.
pub fn check_budget(budget: &IterationBudget, messages: &mut Vec<ChatMessage>) -> (r: Option<(AgentEvent, AgentOutput)>)
    ensures
        r is Some <==> budget.is_exhausted(),
        r is None ==> final(messages)@ == old(messages)@,
        r is Some && !budget.grace() ==> final(messages)@ == old(messages)@,
        r is Some && budget.grace() ==> {
            &&& final(messages)@.len() == old(messages)@.len() + 1
            &&& final(messages)@.drop_last() == old(messages)@
            &&& is_plain_message(final(messages)@.last()@, MessageRole::System, grace_note())
        },
        r matches Some((event, output)) ==> {
            &&& event matches AgentEvent::BudgetExhausted { reason } && reason@ == budget_reason()
            &&& output matches AgentOutput::BudgetExhausted(reason) && reason@ == budget_reason()
        },
{
    if !budget.exhausted() {
        return None;
    }
    if budget.has_grace_call() {
        let note = plain_message(
            MessageRole::System,
            "Budget exhausted. Please summarize what you've accomplished so far.",
        );
        messages.push(note);
        proof {
            reveal_strlit("Budget exhausted. Please summarize what you've accomplished so far.");
        }
    }
    let reason = "Iteration budget exhausted";
    proof {
        reveal_strlit("Iteration budget exhausted");
    }
    Some((AgentEvent::BudgetExhausted { reason: owned(reason) }, AgentOutput::BudgetExhausted(owned(reason))))
}

/// What a model answer leads to.
pub enum ResponseStep {
    /// Run these tool calls, in order, then ask the model again.
    RunTools(Vec<LlmToolCall>),
    /// The run ends with this event and output.
    Finish(AgentEvent, AgentOutput),
}

/// The answer asks for tools when it carries a non-empty list of tool calls.
pub open spec fn asks_for_tools(response: ChatResponse) -> bool {
    response.message.tool_calls matches Some(calls) && calls@.len() > 0
}

/// The final text of an answer without tool calls: its content, or nothing.
pub open spec fn final_text(response: ChatResponse) -> Seq<char> {
    match response.message.content {
        Some(c) => c@,
        None => Seq::<char>::empty(),
    }
}

/// A model answer either asks for tools or ends the run with its text.
pub fn response_step(response: ChatResponse) -> (r: ResponseStep)
    ensures
        r is RunTools <==> asks_for_tools(response),
        r matches ResponseStep::RunTools(calls) ==> response.message.tool_calls == Some(calls),
        r matches ResponseStep::Finish(event, output) ==> {
            &&& event matches AgentEvent::Final { content } && content@ == final_text(response)
            &&& output matches AgentOutput::Final(text) && text@ == final_text(response)
        },
{
    let ChatResponse { message, usage: _, finish_reason: _ } = response;
    let ChatMessage { role: _, content, tool_calls, tool_call_id: _ } = message;
    match tool_calls {
        Some(calls) => {
            if calls.len() > 0 {
                return ResponseStep::RunTools(calls);
            }
        },
        None => {},
    }
    let text = match content {
        Some(c) => c,
        None => String::new(),
    };
    let reported = text.clone();
    ResponseStep::Finish(AgentEvent::Final { content: reported }, AgentOutput::Final(text))
}

/// The event that announces a tool call.
pub fn tool_call_event(call: &LlmToolCall) -> (r: AgentEvent)
    ensures
        r matches AgentEvent::ToolCall { id, name } && id@ == call.id@ && name@ == call.function.name@,
{
    AgentEvent::ToolCall { id: call.id.clone(), name: call.function.name.clone() }
}

/// A tool ran: its result goes to the model as a tool message answering the
/// call, and is reported as it came back.
pub fn record_tool_result(messages: &mut Vec<ChatMessage>, call: &LlmToolCall, result: &ToolResult) -> (r: AgentEvent)
    ensures
        final(messages)@.len() == old(messages)@.len() + 1,
        final(messages)@.drop_last() == old(messages)@,
        is_tool_message(final(messages)@.last()@, call.id@, tool_message_text(*result)),
        r matches AgentEvent::ToolResult { id, ok, content, error } && {
            &&& id@ == call.id@
            &&& ok == result.ok
            &&& content@ == result.content@
            &&& error == result.error
        },
{
    let text = tool_result_message_content(result);
    messages.push(ChatMessage {
        role: MessageRole::Tool,
        content: Some(text),
        tool_calls: None,
        tool_call_id: Some(call.id.clone()),
    });
    AgentEvent::ToolResult {
        id: call.id.clone(),
        ok: result.ok,
        content: result.content.clone(),
        error: match &result.error {
            Some(e) => Some(e.clone()),
            None => None,
        },
    }
}

/// A tool call whose arguments are not JSON does not run: the model gets an
/// empty tool message for it, and the event reports why.
pub fn reject_tool_arguments(messages: &mut Vec<ChatMessage>, call: &LlmToolCall, error: &str) -> (r: AgentEvent)
    ensures
        final(messages)@.len() == old(messages)@.len() + 1,
        final(messages)@.drop_last() == old(messages)@,
        is_tool_message(final(messages)@.last()@, call.id@, Seq::<char>::empty()),
        r matches AgentEvent::ToolResult { id, ok, content, error: reported } && {
            &&& id@ == call.id@
            &&& !ok
            &&& content@.len() == 0
            &&& reported matches Some(e) && e@ == invalid_arguments_text(error@)
        },
{
    messages.push(ChatMessage {
        role: MessageRole::Tool,
        content: Some(String::new()),
        tool_calls: None,
        tool_call_id: Some(call.id.clone()),
    });
    AgentEvent::ToolResult {
        id: call.id.clone(),
        ok: false,
        content: String::new(),
        error: Some(join2("Invalid tool arguments: ", error)),
    }
}

/// What a tool call's arguments lead to.
pub enum ArgumentsStep {
    /// Run the tool with these arguments.
    Run(serde_json::Value),
    /// The call was answered without running; report this event.
    Rejected(AgentEvent),
}

/// Reads a tool call's arguments: JSON arguments let the tool run; any other
/// text is answered as `reject_tool_arguments` says.
pub fn read_tool_arguments(messages: &mut Vec<ChatMessage>, call: &LlmToolCall) -> (r: ArgumentsStep)
    ensures
        r is Run <==> json_value_error(call.function.arguments@) is None,
        r is Run ==> final(messages)@ == old(messages)@,
        r matches ArgumentsStep::Run(v) ==> json_value_of(call.function.arguments@) == Ok::<
            serde_json::Value,
            Seq<char>,
        >(v),
        r matches ArgumentsStep::Rejected(event) ==> {
            &&& json_value_error(call.function.arguments@) matches Some(e)
            &&& final(messages)@.len() == old(messages)@.len() + 1
            &&& final(messages)@.drop_last() == old(messages)@
            &&& is_tool_message(final(messages)@.last()@, call.id@, Seq::<char>::empty())
            &&& event matches AgentEvent::ToolResult { id, ok, content, error: reported } && {
                &&& id@ == call.id@
                &&& !ok
                &&& content@.len() == 0
                &&& reported matches Some(x) && x@ == invalid_arguments_text(e)
            }
        },
{
    match read_json_value(call.function.arguments.as_str()) {
        Ok(value) => ArgumentsStep::Run(value),
        Err(error) => ArgumentsStep::Rejected(reject_tool_arguments(messages, call, error.as_str())),
    }
}

/// Where a run stands between two steps.
pub enum LoopPhase {
    /// The budget is checked and the model asked next.
    AskModel,
    /// The model has been asked; its answer comes next.
    AwaitModel,
    /// Tool `calls[next]` is running; the calls after it follow.
    AwaitTool { calls: Vec<LlmToolCall>, next: usize },
    /// The run is over.
    Done,
}

/// A run between steps: the messages for the model and where it stands.
pub struct LoopState {
    pub messages: Vec<ChatMessage>,
    pub phase: LoopPhase,
}

/// What the driver hands to the next step.
pub enum LoopEvent {
    /// Go on from where the run stands (at the start, and before a model call).
    Continue,
    /// The model answered.
    ModelAnswered(ChatResponse),
    /// The running tool returned.
    ToolFinished(ToolResult),
}

/// What the driver does next; each action first reports its events in order.
pub enum LoopAction {
    /// Ask the model with the state's messages, then hand over its answer.
    CallModel { events: Vec<AgentEvent> },
    /// Run the tool call that the state's phase names with these arguments,
    /// then hand over its result.
    RunTool { events: Vec<AgentEvent>, arguments: serde_json::Value },
    /// The run ends with this output.
    Finish { events: Vec<AgentEvent>, output: AgentOutput },
}

/// The event is the one the phase waits for.
pub open spec fn event_fits(phase: LoopPhase, event: LoopEvent) -> bool {
    match phase {
        LoopPhase::AskModel => event is Continue,
        LoopPhase::AwaitModel => event is ModelAnswered,
        LoopPhase::AwaitTool { calls, next } => event is ToolFinished && next < calls@.len(),
        LoopPhase::Done => false,
    }
}

/// The event is a model answer that asks for tools.
pub open spec fn answer_asks_for_tools(event: LoopEvent) -> bool {
    match event {
        LoopEvent::ModelAnswered(a) => asks_for_tools(a),
        _ => false,
    }
}

/// The step finishes a round of tool calls: the model had asked for tools (or
/// a tool was running) and no further tool is left to run.
pub open spec fn ends_round(phase: LoopPhase, event: LoopEvent, action: LoopAction) -> bool {
    &&& (phase is AwaitTool || (phase is AwaitModel && answer_asks_for_tools(event)))
    &&& !(action is RunTool)
}

/// Two budgets that count and decide alike.
pub open spec fn same_budget(a: IterationBudget, b: IterationBudget) -> bool {
    &&& a.used() == b.used()
    &&& a.max() == b.max()
    &&& a.grace() == b.grace()
    &&& a.is_exhausted() == b.is_exhausted()
}

/// The messages `after` begin with `before`.
pub open spec fn extends(before: Seq<ChatMessage>, after: Seq<ChatMessage>) -> bool {
    before.len() <= after.len() && after.subrange(0, before.len() as int) == before
}

proof fn lemma_extends_itself(m: Seq<ChatMessage>)
    ensures
        extends(m, m),
{
    assert(m.subrange(0, m.len() as int) =~= m);
}

/// The run starts: the messages for the model and the event to report, and
/// the budget is checked next.
pub fn start_run(input: &mut AgentInput) -> (r: (LoopState, AgentEvent))
    ensures
        r.0.phase is AskModel,
        r.1 matches AgentEvent::UserMessage { content } && content@ == old(input).user_message@,
        r.0.messages@.len() == final(input).history@.len() + 1,
        is_plain_message(r.0.messages@[0]@, MessageRole::System, old(input).system_prompt@),
        messages_view(r.0.messages@).drop_first() == messages_view(final(input).history@),
{
    let (messages, event) = begin_run(input);
    (LoopState { messages, phase: LoopPhase::AskModel }, event)
}

/// Before a model call: a spent budget ends the run (with the grace note where
/// the budget grants one), else the model is asked.
fn ask_model(messages: Vec<ChatMessage>, budget: &IterationBudget, events: Vec<AgentEvent>) -> (r: (LoopState, LoopAction))
    ensures
        extends(messages@, r.0.messages@),
        r.1 is CallModel <==> !budget.is_exhausted(),
        r.1 matches LoopAction::CallModel { events: e } ==> e@ == events@ && r.0.phase is AwaitModel,
        r.1 is RunTool ==> false,
        r.1 matches LoopAction::Finish { events: e, output } ==> {
            &&& r.0.phase is Done
            &&& e@.len() == events@.len() + 1
            &&& e@.drop_last() == events@
            &&& e@.last() matches AgentEvent::BudgetExhausted { reason } && reason@ == budget_reason()
            &&& output matches AgentOutput::BudgetExhausted(reason) && reason@ == budget_reason()
        },
{
    let mut messages = messages;
    let mut events = events;
    let ghost before = messages@;
    match check_budget(budget, &mut messages) {
        Some((event, output)) => {
            assert(messages@.subrange(0, before.len() as int) =~= before) by {
                if messages@.len() > before.len() {
                    assert(messages@.drop_last() == before);
                    assert(messages@.subrange(0, before.len() as int) =~= messages@.drop_last());
                }
            };
            events.push(event);
            (LoopState { messages, phase: LoopPhase::Done }, LoopAction::Finish { events, output })
        },
        None => {
            assert(messages@.subrange(0, before.len() as int) =~= before);
            (LoopState { messages, phase: LoopPhase::AwaitModel }, LoopAction::CallModel { events })
        },
    }
}

/// Goes through `calls` from `start`: each call is reported; a call with
/// arguments that are not JSON is answered without running; the first with
/// JSON arguments is run. With none left, the round ends: the budget counts
/// one iteration and the model is asked again, where the budget allows.
#[verifier::loop_isolation(false)]
fn run_calls(
    sent: Vec<ChatMessage>,
    budget: &mut IterationBudget,
    calls: Vec<LlmToolCall>,
    start: usize,
    events: Vec<AgentEvent>,
) -> (r: (LoopState, LoopAction))
    requires
        start <= calls@.len(),
        old(budget).used() < u32::MAX,
    ensures
        extends(sent@, r.0.messages@),
        old(budget).flag_matches_count() ==> final(budget).flag_matches_count(),
        final(budget).max() == old(budget).max(),
        final(budget).grace() == old(budget).grace(),
        old(budget).is_exhausted() ==> final(budget).is_exhausted(),
        r.1 matches LoopAction::RunTool { events: e, arguments } ==> {
            &&& same_budget(*final(budget), *old(budget))
            &&& r.0.phase matches LoopPhase::AwaitTool { calls: c, next } && {
                &&& c@ == calls@
                &&& start <= next < c@.len()
                &&& json_value_of(c@[next as int].function.arguments@) == Ok::<serde_json::Value, Seq<char>>(arguments)
                &&& e@.last() matches AgentEvent::ToolCall { id, name } && id@ == c@[next as int].id@
                    && name@ == c@[next as int].function.name@
            }
        },
        !(r.1 is RunTool) ==> {
            &&& final(budget).used() == old(budget).used() + 1
            &&& (r.1 is CallModel <==> !final(budget).is_exhausted())
            &&& forall|k: int| start <= k < calls@.len() ==> json_value_of(#[trigger] calls@[k].function.arguments@) is Err
        },
        r.1 matches LoopAction::CallModel { events: _ } ==> r.0.phase is AwaitModel,
        r.1 matches LoopAction::Finish { events: e, output } ==> {
            &&& r.0.phase is Done
            &&& e@.last() matches AgentEvent::BudgetExhausted { reason } && reason@ == budget_reason()
            &&& output matches AgentOutput::BudgetExhausted(reason) && reason@ == budget_reason()
        },
{
    let mut messages = sent;
    let mut events = events;
    let ghost first = messages@;
    proof {
        lemma_extends_itself(first);
    }
    let mut i: usize = start;
    while i < calls.len()
        invariant
            start <= i <= calls@.len(),
            *budget == *old(budget),
            old(budget).used() < u32::MAX,
            first == messages@.subrange(0, first.len() as int),
            first.len() <= messages@.len(),
            extends(first, messages@),
            forall|k: int| start <= k < i ==> json_value_of(#[trigger] calls@[k].function.arguments@) is Err,
        decreases calls@.len() - i,
    {
        events.push(tool_call_event(&calls[i]));
        let ghost mid = messages@;
        match read_tool_arguments(&mut messages, &calls[i]) {
            ArgumentsStep::Rejected(event) => {
                assert(messages@.subrange(0, first.len() as int) =~= first) by {
                    assert(messages@.drop_last() == mid);
                    assert(mid.subrange(0, first.len() as int) == first);
                    assert(messages@.subrange(0, first.len() as int) =~= mid.subrange(0, first.len() as int));
                };
                events.push(event);
            },
            ArgumentsStep::Run(arguments) => {
                return (
                    LoopState { messages, phase: LoopPhase::AwaitTool { calls, next: i } },
                    LoopAction::RunTool { events, arguments },
                );
            },
        }
        i += 1;
    }
    budget.increment();
    let r = ask_model(messages, budget, events);
    assert(r.0.messages@.subrange(0, first.len() as int) =~= first) by {
        assert(r.0.messages@.subrange(0, first.len() as int) =~= r.0.messages@.subrange(0, messages@.len() as int).subrange(0, first.len() as int));
    };
    r
}

/// One step of a run: from where the run stands and what the driver hands
/// over, the next state and what the driver does next. The budget counts one
/// iteration for each finished round of tool calls and nothing else, and once
/// it is spent the run ends before the model is asked again.
pub fn loop_step(state: LoopState, budget: &mut IterationBudget, event: LoopEvent) -> (r: (LoopState, LoopAction))
    requires
        event_fits(state.phase, event),
        old(budget).used() < u32::MAX,
    ensures
        extends(state.messages@, r.0.messages@),
        old(budget).flag_matches_count() ==> final(budget).flag_matches_count(),
        final(budget).max() == old(budget).max(),
        final(budget).grace() == old(budget).grace(),
        old(budget).is_exhausted() ==> final(budget).is_exhausted(),
        final(budget).used() == old(budget).used() + if ends_round(state.phase, event, r.1) {
            1int
        } else {
            0int
        },
        r.1 is CallModel ==> !final(budget).is_exhausted() && r.0.phase is AwaitModel,
        (state.phase is AskModel || ends_round(state.phase, event, r.1)) ==> (r.1 is CallModel
            <==> !final(budget).is_exhausted()),
        r.1 matches LoopAction::Finish { events: e, output } ==> {
            &&& r.0.phase is Done
            &&& (output is BudgetExhausted <==> (state.phase is AskModel || ends_round(state.phase, event, r.1)))
            &&& output is BudgetExhausted ==> {
                &&& e@.last() matches AgentEvent::BudgetExhausted { reason } && reason@ == budget_reason()
                &&& output matches AgentOutput::BudgetExhausted(reason) && reason@ == budget_reason()
            }
        },
        match event {
            LoopEvent::ModelAnswered(a) => (state.phase is AwaitModel && !asks_for_tools(a)) ==> (
            r.1 matches LoopAction::Finish { events: e, output } && {
                &&& final(budget).used() == old(budget).used()
                &&& e@.len() == 1
                &&& e@[0] matches AgentEvent::Final { content } && content@ == final_text(a)
                &&& output matches AgentOutput::Final(text) && text@ == final_text(a)
            }),
            _ => true,
        },
        r.1 matches LoopAction::RunTool { events: _, arguments } ==> r.0.phase matches LoopPhase::AwaitTool { calls, next } && {
            &&& next < calls@.len()
            &&& json_value_of(calls@[next as int].function.arguments@) == Ok::<serde_json::Value, Seq<char>>(arguments)
        },
{
    let LoopState { messages, phase } = state;
    proof {
        lemma_extends_itself(messages@);
    }
    match phase {
        LoopPhase::AskModel => ask_model(messages, budget, Vec::new()),
        LoopPhase::AwaitModel => {
            let answer = match event {
                LoopEvent::ModelAnswered(a) => a,
                _ => {
                    proof {
                        assert(false);
                    }
                    return (LoopState { messages, phase: LoopPhase::Done }, LoopAction::CallModel { events: Vec::new() });
                },
            };
            match response_step(answer) {
                ResponseStep::RunTools(calls) => run_calls(messages, budget, calls, 0, Vec::new()),
                ResponseStep::Finish(event, output) => {
                    let mut events: Vec<AgentEvent> = Vec::new();
                    events.push(event);
                    (LoopState { messages, phase: LoopPhase::Done }, LoopAction::Finish { events, output })
                },
            }
        },
        LoopPhase::AwaitTool { calls, next } => {
            let result = match event {
                LoopEvent::ToolFinished(t) => t,
                _ => {
                    proof {
                        assert(false);
                    }
                    return (LoopState { messages, phase: LoopPhase::Done }, LoopAction::CallModel { events: Vec::new() });
                },
            };
            let mut messages = messages;
            let ghost first = messages@;
            assert(next < calls.len());
            let after = next + 1;
            let event = record_tool_result(&mut messages, &calls[next], &result);
            let mut events: Vec<AgentEvent> = Vec::new();
            events.push(event);
            let r = run_calls(messages, budget, calls, after, events);
            assert(r.0.messages@.subrange(0, first.len() as int) =~= first) by {
                assert(messages@.drop_last() == first);
                assert(r.0.messages@.subrange(0, first.len() as int) =~= r.0.messages@.subrange(0, messages@.len() as int).subrange(0, first.len() as int));
            };
            r
        },
        LoopPhase::Done => {
            proof {
                assert(false);
            }
            (LoopState { messages, phase: LoopPhase::Done }, LoopAction::CallModel { events: Vec::new() })
        },
    }
}

} // verus!
