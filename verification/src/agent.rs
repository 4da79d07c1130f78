//! The agent loop: it sends a conversation to a provider, runs the tool that
//! the provider asks for, sends the tool's answer back, and goes on until the
//! provider answers in text. Every request with its response is recorded in
//! order; the loop is cut off after a set number of tool calls.
use crate::gemini::llm::Gemini;
use crate::json::Json;
use crate::json::JsonView;
use crate::llm::{
    LLMError, LLMErrorView, LLMResult, LLMResultView, ToolCallResult, ToolCallResultView, LLM,
};
use crate::messages::{
    clone_messages, plain_message, tool_message, Message, MessageType, MessageView, Messages,
    MessagesView,
};
use crate::openai::ToolView;
use crate::stream::item_view;
use crate::tools::{advertised_tools, lemma_tool_place, tool_name, tool_place, FunTool, ToolSet};
use vstd::prelude::*;

verus! {

/// One exchange with the provider.
#[derive(Debug, PartialEq)]
pub struct Conversation {
    pub request: Messages,
    pub response: LLMResult,
}

pub struct ConversationView {
    pub request: MessagesView,
    pub response: LLMResultView,
}

impl DeepView for Conversation {
    type V = ConversationView;

    open spec fn deep_view(&self) -> ConversationView {
        ConversationView {
            request: self.request.deep_view(),
            response: self.response.deep_view(),
        }
    }
}

/// The record of a run of the loop.
pub type Conversations = Vec<Conversation>;

/// What an agent does next.
#[derive(Debug, Clone, PartialEq)]
pub enum AgentAction {
    /// It runs the tool that the provider asked for.
    ToolCall,
    /// It hands out the provider's answer.
    Response(String),
    /// It asks the provider.
    Request(String),
}

impl AgentAction {
    /// What follows the provider's turn `result`: the answer goes out, or
    /// the tool is run.
    pub fn after(result: &LLMResult) -> (action: AgentAction)
        ensures
            match result.deep_view() {
                LLMResultView::Generate(answer) => action matches AgentAction::Response(text)
                    && text@ == answer.generation,
                LLMResultView::ToolCall(_) => action == AgentAction::ToolCall,
            },
    {
        match result {
            LLMResult::Generate(answer) => AgentAction::Response(answer.generation().to_owned()),
            LLMResult::ToolCall(_) => AgentAction::ToolCall,
        }
    }
}

/// Why the loop gave up.
#[derive(Debug, Clone, Copy, PartialEq, Eq)]
pub enum AbortReason {
    /// The provider asked for a tool that is not registered.
    ToolNotFound,
    /// The tool reported a failure.
    ToolFailed,
    /// The provider asked for one tool call more than the limit allows.
    ToolCallLimit,
}

/// Where the loop stands.
#[derive(Debug, Clone, Copy, PartialEq, Eq)]
pub enum AgentState {
    AwaitingFirstResponse,
    ResolvingToolCall,
    Done,
    Aborted(AbortReason),
}

/// What a run of the loop leaves.
#[derive(Debug, PartialEq)]
pub struct AgentResponse {
    /// The provider's text answer; empty where the loop gave up.
    pub final_answer: String,
    /// Every request with its response, in order.
    pub intermediate_steps: Vec<Conversation>,
    /// `Done`, or `Aborted` with the reason.
    pub state: AgentState,
}

/// The request that an agent starts with: the system prompt, if it has one,
/// before the messages, and its tools.
pub open spec fn first_request(
    system_prompt: Option<Seq<char>>,
    tools: Seq<ToolView>,
    history: Seq<MessageView>,
) -> MessagesView {
    MessagesView {
        messages: match system_prompt {
            Some(prompt) => seq![plain_message(MessageType::SystemMessage, prompt)] + history,
            None => history,
        },
        tools,
    }
}

/// The request that follows a tool call: the request before it, the
/// assistant's announcement of the call, and the tool's answer under the
/// identifier of the call.
pub open spec fn next_request(request: MessagesView, call: ToolCallResultView, output: Seq<char>) -> MessagesView {
    MessagesView {
        messages: request.messages.push(call.ai_message).push(tool_message(output, call.id)),
        ..request
    }
}

/// Whether `next` is a request that follows `request` after the tool call
/// `call`: it is the one that the call and what the tool answered lead to.
pub open spec fn answers_call(request: MessagesView, call: ToolCallResultView, next: MessagesView) -> bool {
    &&& next.messages.len() == request.messages.len() + 2
    &&& next.messages.last().content is Some
    &&& next == next_request(request, call, next.messages.last().content->0)
}

/// The request that a tool's answer leads to follows the request before it.
pub proof fn lemma_next_request_answers(request: MessagesView, call: ToolCallResultView, output: Seq<char>)
    ensures
        answers_call(request, call, next_request(request, call, output)),
{
    let next = next_request(request, call, output);
    assert(next.messages.last() == tool_message(output, call.id));
}

/// Whether `steps` is a record that begins with the request `first`: every
/// response but the last is a call of a registered tool, and the request
/// that follows it is the one that the call and the answer of the tool lead
/// to.
pub open spec fn is_record<F: FunTool>(tools: Seq<F>, first: MessagesView, steps: Seq<ConversationView>) -> bool {
    &&& steps.len() >= 1
    &&& steps[0].request == first
    &&& forall|i: int|
        0 <= i < steps.len() - 1 ==> {
            &&& (#[trigger] steps[i]).response is ToolCall
            &&& tool_place(tools, steps[i].response->ToolCall_0.name) is Some
            &&& answers_call(steps[i].request, steps[i].response->ToolCall_0, steps[i + 1].request)
        }
}

/// Whether a run that has the record `steps` ends in `state` with the answer
/// `final_answer`: a text answer ends the run and is the final answer; a call
/// of a tool that is not registered, a tool's failure and a call beyond the
/// limit end it without one.
pub open spec fn ends_with<F: FunTool>(
    tools: Seq<F>,
    max_tool_calls: usize,
    steps: Seq<ConversationView>,
    state: AgentState,
    final_answer: Seq<char>,
) -> bool {
    match steps.last().response {
        LLMResultView::Generate(answer) => state == AgentState::Done && final_answer
            == answer.generation,
        LLMResultView::ToolCall(call) => {
            &&& final_answer == Seq::<char>::empty()
            &&& state is Aborted
            &&& (state == AgentState::Aborted(AbortReason::ToolNotFound)) == (tool_place(
                tools,
                call.name,
            ) is None)
            &&& state == AgentState::Aborted(AbortReason::ToolCallLimit) ==> steps.len() - 1
                == max_tool_calls
        },
    }
}

/// Whether a run that has the record `steps` ends in some state other than
/// the cut-off at the limit of tool calls.
pub open spec fn settles<F: FunTool>(
    tools: Seq<F>,
    max_tool_calls: usize,
    steps: Seq<ConversationView>,
) -> bool {
    exists|state: AgentState, answer: Seq<char>|
        {
            &&& #[trigger] ends_with(tools, max_tool_calls, steps, state, answer)
            &&& state != AgentState::Aborted(AbortReason::ToolCallLimit)
        }
}

/// Whether the provider `llm` may hand back `outcome` when it is asked with
/// the request `request`: some call of `invoke` with such a request allows
/// such an outcome.
pub open spec fn answers<T: LLM>(
    llm: T,
    request: MessagesView,
    outcome: Result<LLMResultView, LLMErrorView>,
) -> bool {
    exists|asked: Messages, turn: Result<LLMResult, LLMError>|
        {
            &&& asked.deep_view() == request
            &&& item_view(turn) == outcome
            &&& #[trigger] call_ensures(T::invoke, (&llm, &asked), turn)
        }
}

/// What a call of the provider hands back is an answer of the provider.
pub proof fn lemma_answers<T: LLM>(llm: T, asked: Messages, turn: Result<LLMResult, LLMError>)
    requires
        call_ensures(T::invoke, (&llm, &asked), turn),
    ensures
        answers(llm, asked.deep_view(), item_view(turn)),
{
}

/// Whether the tool `tool` may hand back `output` when it is run on the
/// arguments `input`.
pub open spec fn tool_returns<F: FunTool>(
    tool: F,
    input: JsonView,
    output: Result<Seq<char>, Seq<char>>,
) -> bool {
    exists|given: Json, handed: Result<String, String>|
        {
            &&& given.deep_view() == input
            &&& output_view(handed) == output
            &&& #[trigger] call_ensures(F::call, (&tool, given), handed)
        }
}

/// What a run of a tool hands back is an output of the tool.
pub proof fn lemma_tool_returns<F: FunTool>(tool: F, given: Json, handed: Result<String, String>)
    requires
        call_ensures(F::call, (&tool, given), handed),
    ensures
        tool_returns(tool, given.deep_view(), output_view(handed)),
{
}

/// Whether the request `next` carries, as its last message, an answer that
/// the tool of the call in `step` gave on the arguments of the call.
pub open spec fn tool_answered<F: FunTool>(tools: Seq<F>, step: ConversationView, next: MessagesView) -> bool {
    &&& step.response is ToolCall
    &&& tool_place(tools, step.response->ToolCall_0.name) is Some
    &&& next.messages.len() > 0
    &&& next.messages.last().content is Some
    &&& tool_returns(
        tools[tool_place(tools, step.response->ToolCall_0.name)->0],
        step.response->ToolCall_0.arguments,
        Ok(next.messages.last().content->0),
    )
}

/// Whether the tool of the call in `step` reported a failure on the
/// arguments of the call.
pub open spec fn tool_failed<F: FunTool>(tools: Seq<F>, step: ConversationView) -> bool {
    &&& step.response is ToolCall
    &&& tool_place(tools, step.response->ToolCall_0.name) is Some
    &&& exists|report: Seq<char>|
        #[trigger] tool_returns(
            tools[tool_place(tools, step.response->ToolCall_0.name)->0],
            step.response->ToolCall_0.arguments,
            Err(report),
        )
}

/// Whether the record `steps` holds what the provider and the tools handed
/// back: every response is an answer of the provider to its request, and
/// every request but the first carries the answer of the tool that the
/// response before it called.
pub open spec fn faithful<T: LLM, F: FunTool>(llm: T, tools: Seq<F>, steps: Seq<ConversationView>) -> bool {
    &&& forall|i: int|
        0 <= i < steps.len() ==> answers(llm, (#[trigger] steps[i]).request, Ok(steps[i].response))
    &&& forall|i: int|
        0 <= i < steps.len() - 1 ==> tool_answered(tools, #[trigger] steps[i], steps[i + 1].request)
}

/// Whether `request` is the request that the record `steps` leads to: the
/// first request where nothing is recorded yet, and else the one that
/// follows the tool call of the last response.
pub open spec fn leads_to<F: FunTool>(
    tools: Seq<F>,
    first: MessagesView,
    steps: Seq<ConversationView>,
    request: MessagesView,
) -> bool {
    if steps.len() == 0 {
        request == first
    } else {
        &&& is_record(tools, first, steps)
        &&& steps.last().response is ToolCall
        &&& tool_place(tools, steps.last().response->ToolCall_0.name) is Some
        &&& answers_call(steps.last().request, steps.last().response->ToolCall_0, request)
    }
}

/// Whether a run from the request `first` may fail with `error`: the
/// provider handed back `error` for the first request, or for a request
/// that a faithful record of tool calls leads to.
pub open spec fn provider_failed<T: LLM, F: FunTool>(
    llm: T,
    tools: Seq<F>,
    first: MessagesView,
    error: LLMErrorView,
) -> bool {
    exists|steps: Seq<ConversationView>, request: MessagesView|
        {
            &&& #[trigger] leads_to(tools, first, steps, request)
            &&& faithful(llm, tools, steps)
            &&& steps.len() > 0 ==> tool_answered(tools, steps.last(), request)
            &&& answers(llm, request, Err(error))
        }
}

/// Whether a run from the request `first` may be cut off at the limit of
/// tool calls: a faithful record ends in a call beyond the limit.
pub open spec fn cut_off<T: LLM, F: FunTool>(
    llm: T,
    tools: Seq<F>,
    first: MessagesView,
    max_tool_calls: usize,
) -> bool {
    exists|steps: Seq<ConversationView>|
        {
            &&& #[trigger] is_record(tools, first, steps)
            &&& faithful(llm, tools, steps)
            &&& ends_with(
                tools,
                max_tool_calls,
                steps,
                AgentState::Aborted(AbortReason::ToolCallLimit),
                Seq::empty(),
            )
        }
}

/// A faithful record that is extended by the request that it leads to, with
/// an answer of the provider to it, is faithful.
pub proof fn lemma_faithful_grows<T: LLM, F: FunTool>(
    llm: T,
    tools: Seq<F>,
    steps: Seq<ConversationView>,
    request: MessagesView,
    result: LLMResultView,
)
    requires
        faithful(llm, tools, steps),
        answers(llm, request, Ok(result)),
        steps.len() > 0 ==> tool_answered(tools, steps.last(), request),
    ensures
        faithful(llm, tools, steps.push(ConversationView { request, response: result })),
{
    let longer = steps.push(ConversationView { request, response: result });
    assert forall|i: int| 0 <= i < longer.len() implies answers(
        llm,
        (#[trigger] longer[i]).request,
        Ok(longer[i].response),
    ) by {
        if i < steps.len() {
            assert(longer[i] == steps[i]);
        }
    }
    assert forall|i: int| 0 <= i < longer.len() - 1 implies tool_answered(
        tools,
        #[trigger] longer[i],
        longer[i + 1].request,
    ) by {
        assert(longer[i] == steps[i]);
        if i < steps.len() - 1 {
            assert(longer[i + 1] == steps[i + 1]);
        } else {
            assert(steps[i] == steps.last());
        }
    }
}

/// The request that is sent for what the user says alone.
pub open spec fn user_request(message: Seq<char>) -> MessagesView {
    MessagesView {
        messages: seq![plain_message(MessageType::HumanMessage, message)],
        tools: Seq::empty(),
    }
}

/// What the loop is told.
#[derive(Debug, PartialEq)]
pub enum AgentEvent {
    /// The provider has answered the request.
    Response(LLMResult),
    /// The tool has answered the call, or reported a failure.
    ToolOutput(Result<String, String>),
}

pub enum AgentEventView {
    Response(LLMResultView),
    ToolOutput(Result<Seq<char>, Seq<char>>),
}

/// The mathematical value of what a tool hands back.
pub open spec fn output_view(output: Result<String, String>) -> Result<Seq<char>, Seq<char>> {
    match output {
        Ok(text) => Ok(text@),
        Err(report) => Err(report@),
    }
}

impl DeepView for AgentEvent {
    type V = AgentEventView;

    open spec fn deep_view(&self) -> AgentEventView {
        match self {
            AgentEvent::Response(result) => AgentEventView::Response(result.deep_view()),
            AgentEvent::ToolOutput(output) => AgentEventView::ToolOutput(output_view(*output)),
        }
    }
}

/// What the loop asks for next.
#[derive(Debug, Clone, Copy, PartialEq, Eq)]
pub enum AgentCommand {
    /// Send the current request to the provider.
    AskProvider,
    /// Run the tool at this place of the table on the arguments of the call.
    RunTool(usize),
    /// Nothing: the run has ended.
    Stop,
}

/// One run of the loop between the calls to the outside.
#[derive(Debug, PartialEq)]
pub struct AgentLoop {
    state: AgentState,
    request: Messages,
    steps: Vec<Conversation>,
    calls: usize,
    max_tool_calls: usize,
    pending: Option<ToolCallResult>,
    final_answer: String,
}

pub struct AgentLoopView {
    pub state: AgentState,
    /// The request that goes to the provider next.
    pub request: MessagesView,
    /// Every request with its response so far, in order.
    pub steps: Seq<ConversationView>,
    /// The number of tool calls that were answered.
    pub calls: usize,
    /// The number of tool calls after which the run is cut off.
    pub limit: usize,
    /// The call that a tool is running on.
    pub pending: Option<ToolCallResultView>,
    pub final_answer: Seq<char>,
}

impl DeepView for AgentLoop {
    type V = AgentLoopView;

    closed spec fn deep_view(&self) -> AgentLoopView {
        AgentLoopView {
            state: self.state,
            request: self.request.deep_view(),
            steps: self.steps.deep_view(),
            calls: self.calls,
            limit: self.max_tool_calls,
            pending: self.pending.deep_view(),
            final_answer: self.final_answer@,
        }
    }
}

/// A run at its start: it awaits the first response to `first`.
pub open spec fn fresh_run(first: MessagesView, limit: usize) -> AgentLoopView {
    AgentLoopView {
        state: AgentState::AwaitingFirstResponse,
        request: first,
        steps: Seq::empty(),
        calls: 0,
        limit,
        pending: None,
        final_answer: Seq::empty(),
    }
}

/// The command for a call that is under way: run its tool.
pub open spec fn run_tool<F: FunTool>(tools: Seq<F>, call: ToolCallResultView) -> AgentCommand {
    match tool_place(tools, call.name) {
        Some(place) => AgentCommand::RunTool(place as usize),
        None => AgentCommand::Stop,
    }
}

/// What a run waits for: nothing once it has ended, the tool while a call
/// is under way, and the provider else.
pub open spec fn awaited<F: FunTool>(at: AgentLoopView, tools: Seq<F>) -> AgentCommand {
    match at.state {
        AgentState::Done => AgentCommand::Stop,
        AgentState::Aborted(_) => AgentCommand::Stop,
        _ => match at.pending {
            Some(call) => run_tool(tools, call),
            None => AgentCommand::AskProvider,
        },
    }
}

/// The run after a response of the provider. The request and the response
/// are recorded. A text answer ends the run and is the final answer. A tool
/// call is resolved if the tool is registered and the limit of tool calls is
/// not reached; else the run is given up.
pub open spec fn after_response<F: FunTool>(
    at: AgentLoopView,
    tools: Seq<F>,
    result: LLMResultView,
) -> AgentLoopView {
    let steps = at.steps.push(ConversationView { request: at.request, response: result });
    match result {
        LLMResultView::Generate(answer) => AgentLoopView {
            state: AgentState::Done,
            steps,
            final_answer: answer.generation,
            ..at
        },
        LLMResultView::ToolCall(call) => if tool_place(tools, call.name) is None {
            AgentLoopView { state: AgentState::Aborted(AbortReason::ToolNotFound), steps, ..at }
        } else if at.calls >= at.limit {
            AgentLoopView { state: AgentState::Aborted(AbortReason::ToolCallLimit), steps, ..at }
        } else {
            AgentLoopView { state: AgentState::ResolvingToolCall, steps, pending: Some(call), ..at }
        },
    }
}

/// The run after the tool has handed back `output` for the call `call`: an
/// answer goes into the next request, after the announcement of the call; a
/// failure gives the run up.
pub open spec fn after_tool(
    at: AgentLoopView,
    call: ToolCallResultView,
    output: Result<Seq<char>, Seq<char>>,
) -> AgentLoopView {
    match output {
        Ok(text) => AgentLoopView {
            request: next_request(at.request, call, text),
            calls: if at.calls < usize::MAX {
                (at.calls + 1) as usize
            } else {
                at.calls
            },
            pending: None,
            ..at
        },
        Err(_) => AgentLoopView {
            state: AgentState::Aborted(AbortReason::ToolFailed),
            pending: None,
            ..at
        },
    }
}

/// The run after one event. A run that has ended stays as it is, and so
/// does a run that is told what it does not wait for.
pub open spec fn agent_step<F: FunTool>(at: AgentLoopView, tools: Seq<F>, event: AgentEventView) -> AgentLoopView {
    match at.state {
        AgentState::Done => at,
        AgentState::Aborted(_) => at,
        _ => match (at.pending, event) {
            (None, AgentEventView::Response(result)) => after_response(at, tools, result),
            (Some(call), AgentEventView::ToolOutput(output)) => after_tool(at, call, output),
            _ => at,
        },
    }
}

/// What holds of every state of a run that began with the request `first`:
/// the record is one that begins with `first`; while the run awaits the
/// provider, the request is the one that the record leads to; while a tool
/// runs, its call is the last response; and a run that has ended has ended
/// as its last response says.
#[verifier::opaque]
pub open spec fn consistent<F: FunTool>(at: AgentLoopView, tools: Seq<F>, first: MessagesView) -> bool {
    &&& at.calls <= at.limit
    &&& at.steps.len() > 0 ==> is_record(tools, first, at.steps)
    &&& !(at.state is Done) ==> at.final_answer == Seq::<char>::empty()
    &&& match at.state {
        AgentState::AwaitingFirstResponse => at.steps.len() == 0 && at.calls == 0 && at.pending is None
            && at.request == first,
        AgentState::ResolvingToolCall => {
            &&& at.steps.len() > 0
            &&& at.steps.last().response is ToolCall
            &&& tool_place(tools, at.steps.last().response->ToolCall_0.name) is Some
            &&& match at.pending {
                Some(call) => {
                    &&& call == at.steps.last().response->ToolCall_0
                    &&& at.request == at.steps.last().request
                    &&& at.steps.len() == at.calls + 1
                    &&& at.calls < at.limit
                },
                None => {
                    &&& at.steps.len() == at.calls
                    &&& answers_call(
                        at.steps.last().request,
                        at.steps.last().response->ToolCall_0,
                        at.request,
                    )
                },
            }
        },
        _ => {
            &&& at.pending is None
            &&& at.steps.len() > 0
            &&& at.steps.len() == at.calls + 1
            &&& ends_with(tools, at.limit, at.steps, at.state, at.final_answer)
        },
    }
}

/// The number of calls to the outside that a run may still make, at most.
pub open spec fn rank(at: AgentLoopView) -> int {
    match at.state {
        AgentState::Done => 0,
        AgentState::Aborted(_) => 0,
        _ => 2 * (at.limit - at.calls) + 1 + if at.pending is Some {
            0int
        } else {
            1int
        },
    }
}

/// A record that is extended by the request that it leads to, with the
/// response to it, is a record.
proof fn lemma_record_grows<F: FunTool>(
    tools: Seq<F>,
    first: MessagesView,
    steps: Seq<ConversationView>,
    request: MessagesView,
    result: LLMResultView,
)
    requires
        steps.len() == 0 ==> request == first,
        steps.len() > 0 ==> {
            &&& is_record(tools, first, steps)
            &&& steps.last().response is ToolCall
            &&& tool_place(tools, steps.last().response->ToolCall_0.name) is Some
            &&& answers_call(steps.last().request, steps.last().response->ToolCall_0, request)
        },
    ensures
        is_record(tools, first, steps.push(ConversationView { request, response: result })),
{
    let longer = steps.push(ConversationView { request, response: result });
    assert forall|i: int| 0 <= i < longer.len() - 1 implies {
        &&& (#[trigger] longer[i]).response is ToolCall
        &&& tool_place(tools, longer[i].response->ToolCall_0.name) is Some
        &&& answers_call(longer[i].request, longer[i].response->ToolCall_0, longer[i + 1].request)
    } by {
        assert(longer[i] == steps[i]);
        if i < steps.len() - 1 {
            assert(longer[i + 1] == steps[i + 1]);
        } else {
            assert(steps[i] == steps.last());
        }
    }
    if steps.len() > 0 {
        assert(longer[0] == steps[0]);
    }
}

/// A run stays consistent when the provider answers.
proof fn lemma_after_response<F: FunTool>(
    at: AgentLoopView,
    tools: Seq<F>,
    first: MessagesView,
    result: LLMResultView,
)
    requires
        consistent(at, tools, first),
        at.state is AwaitingFirstResponse || at.state is ResolvingToolCall,
        at.pending is None,
    ensures
        consistent(after_response(at, tools, result), tools, first),
        rank(after_response(at, tools, result)) < rank(at),
        0 <= rank(after_response(at, tools, result)),
{
    reveal(consistent);
    lemma_record_grows(tools, first, at.steps, at.request, result);
    let next = after_response(at, tools, result);
    assert(next.steps.last() == ConversationView { request: at.request, response: result });
}

/// A run stays consistent when the tool answers.
proof fn lemma_after_tool<F: FunTool>(
    at: AgentLoopView,
    tools: Seq<F>,
    first: MessagesView,
    output: Result<Seq<char>, Seq<char>>,
)
    requires
        consistent(at, tools, first),
        at.state is AwaitingFirstResponse || at.state is ResolvingToolCall,
        at.pending is Some,
    ensures
        consistent(after_tool(at, at.pending->0, output), tools, first),
        rank(after_tool(at, at.pending->0, output)) < rank(at),
        0 <= rank(after_tool(at, at.pending->0, output)),
{
    reveal(consistent);
    if output is Ok {
        lemma_next_request_answers(at.request, at.pending->0, output->Ok_0);
    }
}

/// A run is consistent at its start.
pub proof fn lemma_fresh_run_is_consistent<F: FunTool>(tools: Seq<F>, first: MessagesView, limit: usize)
    ensures
        consistent(fresh_run(first, limit), tools, first),
{
    reveal(consistent);
}

/// A run stays consistent under every event, and an event that the run
/// waits for brings it nearer to its end.
pub proof fn lemma_step_is_consistent_for<F: FunTool>(
    at: AgentLoopView,
    tools: Seq<F>,
    first: MessagesView,
    event: AgentEventView,
)
    requires
        consistent(at, tools, first),
    ensures
        consistent(agent_step(at, tools, event), tools, first),
        agent_step(at, tools, event).limit == at.limit,
        0 <= rank(agent_step(at, tools, event)),
        at.state is AwaitingFirstResponse || at.state is ResolvingToolCall ==> (match (
            at.pending,
            event,
        ) {
            (None, AgentEventView::Response(_)) => rank(agent_step(at, tools, event)) < rank(at),
            (Some(_), AgentEventView::ToolOutput(_)) => rank(agent_step(at, tools, event)) < rank(
                at,
            ),
            _ => true,
        }),
{
    lemma_step_is_consistent(at, tools, first);
    if at.state is AwaitingFirstResponse || at.state is ResolvingToolCall {
        match (at.pending, event) {
            (None, AgentEventView::Response(result)) => {
                lemma_after_response(at, tools, first, result);
            },
            (Some(call), AgentEventView::ToolOutput(output)) => {
                lemma_after_tool(at, tools, first, output);
            },
            _ => {},
        }
    }
}

/// A consistent run never has a negative rank, and a run that waits for a
/// tool waits for one that is registered.
pub proof fn lemma_step_is_consistent<F: FunTool>(at: AgentLoopView, tools: Seq<F>, first: MessagesView)
    requires
        consistent(at, tools, first),
    ensures
        0 <= rank(at),
        awaited(at, tools) matches AgentCommand::RunTool(place) ==> place < tools.len()
            && at.pending is Some,
        awaited(at, tools) is Stop ==> at.state is Done || at.state is Aborted,
        awaited(at, tools) is AskProvider ==> at.pending is None && (at.state
            is AwaitingFirstResponse || at.state is ResolvingToolCall),
        awaited(at, tools) is AskProvider ==> leads_to(tools, first, at.steps, at.request),
        awaited(at, tools) matches AgentCommand::RunTool(place) ==> at.steps.len() > 0
            && at.steps.last().response == LLMResultView::ToolCall(at.pending->0) && tool_place(
            tools,
            at.pending->0.name,
        ) is Some && tool_place(tools, at.pending->0.name)->0 as usize == place,
        at.state is Done || at.state is Aborted ==> is_record(tools, first, at.steps) && ends_with(
            tools,
            at.limit,
            at.steps,
            at.state,
            at.final_answer,
        ) && at.steps.len() <= at.limit + 1,
{
    reveal(consistent);
    if at.pending is Some {
        lemma_tool_place(tools, at.pending->0.name);
    }
}

impl AgentLoop {
    /// A run that awaits the first response to `first` and is cut off after
    /// `max_tool_calls` tool calls.
    pub fn start(first: Messages, max_tool_calls: usize) -> (run: AgentLoop)
        ensures
            run.deep_view() == fresh_run(first.deep_view(), max_tool_calls),
    {
        let run = AgentLoop {
            state: AgentState::AwaitingFirstResponse,
            request: first,
            steps: Vec::new(),
            calls: 0,
            max_tool_calls,
            pending: None,
            final_answer: String::new(),
        };
        assert(run.steps.deep_view() =~= Seq::empty());
        run
    }

    /// Where the run stands.
    pub fn state(&self) -> (state: AgentState)
        ensures
            state == self.deep_view().state,
    {
        self.state
    }

    /// The request that goes to the provider next.
    pub fn request(&self) -> (request: &Messages)
        ensures
            request.deep_view() == self.deep_view().request,
    {
        &self.request
    }

    /// The arguments of the call that a tool is to run on, if one is.
    pub fn pending_arguments(&self) -> (arguments: Option<Json>)
        ensures
            arguments.deep_view() == match self.deep_view().pending {
                Some(call) => Some(call.arguments),
                None => None,
            },
    {
        match &self.pending {
            Some(call) => Some(call.arguments.clone()),
            None => None,
        }
    }

    /// Takes one event and says what the run waits for next.
    pub fn on_event<F: FunTool>(&mut self, event: AgentEvent, tools: &ToolSet<F>) -> (command:
        AgentCommand)
        ensures
            final(self).deep_view() == agent_step(old(self).deep_view(), tools@, event.deep_view()),
            command == awaited(final(self).deep_view(), tools@),
    {
        match self.state {
            AgentState::Done => {
                return AgentCommand::Stop;
            },
            AgentState::Aborted(_) => {
                return AgentCommand::Stop;
            },
            _ => {},
        }
        let pending = self.pending.take();
        match (pending, event) {
            (None, AgentEvent::Response(result)) => {
                let ghost recorded = self.steps.deep_view();
                self.steps.push(Conversation { request: self.request.clone(), response: result.clone() });
                assert(self.steps.deep_view() =~= recorded.push(
                    ConversationView {
                        request: self.request.deep_view(),
                        response: result.deep_view(),
                    },
                ));
                match result {
                    LLMResult::Generate(answer) => {
                        self.state = AgentState::Done;
                        self.final_answer = answer.generation().to_owned();
                        AgentCommand::Stop
                    },
                    LLMResult::ToolCall(call) => match tools.find(call.name.as_str()) {
                        None => {
                            self.state = AgentState::Aborted(AbortReason::ToolNotFound);
                            AgentCommand::Stop
                        },
                        Some(place) => {
                            if self.calls >= self.max_tool_calls {
                                self.state = AgentState::Aborted(AbortReason::ToolCallLimit);
                                AgentCommand::Stop
                            } else {
                                self.state = AgentState::ResolvingToolCall;
                                self.pending = Some(call);
                                AgentCommand::RunTool(place)
                            }
                        },
                    },
                }
            },
            (Some(call), AgentEvent::ToolOutput(output)) => match output {
                Ok(text) => {
                    let ghost before = self.request.deep_view();
                    self.request.add_message(call.ai_message.clone());
                    self.request.add_message(
                        Message::new_tool_message(text.as_str(), call.id.as_str()),
                    );
                    assert(self.request.deep_view() == next_request(before, call.deep_view(), text@));
                    if self.calls < usize::MAX {
                        self.calls = self.calls + 1;
                    }
                    AgentCommand::AskProvider
                },
                Err(_) => {
                    self.state = AgentState::Aborted(AbortReason::ToolFailed);
                    AgentCommand::Stop
                },
            },
            (None, AgentEvent::ToolOutput(_)) => AgentCommand::AskProvider,
            (Some(call), AgentEvent::Response(_)) => {
                let command = match tools.find(call.name.as_str()) {
                    Some(place) => AgentCommand::RunTool(place),
                    None => AgentCommand::Stop,
                };
                self.pending = Some(call);
                command
            },
        }
    }

    /// What the run leaves: the final answer, the record and the state.
    pub fn finish(self) -> (response: AgentResponse)
        ensures
            response.final_answer@ == self.deep_view().final_answer,
            response.intermediate_steps.deep_view() == self.deep_view().steps,
            response.state == self.deep_view().state,
    {
        AgentResponse {
            final_answer: self.final_answer,
            intermediate_steps: self.steps,
            state: self.state,
        }
    }
}

/// An agent: a provider, an optional system prompt and a table of tools.
pub struct LLMAgent<T: LLM, F: FunTool> {
    llm: T,
    system_prompt: Option<String>,
    tools: ToolSet<F>,
    max_tool_calls: usize,
}

/// The number of tool calls after which a run is cut off unless the builder
/// sets another.
pub const DEFAULT_MAX_TOOL_CALLS: usize = 8;

impl<T: LLM, F: FunTool> LLMAgent<T, F> {
    /// The system prompt.
    pub closed spec fn prompt(&self) -> Option<Seq<char>> {
        self.system_prompt.deep_view()
    }

    /// The registered tools, in order.
    pub closed spec fn registered(&self) -> Seq<F> {
        self.tools@
    }

    /// The number of tool calls after which a run is cut off.
    pub closed spec fn limit(&self) -> usize {
        self.max_tool_calls
    }

    /// A builder for an agent on the provider `llm`.
    pub fn builder(llm: T) -> (builder: LLMAgentBuilder<T, F>)
        ensures
            builder.prompt() is None,
            builder.registered() == Seq::<F>::empty(),
            builder.limit() == DEFAULT_MAX_TOOL_CALLS,
            builder.provider() == llm,
    {
        LLMAgentBuilder::new(llm)
    }

    /// The system prompt, if the agent has one.
    pub fn system_prompt(&self) -> (prompt: Option<&String>)
        ensures
            prompt.deep_view() == self.prompt(),
    {
        match &self.system_prompt {
            Some(prompt) => Some(prompt),
            None => None,
        }
    }

    /// The table of tools.
    pub fn tools(&self) -> (tools: &ToolSet<F>)
        ensures
            tools@ == self.registered(),
    {
        &self.tools
    }

    /// The provider.
    pub closed spec fn provider(&self) -> T {
        self.llm
    }

    /// The provider.
    pub fn llm(&self) -> (llm: &T)
        ensures
            *llm == self.provider(),
    {
        &self.llm
    }

    /// The request that the agent starts with for the messages `history`.
    pub fn build_messages2(&self, history: &Messages) -> (request: Messages)
        ensures
            request.deep_view() == first_request(
                self.prompt(),
                advertised_tools(self.registered()),
                history.deep_view().messages,
            ),
    {
        let mut messages: Vec<Message> = Vec::new();
        assert(messages.deep_view() =~= Seq::empty());
        if let Some(prompt) = &self.system_prompt {
            messages.push(Message::new_system_message(prompt.as_str()));
            assert(messages.deep_view() =~= seq![
                plain_message(MessageType::SystemMessage, prompt@),
            ]);
        }
        let ghost head = messages.deep_view();
        let mut rest = clone_messages(&history.messages);
        messages.append(&mut rest);
        assert(messages.deep_view() =~= head + history.deep_view().messages);
        Messages { messages, tools: self.tools.to_openai_tools() }
    }

    /// The request that the agent starts with for what the user says.
    pub fn build_messages(&self, message: &str) -> (request: Messages)
        ensures
            request.deep_view() == first_request(
                self.prompt(),
                advertised_tools(self.registered()),
                seq![plain_message(MessageType::HumanMessage, message@)],
            ),
    {
        let mut history = Messages { messages: Vec::new(), tools: Vec::new() };
        history.messages.push(Message::new_human_message(message));
        assert(history.messages.deep_view() =~= seq![
            plain_message(MessageType::HumanMessage, message@),
        ]);
        self.build_messages2(&history)
    }

    /// Sends what the user says, with the system prompt and the tools, and
    /// returns the provider's turn.
    pub fn invoke_chat(&self, user_message: &str) -> (outcome: Result<LLMResult, LLMError>)
        ensures
            answers(
                self.provider(),
                first_request(
                    self.prompt(),
                    advertised_tools(self.registered()),
                    seq![plain_message(MessageType::HumanMessage, user_message@)],
                ),
                item_view(outcome),
            ),
    {
        let request = self.build_messages(user_message);
        let outcome = self.llm.invoke(&request);
        proof {
            lemma_answers(self.llm, request, outcome);
        }
        outcome
    }

    /// Runs the loop from the request `first`.
    fn resolve(&self, first: Messages) -> (outcome: Result<AgentResponse, LLMError>)
        ensures
            match outcome {
                Ok(response) => {
                    &&& is_record(
                        self.registered(),
                        first.deep_view(),
                        response.intermediate_steps.deep_view(),
                    )
                    &&& ends_with(
                        self.registered(),
                        self.limit(),
                        response.intermediate_steps.deep_view(),
                        response.state,
                        response.final_answer@,
                    )
                    &&& response.intermediate_steps.len() <= self.limit() + 1
                    &&& faithful(
                        self.provider(),
                        self.registered(),
                        response.intermediate_steps.deep_view(),
                    )
                    &&& response.state == AgentState::Aborted(AbortReason::ToolFailed)
                        ==> tool_failed(
                        self.registered(),
                        response.intermediate_steps.deep_view().last(),
                    )
                },
                Err(error) => provider_failed(
                    self.provider(),
                    self.registered(),
                    first.deep_view(),
                    error.deep_view(),
                ),
            },
    {
        let ghost tools = self.registered();
        let ghost start = first.deep_view();
        let mut run = AgentLoop::start(first, self.max_tool_calls);
        let mut command = AgentCommand::AskProvider;
        proof {
            lemma_fresh_run_is_consistent(tools, start, self.max_tool_calls);
        }
        loop
            invariant
                tools == self.registered(),
                start == first.deep_view(),
                run.deep_view().limit == self.limit(),
                consistent(run.deep_view(), tools, start),
                command == awaited(run.deep_view(), tools),
                faithful(self.llm, tools, run.deep_view().steps),
                run.deep_view().steps.len() > 0 && command is AskProvider ==> tool_answered(
                    tools,
                    run.deep_view().steps.last(),
                    run.deep_view().request,
                ),
                run.deep_view().state == AgentState::Aborted(AbortReason::ToolFailed)
                    ==> tool_failed(tools, run.deep_view().steps.last()),
            decreases rank(run.deep_view()),
        {
            let ghost before = run.deep_view();
            proof {
                lemma_step_is_consistent(before, tools, start);
            }
            match command {
                AgentCommand::Stop => {
                    return Ok(run.finish());
                },
                AgentCommand::AskProvider => {
                    let asked = run.request();
                    let outcome = self.llm.invoke(asked);
                    proof {
                        lemma_answers(self.llm, *asked, outcome);
                    }
                    let result = match outcome {
                        Ok(result) => result,
                        Err(error) => {
                            assert(leads_to(tools, start, before.steps, before.request));
                            return Err(error);
                        },
                    };
                    proof {
                        lemma_step_is_consistent_for(
                            before,
                            tools,
                            start,
                            AgentEventView::Response(result.deep_view()),
                        );
                        lemma_faithful_grows(
                            self.llm,
                            tools,
                            before.steps,
                            before.request,
                            result.deep_view(),
                        );
                    }
                    command = run.on_event(AgentEvent::Response(result), &self.tools);
                },
                AgentCommand::RunTool(place) => {
                    let arguments = match run.pending_arguments() {
                        Some(arguments) => arguments,
                        None => Json::Null,
                    };
                    let ghost given = arguments;
                    let count = self.tools.len();
                    assert(tool_place(tools, before.pending->0.name) == Some(place as int));
                    let tool = self.tools.get(place);
                    let output = tool.call(arguments);
                    proof {
                        lemma_tool_returns(*tool, given, output);
                        lemma_step_is_consistent_for(
                            before,
                            tools,
                            start,
                            AgentEventView::ToolOutput(output_view(output)),
                        );
                        if output is Ok {
                            lemma_next_request_answers(
                                before.request,
                                before.pending->0,
                                output->Ok_0@,
                            );
                        }
                    }
                    command = run.on_event(AgentEvent::ToolOutput(output), &self.tools);
                },
            }
        }
    }

    /// Runs the loop on the messages `messages`: the system prompt and the
    /// tools are put before them, and the provider is asked. A text answer
    /// ends the run. A tool call is resolved: the announcement of the call
    /// and the tool's answer are appended, and the provider is asked again.
    /// A fault of the provider fails the run; in every other case the record
    /// comes back, with the state in which the run ended.
    pub fn invoke(&self, messages: &Messages) -> (outcome: Result<AgentResponse, LLMError>)
        ensures
            match outcome {
                Ok(response) => {
                    &&& is_record(
                        self.registered(),
                        first_request(
                            self.prompt(),
                            advertised_tools(self.registered()),
                            messages.deep_view().messages,
                        ),
                        response.intermediate_steps.deep_view(),
                    )
                    &&& ends_with(
                        self.registered(),
                        self.limit(),
                        response.intermediate_steps.deep_view(),
                        response.state,
                        response.final_answer@,
                    )
                    &&& response.intermediate_steps.len() <= self.limit() + 1
                    &&& faithful(
                        self.provider(),
                        self.registered(),
                        response.intermediate_steps.deep_view(),
                    )
                    &&& response.state == AgentState::Aborted(AbortReason::ToolFailed)
                        ==> tool_failed(
                        self.registered(),
                        response.intermediate_steps.deep_view().last(),
                    )
                },
                Err(error) => provider_failed(
                    self.provider(),
                    self.registered(),
                    first_request(
                        self.prompt(),
                        advertised_tools(self.registered()),
                        messages.deep_view().messages,
                    ),
                    error.deep_view(),
                ),
            },
    {
        let first = self.build_messages2(messages);
        self.resolve(first)
    }

    /// Runs the loop on what the user says and returns the record. A run
    /// that is cut off at the limit of tool calls is reported as an error.
    pub fn chat(&self, message: &str) -> (outcome: Result<Conversations, LLMError>)
        ensures
            match outcome {
                Ok(steps) => {
                    &&& is_record(
                        self.registered(),
                        first_request(
                            self.prompt(),
                            advertised_tools(self.registered()),
                            seq![plain_message(MessageType::HumanMessage, message@)],
                        ),
                        steps.deep_view(),
                    )
                    &&& steps.len() <= self.limit() + 1
                    &&& settles(self.registered(), self.limit(), steps.deep_view())
                    &&& faithful(self.provider(), self.registered(), steps.deep_view())
                    &&& steps.deep_view().last().response is ToolCall && tool_place(
                        self.registered(),
                        steps.deep_view().last().response->ToolCall_0.name,
                    ) is Some ==> tool_failed(self.registered(), steps.deep_view().last())
                },
                Err(error) => {
                    ||| provider_failed(
                        self.provider(),
                        self.registered(),
                        first_request(
                            self.prompt(),
                            advertised_tools(self.registered()),
                            seq![plain_message(MessageType::HumanMessage, message@)],
                        ),
                        error.deep_view(),
                    )
                    ||| {
                        &&& error.deep_view() == LLMErrorView::OtherError(
                            "Tool call limit reached"@,
                        )
                        &&& cut_off(
                            self.provider(),
                            self.registered(),
                            first_request(
                                self.prompt(),
                                advertised_tools(self.registered()),
                                seq![plain_message(MessageType::HumanMessage, message@)],
                            ),
                            self.limit(),
                        )
                    }
                },
            },
    {
        let first = self.build_messages(message);
        let response = self.resolve(first)?;
        match response.state {
            AgentState::Aborted(AbortReason::ToolCallLimit) => {
                assert(is_record(
                    self.registered(),
                    first.deep_view(),
                    response.intermediate_steps.deep_view(),
                ));
                Err(LLMError::OtherError("Tool call limit reached".to_owned()))
            },
            _ => {
                assert(ends_with(
                    self.registered(),
                    self.limit(),
                    response.intermediate_steps.deep_view(),
                    response.state,
                    response.final_answer@,
                ));
                Ok(response.intermediate_steps)
            },
        }
    }
}

/// Collects what an agent is made of.
pub struct LLMAgentBuilder<T: LLM, F: FunTool> {
    llm: T,
    system_prompt: Option<Message>,
    tools: ToolSet<F>,
    max_tool_calls: usize,
}

impl<T: LLM, F: FunTool> LLMAgentBuilder<T, F> {
    /// The system prompt.
    pub closed spec fn prompt(&self) -> Option<Seq<char>> {
        match self.system_prompt {
            Some(message) => message.content.deep_view(),
            None => None,
        }
    }

    /// The registered tools, in order.
    pub closed spec fn registered(&self) -> Seq<F> {
        self.tools@
    }

    /// The number of tool calls after which a run is cut off.
    pub closed spec fn limit(&self) -> usize {
        self.max_tool_calls
    }

    /// The provider.
    pub closed spec fn provider(&self) -> T {
        self.llm
    }

    /// A builder for an agent on the provider `llm`, without a system prompt
    /// and without tools.
    pub fn new(llm: T) -> (builder: LLMAgentBuilder<T, F>)
        ensures
            builder.prompt() is None,
            builder.registered() == Seq::<F>::empty(),
            builder.limit() == DEFAULT_MAX_TOOL_CALLS,
            builder.provider() == llm,
    {
        LLMAgentBuilder {
            llm,
            system_prompt: None,
            tools: ToolSet::new(),
            max_tool_calls: DEFAULT_MAX_TOOL_CALLS,
        }
    }

    /// The agent.
    pub fn build(self) -> (outcome: Result<LLMAgent<T, F>, LLMError>)
        ensures
            outcome matches Ok(agent) && agent.prompt() == self.prompt() && agent.registered()
                == self.registered() && agent.limit() == self.limit() && agent.provider()
                == self.provider(),
    {
        let system_prompt = match self.system_prompt {
            Some(message) => message.content,
            None => None,
        };
        Ok(
            LLMAgent {
                llm: self.llm,
                system_prompt,
                tools: self.tools,
                max_tool_calls: self.max_tool_calls,
            },
        )
    }

    /// Sets the system prompt.
    pub fn with_system_prompt(self, system_prompt: &str) -> (builder: LLMAgentBuilder<T, F>)
        ensures
            builder.prompt() == Some(system_prompt@),
            builder.registered() == self.registered(),
            builder.limit() == self.limit(),
            builder.provider() == self.provider(),
    {
        let mut builder = self;
        builder.system_prompt = Some(Message::new_system_message(system_prompt));
        builder
    }

    /// Registers `tool`. A tool of the same name leaves.
    pub fn with_tool(self, tool: F) -> (builder: LLMAgentBuilder<T, F>)
        ensures
            builder.prompt() == self.prompt(),
            builder.limit() == self.limit(),
            builder.provider() == self.provider(),
            builder.registered() == match tool_place(self.registered(), tool_name(tool)) {
                Some(place) => self.registered().update(place, tool),
                None => self.registered().push(tool),
            },
    {
        let mut builder = self;
        builder.tools.add_tool(tool);
        builder
    }

    /// Sets the number of tool calls after which a run is cut off.
    pub fn with_max_tool_calls(self, max_tool_calls: usize) -> (builder: LLMAgentBuilder<T, F>)
        ensures
            builder.prompt() == self.prompt(),
            builder.registered() == self.registered(),
            builder.limit() == max_tool_calls,
            builder.provider() == self.provider(),
    {
        let mut builder = self;
        builder.max_tool_calls = max_tool_calls;
        builder
    }
}

/// The simplest use of a provider: one message of the user, one call.
pub struct SimpleLLM<T: LLM> {
    llm: T,
}

impl<T: LLM> SimpleLLM<T> {
    /// The provider.
    pub closed spec fn provider(&self) -> T {
        self.llm
    }

    /// A caller of the provider `llm`.
    pub fn new(llm: T) -> (simple: SimpleLLM<T>)
        ensures
            simple.provider() == llm,
    {
        SimpleLLM { llm }
    }

    /// Sends what the user says. The provider's turn is dropped: the text
    /// that comes back is empty.
    pub fn run(&self, message: &str) -> (outcome: Result<String, LLMError>)
        ensures
            match outcome {
                Ok(text) => text@ == Seq::<char>::empty() && exists|turn: LLMResultView|
                    #[trigger] answers(self.provider(), user_request(message@), Ok(turn)),
                Err(error) => answers(
                    self.provider(),
                    user_request(message@),
                    Err(error.deep_view()),
                ),
            },
    {
        let messages = Messages::builder().add_human_message(message).build();
        assert(messages.deep_view().messages =~= user_request(message@).messages);
        assert(messages.deep_view() == user_request(message@));
        let turn = self.llm.invoke(&messages);
        proof {
            lemma_answers(self.llm, messages, turn);
        }
        match turn {
            Ok(result) => {
                assert(answers(self.provider(), user_request(message@), Ok(result.deep_view())));
                Ok(String::new())
            },
            Err(error) => Err(error),
        }
    }
}

/// An agent on the Gemini provider.
pub struct GeminiAgent {
    llm: Gemini,
}

impl GeminiAgent {
    /// An agent on the provider `llm`.
    pub fn new(llm: Gemini) -> (agent: GeminiAgent)
        ensures
            agent.provider() == llm,
    {
        GeminiAgent { llm }
    }

    /// The provider.
    pub closed spec fn provider(&self) -> Gemini {
        self.llm
    }

    /// The name of the agent.
    pub fn get_name(&self) -> (name: String)
        ensures
            name@ == "GeminiAgent"@,
    {
        "GeminiAgent".to_owned()
    }

    /// The provider.
    pub fn get_llm(&self) -> (llm: &Gemini)
        ensures
            *llm == self.provider(),
    {
        &self.llm
    }
}

} // verus!
