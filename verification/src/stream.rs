//! The response stream assembler: it turns the events of a streamed answer
//! into text fragments and tool calls. Fragments of a tool call are collected
//! by the index of the call, and the arguments are parsed only once the call
//! is complete: when a frame says that the turn ends in tool calls, or when
//! the stream ends.
use crate::json::{parsed_json, Json, JsonMember, JsonView};
use crate::llm::{
    text_answer, GenerateResult, LLMError, LLMErrorView, LLMResult, LLMResultView, ToolCallResult,
    ToolCallResultView,
};
use crate::messages::{Message, MessageType, MessageView};
use crate::openai::{
    ChatCompletionMessageToolCallChunk, ChatCompletionMessageToolCallChunkView, CompletionUsage,
    CreateChatCompletionStreamResponse, CreateChatCompletionStreamResponseView, FinishReason,
    TokenUsage,
};
use crate::text::{join, same_text};
use crate::wire::frames::stream_response_of;
use crate::wire::or_empty;
use vstd::prelude::*;

verus! {

/// What the transport reports.
#[derive(Debug, PartialEq)]
pub enum StreamEvent {
    /// The stream was opened.
    Open,
    /// A message came; this is its payload.
    Message(String),
    /// The transport says that the stream has ended.
    StreamEnded,
    /// The transport failed in another way; this is its report.
    Failed(String),
}

pub enum StreamEventView {
    Open,
    Message(Seq<char>),
    StreamEnded,
    Failed(Seq<char>),
}

impl DeepView for StreamEvent {
    type V = StreamEventView;

    open spec fn deep_view(&self) -> StreamEventView {
        match self {
            StreamEvent::Open => StreamEventView::Open,
            StreamEvent::Message(data) => StreamEventView::Message(data@),
            StreamEvent::StreamEnded => StreamEventView::StreamEnded,
            StreamEvent::Failed(report) => StreamEventView::Failed(report@),
        }
    }
}

/// What the consumer gets for one event.
#[derive(Debug, PartialEq)]
pub enum StreamStep {
    /// Nothing yet: the next event is needed.
    Pending,
    /// The next item of the sequence.
    Item(Result<LLMResult, LLMError>),
    /// The sequence has ended.
    End,
}

pub enum StreamStepView {
    Pending,
    Item(Result<LLMResultView, LLMErrorView>),
    End,
}

/// The mathematical value of an item.
pub open spec fn item_view(item: Result<LLMResult, LLMError>) -> Result<LLMResultView, LLMErrorView> {
    match item {
        Ok(result) => Ok(result.deep_view()),
        Err(error) => Err(error.deep_view()),
    }
}

impl DeepView for StreamStep {
    type V = StreamStepView;

    open spec fn deep_view(&self) -> StreamStepView {
        match self {
            StreamStep::Pending => StreamStepView::Pending,
            StreamStep::Item(item) => StreamStepView::Item(item_view(*item)),
            StreamStep::End => StreamStepView::End,
        }
    }
}

/// What has come so far of one tool call.
#[derive(Debug, PartialEq)]
pub struct ToolCallAccumulator {
    pub index: i32,
    pub id: Option<String>,
    pub name: Option<String>,
    pub arguments: String,
}

pub struct ToolCallAccumulatorView {
    pub index: i32,
    pub id: Option<Seq<char>>,
    pub name: Option<Seq<char>>,
    pub arguments: Seq<char>,
}

impl DeepView for ToolCallAccumulator {
    type V = ToolCallAccumulatorView;

    open spec fn deep_view(&self) -> ToolCallAccumulatorView {
        ToolCallAccumulatorView {
            index: self.index,
            id: self.id.deep_view(),
            name: self.name.deep_view(),
            arguments: self.arguments@,
        }
    }
}

/// The assembler of one streamed answer.
#[derive(Debug, PartialEq)]
pub struct ChatStream {
    calls: Vec<ToolCallAccumulator>,
    finished: bool,
}

pub struct ChatStreamView {
    /// The tool calls under way, in the order in which their indices came.
    pub calls: Seq<ToolCallAccumulatorView>,
    /// Whether the sequence has ended.
    pub finished: bool,
}

impl DeepView for ChatStream {
    type V = ChatStreamView;

    closed spec fn deep_view(&self) -> ChatStreamView {
        ChatStreamView { calls: self.calls.deep_view(), finished: self.finished }
    }
}

/// The index of the call that a fragment belongs to: the first call where
/// the fragment names none.
pub open spec fn fragment_index(fragment: ChatCompletionMessageToolCallChunkView) -> i32 {
    match fragment.index {
        Some(index) => index,
        None => 0,
    }
}

/// The piece of the name that a fragment carries, if it carries one.
pub open spec fn fragment_name(fragment: ChatCompletionMessageToolCallChunkView) -> Option<Seq<char>> {
    match fragment.function {
        Some(function) => function.name,
        None => None,
    }
}

/// The piece of the arguments that a fragment carries.
pub open spec fn fragment_arguments(fragment: ChatCompletionMessageToolCallChunkView) -> Seq<char> {
    match fragment.function {
        Some(function) => or_empty(function.arguments),
        None => Seq::empty(),
    }
}

/// A call of which nothing has come yet.
pub open spec fn empty_call(index: i32) -> ToolCallAccumulatorView {
    ToolCallAccumulatorView { index, id: None, name: None, arguments: Seq::empty() }
}

/// `call` with what `fragment` carries: the first identifier stays, and the
/// pieces of the name and of the arguments are appended.
pub open spec fn merge_fragment(
    call: ToolCallAccumulatorView,
    fragment: ChatCompletionMessageToolCallChunkView,
) -> ToolCallAccumulatorView {
    ToolCallAccumulatorView {
        index: call.index,
        id: match call.id {
            Some(id) => Some(id),
            None => fragment.id,
        },
        name: match fragment_name(fragment) {
            Some(piece) => Some(or_empty(call.name) + piece),
            None => call.name,
        },
        arguments: call.arguments + fragment_arguments(fragment),
    }
}

/// Whether `place` is the first place among `calls` of the call `index`.
pub open spec fn is_call_place(calls: Seq<ToolCallAccumulatorView>, index: i32, place: int) -> bool {
    &&& 0 <= place < calls.len()
    &&& calls[place].index == index
    &&& forall|k: int| 0 <= k < place ==> (#[trigger] calls[k]).index != index
}

/// The place among `calls` of the call `index`, if it is under way.
pub open spec fn call_place(calls: Seq<ToolCallAccumulatorView>, index: i32) -> Option<int> {
    if exists|place: int| is_call_place(calls, index, place) {
        Some(choose|place: int| is_call_place(calls, index, place))
    } else {
        None
    }
}

/// `calls` after one fragment: it goes to its call, or starts a new one at
/// the end.
pub open spec fn add_fragment(
    calls: Seq<ToolCallAccumulatorView>,
    fragment: ChatCompletionMessageToolCallChunkView,
) -> Seq<ToolCallAccumulatorView> {
    match call_place(calls, fragment_index(fragment)) {
        Some(place) => calls.update(place, merge_fragment(calls[place], fragment)),
        None => calls.push(merge_fragment(empty_call(fragment_index(fragment)), fragment)),
    }
}

/// `calls` after the fragments of one frame, in order.
pub open spec fn add_fragments(
    calls: Seq<ToolCallAccumulatorView>,
    fragments: Seq<ChatCompletionMessageToolCallChunkView>,
) -> Seq<ToolCallAccumulatorView>
    decreases fragments.len(),
{
    if fragments.len() == 0 {
        calls
    } else {
        add_fragment(add_fragments(calls, fragments.drop_last()), fragments.last())
    }
}

/// One complete call as the assistant's message lists it.
pub open spec fn call_doc(call: ToolCallAccumulatorView) -> JsonView {
    JsonView::Object(
        seq![
            ("id"@, JsonView::Str(or_empty(call.id))),
            ("type"@, JsonView::Str("function"@)),
            (
                "function"@,
                JsonView::Object(
                    seq![
                        ("name"@, JsonView::Str(or_empty(call.name))),
                        ("arguments"@, JsonView::Str(call.arguments)),
                    ],
                ),
            ),
        ],
    )
}

/// The calls as the assistant's message lists them.
pub open spec fn calls_doc(calls: Seq<ToolCallAccumulatorView>) -> JsonView {
    JsonView::Array(Seq::new(calls.len(), |i: int| call_doc(calls[i])))
}

/// The assistant's message that announces `calls`.
pub open spec fn announcement(tool_calls: JsonView) -> MessageView {
    MessageView {
        content: Some("tool called"@),
        message_type: MessageType::AIMessage,
        id: None,
        tool_calls: Some(tool_calls),
        images: None,
        name: None,
    }
}

/// The item for the complete `calls`: the first of them is the call of the
/// turn, with its arguments parsed; all of them stand in the announcement.
pub open spec fn tool_call_item(calls: Seq<ToolCallAccumulatorView>) -> Result<
    LLMResultView,
    LLMErrorView,
> {
    if calls.len() == 0 {
        Err(LLMErrorView::OtherError("No tool call in response"@))
    } else if calls[0].name is None {
        Err(LLMErrorView::OtherError("No tool name in response"@))
    } else {
        match parsed_json(calls[0].arguments) {
            Err(message) => Err(LLMErrorView::SerdeError(message)),
            Ok(arguments) => Ok(
                LLMResultView::ToolCall(
                    ToolCallResultView {
                        id: or_empty(calls[0].id),
                        name: calls[0].name->0,
                        arguments,
                        ai_message: announcement(calls_doc(calls)),
                    },
                ),
            ),
        }
    }
}

/// The three counts of a frame's accounting, if it carries one.
pub open spec fn frame_tokens(usage: Option<CompletionUsage>) -> Option<TokenUsage> {
    match usage {
        Some(usage) => Some(
            TokenUsage {
                prompt_tokens: usage.prompt_tokens,
                completion_tokens: usage.completion_tokens,
                total_tokens: usage.total_tokens,
            },
        ),
        None => None,
    }
}

/// The fragments of tool calls in the first choice of a frame.
pub open spec fn frame_fragments(frame: CreateChatCompletionStreamResponseView) -> Seq<
    ChatCompletionMessageToolCallChunkView,
> {
    if frame.choices.len() == 0 {
        Seq::empty()
    } else {
        match frame.choices[0].delta.tool_calls {
            Some(fragments) => fragments,
            None => Seq::empty(),
        }
    }
}

/// The assembler and the consumer's step after one frame. Only the first
/// choice counts. Its fragments of tool calls are collected. Where the frame
/// ends the turn in tool calls, the calls go out and are forgotten; else a
/// text fragment goes out as it is; a frame with neither is an error, unless
/// it carried fragments of tool calls.
pub open spec fn frame_step(state: ChatStreamView, frame: CreateChatCompletionStreamResponseView) -> (
    ChatStreamView,
    StreamStepView,
) {
    if frame.choices.len() == 0 {
        (state, StreamStepView::Item(Err(LLMErrorView::OtherError("No choices in response"@))))
    } else {
        let choice = frame.choices[0];
        let calls = add_fragments(state.calls, frame_fragments(frame));
        if choice.finish_reason == Some(FinishReason::ToolCalls) {
            (
                ChatStreamView { calls: Seq::empty(), ..state },
                StreamStepView::Item(tool_call_item(calls)),
            )
        } else if choice.delta.content is Some {
            (
                ChatStreamView { calls, ..state },
                StreamStepView::Item(
                    Ok(
                        LLMResultView::Generate(
                            text_answer(choice.delta.content->0, frame_tokens(frame.usage)),
                        ),
                    ),
                ),
            )
        } else if frame_fragments(frame).len() > 0 {
            (ChatStreamView { calls, ..state }, StreamStepView::Pending)
        } else {
            (state, StreamStepView::Item(Err(LLMErrorView::OtherError("No content in response"@))))
        }
    }
}

/// The assembler and the consumer's step at the end of the stream: calls
/// that are under way go out, then the sequence ends.
pub open spec fn end_step(state: ChatStreamView) -> (ChatStreamView, StreamStepView) {
    if state.calls.len() > 0 {
        (
            ChatStreamView { calls: Seq::empty(), finished: true },
            StreamStepView::Item(tool_call_item(state.calls)),
        )
    } else {
        (ChatStreamView { calls: Seq::empty(), finished: true }, StreamStepView::End)
    }
}

/// The assembler and the consumer's step after the payload of a message:
/// the sentinel ends the stream; anything else is a frame in JSON.
pub open spec fn payload_step(state: ChatStreamView, data: Seq<char>) -> (
    ChatStreamView,
    StreamStepView,
) {
    if data == "[DONE]"@ {
        end_step(state)
    } else {
        match parsed_json(data) {
            Err(message) => (state, StreamStepView::Item(Err(LLMErrorView::SerdeError(message)))),
            Ok(doc) => match stream_response_of(doc) {
                Err(error) => (
                    state,
                    StreamStepView::Item(Err(LLMErrorView::SerdeError(error.message()))),
                ),
                Ok(frame) => frame_step(state, frame),
            },
        }
    }
}

/// The assembler and the consumer's step after one event. Once the sequence
/// has ended it stays ended. The opening of the stream yields nothing; the
/// end of the stream is no error; any other fault goes out as an error item
/// and leaves the assembler as it was.
pub open spec fn event_step(state: ChatStreamView, event: StreamEventView) -> (
    ChatStreamView,
    StreamStepView,
) {
    if state.finished {
        (state, StreamStepView::End)
    } else {
        match event {
            StreamEventView::Open => (state, StreamStepView::Pending),
            StreamEventView::StreamEnded => end_step(state),
            StreamEventView::Failed(report) => (
                state,
                StreamStepView::Item(Err(LLMErrorView::EventSourceError(report))),
            ),
            StreamEventView::Message(data) => payload_step(state, data),
        }
    }
}

/// The first place of a call is the place that `call_place` names.
pub proof fn lemma_call_place(calls: Seq<ToolCallAccumulatorView>, index: i32)
    ensures
        match call_place(calls, index) {
            Some(place) => is_call_place(calls, index, place),
            None => forall|k: int| 0 <= k < calls.len() ==> (#[trigger] calls[k]).index != index,
        },
        forall|place: int| is_call_place(calls, index, place) ==> call_place(calls, index) == Some(place),
{
    if call_place(calls, index) is None {
        assert forall|k: int| 0 <= k < calls.len() implies (#[trigger] calls[k]).index != index by {
            if calls[k].index == index {
                lemma_first_call(calls, index, k);
            }
        }
    }
}

/// If a call is under way at some place, it has a first place.
proof fn lemma_first_call(calls: Seq<ToolCallAccumulatorView>, index: i32, k: int)
    requires
        0 <= k < calls.len(),
        calls[k].index == index,
    ensures
        exists|place: int| is_call_place(calls, index, place),
    decreases k,
{
    if exists|j: int| 0 <= j < k && (#[trigger] calls[j]).index == index {
        let j = choose|j: int| 0 <= j < k && (#[trigger] calls[j]).index == index;
        lemma_first_call(calls, index, j);
    } else {
        assert(is_call_place(calls, index, k));
    }
}

/// Adding a fragment to the calls after the fragments before it.
pub proof fn lemma_add_fragments_step(
    calls: Seq<ToolCallAccumulatorView>,
    fragments: Seq<ChatCompletionMessageToolCallChunkView>,
    i: int,
)
    requires
        0 <= i < fragments.len(),
    ensures
        add_fragments(calls, fragments.take(i + 1)) == add_fragment(
            add_fragments(calls, fragments.take(i)),
            fragments[i],
        ),
{
    assert(fragments.take(i + 1).drop_last() =~= fragments.take(i));
    assert(fragments.take(i + 1).last() == fragments[i]);
}

impl ToolCallAccumulator {
    /// A call of which nothing has come yet.
    pub fn new(index: i32) -> (call: ToolCallAccumulator)
        ensures
            call.deep_view() == empty_call(index),
    {
        ToolCallAccumulator { index, id: None, name: None, arguments: String::new() }
    }

    /// The call with what `fragment` carries.
    pub fn merged(&self, fragment: &ChatCompletionMessageToolCallChunk) -> (call: ToolCallAccumulator)
        ensures
            call.deep_view() == merge_fragment(self.deep_view(), fragment.deep_view()),
    {
        let id = match &self.id {
            Some(id) => Some(id.clone()),
            None => fragment.id.clone(),
        };
        let piece: Option<&String> = match &fragment.function {
            Some(function) => match &function.name {
                Some(piece) => Some(piece),
                None => None,
            },
            None => None,
        };
        let name = match piece {
            Some(piece) => match &self.name {
                Some(name) => Some(join(name.as_str(), piece.as_str())),
                None => Some(join("", piece.as_str())),
            },
            None => self.name.clone(),
        };
        let more: &str = match &fragment.function {
            Some(function) => match &function.arguments {
                Some(more) => more.as_str(),
                None => "",
            },
            None => "",
        };
        proof {
            reveal_strlit("");
            assert(""@ =~= Seq::<char>::empty());
            assert(Seq::<char>::empty() + fragment_name(fragment.deep_view())->0
                =~= fragment_name(fragment.deep_view())->0);
        }
        let arguments = join(self.arguments.as_str(), more);
        ToolCallAccumulator { index: self.index, id, name, arguments }
    }

    /// The call as the assistant's message lists it.
    pub fn to_json(&self) -> (doc: Json)
        ensures
            doc.deep_view() == call_doc(self.deep_view()),
    {
        let id = match &self.id {
            Some(id) => id.clone(),
            None => String::new(),
        };
        let name = match &self.name {
            Some(name) => name.clone(),
            None => String::new(),
        };
        let mut function: Vec<JsonMember> = Vec::new();
        Json::push_member(&mut function, "name", Json::Str(name));
        Json::push_member(&mut function, "arguments", Json::Str(self.arguments.clone()));
        let mut members: Vec<JsonMember> = Vec::new();
        Json::push_member(&mut members, "id", Json::Str(id));
        Json::push_member(&mut members, "type", Json::from_text("function"));
        Json::push_member(&mut members, "function", Json::from_members(function));
        let doc = Json::from_members(members);
        assert(doc.deep_view()->Object_0 =~= call_doc(self.deep_view())->Object_0) by {
            assert(doc.deep_view()->Object_0[2].1->Object_0 =~= call_doc(
                self.deep_view(),
            )->Object_0[2].1->Object_0);
        }
        doc
    }
}

/// The place among `calls` of the call `index`, if it is under way.
fn find_call(calls: &Vec<ToolCallAccumulator>, index: i32) -> (found: Option<usize>)
    ensures
        match found {
            Some(place) => call_place(calls.deep_view(), index) == Some(place as int) && place
                < calls.len(),
            None => call_place(calls.deep_view(), index) is None,
        },
{
    let mut i: usize = 0;
    while i < calls.len()
        invariant
            i <= calls.len(),
            forall|k: int| 0 <= k < i ==> (#[trigger] calls.deep_view()[k]).index != index,
        decreases calls.len() - i,
    {
        if calls[i].index == index {
            proof {
                assert(calls.deep_view()[i as int].index == index);
                assert(is_call_place(calls.deep_view(), index, i as int));
                lemma_call_place(calls.deep_view(), index);
            }
            return Some(i);
        }
        i += 1;
    }
    proof {
        lemma_call_place(calls.deep_view(), index);
    }
    None
}

/// Adds one fragment to `calls`.
fn collect_fragment(calls: &mut Vec<ToolCallAccumulator>, fragment: &ChatCompletionMessageToolCallChunk)
    ensures
        final(calls).deep_view() == add_fragment(old(calls).deep_view(), fragment.deep_view()),
{
    let index = match fragment.index {
        Some(index) => index,
        None => 0,
    };
    let ghost before = calls.deep_view();
    match find_call(calls, index) {
        Some(place) => {
            let mut call = calls[place].merged(fragment);
            std::mem::swap(&mut calls[place], &mut call);
            assert(calls.deep_view() =~= add_fragment(before, fragment.deep_view()));
        },
        None => {
            let call = ToolCallAccumulator::new(index).merged(fragment);
            calls.push(call);
            assert(calls.deep_view() =~= add_fragment(before, fragment.deep_view()));
        },
    }
}

/// Adds the fragments of one frame to `calls`, in order.
fn collect_fragments(
    calls: &mut Vec<ToolCallAccumulator>,
    fragments: &Vec<ChatCompletionMessageToolCallChunk>,
)
    ensures
        final(calls).deep_view() == add_fragments(old(calls).deep_view(), fragments.deep_view()),
{
    let ghost before = calls.deep_view();
    let ghost all = fragments.deep_view();
    let mut i: usize = 0;
    assert(all.take(0) =~= Seq::empty());
    while i < fragments.len()
        invariant
            i <= fragments.len(),
            all == fragments.deep_view(),
            calls.deep_view() == add_fragments(before, all.take(i as int)),
        decreases fragments.len() - i,
    {
        proof {
            lemma_add_fragments_step(before, all, i as int);
        }
        collect_fragment(calls, &fragments[i]);
        i += 1;
    }
    assert(all.take(fragments.len() as int) =~= all);
}

/// The calls as the assistant's message lists them.
fn calls_to_json(calls: &Vec<ToolCallAccumulator>) -> (doc: Json)
    ensures
        doc.deep_view() == calls_doc(calls.deep_view()),
{
    let mut items: Vec<Json> = Vec::new();
    let mut i: usize = 0;
    while i < calls.len()
        invariant
            i <= calls.len(),
            items.len() == i,
            forall|k: int| 0 <= k < i ==> items@[k].deep_view() == call_doc(calls.deep_view()[k]),
        decreases calls.len() - i,
    {
        items.push(calls[i].to_json());
        i += 1;
    }
    let doc = Json::from_items(items);
    assert(doc.deep_view()->Array_0 =~= calls_doc(calls.deep_view())->Array_0);
    doc
}

/// The item for the complete `calls`.
pub fn tool_call_result(calls: &Vec<ToolCallAccumulator>) -> (item: Result<LLMResult, LLMError>)
    ensures
        item_view(item) == tool_call_item(calls.deep_view()),
{
    if calls.len() == 0 {
        return Err(LLMError::OtherError("No tool call in response".to_owned()));
    }
    let first = &calls[0];
    assert(first.deep_view() == calls.deep_view()[0]);
    let name = match &first.name {
        None => {
            return Err(LLMError::OtherError("No tool name in response".to_owned()));
        },
        Some(name) => name.clone(),
    };
    let arguments = match Json::parse(first.arguments.as_str()) {
        Err(message) => {
            return Err(LLMError::SerdeError(message));
        },
        Ok(arguments) => arguments,
    };
    let id = match &first.id {
        Some(id) => id.clone(),
        None => String::new(),
    };
    let ai_message = Message {
        content: Some("tool called".to_owned()),
        message_type: MessageType::AIMessage,
        id: None,
        tool_calls: Some(calls_to_json(calls)),
        images: None,
        name: None,
    };
    Ok(LLMResult::ToolCall(ToolCallResult { id, name, arguments, ai_message }))
}

impl ChatStream {
    /// An assembler at the start of a stream.
    pub fn new() -> (stream: ChatStream)
        ensures
            stream.deep_view() == (ChatStreamView { calls: Seq::empty(), finished: false }),
    {
        let stream = ChatStream { calls: Vec::new(), finished: false };
        assert(stream.calls.deep_view() =~= Seq::empty());
        stream
    }

    /// Whether the sequence has ended.
    pub fn is_finished(&self) -> (finished: bool)
        ensures
            finished == self.deep_view().finished,
    {
        self.finished
    }

    /// Forgets the calls under way.
    fn forget_calls(&mut self)
        ensures
            final(self).deep_view() == (ChatStreamView {
                calls: Seq::empty(),
                ..old(self).deep_view()
            }),
    {
        self.calls = Vec::new();
        assert(self.calls.deep_view() =~= Seq::empty());
    }

    /// Takes one frame of the answer.
    pub fn on_frame(&mut self, frame: &CreateChatCompletionStreamResponse) -> (step: StreamStep)
        ensures
            (final(self).deep_view(), step.deep_view()) == frame_step(
                old(self).deep_view(),
                frame.deep_view(),
            ),
    {
        if frame.choices.len() == 0 {
            return StreamStep::Item(Err(LLMError::OtherError("No choices in response".to_owned())));
        }
        let choice = &frame.choices[0];
        assert(choice.deep_view() == frame.deep_view().choices[0]);
        let mut carried: bool = false;
        if let Some(fragments) = &choice.delta.tool_calls {
            carried = fragments.len() > 0;
        }
        let ends_in_calls = match choice.finish_reason {
            Some(FinishReason::ToolCalls) => true,
            _ => false,
        };
        if !ends_in_calls && choice.delta.content.is_none() && !carried {
            proof {
                assert(add_fragments(old(self).deep_view().calls, Seq::empty()) == old(
                    self,
                ).deep_view().calls);
            }
            return StreamStep::Item(Err(LLMError::OtherError("No content in response".to_owned())));
        }
        match &choice.delta.tool_calls {
            Some(fragments) => {
                collect_fragments(&mut self.calls, fragments);
            },
            None => {},
        }
        if ends_in_calls {
            let item = tool_call_result(&self.calls);
            self.forget_calls();
            return StreamStep::Item(item);
        }
        match &choice.delta.content {
            Some(content) => {
                let tokens = match &frame.usage {
                    Some(usage) => Some(usage.token_usage()),
                    None => None,
                };
                StreamStep::Item(Ok(LLMResult::Generate(GenerateResult::new(content.clone(), tokens))))
            },
            None => StreamStep::Pending,
        }
    }

    /// Takes the end of the stream.
    fn on_end(&mut self) -> (step: StreamStep)
        ensures
            (final(self).deep_view(), step.deep_view()) == end_step(old(self).deep_view()),
    {
        self.finished = true;
        if self.calls.len() > 0 {
            let item = tool_call_result(&self.calls);
            self.forget_calls();
            StreamStep::Item(item)
        } else {
            assert(self.calls.deep_view() =~= Seq::empty());
            StreamStep::End
        }
    }

    /// Takes the payload of a message.
    pub fn on_payload(&mut self, data: &str) -> (step: StreamStep)
        ensures
            (final(self).deep_view(), step.deep_view()) == payload_step(
                old(self).deep_view(),
                data@,
            ),
    {
        if same_text(data, "[DONE]") {
            return self.on_end();
        }
        let doc = match Json::parse(data) {
            Err(message) => {
                return StreamStep::Item(Err(LLMError::SerdeError(message)));
            },
            Ok(doc) => doc,
        };
        match CreateChatCompletionStreamResponse::from_json(&doc) {
            Err(error) => StreamStep::Item(Err(LLMError::SerdeError(error.to_string()))),
            Ok(frame) => self.on_frame(&frame),
        }
    }

    /// Takes one event of the transport and says what the consumer gets.
    pub fn on_event(&mut self, event: &StreamEvent) -> (step: StreamStep)
        ensures
            (final(self).deep_view(), step.deep_view()) == event_step(
                old(self).deep_view(),
                event.deep_view(),
            ),
    {
        if self.finished {
            return StreamStep::End;
        }
        match event {
            StreamEvent::Open => StreamStep::Pending,
            StreamEvent::StreamEnded => self.on_end(),
            StreamEvent::Failed(report) => StreamStep::Item(
                Err(LLMError::EventSourceError(report.clone())),
            ),
            StreamEvent::Message(data) => self.on_payload(data.as_str()),
        }
    }
}

/// The assembler after `events` and the items that came out for them, in
/// order.
pub open spec fn stream_run(state: ChatStreamView, events: Seq<StreamEventView>) -> (
    ChatStreamView,
    Seq<Result<LLMResultView, LLMErrorView>>,
)
    decreases events.len(),
{
    if events.len() == 0 {
        (state, Seq::empty())
    } else {
        let before = stream_run(state, events.drop_last());
        let step = event_step(before.0, events.last());
        (
            step.0,
            match step.1 {
                StreamStepView::Item(item) => before.1.push(item),
                _ => before.1,
            },
        )
    }
}

/// The pieces one after the other.
pub open spec fn joined(pieces: Seq<Seq<char>>) -> Seq<char>
    decreases pieces.len(),
{
    if pieces.len() == 0 {
        Seq::empty()
    } else {
        joined(pieces.drop_last()) + pieces.last()
    }
}

/// The turn after one more item: a tool call stays; a text answer takes a
/// first tool call, grows by a text fragment and takes its accounting if it
/// has one, and passes over an error.
pub open spec fn turn_with(turn: LLMResultView, item: Result<LLMResultView, LLMErrorView>) -> LLMResultView {
    match turn {
        LLMResultView::ToolCall(call) => turn,
        LLMResultView::Generate(answer) => match item {
            Ok(LLMResultView::ToolCall(call)) => LLMResultView::ToolCall(call),
            Ok(LLMResultView::Generate(fragment)) => LLMResultView::Generate(
                text_answer(
                    answer.generation + fragment.generation,
                    match fragment.tokens {
                        Some(tokens) => Some(tokens),
                        None => answer.tokens,
                    },
                ),
            ),
            Err(error) => turn,
        },
    }
}

/// The one turn that `items` make: the first tool call among them, or else
/// their text fragments in order with the last accounting that came.
pub open spec fn turn_of(items: Seq<Result<LLMResultView, LLMErrorView>>) -> LLMResultView
    decreases items.len(),
{
    if items.len() == 0 {
        LLMResultView::Generate(text_answer(Seq::empty(), None))
    } else {
        turn_with(turn_of(items.drop_last()), items.last())
    }
}

/// An assembler at the start of a stream.
pub open spec fn fresh_stream() -> ChatStreamView {
    ChatStreamView { calls: Seq::empty(), finished: false }
}

/// The one turn of a whole stream.
pub open spec fn stream_turn(events: Seq<StreamEventView>) -> LLMResultView {
    turn_of(stream_run(fresh_stream(), events).1)
}

/// The turn after one more item.
fn extend_turn(turn: LLMResult, item: Result<LLMResult, LLMError>) -> (next: LLMResult)
    ensures
        next.deep_view() == turn_with(turn.deep_view(), item_view(item)),
{
    match turn {
        LLMResult::ToolCall(call) => LLMResult::ToolCall(call),
        LLMResult::Generate(answer) => match item {
            Ok(LLMResult::ToolCall(call)) => LLMResult::ToolCall(call),
            Ok(LLMResult::Generate(fragment)) => {
                let tokens = match fragment.tokens() {
                    Some(tokens) => Some(tokens),
                    None => answer.tokens(),
                };
                let text = join(answer.generation(), fragment.generation());
                LLMResult::Generate(GenerateResult::new(text, tokens))
            },
            Err(error) => LLMResult::Generate(answer),
        },
    }
}

/// Reads a whole stream and returns it as one turn: the first tool call that
/// it makes, or else its text fragments put together, with the last token
/// accounting that came. Error items are passed over.
pub fn assemble(events: &Vec<StreamEvent>) -> (turn: LLMResult)
    ensures
        turn.deep_view() == stream_turn(events.deep_view()),
{
    let ghost all = events.deep_view();
    let mut stream = ChatStream::new();
    let mut turn = LLMResult::Generate(GenerateResult::new(String::new(), None));
    let ghost mut items: Seq<Result<LLMResultView, LLMErrorView>> = Seq::empty();
    let mut i: usize = 0;
    assert(all.take(0) =~= Seq::empty());
    while i < events.len()
        invariant
            i <= events.len(),
            all == events.deep_view(),
            stream_run(fresh_stream(), all.take(i as int)) == (stream.deep_view(), items),
            turn.deep_view() == turn_of(items),
        decreases events.len() - i,
    {
        proof {
            assert(all.take(i + 1).drop_last() =~= all.take(i as int));
            assert(all.take(i + 1).last() == events@[i as int].deep_view());
        }
        match stream.on_event(&events[i]) {
            StreamStep::Item(item) => {
                proof {
                    let before = items;
                    items = items.push(item_view(item));
                    assert(items.drop_last() =~= before);
                }
                turn = extend_turn(turn, item);
            },
            _ => {},
        }
        i += 1;
    }
    assert(all.take(events.len() as int) =~= all);
    turn
}

/// The events of a stream that sends `payloads` and then the sentinel.
pub open spec fn frames_then_done(payloads: Seq<Seq<char>>) -> Seq<StreamEventView> {
    Seq::new(
        payloads.len() + 1,
        |i: int|
            if i < payloads.len() {
                StreamEventView::Message(payloads[i])
            } else {
                StreamEventView::Message("[DONE]"@)
            },
    )
}

/// Whether `payload` is a frame whose first choice carries the text
/// `fragment` and has nothing to do with tool calls.
pub open spec fn carries_text(payload: Seq<char>, fragment: Seq<char>) -> bool {
    &&& payload != "[DONE]"@
    &&& parsed_json(payload) is Ok
    &&& stream_response_of(parsed_json(payload)->Ok_0) is Ok
    &&& {
        let frame = stream_response_of(parsed_json(payload)->Ok_0)->Ok_0;
        &&& frame.choices.len() > 0
        &&& frame.choices[0].finish_reason != Some(FinishReason::ToolCalls)
        &&& frame.choices[0].delta.content == Some(fragment)
        &&& frame_fragments(frame).len() == 0
    }
}

/// The events that send `payloads`, in order.
pub open spec fn frame_events(payloads: Seq<Seq<char>>) -> Seq<StreamEventView> {
    Seq::new(payloads.len(), |i: int| StreamEventView::Message(payloads[i]))
}

/// Frames that carry text leave the assembler as it was at the start, and
/// the text fragments that come out add up to the pieces in order.
proof fn lemma_text_frames(fragments: Seq<Seq<char>>, payloads: Seq<Seq<char>>)
    requires
        payloads.len() == fragments.len(),
        forall|i: int| 0 <= i < payloads.len() ==> carries_text(#[trigger] payloads[i], fragments[i]),
    ensures
        stream_run(fresh_stream(), frame_events(payloads)).0 == fresh_stream(),
        turn_of(stream_run(fresh_stream(), frame_events(payloads)).1) is Generate,
        turn_of(stream_run(fresh_stream(), frame_events(payloads)).1)->Generate_0.generation
            == joined(fragments),
    decreases payloads.len(),
{
    if payloads.len() > 0 {
        let last = payloads.len() - 1;
        assert(frame_events(payloads).drop_last() =~= frame_events(payloads.drop_last()));
        assert forall|i: int| 0 <= i < payloads.drop_last().len() implies carries_text(
            #[trigger] payloads.drop_last()[i],
            fragments.drop_last()[i],
        ) by {
            assert(carries_text(payloads[i], fragments[i]));
        }
        lemma_text_frames(fragments.drop_last(), payloads.drop_last());
        assert(carries_text(payloads[last], fragments[last]));
        assert(frame_events(payloads).last() == StreamEventView::Message(payloads[last]));
        let frame = stream_response_of(parsed_json(payloads[last])->Ok_0)->Ok_0;
        assert(add_fragments(Seq::empty(), frame_fragments(frame)) == Seq::<
            ToolCallAccumulatorView,
        >::empty());
        let before = stream_run(fresh_stream(), frame_events(payloads.drop_last()));
        let step = event_step(before.0, StreamEventView::Message(payloads[last]));
        let item = Ok::<LLMResultView, LLMErrorView>(
            LLMResultView::Generate(text_answer(fragments[last], frame_tokens(frame.usage))),
        );
        assert(step.1 == StreamStepView::Item(item));
        let items = stream_run(fresh_stream(), frame_events(payloads)).1;
        assert(items == before.1.push(item));
        assert(items.drop_last() =~= before.1);
        assert(items.last() == item);
        assert(turn_of(items) == turn_with(turn_of(before.1), item));
        assert(fragments.last() == fragments[last]);
    } else {
        assert(fragments.len() == 0);
    }
}

/// A text answer that is split into any number of frames, at least one, and
/// followed by the sentinel comes out whole: the text fragments that the
/// assembler hands out, put together in the order of arrival, are the pieces
/// in order. If the pieces make up a text, they reproduce that text exactly.
pub proof fn lemma_streamed_text_is_reassembled(
    fragments: Seq<Seq<char>>,
    payloads: Seq<Seq<char>>,
)
    requires
        fragments.len() >= 1,
        payloads.len() == fragments.len(),
        forall|i: int| 0 <= i < payloads.len() ==> carries_text(#[trigger] payloads[i], fragments[i]),
    ensures
        stream_turn(frames_then_done(payloads)) is Generate,
        stream_turn(frames_then_done(payloads))->Generate_0.generation == joined(fragments),
        stream_run(fresh_stream(), frames_then_done(payloads)).0.finished,
{
    lemma_text_frames(fragments, payloads);
    assert(frames_then_done(payloads).drop_last() =~= frame_events(payloads));
    assert(frames_then_done(payloads).last() == StreamEventView::Message("[DONE]"@));
}

/// A fragment that carries a piece of the arguments of the call `index` and
/// nothing else.
pub open spec fn arguments_fragment(index: Option<i32>, piece: Seq<char>) -> ChatCompletionMessageToolCallChunkView {
    ChatCompletionMessageToolCallChunkView {
        index,
        id: None,
        kind: None,
        function: Some(crate::openai::FunctionCallStreamView { name: None, arguments: Some(piece) }),
    }
}

/// The fragments that carry `pieces` for the call `index`, in order.
pub open spec fn arguments_fragments(index: Option<i32>, pieces: Seq<Seq<char>>) -> Seq<
    ChatCompletionMessageToolCallChunkView,
> {
    Seq::new(pieces.len(), |i: int| arguments_fragment(index, pieces[i]))
}

/// Two pieces of arguments, one after the other, collect to what the two
/// pieces in one fragment collect to.
proof fn lemma_two_pieces(
    calls: Seq<ToolCallAccumulatorView>,
    index: Option<i32>,
    first: Seq<char>,
    second: Seq<char>,
)
    ensures
        add_fragment(
            add_fragment(calls, arguments_fragment(index, first)),
            arguments_fragment(index, second),
        ) == add_fragment(calls, arguments_fragment(index, first + second)),
{
    let key = fragment_index(arguments_fragment(index, first));
    let once = add_fragment(calls, arguments_fragment(index, first));
    lemma_call_place(calls, key);
    lemma_call_place(once, key);
    match call_place(calls, key) {
        Some(place) => {
            assert(is_call_place(once, key, place));
            assert(calls[place].arguments + first + second =~= calls[place].arguments + (first
                + second));
            assert(add_fragment(once, arguments_fragment(index, second)) =~= add_fragment(
                calls,
                arguments_fragment(index, first + second),
            ));
        },
        None => {
            assert(is_call_place(once, key, calls.len() as int));
            assert(Seq::<char>::empty() + first + second =~= Seq::<char>::empty() + (first
                + second));
            assert(add_fragment(once, arguments_fragment(index, second)) =~= add_fragment(
                calls,
                arguments_fragment(index, first + second),
            ));
        },
    }
}

/// The arguments of a tool call do not depend on how they were cut into
/// fragments: pieces that arrive one fragment at a time collect to the same
/// calls as the whole argument text in a single fragment, so the text that
/// is parsed in the end is the same.
pub proof fn lemma_fragmented_arguments(
    calls: Seq<ToolCallAccumulatorView>,
    index: Option<i32>,
    pieces: Seq<Seq<char>>,
)
    requires
        pieces.len() >= 1,
    ensures
        add_fragments(calls, arguments_fragments(index, pieces)) == add_fragment(
            calls,
            arguments_fragment(index, joined(pieces)),
        ),
    decreases pieces.len(),
{
    let fragments = arguments_fragments(index, pieces);
    assert(fragments.drop_last() =~= arguments_fragments(index, pieces.drop_last()));
    assert(fragments.last() == arguments_fragment(index, pieces.last()));
    if pieces.len() == 1 {
        assert(add_fragments(calls, fragments.drop_last()) == calls);
        assert(joined(pieces.drop_last()) =~= Seq::<char>::empty());
        assert(joined(pieces) =~= pieces.last());
    } else {
        lemma_fragmented_arguments(calls, index, pieces.drop_last());
        lemma_two_pieces(calls, index, joined(pieces.drop_last()), pieces.last());
    }
}

/// What one event means for the frames of a stream.
#[derive(Debug, PartialEq)]
pub enum FrameStep {
    /// The event carries no frame.
    Skip,
    /// The stream has ended.
    Stop,
    /// The next frame, or the reason why there is none.
    Frame(Result<CreateChatCompletionStreamResponse, LLMError>),
}

pub enum FrameStepView {
    Skip,
    Stop,
    Frame(Result<CreateChatCompletionStreamResponseView, LLMErrorView>),
}

impl DeepView for FrameStep {
    type V = FrameStepView;

    open spec fn deep_view(&self) -> FrameStepView {
        match self {
            FrameStep::Skip => FrameStepView::Skip,
            FrameStep::Stop => FrameStepView::Stop,
            FrameStep::Frame(frame) => FrameStepView::Frame(frame_view(*frame)),
        }
    }
}

/// What `event` means for the frames of a stream: the opening carries none;
/// the sentinel and the end of the stream end it; a fault of the transport
/// and a payload that is no frame are errors that quote the report.
pub open spec fn frame_of(event: StreamEventView) -> FrameStepView {
    match event {
        StreamEventView::Open => FrameStepView::Skip,
        StreamEventView::StreamEnded => FrameStepView::Stop,
        StreamEventView::Failed(report) => FrameStepView::Frame(
            Err(LLMErrorView::OtherError("Event source error: "@ + report)),
        ),
        StreamEventView::Message(data) => if data == "[DONE]"@ {
            FrameStepView::Stop
        } else {
            match parsed_json(data) {
                Err(report) => FrameStepView::Frame(
                    Err(LLMErrorView::OtherError("serde_json error: "@ + report)),
                ),
                Ok(doc) => match stream_response_of(doc) {
                    Err(error) => FrameStepView::Frame(
                        Err(LLMErrorView::OtherError("serde_json error: "@ + error.message())),
                    ),
                    Ok(frame) => FrameStepView::Frame(Ok(frame)),
                },
            }
        },
    }
}

/// The frames of `events` up to the first event that ends the stream.
pub open spec fn frames_of(events: Seq<StreamEventView>) -> Seq<
    Result<CreateChatCompletionStreamResponseView, LLMErrorView>,
>
    decreases events.len(),
{
    if events.len() == 0 {
        Seq::empty()
    } else {
        match frame_of(events.first()) {
            FrameStepView::Stop => Seq::empty(),
            FrameStepView::Skip => frames_of(events.drop_first()),
            FrameStepView::Frame(frame) => seq![frame] + frames_of(events.drop_first()),
        }
    }
}

/// The mathematical value of a frame, or of the reason why there is none.
pub open spec fn frame_view(frame: Result<CreateChatCompletionStreamResponse, LLMError>) -> Result<
    CreateChatCompletionStreamResponseView,
    LLMErrorView,
> {
    match frame {
        Ok(frame) => Ok(frame.deep_view()),
        Err(error) => Err(error.deep_view()),
    }
}

/// The mathematical value of a list of frames.
pub open spec fn frames_view(
    frames: Seq<Result<CreateChatCompletionStreamResponse, LLMError>>,
) -> Seq<Result<CreateChatCompletionStreamResponseView, LLMErrorView>> {
    Seq::new(frames.len(), |i: int| frame_view(frames[i]))
}

/// What `event` means for the frames of a stream.
pub fn stream_step(event: &StreamEvent) -> (step: FrameStep)
    ensures
        step.deep_view() == frame_of(event.deep_view()),
{
    match event {
        StreamEvent::Open => FrameStep::Skip,
        StreamEvent::StreamEnded => FrameStep::Stop,
        StreamEvent::Failed(report) => FrameStep::Frame(
            Err(LLMError::OtherError(join("Event source error: ", report.as_str()))),
        ),
        StreamEvent::Message(data) => {
            if same_text(data.as_str(), "[DONE]") {
                return FrameStep::Stop;
            }
            let doc = match Json::parse(data.as_str()) {
                Err(report) => {
                    return FrameStep::Frame(
                        Err(LLMError::OtherError(join("serde_json error: ", report.as_str()))),
                    );
                },
                Ok(doc) => doc,
            };
            match CreateChatCompletionStreamResponse::from_json(&doc) {
                Err(error) => FrameStep::Frame(
                    Err(
                        LLMError::OtherError(
                            join("serde_json error: ", error.to_string().as_str()),
                        ),
                    ),
                ),
                Ok(frame) => FrameStep::Frame(Ok(frame)),
            }
        },
    }
}

/// The frames of a stream, in order, up to its end: a fault does not end
/// the stream, the sentinel and the end of the transport do.
pub fn stream(events: &Vec<StreamEvent>) -> (frames: Vec<
    Result<CreateChatCompletionStreamResponse, LLMError>,
>)
    ensures
        frames_view(frames@) == frames_of(events.deep_view()),
{
    let ghost all = events.deep_view();
    let mut frames: Vec<Result<CreateChatCompletionStreamResponse, LLMError>> = Vec::new();
    let mut i: usize = 0;
    assert(all.skip(0) =~= all);
    assert(frames_view(frames@) =~= Seq::empty());
    while i < events.len()
        invariant
            i <= events.len(),
            all == events.deep_view(),
            frames_of(all) == frames_view(frames@) + frames_of(all.skip(i as int)),
        decreases events.len() - i,
    {
        proof {
            assert(all.skip(i as int).first() == events@[i as int].deep_view());
            assert(all.skip(i as int).drop_first() =~= all.skip(i + 1));
        }
        let ghost before = frames_view(frames@);
        match stream_step(&events[i]) {
            FrameStep::Stop => {
                assert(before + Seq::empty() =~= before);
                return frames;
            },
            FrameStep::Skip => {},
            FrameStep::Frame(frame) => {
                let ghost one = frame_view(frame);
                frames.push(frame);
                proof {
                    assert(frames_view(frames@) =~= before.push(one));
                    assert(before + (seq![one] + frames_of(all.skip(i + 1))) =~= before.push(one)
                        + frames_of(all.skip(i + 1)));
                }
            },
        }
        i += 1;
    }
    assert(frames_view(frames@) + Seq::empty() =~= frames_view(frames@));
    frames
}

} // verus!
