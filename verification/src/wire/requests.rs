//! Requests, tools and tool calls as JSON documents.
use crate::gemini::schema::{GeminiRequest, GeminiRequestView, OpenAIContent, OpenAIContentView};
use crate::json::{members_view, Json, JsonMember, JsonView};
use crate::openai::{
    ChatCompletionMessageToolCall, ChatCompletionMessageToolCallView, Tool, ToolView,
};
use crate::wire::schemas::parameters_doc;
use crate::wire::{optional_text_doc, optional_text_json, push_optional, with_optional};
use vstd::prelude::*;

verus! {

/// A tool as a document.
pub open spec fn tool_doc(tool: ToolView) -> JsonView {
    JsonView::Object(
        seq![
            ("type"@, JsonView::Str("function"@)),
            (
                "function"@,
                JsonView::Object(
                    seq![
                        ("name"@, JsonView::Str(tool.function.name)),
                        ("description"@, JsonView::Str(tool.function.description)),
                        ("parameters"@, parameters_doc(tool.function.parameters)),
                    ],
                ),
            ),
        ],
    )
}

/// The tools as a document.
pub open spec fn tools_doc(tools: Seq<ToolView>) -> JsonView {
    JsonView::Array(Seq::new(tools.len(), |i: int| tool_doc(tools[i])))
}

/// A complete tool call as a document.
pub open spec fn tool_call_doc(call: ChatCompletionMessageToolCallView) -> JsonView {
    JsonView::Object(
        seq![
            ("id"@, JsonView::Str(call.id)),
            ("type"@, JsonView::Str("function"@)),
            (
                "function"@,
                JsonView::Object(
                    seq![
                        ("name"@, JsonView::Str(call.function.name)),
                        ("arguments"@, JsonView::Str(call.function.arguments)),
                    ],
                ),
            ),
        ],
    )
}

/// The tool calls of an answer as a document.
pub open spec fn tool_calls_doc(calls: Seq<ChatCompletionMessageToolCallView>) -> JsonView {
    JsonView::Array(Seq::new(calls.len(), |i: int| tool_call_doc(calls[i])))
}

/// A text as a document; `null` where it is not given.
pub open spec fn text_or_null(text: Option<Seq<char>>) -> JsonView {
    match text {
        Some(text) => JsonView::Str(text),
        None => JsonView::Null,
    }
}

/// One message of a request as a document: the role and the content always,
/// the tool calls and the call identifier where they are given.
pub open spec fn content_doc(content: OpenAIContentView) -> JsonView {
    JsonView::Object(
        with_optional(
            with_optional(
                seq![
                    ("role"@, JsonView::Str(content.role)),
                    ("content"@, text_or_null(content.content)),
                ],
                "tool_calls"@,
                content.tool_calls,
            ),
            "tool_call_id"@,
            optional_text_doc(content.tool_call_id),
        ),
    )
}

/// The messages of a request as a document.
pub open spec fn contents_doc(contents: Seq<OpenAIContentView>) -> JsonView {
    JsonView::Array(Seq::new(contents.len(), |i: int| content_doc(contents[i])))
}

/// The tools of a request as a document, where they are given.
pub open spec fn optional_tools_doc(tools: Option<Seq<ToolView>>) -> Option<JsonView> {
    match tools {
        Some(tools) => Some(tools_doc(tools)),
        None => None,
    }
}

/// The flag of a request as a document, where it is given.
pub open spec fn optional_flag_doc(flag: Option<bool>) -> Option<JsonView> {
    match flag {
        Some(flag) => Some(JsonView::Bool(flag)),
        None => None,
    }
}

/// A request as a document: the messages, the tools and the tool choice
/// where they are given, the model, and the stream flag where it is given.
pub open spec fn request_doc(request: GeminiRequestView) -> JsonView {
    JsonView::Object(
        with_optional(
            with_optional(
                with_optional(
                    seq![("messages"@, contents_doc(request.messages))],
                    "tools"@,
                    optional_tools_doc(request.tools),
                ),
                "tool_choice"@,
                optional_text_doc(request.tool_choice),
            ).push(("model"@, JsonView::Str(request.model))),
            "stream"@,
            optional_flag_doc(request.stream),
        ),
    )
}

impl Tool {
    /// The tool as a document.
    pub fn to_json(&self) -> (doc: Json)
        ensures
            doc.deep_view() == tool_doc(self.deep_view()),
    {
        let mut function: Vec<JsonMember> = Vec::new();
        Json::push_member(&mut function, "name", Json::Str(self.function.name.clone()));
        Json::push_member(&mut function, "description", Json::Str(self.function.description.clone()));
        Json::push_member(&mut function, "parameters", self.function.parameters.to_json());
        let mut members: Vec<JsonMember> = Vec::new();
        Json::push_member(&mut members, "type", Json::from_text("function"));
        Json::push_member(&mut members, "function", Json::from_members(function));
        let doc = Json::from_members(members);
        assert(doc.deep_view()->Object_0 =~= tool_doc(self.deep_view())->Object_0) by {
            assert(doc.deep_view()->Object_0[1].1->Object_0 =~= tool_doc(
                self.deep_view(),
            )->Object_0[1].1->Object_0);
        }
        doc
    }
}

/// The tools as a document.
pub fn tools_to_json(tools: &Vec<Tool>) -> (doc: Json)
    ensures
        doc.deep_view() == tools_doc(tools.deep_view()),
{
    let mut items: Vec<Json> = Vec::new();
    let mut i: usize = 0;
    while i < tools.len()
        invariant
            i <= tools.len(),
            items.len() == i,
            forall|k: int| 0 <= k < i ==> items@[k].deep_view() == tool_doc(tools.deep_view()[k]),
        decreases tools.len() - i,
    {
        items.push(tools[i].to_json());
        i += 1;
    }
    let doc = Json::from_items(items);
    assert(doc.deep_view()->Array_0 =~= tools_doc(tools.deep_view())->Array_0);
    doc
}

impl ChatCompletionMessageToolCall {
    /// The tool call as a document.
    pub fn to_json(&self) -> (doc: Json)
        ensures
            doc.deep_view() == tool_call_doc(self.deep_view()),
    {
        let mut function: Vec<JsonMember> = Vec::new();
        Json::push_member(&mut function, "name", Json::Str(self.function.name.clone()));
        Json::push_member(&mut function, "arguments", Json::Str(self.function.arguments.clone()));
        let mut members: Vec<JsonMember> = Vec::new();
        Json::push_member(&mut members, "id", Json::Str(self.id.clone()));
        Json::push_member(&mut members, "type", Json::from_text("function"));
        Json::push_member(&mut members, "function", Json::from_members(function));
        let doc = Json::from_members(members);
        assert(doc.deep_view()->Object_0 =~= tool_call_doc(self.deep_view())->Object_0) by {
            assert(doc.deep_view()->Object_0[2].1->Object_0 =~= tool_call_doc(
                self.deep_view(),
            )->Object_0[2].1->Object_0);
        }
        doc
    }
}

/// The tool calls of an answer as a document.
pub fn tool_calls_to_json(calls: &Vec<ChatCompletionMessageToolCall>) -> (doc: Json)
    ensures
        doc.deep_view() == tool_calls_doc(calls.deep_view()),
{
    let mut items: Vec<Json> = Vec::new();
    let mut i: usize = 0;
    while i < calls.len()
        invariant
            i <= calls.len(),
            items.len() == i,
            forall|k: int|
                0 <= k < i ==> items@[k].deep_view() == tool_call_doc(calls.deep_view()[k]),
        decreases calls.len() - i,
    {
        items.push(calls[i].to_json());
        i += 1;
    }
    let doc = Json::from_items(items);
    assert(doc.deep_view()->Array_0 =~= tool_calls_doc(calls.deep_view())->Array_0);
    doc
}

impl OpenAIContent {
    /// The message as a document.
    pub fn to_json(&self) -> (doc: Json)
        ensures
            doc.deep_view() == content_doc(self.deep_view()),
    {
        let mut members: Vec<JsonMember> = Vec::new();
        Json::push_member(&mut members, "role", Json::Str(self.role.clone()));
        let content = match &self.content {
            Some(text) => Json::Str(text.clone()),
            None => Json::Null,
        };
        Json::push_member(&mut members, "content", content);
        assert(members_view(members@) =~= seq![
            ("role"@, JsonView::Str(self.role@)),
            ("content"@, text_or_null(self.content.deep_view())),
        ]);
        let tool_calls = match &self.tool_calls {
            Some(calls) => Some(calls.clone()),
            None => None,
        };
        push_optional(&mut members, "tool_calls", tool_calls);
        push_optional(&mut members, "tool_call_id", optional_text_json(&self.tool_call_id));
        Json::from_members(members)
    }
}

/// The messages of a request as a document.
pub fn contents_to_json(contents: &Vec<OpenAIContent>) -> (doc: Json)
    ensures
        doc.deep_view() == contents_doc(contents.deep_view()),
{
    let mut items: Vec<Json> = Vec::new();
    let mut i: usize = 0;
    while i < contents.len()
        invariant
            i <= contents.len(),
            items.len() == i,
            forall|k: int|
                0 <= k < i ==> items@[k].deep_view() == content_doc(contents.deep_view()[k]),
        decreases contents.len() - i,
    {
        items.push(contents[i].to_json());
        i += 1;
    }
    let doc = Json::from_items(items);
    assert(doc.deep_view()->Array_0 =~= contents_doc(contents.deep_view())->Array_0);
    doc
}

impl GeminiRequest {
    /// The request as a document.
    pub fn to_json(&self) -> (doc: Json)
        ensures
            doc.deep_view() == request_doc(self.deep_view()),
    {
        let mut members: Vec<JsonMember> = Vec::new();
        Json::push_member(&mut members, "messages", contents_to_json(&self.messages));
        assert(members_view(members@) =~= seq![
            ("messages"@, contents_doc(self.messages.deep_view())),
        ]);
        let tools = match &self.tools {
            Some(tools) => Some(tools_to_json(tools)),
            None => None,
        };
        push_optional(&mut members, "tools", tools);
        push_optional(&mut members, "tool_choice", optional_text_json(&self.tool_choice));
        Json::push_member(&mut members, "model", Json::Str(self.model.clone()));
        let stream = match self.stream {
            Some(flag) => Some(Json::Bool(flag)),
            None => None,
        };
        push_optional(&mut members, "stream", stream);
        Json::from_members(members)
    }
}

} // verus!
