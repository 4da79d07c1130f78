//! What a provider hands back: a text answer or a tool call, or an error.
use crate::json::{Json, JsonView};
use crate::messages::{Message, MessageView, Messages};
use crate::openai::TokenUsage;
use crate::text::{decimal, join, u32_to_decimal};
use vstd::hash_map::StringHashMap;
use vstd::prelude::*;
use vstd::string::StringExecFns;

verus! {

/// Options of a provider call. None is defined yet.
#[derive(Debug, Clone, Copy, PartialEq, Eq)]
pub struct CallOptions {}

/// The options `options` overridden by those of `other`. No option is
/// defined yet, so the merged options hold none.
pub open spec fn merged_options(options: CallOptions, other: CallOptions) -> CallOptions {
    CallOptions {  }
}

impl CallOptions {
    /// The options of `self` overridden by those of `other`.
    pub fn merge(&self, other: &CallOptions) -> (merged: CallOptions)
        ensures
            merged == (CallOptions {  }),
    {
        CallOptions {  }
    }
}

impl Default for CallOptions {
    fn default() -> (options: Self)
        ensures
            options == (CallOptions {  }),
    {
        CallOptions {  }
    }
}

/// Why a provider call failed.
#[derive(Debug, PartialEq)]
pub enum LLMError {
    /// The request did not reach the provider or the answer did not come back.
    RequestError(String),
    /// A JSON text could not be read, or did not have the expected shape.
    SerdeError(String),
    IoError(String),
    Timeout,
    InvalidUrl(String),
    /// The answer lacks what the protocol promises at the named place.
    ContentNotFound(String),
    /// The event stream failed.
    EventSourceError(String),
    OtherError(String),
    AnyhowError(String),
}

impl LLMError {
    /// The message of the error.
    pub open spec fn message(self) -> Seq<char> {
        match self {
            LLMError::RequestError(e) => "Network request failed: "@ + e@,
            LLMError::SerdeError(e) => "JSON serialization/deserialization error: "@ + e@,
            LLMError::IoError(e) => "IO error: "@ + e@,
            LLMError::Timeout => "Operation timed out"@,
            LLMError::InvalidUrl(e) => "Invalid URL: "@ + e@,
            LLMError::ContentNotFound(e) => "Content not found in response: Expected at "@ + e@,
            LLMError::EventSourceError(e) => "EventSourceError: "@ + e@,
            LLMError::OtherError(e) => "Error: "@ + e@,
            LLMError::AnyhowError(e) => "Any error: "@ + e@,
        }
    }

    /// The message of the error.
    pub fn to_string(&self) -> (text: String)
        ensures
            text@ == self.message(),
    {
        match self {
            LLMError::RequestError(e) => join("Network request failed: ", e.as_str()),
            LLMError::SerdeError(e) => join(
                "JSON serialization/deserialization error: ",
                e.as_str(),
            ),
            LLMError::IoError(e) => join("IO error: ", e.as_str()),
            LLMError::Timeout => "Operation timed out".to_owned(),
            LLMError::InvalidUrl(e) => join("Invalid URL: ", e.as_str()),
            LLMError::ContentNotFound(e) => join(
                "Content not found in response: Expected at ",
                e.as_str(),
            ),
            LLMError::EventSourceError(e) => join("EventSourceError: ", e.as_str()),
            LLMError::OtherError(e) => join("Error: ", e.as_str()),
            LLMError::AnyhowError(e) => join("Any error: ", e.as_str()),
        }
    }
}

impl Clone for LLMError {
    fn clone(&self) -> (copy: Self)
        ensures
            copy == *self,
    {
        match self {
            LLMError::RequestError(e) => LLMError::RequestError(e.clone()),
            LLMError::SerdeError(e) => LLMError::SerdeError(e.clone()),
            LLMError::IoError(e) => LLMError::IoError(e.clone()),
            LLMError::Timeout => LLMError::Timeout,
            LLMError::InvalidUrl(e) => LLMError::InvalidUrl(e.clone()),
            LLMError::ContentNotFound(e) => LLMError::ContentNotFound(e.clone()),
            LLMError::EventSourceError(e) => LLMError::EventSourceError(e.clone()),
            LLMError::OtherError(e) => LLMError::OtherError(e.clone()),
            LLMError::AnyhowError(e) => LLMError::AnyhowError(e.clone()),
        }
    }
}

/// The mathematical value of an [`LLMError`].
pub enum LLMErrorView {
    RequestError(Seq<char>),
    SerdeError(Seq<char>),
    IoError(Seq<char>),
    Timeout,
    InvalidUrl(Seq<char>),
    ContentNotFound(Seq<char>),
    EventSourceError(Seq<char>),
    OtherError(Seq<char>),
    AnyhowError(Seq<char>),
}

impl DeepView for LLMError {
    type V = LLMErrorView;

    open spec fn deep_view(&self) -> LLMErrorView {
        match self {
            LLMError::RequestError(e) => LLMErrorView::RequestError(e@),
            LLMError::SerdeError(e) => LLMErrorView::SerdeError(e@),
            LLMError::IoError(e) => LLMErrorView::IoError(e@),
            LLMError::Timeout => LLMErrorView::Timeout,
            LLMError::InvalidUrl(e) => LLMErrorView::InvalidUrl(e@),
            LLMError::ContentNotFound(e) => LLMErrorView::ContentNotFound(e@),
            LLMError::EventSourceError(e) => LLMErrorView::EventSourceError(e@),
            LLMError::OtherError(e) => LLMErrorView::OtherError(e@),
            LLMError::AnyhowError(e) => LLMErrorView::AnyhowError(e@),
        }
    }
}

/// A text answer, whole or in part, with the token accounting if it came.
#[derive(Debug, PartialEq)]
pub struct GenerateResult {
    tokens: Option<TokenUsage>,
    generation: String,
    tool_call: Option<String>,
}

pub struct GenerateResultView {
    pub tokens: Option<TokenUsage>,
    pub generation: Seq<char>,
    pub tool_call: Option<Seq<char>>,
}

impl DeepView for GenerateResult {
    type V = GenerateResultView;

    closed spec fn deep_view(&self) -> GenerateResultView {
        GenerateResultView {
            tokens: self.tokens,
            generation: self.generation@,
            tool_call: self.tool_call.deep_view(),
        }
    }
}

impl Clone for GenerateResult {
    fn clone(&self) -> (copy: Self)
        ensures
            copy.deep_view() == self.deep_view(),
    {
        GenerateResult {
            tokens: self.tokens,
            generation: self.generation.clone(),
            tool_call: self.tool_call.clone(),
        }
    }
}

impl Default for GenerateResult {
    fn default() -> (result: Self)
        ensures
            result.deep_view() == text_answer(Seq::empty(), None),
    {
        GenerateResult { tokens: None, generation: String::new(), tool_call: None }
    }
}

/// The answer `generation` with the accounting `tokens`.
pub open spec fn text_answer(generation: Seq<char>, tokens: Option<TokenUsage>) -> GenerateResultView {
    GenerateResultView { tokens, generation, tool_call: None }
}

/// The entries of [`GenerateResult::to_hashmap`]: the text, and the three
/// counts in decimal where the accounting came.
pub open spec fn answer_entries(answer: GenerateResultView) -> Map<Seq<char>, Seq<char>> {
    let text = Map::<Seq<char>, Seq<char>>::empty().insert("generation"@, answer.generation);
    match answer.tokens {
        Some(tokens) => text.insert("prompt_tokens"@, decimal(tokens.prompt_tokens as nat)).insert(
            "completion_tokens"@,
            decimal(tokens.completion_tokens as nat),
        ).insert("total_tokens"@, decimal(tokens.total_tokens as nat)),
        None => text,
    }
}

impl GenerateResult {
    /// The answer `generation` with the accounting `tokens`.
    pub fn new(generation: String, tokens: Option<TokenUsage>) -> (result: GenerateResult)
        ensures
            result.deep_view() == text_answer(generation@, tokens),
    {
        GenerateResult { generation, tokens, tool_call: None }
    }

    /// The result as a table of texts.
    pub fn to_hashmap(&self) -> (table: StringHashMap<String>)
        ensures
            table@.dom() == answer_entries(self.deep_view()).dom(),
            forall|key: Seq<char>| #[trigger]
                table@.dom().contains(key) ==> table@[key]@ == answer_entries(
                    self.deep_view(),
                )[key],
    {
        let mut table: StringHashMap<String> = StringHashMap::new();
        table.insert("generation".to_owned(), self.generation.clone());
        if let Some(tokens) = &self.tokens {
            table.insert("prompt_tokens".to_owned(), u32_to_decimal(tokens.prompt_tokens));
            table.insert("completion_tokens".to_owned(), u32_to_decimal(tokens.completion_tokens));
            table.insert("total_tokens".to_owned(), u32_to_decimal(tokens.total_tokens));
        }
        assert(table@.dom() =~= answer_entries(self.deep_view()).dom());
        table
    }

    /// The text of the answer.
    pub fn generation(&self) -> (text: &str)
        ensures
            text@ == self.deep_view().generation,
    {
        self.generation.as_str()
    }

    /// The token accounting, if it came.
    pub fn tokens(&self) -> (tokens: Option<TokenUsage>)
        ensures
            tokens == self.deep_view().tokens,
    {
        self.tokens
    }

    /// Replaces the text of the answer.
    pub fn set_generation(&mut self, generation: &str)
        ensures
            final(self).deep_view() == (GenerateResultView {
                generation: generation@,
                ..old(self).deep_view()
            }),
    {
        self.generation = generation.to_owned();
    }

    /// Appends to the text of the answer.
    pub fn push_generation(&mut self, generation: &str)
        ensures
            final(self).deep_view() == (GenerateResultView {
                generation: old(self).deep_view().generation + generation@,
                ..old(self).deep_view()
            }),
    {
        self.generation.append(generation);
    }
}

/// A tool call that the provider asks for.
#[derive(Debug, PartialEq)]
pub struct ToolCallResult {
    /// The identifier under which the tool's answer goes back.
    pub id: String,
    pub name: String,
    /// The parsed arguments.
    pub arguments: Json,
    /// The assistant message that announced the call.
    pub ai_message: Message,
}

pub struct ToolCallResultView {
    pub id: Seq<char>,
    pub name: Seq<char>,
    pub arguments: JsonView,
    pub ai_message: MessageView,
}

impl DeepView for ToolCallResult {
    type V = ToolCallResultView;

    open spec fn deep_view(&self) -> ToolCallResultView {
        ToolCallResultView {
            id: self.id@,
            name: self.name@,
            arguments: self.arguments.deep_view(),
            ai_message: self.ai_message.deep_view(),
        }
    }
}

impl Clone for ToolCallResult {
    fn clone(&self) -> (copy: Self)
        ensures
            copy.deep_view() == self.deep_view(),
    {
        ToolCallResult {
            id: self.id.clone(),
            name: self.name.clone(),
            arguments: self.arguments.clone(),
            ai_message: self.ai_message.clone(),
        }
    }
}

/// The outcome of one provider turn: a text answer or a tool call, never both.
#[derive(Debug, PartialEq)]
pub enum LLMResult {
    Generate(GenerateResult),
    ToolCall(ToolCallResult),
}

pub enum LLMResultView {
    Generate(GenerateResultView),
    ToolCall(ToolCallResultView),
}

impl DeepView for LLMResult {
    type V = LLMResultView;

    open spec fn deep_view(&self) -> LLMResultView {
        match self {
            LLMResult::Generate(answer) => LLMResultView::Generate(answer.deep_view()),
            LLMResult::ToolCall(call) => LLMResultView::ToolCall(call.deep_view()),
        }
    }
}

impl Clone for LLMResult {
    fn clone(&self) -> (copy: Self)
        ensures
            copy.deep_view() == self.deep_view(),
    {
        match self {
            LLMResult::Generate(answer) => LLMResult::Generate(answer.clone()),
            LLMResult::ToolCall(call) => LLMResult::ToolCall(call.clone()),
        }
    }
}

/// A chat-completion provider. Its calls block until the provider has
/// answered.
pub trait LLM {
    /// Sends the conversation and returns the provider's turn.
    fn generate(&self, prompt: &Messages) -> Result<LLMResult, LLMError>;

    /// Sends the conversation and returns the provider's turn.
    fn invoke(&self, messages: &Messages) -> Result<LLMResult, LLMError>;

    /// Sends the conversation, reads the streamed answer to its end and
    /// returns it as one turn.
    fn invoke_stream_one_result(&self, messages: &Messages) -> Result<LLMResult, LLMError>;

    /// Sets options for the calls that follow.
    fn add_options(&mut self, options: &CallOptions);
}

} // verus!
