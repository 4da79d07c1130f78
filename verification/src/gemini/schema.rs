//! The shapes of the provider's requests and of its non-streaming answers.
use crate::json::{Json, JsonView};
use crate::openai::{ChatChoice, ChatChoiceView, CompletionUsage, Tool, ToolView};
use vstd::prelude::*;

verus! {

/// A non-streaming answer.
#[derive(Debug, PartialEq)]
pub struct GeminiResponse {
    /// The provider may leave the identifier out.
    pub id: Option<String>,
    pub choices: Vec<ChatChoice>,
    pub created: u32,
    pub model: String,
    pub service_tier: Option<String>,
    pub system_fingerprint: Option<String>,
    pub object: String,
    pub usage: Option<CompletionUsage>,
}

pub struct GeminiResponseView {
    pub id: Option<Seq<char>>,
    pub choices: Seq<ChatChoiceView>,
    pub created: u32,
    pub model: Seq<char>,
    pub service_tier: Option<Seq<char>>,
    pub system_fingerprint: Option<Seq<char>>,
    pub object: Seq<char>,
    pub usage: Option<CompletionUsage>,
}

impl DeepView for GeminiResponse {
    type V = GeminiResponseView;

    open spec fn deep_view(&self) -> GeminiResponseView {
        GeminiResponseView {
            id: self.id.deep_view(),
            choices: self.choices.deep_view(),
            created: self.created,
            model: self.model@,
            service_tier: self.service_tier.deep_view(),
            system_fingerprint: self.system_fingerprint.deep_view(),
            object: self.object@,
            usage: self.usage,
        }
    }
}

/// One message as the provider receives it.
#[derive(Debug, PartialEq)]
pub struct OpenAIContent {
    pub role: String,
    pub content: Option<String>,
    pub tool_calls: Option<Json>,
    pub tool_call_id: Option<String>,
}

pub struct OpenAIContentView {
    pub role: Seq<char>,
    pub content: Option<Seq<char>>,
    pub tool_calls: Option<JsonView>,
    pub tool_call_id: Option<Seq<char>>,
}

impl DeepView for OpenAIContent {
    type V = OpenAIContentView;

    open spec fn deep_view(&self) -> OpenAIContentView {
        OpenAIContentView {
            role: self.role@,
            content: self.content.deep_view(),
            tool_calls: self.tool_calls.deep_view(),
            tool_call_id: self.tool_call_id.deep_view(),
        }
    }
}

/// A request to the provider.
#[derive(Debug, PartialEq)]
pub struct GeminiRequest {
    pub messages: Vec<OpenAIContent>,
    pub tools: Option<Vec<Tool>>,
    pub tool_choice: Option<String>,
    pub model: String,
    pub stream: Option<bool>,
}

pub struct GeminiRequestView {
    pub messages: Seq<OpenAIContentView>,
    pub tools: Option<Seq<ToolView>>,
    pub tool_choice: Option<Seq<char>>,
    pub model: Seq<char>,
    pub stream: Option<bool>,
}

impl DeepView for GeminiRequest {
    type V = GeminiRequestView;

    open spec fn deep_view(&self) -> GeminiRequestView {
        GeminiRequestView {
            messages: self.messages.deep_view(),
            tools: self.tools.deep_view(),
            tool_choice: self.tool_choice.deep_view(),
            model: self.model@,
            stream: self.stream,
        }
    }
}

} // verus!
