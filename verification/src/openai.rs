//! The chat-completion wire types: what a provider receives and sends back.
use crate::schema::{Parameters, ParametersView};
use vstd::prelude::*;

verus! {

/// The kind of a tool call; providers know functions only.
#[derive(Debug, Clone, Copy, PartialEq, Eq, Default)]
pub enum ChatCompletionToolType {
    #[default]
    Function,
}

/// A function call as a provider states it: the arguments are JSON text.
#[derive(Debug, PartialEq)]
pub struct FunctionCall {
    pub name: String,
    pub arguments: String,
}

pub struct FunctionCallView {
    pub name: Seq<char>,
    pub arguments: Seq<char>,
}

impl DeepView for FunctionCall {
    type V = FunctionCallView;

    open spec fn deep_view(&self) -> FunctionCallView {
        FunctionCallView { name: self.name@, arguments: self.arguments@ }
    }
}

impl Clone for FunctionCall {
    fn clone(&self) -> (copy: Self)
        ensures
            copy.deep_view() == self.deep_view(),
    {
        FunctionCall { name: self.name.clone(), arguments: self.arguments.clone() }
    }
}

/// A complete tool call of a non-streaming answer.
#[derive(Debug, PartialEq)]
pub struct ChatCompletionMessageToolCall {
    pub id: String,
    pub kind: ChatCompletionToolType,
    pub function: FunctionCall,
}

pub struct ChatCompletionMessageToolCallView {
    pub id: Seq<char>,
    pub kind: ChatCompletionToolType,
    pub function: FunctionCallView,
}

impl DeepView for ChatCompletionMessageToolCall {
    type V = ChatCompletionMessageToolCallView;

    open spec fn deep_view(&self) -> ChatCompletionMessageToolCallView {
        ChatCompletionMessageToolCallView {
            id: self.id@,
            kind: self.kind,
            function: self.function.deep_view(),
        }
    }
}

impl Clone for ChatCompletionMessageToolCall {
    fn clone(&self) -> (copy: Self)
        ensures
            copy.deep_view() == self.deep_view(),
    {
        ChatCompletionMessageToolCall {
            id: self.id.clone(),
            kind: self.kind,
            function: self.function.clone(),
        }
    }
}

/// Who speaks in a provider's message.
#[derive(Debug, Clone, Copy, PartialEq, Eq, Default)]
pub enum Role {
    System,
    #[default]
    User,
    Assistant,
    Tool,
    Function,
}

/// The message of one choice of a non-streaming answer.
#[derive(Debug, PartialEq)]
pub struct ChatCompletionResponseMessage {
    pub content: Option<String>,
    pub refusal: Option<String>,
    pub tool_calls: Option<Vec<ChatCompletionMessageToolCall>>,
    pub role: Role,
    pub function_call: Option<FunctionCall>,
}

pub struct ChatCompletionResponseMessageView {
    pub content: Option<Seq<char>>,
    pub refusal: Option<Seq<char>>,
    pub tool_calls: Option<Seq<ChatCompletionMessageToolCallView>>,
    pub role: Role,
    pub function_call: Option<FunctionCallView>,
}

impl DeepView for ChatCompletionResponseMessage {
    type V = ChatCompletionResponseMessageView;

    open spec fn deep_view(&self) -> ChatCompletionResponseMessageView {
        ChatCompletionResponseMessageView {
            content: self.content.deep_view(),
            refusal: self.refusal.deep_view(),
            tool_calls: self.tool_calls.deep_view(),
            role: self.role,
            function_call: self.function_call.deep_view(),
        }
    }
}

/// Why a provider stopped generating.
#[derive(Debug, Clone, Copy, PartialEq, Eq)]
pub enum FinishReason {
    Stop,
    Length,
    ToolCalls,
    ContentFilter,
    FunctionCall,
}

/// One choice of a non-streaming answer.
#[derive(Debug, PartialEq)]
pub struct ChatChoice {
    pub index: u32,
    pub message: ChatCompletionResponseMessage,
    pub finish_reason: Option<FinishReason>,
}

pub struct ChatChoiceView {
    pub index: u32,
    pub message: ChatCompletionResponseMessageView,
    pub finish_reason: Option<FinishReason>,
}

impl DeepView for ChatChoice {
    type V = ChatChoiceView;

    open spec fn deep_view(&self) -> ChatChoiceView {
        ChatChoiceView {
            index: self.index,
            message: self.message.deep_view(),
            finish_reason: self.finish_reason,
        }
    }
}

/// The service tier that answered.
#[derive(Debug, Clone, Copy, PartialEq, Eq)]
pub enum ServiceTierResponse {
    Scale,
    Default,
}

/// Token counts of the completion, by kind.
#[derive(Debug, Clone, Copy, PartialEq, Eq)]
pub struct CompletionTokensDetails {
    pub accepted_prediction_tokens: Option<u32>,
    pub audio_tokens: Option<u32>,
    pub reasoning_tokens: Option<u32>,
    pub rejected_prediction_tokens: Option<u32>,
}

/// Token counts of the prompt, by kind.
#[derive(Debug, Clone, Copy, PartialEq, Eq)]
pub struct PromptTokensDetails {
    pub audio_tokens: Option<u32>,
    pub cached_tokens: Option<u32>,
}

/// The token accounting that a provider attaches to an answer.
#[derive(Debug, Clone, Copy, PartialEq, Eq)]
pub struct CompletionUsage {
    pub prompt_tokens: u32,
    pub completion_tokens: u32,
    pub total_tokens: u32,
    pub prompt_tokens_details: Option<PromptTokensDetails>,
    pub completion_tokens_details: Option<CompletionTokensDetails>,
}

/// The three token counts that results carry.
#[derive(Debug, Clone, Copy, PartialEq, Eq)]
pub struct TokenUsage {
    pub prompt_tokens: u32,
    pub completion_tokens: u32,
    pub total_tokens: u32,
}

impl CompletionUsage {
    /// The three counts, without the details.
    pub fn token_usage(&self) -> (usage: TokenUsage)
        ensures
            usage.prompt_tokens == self.prompt_tokens,
            usage.completion_tokens == self.completion_tokens,
            usage.total_tokens == self.total_tokens,
    {
        TokenUsage {
            prompt_tokens: self.prompt_tokens,
            completion_tokens: self.completion_tokens,
            total_tokens: self.total_tokens,
        }
    }
}

/// A fragment of a function call in a streamed answer.
#[derive(Debug, PartialEq)]
pub struct FunctionCallStream {
    pub name: Option<String>,
    pub arguments: Option<String>,
}

pub struct FunctionCallStreamView {
    pub name: Option<Seq<char>>,
    pub arguments: Option<Seq<char>>,
}

impl DeepView for FunctionCallStream {
    type V = FunctionCallStreamView;

    open spec fn deep_view(&self) -> FunctionCallStreamView {
        FunctionCallStreamView {
            name: self.name.deep_view(),
            arguments: self.arguments.deep_view(),
        }
    }
}

/// A fragment of a tool call in a streamed answer; `index` says which call
/// of the turn it belongs to.
#[derive(Debug, PartialEq)]
pub struct ChatCompletionMessageToolCallChunk {
    pub index: Option<i32>,
    pub id: Option<String>,
    pub kind: Option<ChatCompletionToolType>,
    pub function: Option<FunctionCallStream>,
}

pub struct ChatCompletionMessageToolCallChunkView {
    pub index: Option<i32>,
    pub id: Option<Seq<char>>,
    pub kind: Option<ChatCompletionToolType>,
    pub function: Option<FunctionCallStreamView>,
}

impl DeepView for ChatCompletionMessageToolCallChunk {
    type V = ChatCompletionMessageToolCallChunkView;

    open spec fn deep_view(&self) -> ChatCompletionMessageToolCallChunkView {
        ChatCompletionMessageToolCallChunkView {
            index: self.index,
            id: self.id.deep_view(),
            kind: self.kind,
            function: self.function.deep_view(),
        }
    }
}

/// What one streamed frame adds to a choice.
#[derive(Debug, PartialEq)]
pub struct ChatCompletionStreamResponseDelta {
    pub content: Option<String>,
    pub function_call: Option<FunctionCallStream>,
    pub tool_calls: Option<Vec<ChatCompletionMessageToolCallChunk>>,
    pub role: Option<Role>,
    pub refusal: Option<String>,
}

pub struct ChatCompletionStreamResponseDeltaView {
    pub content: Option<Seq<char>>,
    pub function_call: Option<FunctionCallStreamView>,
    pub tool_calls: Option<Seq<ChatCompletionMessageToolCallChunkView>>,
    pub role: Option<Role>,
    pub refusal: Option<Seq<char>>,
}

impl DeepView for ChatCompletionStreamResponseDelta {
    type V = ChatCompletionStreamResponseDeltaView;

    open spec fn deep_view(&self) -> ChatCompletionStreamResponseDeltaView {
        ChatCompletionStreamResponseDeltaView {
            content: self.content.deep_view(),
            function_call: self.function_call.deep_view(),
            tool_calls: self.tool_calls.deep_view(),
            role: self.role,
            refusal: self.refusal.deep_view(),
        }
    }
}

/// One choice of a streamed frame.
#[derive(Debug, PartialEq)]
pub struct ChatChoiceStream {
    pub index: u32,
    pub delta: ChatCompletionStreamResponseDelta,
    pub finish_reason: Option<FinishReason>,
}

pub struct ChatChoiceStreamView {
    pub index: u32,
    pub delta: ChatCompletionStreamResponseDeltaView,
    pub finish_reason: Option<FinishReason>,
}

impl DeepView for ChatChoiceStream {
    type V = ChatChoiceStreamView;

    open spec fn deep_view(&self) -> ChatChoiceStreamView {
        ChatChoiceStreamView {
            index: self.index,
            delta: self.delta.deep_view(),
            finish_reason: self.finish_reason,
        }
    }
}

/// One frame of a streamed answer.
#[derive(Debug, PartialEq)]
pub struct CreateChatCompletionStreamResponse {
    pub id: Option<String>,
    pub choices: Vec<ChatChoiceStream>,
    pub created: u32,
    pub model: String,
    pub service_tier: Option<ServiceTierResponse>,
    pub system_fingerprint: Option<String>,
    pub object: String,
    pub usage: Option<CompletionUsage>,
}

pub struct CreateChatCompletionStreamResponseView {
    pub id: Option<Seq<char>>,
    pub choices: Seq<ChatChoiceStreamView>,
    pub created: u32,
    pub model: Seq<char>,
    pub service_tier: Option<ServiceTierResponse>,
    pub system_fingerprint: Option<Seq<char>>,
    pub object: Seq<char>,
    pub usage: Option<CompletionUsage>,
}

impl DeepView for CreateChatCompletionStreamResponse {
    type V = CreateChatCompletionStreamResponseView;

    open spec fn deep_view(&self) -> CreateChatCompletionStreamResponseView {
        CreateChatCompletionStreamResponseView {
            id: self.id.deep_view(),
            choices: self.choices.deep_view(),
            created: self.created,
            model: self.model@,
            service_tier: self.service_tier,
            system_fingerprint: self.system_fingerprint.deep_view(),
            object: self.object@,
            usage: self.usage,
        }
    }
}

/// The kind of a tool offered to a provider; functions only.
#[derive(Debug, Clone, Copy, PartialEq, Eq)]
pub enum ToolType {
    Function,
}

/// What a provider is told of a function it may call.
#[derive(Debug, PartialEq)]
pub struct FunctionDescription {
    pub name: String,
    pub description: String,
    pub parameters: Parameters,
}

pub struct FunctionDescriptionView {
    pub name: Seq<char>,
    pub description: Seq<char>,
    pub parameters: ParametersView,
}

impl DeepView for FunctionDescription {
    type V = FunctionDescriptionView;

    open spec fn deep_view(&self) -> FunctionDescriptionView {
        FunctionDescriptionView {
            name: self.name@,
            description: self.description@,
            parameters: self.parameters.deep_view(),
        }
    }
}

impl Clone for FunctionDescription {
    fn clone(&self) -> (copy: Self)
        ensures
            copy.deep_view() == self.deep_view(),
    {
        FunctionDescription {
            name: self.name.clone(),
            description: self.description.clone(),
            parameters: self.parameters.clone(),
        }
    }
}

/// A tool as it is advertised to a provider.
#[derive(Debug, PartialEq)]
pub struct Tool {
    pub kind: ToolType,
    pub function: FunctionDescription,
}

pub struct ToolView {
    pub kind: ToolType,
    pub function: FunctionDescriptionView,
}

impl DeepView for Tool {
    type V = ToolView;

    open spec fn deep_view(&self) -> ToolView {
        ToolView { kind: self.kind, function: self.function.deep_view() }
    }
}

impl Clone for Tool {
    fn clone(&self) -> (copy: Self)
        ensures
            copy.deep_view() == self.deep_view(),
    {
        Tool { kind: self.kind, function: self.function.clone() }
    }
}

} // verus!
