//! Reading the provider's answers out of JSON documents, and writing requests
//! into them. A member that is absent or `null` counts as not given; what is
//! not given takes its default.
pub mod answers;
pub mod frames;
pub mod requests;
pub mod schemas;
pub mod stored;

use crate::json::{
    member, text_member, texts_doc, u32_member, DecodeError, Json, JsonMember, JsonView,
    members_view,
};
use crate::openai::{
    ChatCompletionToolType, CompletionTokensDetails, CompletionUsage, FinishReason,
    PromptTokensDetails, Role, ServiceTierResponse,
};
use crate::text::same_text;
use vstd::prelude::*;

verus! {

/// The error of `outcome`, as the outcome of reading something else.
pub open spec fn failed<T, U>(outcome: Result<T, DecodeError>) -> Result<U, DecodeError> {
    Err(outcome->Err_0)
}

/// A number that is not given is zero.
pub open spec fn or_zero(n: Option<u32>) -> u32 {
    match n {
        Some(n) => n,
        None => 0,
    }
}

/// A text that is not given is empty.
pub open spec fn or_empty(text: Option<Seq<char>>) -> Seq<char> {
    match text {
        Some(text) => text,
        None => Seq::empty(),
    }
}

/// The finish reason that a choice states.
pub open spec fn finish_reason_of(doc: JsonView) -> Result<Option<FinishReason>, DecodeError> {
    match text_member(doc, "finish_reason") {
        Err(error) => Err(error),
        Ok(None) => Ok(None),
        Ok(Some(text)) => if text == "stop"@ {
            Ok(Some(FinishReason::Stop))
        } else if text == "length"@ {
            Ok(Some(FinishReason::Length))
        } else if text == "tool_calls"@ {
            Ok(Some(FinishReason::ToolCalls))
        } else if text == "content_filter"@ {
            Ok(Some(FinishReason::ContentFilter))
        } else if text == "function_call"@ {
            Ok(Some(FinishReason::FunctionCall))
        } else {
            Err(DecodeError::UnknownValue("finish_reason"))
        },
    }
}

/// The role that a message states.
pub open spec fn role_of(doc: JsonView) -> Result<Option<Role>, DecodeError> {
    match text_member(doc, "role") {
        Err(error) => Err(error),
        Ok(None) => Ok(None),
        Ok(Some(text)) => if text == "system"@ {
            Ok(Some(Role::System))
        } else if text == "user"@ {
            Ok(Some(Role::User))
        } else if text == "assistant"@ {
            Ok(Some(Role::Assistant))
        } else if text == "tool"@ {
            Ok(Some(Role::Tool))
        } else if text == "function"@ {
            Ok(Some(Role::Function))
        } else {
            Err(DecodeError::UnknownValue("role"))
        },
    }
}

/// The kind that a tool call states.
pub open spec fn tool_type_of(doc: JsonView) -> Result<Option<ChatCompletionToolType>, DecodeError> {
    match text_member(doc, "type") {
        Err(error) => Err(error),
        Ok(None) => Ok(None),
        Ok(Some(text)) => if text == "function"@ {
            Ok(Some(ChatCompletionToolType::Function))
        } else {
            Err(DecodeError::UnknownValue("type"))
        },
    }
}

/// The service tier that an answer states.
pub open spec fn service_tier_of(doc: JsonView) -> Result<Option<ServiceTierResponse>, DecodeError> {
    match text_member(doc, "service_tier") {
        Err(error) => Err(error),
        Ok(None) => Ok(None),
        Ok(Some(text)) => if text == "scale"@ {
            Ok(Some(ServiceTierResponse::Scale))
        } else if text == "default"@ {
            Ok(Some(ServiceTierResponse::Default))
        } else {
            Err(DecodeError::UnknownValue("service_tier"))
        },
    }
}

/// The prompt's token counts by kind.
pub open spec fn prompt_details_of(doc: JsonView) -> Result<PromptTokensDetails, DecodeError> {
    if !(doc is Object) {
        Err(DecodeError::NotAnObject("prompt_tokens_details"))
    } else if u32_member(doc, "audio_tokens") is Err {
        failed(u32_member(doc, "audio_tokens"))
    } else if u32_member(doc, "cached_tokens") is Err {
        failed(u32_member(doc, "cached_tokens"))
    } else {
        Ok(
            PromptTokensDetails {
                audio_tokens: u32_member(doc, "audio_tokens")->Ok_0,
                cached_tokens: u32_member(doc, "cached_tokens")->Ok_0,
            },
        )
    }
}

/// The completion's token counts by kind.
pub open spec fn completion_details_of(doc: JsonView) -> Result<CompletionTokensDetails, DecodeError> {
    if !(doc is Object) {
        Err(DecodeError::NotAnObject("completion_tokens_details"))
    } else if u32_member(doc, "accepted_prediction_tokens") is Err {
        failed(u32_member(doc, "accepted_prediction_tokens"))
    } else if u32_member(doc, "audio_tokens") is Err {
        failed(u32_member(doc, "audio_tokens"))
    } else if u32_member(doc, "reasoning_tokens") is Err {
        failed(u32_member(doc, "reasoning_tokens"))
    } else if u32_member(doc, "rejected_prediction_tokens") is Err {
        failed(u32_member(doc, "rejected_prediction_tokens"))
    } else {
        Ok(
            CompletionTokensDetails {
                accepted_prediction_tokens: u32_member(doc, "accepted_prediction_tokens")->Ok_0,
                audio_tokens: u32_member(doc, "audio_tokens")->Ok_0,
                reasoning_tokens: u32_member(doc, "reasoning_tokens")->Ok_0,
                rejected_prediction_tokens: u32_member(doc, "rejected_prediction_tokens")->Ok_0,
            },
        )
    }
}

/// The prompt details of a usage, if they are given.
pub open spec fn prompt_details_member(doc: JsonView) -> Result<Option<PromptTokensDetails>, DecodeError> {
    match member(doc, "prompt_tokens_details"@) {
        None => Ok(None),
        Some(details) => match prompt_details_of(details) {
            Err(error) => Err(error),
            Ok(details) => Ok(Some(details)),
        },
    }
}

/// The completion details of a usage, if they are given.
pub open spec fn completion_details_member(doc: JsonView) -> Result<
    Option<CompletionTokensDetails>,
    DecodeError,
> {
    match member(doc, "completion_tokens_details"@) {
        None => Ok(None),
        Some(details) => match completion_details_of(details) {
            Err(error) => Err(error),
            Ok(details) => Ok(Some(details)),
        },
    }
}

/// The token accounting of an answer.
pub open spec fn usage_of(doc: JsonView) -> Result<CompletionUsage, DecodeError> {
    if !(doc is Object) {
        Err(DecodeError::NotAnObject("usage"))
    } else if u32_member(doc, "prompt_tokens") is Err {
        failed(u32_member(doc, "prompt_tokens"))
    } else if u32_member(doc, "completion_tokens") is Err {
        failed(u32_member(doc, "completion_tokens"))
    } else if u32_member(doc, "total_tokens") is Err {
        failed(u32_member(doc, "total_tokens"))
    } else if prompt_details_member(doc) is Err {
        failed(prompt_details_member(doc))
    } else if completion_details_member(doc) is Err {
        failed(completion_details_member(doc))
    } else {
        Ok(
            CompletionUsage {
                prompt_tokens: or_zero(u32_member(doc, "prompt_tokens")->Ok_0),
                completion_tokens: or_zero(u32_member(doc, "completion_tokens")->Ok_0),
                total_tokens: or_zero(u32_member(doc, "total_tokens")->Ok_0),
                prompt_tokens_details: prompt_details_member(doc)->Ok_0,
                completion_tokens_details: completion_details_member(doc)->Ok_0,
            },
        )
    }
}

/// The token accounting of an answer, if it is given.
pub open spec fn usage_member(doc: JsonView) -> Result<Option<CompletionUsage>, DecodeError> {
    match member(doc, "usage"@) {
        None => Ok(None),
        Some(usage) => match usage_of(usage) {
            Err(error) => Err(error),
            Ok(usage) => Ok(Some(usage)),
        },
    }
}

/// Whether `outcome` is the outcome `model` with the values read taken by
/// their views.
pub open spec fn reads<T: DeepView>(outcome: Result<T, DecodeError>, model: Result<T::V, DecodeError>) -> bool {
    match outcome {
        Ok(value) => model == Ok::<T::V, DecodeError>(value.deep_view()),
        Err(error) => model == Err::<T::V, DecodeError>(error),
    }
}

/// Whether `doc` is an object.
pub(crate) fn is_object(doc: &Json) -> (yes: bool)
    ensures
        yes == (doc.deep_view() is Object),
{
    match doc {
        Json::Object(_) => true,
        _ => false,
    }
}

/// A number that is not given is zero.
pub(crate) fn number_or_zero(n: Option<u32>) -> (value: u32)
    ensures
        value == or_zero(n),
{
    match n {
        Some(n) => n,
        None => 0,
    }
}

/// A text that is not given is empty.
pub(crate) fn text_or_empty(text: Option<String>) -> (value: String)
    ensures
        value@ == or_empty(text.deep_view()),
{
    match text {
        Some(text) => text,
        None => String::new(),
    }
}

/// The finish reason that a choice states.
pub fn read_finish_reason(doc: &Json) -> (outcome: Result<Option<FinishReason>, DecodeError>)
    ensures
        outcome == finish_reason_of(doc.deep_view()),
{
    match doc.text_member("finish_reason")? {
        None => Ok(None),
        Some(text) => if same_text(text.as_str(), "stop") {
            Ok(Some(FinishReason::Stop))
        } else if same_text(text.as_str(), "length") {
            Ok(Some(FinishReason::Length))
        } else if same_text(text.as_str(), "tool_calls") {
            Ok(Some(FinishReason::ToolCalls))
        } else if same_text(text.as_str(), "content_filter") {
            Ok(Some(FinishReason::ContentFilter))
        } else if same_text(text.as_str(), "function_call") {
            Ok(Some(FinishReason::FunctionCall))
        } else {
            Err(DecodeError::UnknownValue("finish_reason"))
        },
    }
}

/// The role that a message states.
pub fn read_role(doc: &Json) -> (outcome: Result<Option<Role>, DecodeError>)
    ensures
        outcome == role_of(doc.deep_view()),
{
    match doc.text_member("role")? {
        None => Ok(None),
        Some(text) => if same_text(text.as_str(), "system") {
            Ok(Some(Role::System))
        } else if same_text(text.as_str(), "user") {
            Ok(Some(Role::User))
        } else if same_text(text.as_str(), "assistant") {
            Ok(Some(Role::Assistant))
        } else if same_text(text.as_str(), "tool") {
            Ok(Some(Role::Tool))
        } else if same_text(text.as_str(), "function") {
            Ok(Some(Role::Function))
        } else {
            Err(DecodeError::UnknownValue("role"))
        },
    }
}

/// The kind that a tool call states.
pub fn read_tool_type(doc: &Json) -> (outcome: Result<Option<ChatCompletionToolType>, DecodeError>)
    ensures
        outcome == tool_type_of(doc.deep_view()),
{
    match doc.text_member("type")? {
        None => Ok(None),
        Some(text) => if same_text(text.as_str(), "function") {
            Ok(Some(ChatCompletionToolType::Function))
        } else {
            Err(DecodeError::UnknownValue("type"))
        },
    }
}

/// The service tier that an answer states.
pub fn read_service_tier(doc: &Json) -> (outcome: Result<Option<ServiceTierResponse>, DecodeError>)
    ensures
        outcome == service_tier_of(doc.deep_view()),
{
    match doc.text_member("service_tier")? {
        None => Ok(None),
        Some(text) => if same_text(text.as_str(), "scale") {
            Ok(Some(ServiceTierResponse::Scale))
        } else if same_text(text.as_str(), "default") {
            Ok(Some(ServiceTierResponse::Default))
        } else {
            Err(DecodeError::UnknownValue("service_tier"))
        },
    }
}

/// Reads the prompt's token counts by kind.
pub fn read_prompt_details(doc: &Json) -> (outcome: Result<PromptTokensDetails, DecodeError>)
    ensures
        outcome == prompt_details_of(doc.deep_view()),
{
    if !is_object(doc) {
        return Err(DecodeError::NotAnObject("prompt_tokens_details"));
    }
    let audio_tokens = doc.u32_member("audio_tokens")?;
    let cached_tokens = doc.u32_member("cached_tokens")?;
    Ok(PromptTokensDetails { audio_tokens, cached_tokens })
}

/// Reads the completion's token counts by kind.
pub fn read_completion_details(doc: &Json) -> (outcome: Result<CompletionTokensDetails, DecodeError>)
    ensures
        outcome == completion_details_of(doc.deep_view()),
{
    if !is_object(doc) {
        return Err(DecodeError::NotAnObject("completion_tokens_details"));
    }
    let accepted_prediction_tokens = doc.u32_member("accepted_prediction_tokens")?;
    let audio_tokens = doc.u32_member("audio_tokens")?;
    let reasoning_tokens = doc.u32_member("reasoning_tokens")?;
    let rejected_prediction_tokens = doc.u32_member("rejected_prediction_tokens")?;
    Ok(
        CompletionTokensDetails {
            accepted_prediction_tokens,
            audio_tokens,
            reasoning_tokens,
            rejected_prediction_tokens,
        },
    )
}

impl CompletionUsage {
    /// Reads the token accounting of an answer.
    pub fn from_json(doc: &Json) -> (outcome: Result<CompletionUsage, DecodeError>)
        ensures
            outcome == usage_of(doc.deep_view()),
    {
        if !is_object(doc) {
            return Err(DecodeError::NotAnObject("usage"));
        }
        let prompt_tokens = number_or_zero(doc.u32_member("prompt_tokens")?);
        let completion_tokens = number_or_zero(doc.u32_member("completion_tokens")?);
        let total_tokens = number_or_zero(doc.u32_member("total_tokens")?);
        let prompt_tokens_details = match doc.get("prompt_tokens_details") {
            None => None,
            Some(details) => Some(read_prompt_details(details)?),
        };
        let completion_tokens_details = match doc.get("completion_tokens_details") {
            None => None,
            Some(details) => Some(read_completion_details(details)?),
        };
        Ok(
            CompletionUsage {
                prompt_tokens,
                completion_tokens,
                total_tokens,
                prompt_tokens_details,
                completion_tokens_details,
            },
        )
    }

    /// Reads the token accounting of an answer, if it is given.
    pub fn from_member(doc: &Json) -> (outcome: Result<Option<CompletionUsage>, DecodeError>)
        ensures
            outcome == usage_member(doc.deep_view()),
    {
        match doc.get("usage") {
            None => Ok(None),
            Some(usage) => Ok(Some(CompletionUsage::from_json(usage)?)),
        }
    }
}

/// The text under `key`, which must be given.
pub open spec fn required_text(doc: JsonView, key: &'static str) -> Result<Seq<char>, DecodeError> {
    match text_member(doc, key) {
        Err(error) => Err(error),
        Ok(None) => Err(DecodeError::Missing(key)),
        Ok(Some(text)) => Ok(text),
    }
}

/// Reads the text under `key`, which must be given.
pub fn read_required_text(doc: &Json, key: &'static str) -> (outcome: Result<String, DecodeError>)
    ensures
        match outcome {
            Ok(text) => required_text(doc.deep_view(), key) == Ok::<Seq<char>, DecodeError>(text@),
            Err(error) => required_text(doc.deep_view(), key) == Err::<Seq<char>, DecodeError>(
                error,
            ),
        },
{
    match doc.text_member(key)? {
        None => Err(DecodeError::Missing(key)),
        Some(text) => Ok(text),
    }
}

/// `members` with the member `key` where `value` is given.
pub open spec fn with_optional(
    members: Seq<(Seq<char>, JsonView)>,
    key: Seq<char>,
    value: Option<JsonView>,
) -> Seq<(Seq<char>, JsonView)> {
    match value {
        Some(value) => members.push((key, value)),
        None => members,
    }
}

/// The document of a text that may be given.
pub open spec fn optional_text_doc(text: Option<Seq<char>>) -> Option<JsonView> {
    match text {
        Some(text) => Some(JsonView::Str(text)),
        None => None,
    }
}

/// The document of a list of texts that may be given.
pub open spec fn optional_texts_doc(texts: Option<Seq<Seq<char>>>) -> Option<JsonView> {
    match texts {
        Some(texts) => Some(texts_doc(texts)),
        None => None,
    }
}

/// Adds the member `key` where `value` is given.
pub(crate) fn push_optional(members: &mut Vec<JsonMember>, key: &str, value: Option<Json>)
    ensures
        members_view(final(members)@) == with_optional(
            members_view(old(members)@),
            key@,
            value.deep_view(),
        ),
{
    match value {
        Some(value) => Json::push_member(members, key, value),
        None => {},
    }
}

/// The document of a text that may be given.
pub(crate) fn optional_text_json(text: &Option<String>) -> (doc: Option<Json>)
    ensures
        doc.deep_view() == optional_text_doc(text.deep_view()),
{
    match text {
        Some(text) => Some(Json::Str(text.clone())),
        None => None,
    }
}

/// The document of a list of texts that may be given.
pub(crate) fn optional_texts_json(texts: &Option<Vec<String>>) -> (doc: Option<Json>)
    ensures
        doc.deep_view() == optional_texts_doc(texts.deep_view()),
{
    match texts {
        Some(texts) => Some(Json::from_texts(texts)),
        None => None,
    }
}

} // verus!
