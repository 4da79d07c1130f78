//! The answers to non-streaming calls.
use crate::gemini::schema::{GeminiResponse, GeminiResponseView};
use crate::json::{
    array_member, lemma_read_all_fails, lemma_read_all_step, member, read_all, text_member,
    u32_member, DecodeError, Json, JsonView,
};
use crate::openai::{
    ChatChoice, ChatChoiceView, ChatCompletionMessageToolCall, ChatCompletionMessageToolCallView,
    ChatCompletionResponseMessage, ChatCompletionResponseMessageView, ChatCompletionToolType,
    CompletionUsage, FunctionCall, FunctionCallView, Role,
};
use crate::wire::{
    failed, finish_reason_of, is_object, number_or_zero, or_empty, or_zero, read_finish_reason,
    read_required_text, read_role, read_tool_type, reads, required_text, role_of, text_or_empty,
    tool_type_of, usage_member,
};
use vstd::prelude::*;

verus! {

/// A complete function call: its name and its arguments must be given.
pub open spec fn function_call_of(doc: JsonView) -> Result<FunctionCallView, DecodeError> {
    if !(doc is Object) {
        Err(DecodeError::NotAnObject("function"))
    } else if required_text(doc, "name") is Err {
        failed(required_text(doc, "name"))
    } else if required_text(doc, "arguments") is Err {
        failed(required_text(doc, "arguments"))
    } else {
        Ok(
            FunctionCallView {
                name: required_text(doc, "name")->Ok_0,
                arguments: required_text(doc, "arguments")->Ok_0,
            },
        )
    }
}

/// The function call under `key`, if one is given.
pub open spec fn function_call_member(doc: JsonView, key: &'static str) -> Result<
    Option<FunctionCallView>,
    DecodeError,
> {
    match member(doc, key@) {
        None => Ok(None),
        Some(call) => match function_call_of(call) {
            Err(error) => Err(error),
            Ok(call) => Ok(Some(call)),
        },
    }
}

/// A kind that is not given is a function.
pub open spec fn or_function(kind: Option<ChatCompletionToolType>) -> ChatCompletionToolType {
    ChatCompletionToolType::Function
}

/// A role that is not given is the user's.
pub open spec fn or_user(role: Option<Role>) -> Role {
    match role {
        Some(role) => role,
        None => Role::User,
    }
}

/// A complete tool call: its function must be given.
pub open spec fn tool_call_of(doc: JsonView) -> Result<ChatCompletionMessageToolCallView, DecodeError> {
    if !(doc is Object) {
        Err(DecodeError::NotAnObject("tool_calls"))
    } else if text_member(doc, "id") is Err {
        failed(text_member(doc, "id"))
    } else if tool_type_of(doc) is Err {
        failed(tool_type_of(doc))
    } else if function_call_member(doc, "function") is Err {
        failed(function_call_member(doc, "function"))
    } else if function_call_member(doc, "function")->Ok_0 is None {
        Err(DecodeError::Missing("function"))
    } else {
        Ok(
            ChatCompletionMessageToolCallView {
                id: or_empty(text_member(doc, "id")->Ok_0),
                kind: or_function(tool_type_of(doc)->Ok_0),
                function: function_call_member(doc, "function")->Ok_0->0,
            },
        )
    }
}

/// The tool calls that a message carries, if it carries any.
pub open spec fn tool_calls_of(doc: JsonView) -> Result<
    Option<Seq<ChatCompletionMessageToolCallView>>,
    DecodeError,
> {
    match array_member(doc, "tool_calls") {
        Err(error) => Err(error),
        Ok(None) => Ok(None),
        Ok(Some(items)) => match read_all(items, |item: JsonView| tool_call_of(item)) {
            Err(error) => Err(error),
            Ok(calls) => Ok(Some(calls)),
        },
    }
}

/// The message of a choice.
pub open spec fn message_of(doc: JsonView) -> Result<ChatCompletionResponseMessageView, DecodeError> {
    if !(doc is Object) {
        Err(DecodeError::NotAnObject("message"))
    } else if text_member(doc, "content") is Err {
        failed(text_member(doc, "content"))
    } else if text_member(doc, "refusal") is Err {
        failed(text_member(doc, "refusal"))
    } else if tool_calls_of(doc) is Err {
        failed(tool_calls_of(doc))
    } else if role_of(doc) is Err {
        failed(role_of(doc))
    } else if function_call_member(doc, "function_call") is Err {
        failed(function_call_member(doc, "function_call"))
    } else {
        Ok(
            ChatCompletionResponseMessageView {
                content: text_member(doc, "content")->Ok_0,
                refusal: text_member(doc, "refusal")->Ok_0,
                tool_calls: tool_calls_of(doc)->Ok_0,
                role: or_user(role_of(doc)->Ok_0),
                function_call: function_call_member(doc, "function_call")->Ok_0,
            },
        )
    }
}

/// The message of a choice, which must be given.
pub open spec fn message_member(doc: JsonView) -> Result<ChatCompletionResponseMessageView, DecodeError> {
    match member(doc, "message"@) {
        None => Err(DecodeError::Missing("message")),
        Some(message) => message_of(message),
    }
}

/// One choice of a non-streaming answer.
pub open spec fn choice_of(doc: JsonView) -> Result<ChatChoiceView, DecodeError> {
    if !(doc is Object) {
        Err(DecodeError::NotAnObject("choices"))
    } else if u32_member(doc, "index") is Err {
        failed(u32_member(doc, "index"))
    } else if message_member(doc) is Err {
        failed(message_member(doc))
    } else if finish_reason_of(doc) is Err {
        failed(finish_reason_of(doc))
    } else {
        Ok(
            ChatChoiceView {
                index: or_zero(u32_member(doc, "index")->Ok_0),
                message: message_member(doc)->Ok_0,
                finish_reason: finish_reason_of(doc)->Ok_0,
            },
        )
    }
}

/// The choices of a non-streaming answer; none where none are given.
pub open spec fn choices_of(doc: JsonView) -> Result<Seq<ChatChoiceView>, DecodeError> {
    match array_member(doc, "choices") {
        Err(error) => Err(error),
        Ok(None) => Ok(Seq::empty()),
        Ok(Some(items)) => read_all(items, |item: JsonView| choice_of(item)),
    }
}

/// A non-streaming answer.
pub open spec fn response_of(doc: JsonView) -> Result<GeminiResponseView, DecodeError> {
    if !(doc is Object) {
        Err(DecodeError::NotAnObject("chat.completion"))
    } else if text_member(doc, "id") is Err {
        failed(text_member(doc, "id"))
    } else if choices_of(doc) is Err {
        failed(choices_of(doc))
    } else if u32_member(doc, "created") is Err {
        failed(u32_member(doc, "created"))
    } else if text_member(doc, "model") is Err {
        failed(text_member(doc, "model"))
    } else if text_member(doc, "service_tier") is Err {
        failed(text_member(doc, "service_tier"))
    } else if text_member(doc, "system_fingerprint") is Err {
        failed(text_member(doc, "system_fingerprint"))
    } else if text_member(doc, "object") is Err {
        failed(text_member(doc, "object"))
    } else if usage_member(doc) is Err {
        failed(usage_member(doc))
    } else {
        Ok(
            GeminiResponseView {
                id: text_member(doc, "id")->Ok_0,
                choices: choices_of(doc)->Ok_0,
                created: or_zero(u32_member(doc, "created")->Ok_0),
                model: or_empty(text_member(doc, "model")->Ok_0),
                service_tier: text_member(doc, "service_tier")->Ok_0,
                system_fingerprint: text_member(doc, "system_fingerprint")->Ok_0,
                object: or_empty(text_member(doc, "object")->Ok_0),
                usage: usage_member(doc)->Ok_0,
            },
        )
    }
}

impl FunctionCall {
    /// Reads a complete function call.
    pub fn from_json(doc: &Json) -> (outcome: Result<FunctionCall, DecodeError>)
        ensures
            reads(outcome, function_call_of(doc.deep_view())),
    {
        if !is_object(doc) {
            return Err(DecodeError::NotAnObject("function"));
        }
        let name = read_required_text(doc, "name")?;
        let arguments = read_required_text(doc, "arguments")?;
        Ok(FunctionCall { name, arguments })
    }

    /// Reads the function call under `key`, if one is given.
    pub fn from_member(doc: &Json, key: &'static str) -> (outcome: Result<
        Option<FunctionCall>,
        DecodeError,
    >)
        ensures
            reads(outcome, function_call_member(doc.deep_view(), key)),
    {
        match doc.get(key) {
            None => Ok(None),
            Some(call) => Ok(Some(FunctionCall::from_json(call)?)),
        }
    }
}

impl ChatCompletionMessageToolCall {
    /// Reads a complete tool call.
    pub fn from_json(doc: &Json) -> (outcome: Result<ChatCompletionMessageToolCall, DecodeError>)
        ensures
            reads(outcome, tool_call_of(doc.deep_view())),
    {
        if !is_object(doc) {
            return Err(DecodeError::NotAnObject("tool_calls"));
        }
        let id = text_or_empty(doc.text_member("id")?);
        let _kind = read_tool_type(doc)?;
        let function = match FunctionCall::from_member(doc, "function")? {
            None => {
                return Err(DecodeError::Missing("function"));
            },
            Some(function) => function,
        };
        Ok(ChatCompletionMessageToolCall { id, kind: ChatCompletionToolType::Function, function })
    }
}

/// Reads the tool calls that a message carries, if it carries any.
pub fn read_tool_calls(doc: &Json) -> (outcome: Result<
    Option<Vec<ChatCompletionMessageToolCall>>,
    DecodeError,
>)
    ensures
        reads(outcome, tool_calls_of(doc.deep_view())),
{
    let items = match doc.array_member("tool_calls")? {
        None => { return Ok(None); },
        Some(items) => items,
    };
    let ghost all = items.deep_view();
    let ghost read = |item: JsonView| tool_call_of(item);
    let mut calls: Vec<ChatCompletionMessageToolCall> = Vec::new();
    let mut i: usize = 0;
    assert(all.take(0) =~= Seq::empty());
    assert(calls.deep_view() =~= Seq::empty());
    while i < items.len()
        invariant
            i <= items.len(),
            all == items.deep_view(),
            read == (|item: JsonView| tool_call_of(item)),
            array_member(doc.deep_view(), "tool_calls") == Ok::<Option<Seq<JsonView>>, DecodeError>(
                Some(all),
            ),
            read_all(all.take(i as int), read) == Ok::<
                Seq<ChatCompletionMessageToolCallView>,
                DecodeError,
            >(calls.deep_view()),
        decreases items.len() - i,
    {
        proof {
            lemma_read_all_step(all, read, i as int);
        }
        match ChatCompletionMessageToolCall::from_json(&items[i]) {
            Ok(call) => {
                let ghost before = calls.deep_view();
                calls.push(call);
                assert(calls.deep_view() =~= before.push(call.deep_view()));
            },
            Err(error) => {
                proof {
                    lemma_read_all_fails(all, read, i + 1);
                }
                return Err(error);
            },
        }
        i += 1;
    }
    assert(all.take(items.len() as int) =~= all);
    Ok(Some(calls))
}

impl ChatCompletionResponseMessage {
    /// Reads the message of a choice.
    pub fn from_json(doc: &Json) -> (outcome: Result<ChatCompletionResponseMessage, DecodeError>)
        ensures
            reads(outcome, message_of(doc.deep_view())),
    {
        if !is_object(doc) {
            return Err(DecodeError::NotAnObject("message"));
        }
        let content = doc.text_member("content")?;
        let refusal = doc.text_member("refusal")?;
        let tool_calls = read_tool_calls(doc)?;
        let role = match read_role(doc)? {
            Some(role) => role,
            None => Role::User,
        };
        let function_call = FunctionCall::from_member(doc, "function_call")?;
        Ok(ChatCompletionResponseMessage { content, refusal, tool_calls, role, function_call })
    }
}

impl ChatChoice {
    /// Reads one choice of a non-streaming answer.
    pub fn from_json(doc: &Json) -> (outcome: Result<ChatChoice, DecodeError>)
        ensures
            reads(outcome, choice_of(doc.deep_view())),
    {
        if !is_object(doc) {
            return Err(DecodeError::NotAnObject("choices"));
        }
        let index = number_or_zero(doc.u32_member("index")?);
        let message = match doc.get("message") {
            None => {
                return Err(DecodeError::Missing("message"));
            },
            Some(message) => ChatCompletionResponseMessage::from_json(message)?,
        };
        let finish_reason = read_finish_reason(doc)?;
        Ok(ChatChoice { index, message, finish_reason })
    }
}

/// Reads the choices of a non-streaming answer; none where none are given.
pub fn read_choices(doc: &Json) -> (outcome: Result<Vec<ChatChoice>, DecodeError>)
    ensures
        reads(outcome, choices_of(doc.deep_view())),
{
    let mut choices: Vec<ChatChoice> = Vec::new();
    assert(choices.deep_view() =~= Seq::empty());
    let items = match doc.array_member("choices")? {
        None => { return Ok(choices); },
        Some(items) => items,
    };
    let ghost all = items.deep_view();
    let ghost read = |item: JsonView| choice_of(item);
    let mut i: usize = 0;
    assert(all.take(0) =~= Seq::empty());
    while i < items.len()
        invariant
            i <= items.len(),
            all == items.deep_view(),
            read == (|item: JsonView| choice_of(item)),
            array_member(doc.deep_view(), "choices") == Ok::<Option<Seq<JsonView>>, DecodeError>(
                Some(all),
            ),
            read_all(all.take(i as int), read) == Ok::<Seq<ChatChoiceView>, DecodeError>(
                choices.deep_view(),
            ),
        decreases items.len() - i,
    {
        proof {
            lemma_read_all_step(all, read, i as int);
        }
        match ChatChoice::from_json(&items[i]) {
            Ok(choice) => {
                let ghost before = choices.deep_view();
                choices.push(choice);
                assert(choices.deep_view() =~= before.push(choice.deep_view()));
            },
            Err(error) => {
                proof {
                    lemma_read_all_fails(all, read, i + 1);
                }
                return Err(error);
            },
        }
        i += 1;
    }
    assert(all.take(items.len() as int) =~= all);
    Ok(choices)
}

impl GeminiResponse {
    /// Reads a non-streaming answer.
    pub fn from_json(doc: &Json) -> (outcome: Result<GeminiResponse, DecodeError>)
        ensures
            reads(outcome, response_of(doc.deep_view())),
    {
        if !is_object(doc) {
            return Err(DecodeError::NotAnObject("chat.completion"));
        }
        let id = doc.text_member("id")?;
        let choices = read_choices(doc)?;
        let created = number_or_zero(doc.u32_member("created")?);
        let model = text_or_empty(doc.text_member("model")?);
        let service_tier = doc.text_member("service_tier")?;
        let system_fingerprint = doc.text_member("system_fingerprint")?;
        let object = text_or_empty(doc.text_member("object")?);
        let usage = CompletionUsage::from_member(doc)?;
        Ok(
            GeminiResponse {
                id,
                choices,
                created,
                model,
                service_tier,
                system_fingerprint,
                object,
                usage,
            },
        )
    }
}

} // verus!
