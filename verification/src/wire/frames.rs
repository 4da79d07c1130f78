//! The frames of a streamed answer.
use crate::json::{
    array_member, i32_member, lemma_read_all_fails, lemma_read_all_step, member, read_all,
    text_member, u32_member, DecodeError, Json, JsonView,
};
use crate::openai::{
    ChatChoiceStream, ChatChoiceStreamView, ChatCompletionMessageToolCallChunk,
    ChatCompletionMessageToolCallChunkView, ChatCompletionStreamResponseDelta,
    ChatCompletionStreamResponseDeltaView, CompletionUsage, CreateChatCompletionStreamResponse,
    CreateChatCompletionStreamResponseView, FunctionCallStream, FunctionCallStreamView,
};
use crate::wire::{
    failed, finish_reason_of, is_object, number_or_zero, or_empty, or_zero, read_finish_reason,
    read_role, read_service_tier, read_tool_type, reads, role_of, service_tier_of, text_or_empty,
    tool_type_of, usage_member,
};
use vstd::prelude::*;

verus! {

/// A fragment of a function call.
pub open spec fn function_call_stream_of(doc: JsonView) -> Result<FunctionCallStreamView, DecodeError> {
    if !(doc is Object) {
        Err(DecodeError::NotAnObject("function"))
    } else if text_member(doc, "name") is Err {
        failed(text_member(doc, "name"))
    } else if text_member(doc, "arguments") is Err {
        failed(text_member(doc, "arguments"))
    } else {
        Ok(
            FunctionCallStreamView {
                name: text_member(doc, "name")->Ok_0,
                arguments: text_member(doc, "arguments")->Ok_0,
            },
        )
    }
}

/// The fragment of a function call under `key`, if one is given.
pub open spec fn function_call_stream_member(doc: JsonView, key: &'static str) -> Result<
    Option<FunctionCallStreamView>,
    DecodeError,
> {
    match member(doc, key@) {
        None => Ok(None),
        Some(call) => match function_call_stream_of(call) {
            Err(error) => Err(error),
            Ok(call) => Ok(Some(call)),
        },
    }
}

/// A fragment of a tool call.
pub open spec fn tool_call_chunk_of(doc: JsonView) -> Result<
    ChatCompletionMessageToolCallChunkView,
    DecodeError,
> {
    if !(doc is Object) {
        Err(DecodeError::NotAnObject("tool_calls"))
    } else if i32_member(doc, "index") is Err {
        failed(i32_member(doc, "index"))
    } else if text_member(doc, "id") is Err {
        failed(text_member(doc, "id"))
    } else if tool_type_of(doc) is Err {
        failed(tool_type_of(doc))
    } else if function_call_stream_member(doc, "function") is Err {
        failed(function_call_stream_member(doc, "function"))
    } else {
        Ok(
            ChatCompletionMessageToolCallChunkView {
                index: i32_member(doc, "index")->Ok_0,
                id: text_member(doc, "id")->Ok_0,
                kind: tool_type_of(doc)->Ok_0,
                function: function_call_stream_member(doc, "function")->Ok_0,
            },
        )
    }
}

/// The fragments of tool calls that a delta carries, if it carries any.
pub open spec fn tool_call_chunks_of(doc: JsonView) -> Result<
    Option<Seq<ChatCompletionMessageToolCallChunkView>>,
    DecodeError,
> {
    match array_member(doc, "tool_calls") {
        Err(error) => Err(error),
        Ok(None) => Ok(None),
        Ok(Some(items)) => match read_all(items, |item: JsonView| tool_call_chunk_of(item)) {
            Err(error) => Err(error),
            Ok(chunks) => Ok(Some(chunks)),
        },
    }
}

/// What one frame adds to a choice.
pub open spec fn delta_of(doc: JsonView) -> Result<ChatCompletionStreamResponseDeltaView, DecodeError> {
    if !(doc is Object) {
        Err(DecodeError::NotAnObject("delta"))
    } else if text_member(doc, "content") is Err {
        failed(text_member(doc, "content"))
    } else if function_call_stream_member(doc, "function_call") is Err {
        failed(function_call_stream_member(doc, "function_call"))
    } else if tool_call_chunks_of(doc) is Err {
        failed(tool_call_chunks_of(doc))
    } else if role_of(doc) is Err {
        failed(role_of(doc))
    } else if text_member(doc, "refusal") is Err {
        failed(text_member(doc, "refusal"))
    } else {
        Ok(
            ChatCompletionStreamResponseDeltaView {
                content: text_member(doc, "content")->Ok_0,
                function_call: function_call_stream_member(doc, "function_call")->Ok_0,
                tool_calls: tool_call_chunks_of(doc)->Ok_0,
                role: role_of(doc)->Ok_0,
                refusal: text_member(doc, "refusal")->Ok_0,
            },
        )
    }
}

/// A delta that adds nothing.
pub open spec fn empty_delta() -> ChatCompletionStreamResponseDeltaView {
    ChatCompletionStreamResponseDeltaView {
        content: None,
        function_call: None,
        tool_calls: None,
        role: None,
        refusal: None,
    }
}

/// The delta of a choice; one that is not given adds nothing.
pub open spec fn delta_member(doc: JsonView) -> Result<ChatCompletionStreamResponseDeltaView, DecodeError> {
    match member(doc, "delta"@) {
        None => Ok(empty_delta()),
        Some(delta) => delta_of(delta),
    }
}

/// One choice of a streamed frame.
pub open spec fn choice_stream_of(doc: JsonView) -> Result<ChatChoiceStreamView, DecodeError> {
    if !(doc is Object) {
        Err(DecodeError::NotAnObject("choices"))
    } else if u32_member(doc, "index") is Err {
        failed(u32_member(doc, "index"))
    } else if delta_member(doc) is Err {
        failed(delta_member(doc))
    } else if finish_reason_of(doc) is Err {
        failed(finish_reason_of(doc))
    } else {
        Ok(
            ChatChoiceStreamView {
                index: or_zero(u32_member(doc, "index")->Ok_0),
                delta: delta_member(doc)->Ok_0,
                finish_reason: finish_reason_of(doc)->Ok_0,
            },
        )
    }
}

/// The choices of a streamed frame; none where none are given.
pub open spec fn choices_stream_of(doc: JsonView) -> Result<Seq<ChatChoiceStreamView>, DecodeError> {
    match array_member(doc, "choices") {
        Err(error) => Err(error),
        Ok(None) => Ok(Seq::empty()),
        Ok(Some(items)) => read_all(items, |item: JsonView| choice_stream_of(item)),
    }
}

/// One frame of a streamed answer.
pub open spec fn stream_response_of(doc: JsonView) -> Result<
    CreateChatCompletionStreamResponseView,
    DecodeError,
> {
    if !(doc is Object) {
        Err(DecodeError::NotAnObject("chat.completion.chunk"))
    } else if text_member(doc, "id") is Err {
        failed(text_member(doc, "id"))
    } else if choices_stream_of(doc) is Err {
        failed(choices_stream_of(doc))
    } else if u32_member(doc, "created") is Err {
        failed(u32_member(doc, "created"))
    } else if text_member(doc, "model") is Err {
        failed(text_member(doc, "model"))
    } else if service_tier_of(doc) is Err {
        failed(service_tier_of(doc))
    } else if text_member(doc, "system_fingerprint") is Err {
        failed(text_member(doc, "system_fingerprint"))
    } else if text_member(doc, "object") is Err {
        failed(text_member(doc, "object"))
    } else if usage_member(doc) is Err {
        failed(usage_member(doc))
    } else {
        Ok(
            CreateChatCompletionStreamResponseView {
                id: text_member(doc, "id")->Ok_0,
                choices: choices_stream_of(doc)->Ok_0,
                created: or_zero(u32_member(doc, "created")->Ok_0),
                model: or_empty(text_member(doc, "model")->Ok_0),
                service_tier: service_tier_of(doc)->Ok_0,
                system_fingerprint: text_member(doc, "system_fingerprint")->Ok_0,
                object: or_empty(text_member(doc, "object")->Ok_0),
                usage: usage_member(doc)->Ok_0,
            },
        )
    }
}

impl FunctionCallStream {
    /// Reads a fragment of a function call.
    pub fn from_json(doc: &Json) -> (outcome: Result<FunctionCallStream, DecodeError>)
        ensures
            reads(outcome, function_call_stream_of(doc.deep_view())),
    {
        if !is_object(doc) {
            return Err(DecodeError::NotAnObject("function"));
        }
        let name = doc.text_member("name")?;
        let arguments = doc.text_member("arguments")?;
        Ok(FunctionCallStream { name, arguments })
    }

    /// Reads the fragment of a function call under `key`, if one is given.
    pub fn from_member(doc: &Json, key: &'static str) -> (outcome: Result<
        Option<FunctionCallStream>,
        DecodeError,
    >)
        ensures
            reads(outcome, function_call_stream_member(doc.deep_view(), key)),
    {
        match doc.get(key) {
            None => Ok(None),
            Some(call) => Ok(Some(FunctionCallStream::from_json(call)?)),
        }
    }
}

impl ChatCompletionMessageToolCallChunk {
    /// Reads a fragment of a tool call.
    pub fn from_json(doc: &Json) -> (outcome: Result<ChatCompletionMessageToolCallChunk, DecodeError>)
        ensures
            reads(outcome, tool_call_chunk_of(doc.deep_view())),
    {
        if !is_object(doc) {
            return Err(DecodeError::NotAnObject("tool_calls"));
        }
        let index = doc.i32_member("index")?;
        let id = doc.text_member("id")?;
        let kind = read_tool_type(doc)?;
        let function = FunctionCallStream::from_member(doc, "function")?;
        Ok(ChatCompletionMessageToolCallChunk { index, id, kind, function })
    }
}

/// Reads the fragments of tool calls that a delta carries, if it carries any.
pub fn read_tool_call_chunks(doc: &Json) -> (outcome: Result<
    Option<Vec<ChatCompletionMessageToolCallChunk>>,
    DecodeError,
>)
    ensures
        reads(outcome, tool_call_chunks_of(doc.deep_view())),
{
    let items = match doc.array_member("tool_calls")? {
        None => { return Ok(None); },
        Some(items) => items,
    };
    let ghost all = items.deep_view();
    let ghost read = |item: JsonView| tool_call_chunk_of(item);
    let mut chunks: Vec<ChatCompletionMessageToolCallChunk> = Vec::new();
    let mut i: usize = 0;
    assert(all.take(0) =~= Seq::empty());
    assert(chunks.deep_view() =~= Seq::empty());
    while i < items.len()
        invariant
            i <= items.len(),
            all == items.deep_view(),
            read == (|item: JsonView| tool_call_chunk_of(item)),
            array_member(doc.deep_view(), "tool_calls") == Ok::<Option<Seq<JsonView>>, DecodeError>(
                Some(all),
            ),
            read_all(all.take(i as int), read) == Ok::<
                Seq<ChatCompletionMessageToolCallChunkView>,
                DecodeError,
            >(chunks.deep_view()),
        decreases items.len() - i,
    {
        proof {
            lemma_read_all_step(all, read, i as int);
        }
        match ChatCompletionMessageToolCallChunk::from_json(&items[i]) {
            Ok(chunk) => {
                let ghost before = chunks.deep_view();
                chunks.push(chunk);
                assert(chunks.deep_view() =~= before.push(chunk.deep_view()));
            },
            Err(error) => {
                proof {
                    lemma_read_all_fails(all, read, i + 1);
                }
                return Err(error);
            },
        }
        i += 1;
    }
    assert(all.take(items.len() as int) =~= all);
    Ok(Some(chunks))
}

impl ChatCompletionStreamResponseDelta {
    /// Reads what one frame adds to a choice.
    pub fn from_json(doc: &Json) -> (outcome: Result<ChatCompletionStreamResponseDelta, DecodeError>)
        ensures
            reads(outcome, delta_of(doc.deep_view())),
    {
        if !is_object(doc) {
            return Err(DecodeError::NotAnObject("delta"));
        }
        let content = doc.text_member("content")?;
        let function_call = FunctionCallStream::from_member(doc, "function_call")?;
        let tool_calls = read_tool_call_chunks(doc)?;
        let role = read_role(doc)?;
        let refusal = doc.text_member("refusal")?;
        Ok(ChatCompletionStreamResponseDelta { content, function_call, tool_calls, role, refusal })
    }

    /// A delta that adds nothing.
    pub fn empty() -> (delta: ChatCompletionStreamResponseDelta)
        ensures
            delta.deep_view() == empty_delta(),
    {
        ChatCompletionStreamResponseDelta {
            content: None,
            function_call: None,
            tool_calls: None,
            role: None,
            refusal: None,
        }
    }
}

impl ChatChoiceStream {
    /// Reads one choice of a streamed frame.
    pub fn from_json(doc: &Json) -> (outcome: Result<ChatChoiceStream, DecodeError>)
        ensures
            reads(outcome, choice_stream_of(doc.deep_view())),
    {
        if !is_object(doc) {
            return Err(DecodeError::NotAnObject("choices"));
        }
        let index = number_or_zero(doc.u32_member("index")?);
        let delta = match doc.get("delta") {
            None => ChatCompletionStreamResponseDelta::empty(),
            Some(delta) => ChatCompletionStreamResponseDelta::from_json(delta)?,
        };
        let finish_reason = read_finish_reason(doc)?;
        Ok(ChatChoiceStream { index, delta, finish_reason })
    }
}

/// Reads the choices of a streamed frame; none where none are given.
pub fn read_stream_choices(doc: &Json) -> (outcome: Result<Vec<ChatChoiceStream>, DecodeError>)
    ensures
        reads(outcome, choices_stream_of(doc.deep_view())),
{
    let mut choices: Vec<ChatChoiceStream> = Vec::new();
    assert(choices.deep_view() =~= Seq::empty());
    let items = match doc.array_member("choices")? {
        None => { return Ok(choices); },
        Some(items) => items,
    };
    let ghost all = items.deep_view();
    let ghost read = |item: JsonView| choice_stream_of(item);
    let mut i: usize = 0;
    assert(all.take(0) =~= Seq::empty());
    while i < items.len()
        invariant
            i <= items.len(),
            all == items.deep_view(),
            read == (|item: JsonView| choice_stream_of(item)),
            array_member(doc.deep_view(), "choices") == Ok::<Option<Seq<JsonView>>, DecodeError>(
                Some(all),
            ),
            read_all(all.take(i as int), read) == Ok::<Seq<ChatChoiceStreamView>, DecodeError>(
                choices.deep_view(),
            ),
        decreases items.len() - i,
    {
        proof {
            lemma_read_all_step(all, read, i as int);
        }
        match ChatChoiceStream::from_json(&items[i]) {
            Ok(choice) => {
                let ghost before = choices.deep_view();
                choices.push(choice);
                assert(choices.deep_view() =~= before.push(choice.deep_view()));
            },
            Err(error) => {
                proof {
                    lemma_read_all_fails(all, read, i + 1);
                }
                return Err(error);
            },
        }
        i += 1;
    }
    assert(all.take(items.len() as int) =~= all);
    Ok(choices)
}

impl CreateChatCompletionStreamResponse {
    /// Reads one frame of a streamed answer.
    pub fn from_json(doc: &Json) -> (outcome: Result<CreateChatCompletionStreamResponse, DecodeError>)
        ensures
            reads(outcome, stream_response_of(doc.deep_view())),
    {
        if !is_object(doc) {
            return Err(DecodeError::NotAnObject("chat.completion.chunk"));
        }
        let id = doc.text_member("id")?;
        let choices = read_stream_choices(doc)?;
        let created = number_or_zero(doc.u32_member("created")?);
        let model = text_or_empty(doc.text_member("model")?);
        let service_tier = read_service_tier(doc)?;
        let system_fingerprint = doc.text_member("system_fingerprint")?;
        let object = text_or_empty(doc.text_member("object")?);
        let usage = CompletionUsage::from_member(doc)?;
        Ok(
            CreateChatCompletionStreamResponse {
                id,
                choices,
                created,
                model,
                service_tier,
                system_fingerprint,
                object,
                usage,
            },
        )
    }
}

} // verus!
