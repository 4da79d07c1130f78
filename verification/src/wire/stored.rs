//! Messages as they are stored: each under its kind.
use crate::json::{
    array_member, lemma_json_view, lemma_read_all_fails, lemma_read_all_step, member, read_all,
    text_member, DecodeError, Json, JsonView,
};
use crate::messages::{ImageContent, ImageContentView, Message, MessageType, MessageView};
use crate::text::same_text;
use crate::wire::{failed, is_object, read_required_text, reads, required_text};
use vstd::prelude::*;

verus! {

/// The kind that a stored message states, which must be given.
pub open spec fn message_type_of(doc: JsonView) -> Result<MessageType, DecodeError> {
    match required_text(doc, "role") {
        Err(error) => Err(error),
        Ok(text) => if text == "system"@ {
            Ok(MessageType::SystemMessage)
        } else if text == "ai"@ {
            Ok(MessageType::AIMessage)
        } else if text == "human"@ {
            Ok(MessageType::HumanMessage)
        } else if text == "tool"@ {
            Ok(MessageType::ToolMessage)
        } else {
            Err(DecodeError::UnknownValue("role"))
        },
    }
}

/// An image of a stored message: its address must be given.
pub open spec fn image_of(doc: JsonView) -> Result<ImageContentView, DecodeError> {
    if !(doc is Object) {
        Err(DecodeError::NotAnObject("images"))
    } else if required_text(doc, "image_url") is Err {
        failed(required_text(doc, "image_url"))
    } else if text_member(doc, "detail") is Err {
        failed(text_member(doc, "detail"))
    } else {
        Ok(
            ImageContentView {
                image_url: required_text(doc, "image_url")->Ok_0,
                detail: text_member(doc, "detail")->Ok_0,
            },
        )
    }
}

/// The images of a stored message, if it has any.
pub open spec fn images_of(doc: JsonView) -> Result<Option<Seq<ImageContentView>>, DecodeError> {
    match array_member(doc, "images") {
        Err(error) => Err(error),
        Ok(None) => Ok(None),
        Ok(Some(items)) => match read_all(items, |item: JsonView| image_of(item)) {
            Err(error) => Err(error),
            Ok(images) => Ok(Some(images)),
        },
    }
}

/// A stored message: its kind must be given under `role`.
pub open spec fn stored_message_of(doc: JsonView) -> Result<MessageView, DecodeError> {
    if !(doc is Object) {
        Err(DecodeError::NotAnObject("message"))
    } else if text_member(doc, "content") is Err {
        failed(text_member(doc, "content"))
    } else if message_type_of(doc) is Err {
        failed(message_type_of(doc))
    } else if text_member(doc, "id") is Err {
        failed(text_member(doc, "id"))
    } else if images_of(doc) is Err {
        failed(images_of(doc))
    } else if text_member(doc, "name") is Err {
        failed(text_member(doc, "name"))
    } else {
        Ok(
            MessageView {
                content: text_member(doc, "content")->Ok_0,
                message_type: message_type_of(doc)->Ok_0,
                id: text_member(doc, "id")->Ok_0,
                tool_calls: member(doc, "tool_calls"@),
                images: images_of(doc)->Ok_0,
                name: text_member(doc, "name")->Ok_0,
            },
        )
    }
}

/// The stored messages that a document lists.
pub open spec fn stored_messages_of(doc: JsonView) -> Result<Seq<MessageView>, DecodeError> {
    match doc {
        JsonView::Array(items) => read_all(items, |item: JsonView| stored_message_of(item)),
        _ => Err(DecodeError::WrongType("messages")),
    }
}

/// Reads the kind that a stored message states.
pub fn read_message_type(doc: &Json) -> (outcome: Result<MessageType, DecodeError>)
    ensures
        outcome == message_type_of(doc.deep_view()),
{
    let text = read_required_text(doc, "role")?;
    if same_text(text.as_str(), "system") {
        Ok(MessageType::SystemMessage)
    } else if same_text(text.as_str(), "ai") {
        Ok(MessageType::AIMessage)
    } else if same_text(text.as_str(), "human") {
        Ok(MessageType::HumanMessage)
    } else if same_text(text.as_str(), "tool") {
        Ok(MessageType::ToolMessage)
    } else {
        Err(DecodeError::UnknownValue("role"))
    }
}

impl ImageContent {
    /// Reads an image of a stored message.
    pub fn from_json(doc: &Json) -> (outcome: Result<ImageContent, DecodeError>)
        ensures
            reads(outcome, image_of(doc.deep_view())),
    {
        if !is_object(doc) {
            return Err(DecodeError::NotAnObject("images"));
        }
        let image_url = read_required_text(doc, "image_url")?;
        let detail = doc.text_member("detail")?;
        Ok(ImageContent { image_url, detail })
    }
}

/// Reads the images of a stored message, if it has any.
pub fn read_images(doc: &Json) -> (outcome: Result<Option<Vec<ImageContent>>, DecodeError>)
    ensures
        reads(outcome, images_of(doc.deep_view())),
{
    let items = match doc.array_member("images")? {
        None => { return Ok(None); },
        Some(items) => items,
    };
    let ghost all = items.deep_view();
    let ghost read = |item: JsonView| image_of(item);
    let mut images: Vec<ImageContent> = Vec::new();
    let mut i: usize = 0;
    assert(all.take(0) =~= Seq::empty());
    assert(images.deep_view() =~= Seq::empty());
    while i < items.len()
        invariant
            i <= items.len(),
            all == items.deep_view(),
            read == (|item: JsonView| image_of(item)),
            array_member(doc.deep_view(), "images") == Ok::<Option<Seq<JsonView>>, DecodeError>(
                Some(all),
            ),
            read_all(all.take(i as int), read) == Ok::<Seq<ImageContentView>, DecodeError>(
                images.deep_view(),
            ),
        decreases items.len() - i,
    {
        proof {
            lemma_read_all_step(all, read, i as int);
        }
        match ImageContent::from_json(&items[i]) {
            Ok(image) => {
                let ghost before = images.deep_view();
                images.push(image);
                assert(images.deep_view() =~= before.push(image.deep_view()));
            },
            Err(error) => {
                proof {
                    lemma_read_all_fails(all, read, i + 1);
                }
                return Err(error);
            },
        }
        i += 1;
    }
    assert(all.take(items.len() as int) =~= all);
    Ok(Some(images))
}

impl Message {
    /// Reads a stored message.
    pub fn from_json(doc: &Json) -> (outcome: Result<Message, DecodeError>)
        ensures
            reads(outcome, stored_message_of(doc.deep_view())),
    {
        if !is_object(doc) {
            return Err(DecodeError::NotAnObject("message"));
        }
        let content = doc.text_member("content")?;
        let message_type = read_message_type(doc)?;
        let id = doc.text_member("id")?;
        let images = read_images(doc)?;
        let name = doc.text_member("name")?;
        let tool_calls = match doc.get("tool_calls") {
            Some(calls) => Some(calls.clone()),
            None => None,
        };
        Ok(Message { content, message_type, id, tool_calls, images, name })
    }

    /// Reads the stored messages that a document lists.
    pub fn messages_from_value(value: &Json) -> (outcome: Result<Vec<Message>, DecodeError>)
        ensures
            reads(outcome, stored_messages_of(value.deep_view())),
    {
        proof {
            lemma_json_view(*value);
        }
        let items = match value {
            Json::Array(items) => items,
            _ => {
                return Err(DecodeError::WrongType("messages"));
            },
        };
        let ghost all = items.deep_view();
        let ghost read = |item: JsonView| stored_message_of(item);
        let mut messages: Vec<Message> = Vec::new();
        let mut i: usize = 0;
        assert(all.take(0) =~= Seq::empty());
        assert(messages.deep_view() =~= Seq::empty());
        while i < items.len()
            invariant
                i <= items.len(),
                all == items.deep_view(),
                value.deep_view() == JsonView::Array(all),
                read == (|item: JsonView| stored_message_of(item)),
                read_all(all.take(i as int), read) == Ok::<Seq<MessageView>, DecodeError>(
                    messages.deep_view(),
                ),
            decreases items.len() - i,
        {
            proof {
                lemma_read_all_step(all, read, i as int);
            }
            match Message::from_json(&items[i]) {
                Ok(message) => {
                    let ghost before = messages.deep_view();
                    messages.push(message);
                    assert(messages.deep_view() =~= before.push(message.deep_view()));
                },
                Err(error) => {
                    proof {
                        lemma_read_all_fails(all, read, i + 1);
                    }
                    return Err(error);
                },
            }
            i += 1;
        }
        assert(all.take(items.len() as int) =~= all);
        Ok(messages)
    }
}

} // verus!
