//! The conversation handed to a provider: role-tagged messages in order, and
//! the tools advertised for the turn.
use crate::json::{Json, JsonView};
use crate::openai::{Tool, ToolView};
use vstd::prelude::*;

verus! {

/// Who wrote a message.
#[derive(Debug, Clone, Copy, PartialEq, Eq)]
pub enum MessageType {
    SystemMessage,
    AIMessage,
    HumanMessage,
    ToolMessage,
}

impl Default for MessageType {
    fn default() -> (kind: Self)
        ensures
            kind == MessageType::SystemMessage,
    {
        MessageType::SystemMessage
    }
}

impl MessageType {
    /// The name of the kind as messages carry it.
    pub open spec fn label(self) -> Seq<char> {
        match self {
            MessageType::SystemMessage => "system"@,
            MessageType::AIMessage => "ai"@,
            MessageType::HumanMessage => "human"@,
            MessageType::ToolMessage => "tool"@,
        }
    }

    /// The role under which a provider knows the kind.
    pub open spec fn role(self) -> Seq<char> {
        match self {
            MessageType::SystemMessage => "system"@,
            MessageType::AIMessage => "assistant"@,
            MessageType::HumanMessage => "user"@,
            MessageType::ToolMessage => "tool"@,
        }
    }

    /// `"system"`, `"ai"`, `"human"` or `"tool"`.
    pub fn to_string(&self) -> (text: String)
        ensures
            text@ == self.label(),
    {
        match self {
            MessageType::SystemMessage => "system".to_owned(),
            MessageType::AIMessage => "ai".to_owned(),
            MessageType::HumanMessage => "human".to_owned(),
            MessageType::ToolMessage => "tool".to_owned(),
        }
    }

    /// `"system"`, `"assistant"`, `"user"` or `"tool"`.
    pub fn role_name(&self) -> (text: String)
        ensures
            text@ == self.role(),
    {
        match self {
            MessageType::SystemMessage => "system".to_owned(),
            MessageType::AIMessage => "assistant".to_owned(),
            MessageType::HumanMessage => "user".to_owned(),
            MessageType::ToolMessage => "tool".to_owned(),
        }
    }
}

/// An image handed to a provider.
#[derive(Debug, PartialEq)]
pub struct ImageContent {
    pub image_url: String,
    pub detail: Option<String>,
}

pub struct ImageContentView {
    pub image_url: Seq<char>,
    pub detail: Option<Seq<char>>,
}

impl DeepView for ImageContent {
    type V = ImageContentView;

    open spec fn deep_view(&self) -> ImageContentView {
        ImageContentView { image_url: self.image_url@, detail: self.detail.deep_view() }
    }
}

impl Clone for ImageContent {
    fn clone(&self) -> (copy: Self)
        ensures
            copy.deep_view() == self.deep_view(),
    {
        ImageContent { image_url: self.image_url.clone(), detail: self.detail.clone() }
    }
}

impl Default for ImageContent {
    fn default() -> (image: Self)
        ensures
            image.deep_view() == (ImageContentView { image_url: Seq::empty(), detail: None }),
    {
        ImageContent { image_url: String::new(), detail: None }
    }
}

impl ImageContent {
    /// The image at `image_url`, with no detail.
    pub fn from_url(image_url: &str) -> (image: ImageContent)
        ensures
            image.deep_view() == (ImageContentView { image_url: image_url@, detail: None }),
    {
        ImageContent { image_url: image_url.to_owned(), detail: None }
    }
}

/// One entry of a conversation.
#[derive(Debug, PartialEq)]
pub struct Message {
    pub content: Option<String>,
    pub message_type: MessageType,
    /// Set on a tool's answer: the identifier of the call that it answers.
    pub id: Option<String>,
    /// Set on an assistant's message that announces tool calls.
    pub tool_calls: Option<Json>,
    pub images: Option<Vec<ImageContent>>,
    /// The tool's name.
    pub name: Option<String>,
}

pub struct MessageView {
    pub content: Option<Seq<char>>,
    pub message_type: MessageType,
    pub id: Option<Seq<char>>,
    pub tool_calls: Option<JsonView>,
    pub images: Option<Seq<ImageContentView>>,
    pub name: Option<Seq<char>>,
}

impl DeepView for Message {
    type V = MessageView;

    open spec fn deep_view(&self) -> MessageView {
        MessageView {
            content: self.content.deep_view(),
            message_type: self.message_type,
            id: self.id.deep_view(),
            tool_calls: self.tool_calls.deep_view(),
            images: self.images.deep_view(),
            name: self.name.deep_view(),
        }
    }
}

/// A message of `kind` that holds `content` and nothing else.
pub open spec fn plain_message(kind: MessageType, content: Seq<char>) -> MessageView {
    MessageView {
        content: Some(content),
        message_type: kind,
        id: None,
        tool_calls: None,
        images: None,
        name: None,
    }
}

/// The answer of a tool to the call `id`.
pub open spec fn tool_message(content: Seq<char>, id: Seq<char>) -> MessageView {
    MessageView { id: Some(id), ..plain_message(MessageType::ToolMessage, content) }
}

/// A copy of a list of images.
fn clone_images(images: &Vec<ImageContent>) -> (copy: Vec<ImageContent>)
    ensures
        copy.deep_view() == images.deep_view(),
{
    let mut copy: Vec<ImageContent> = Vec::new();
    let mut i: usize = 0;
    while i < images.len()
        invariant
            i <= images.len(),
            copy.len() == i,
            forall|k: int| 0 <= k < i ==> copy@[k].deep_view() == images@[k].deep_view(),
        decreases images.len() - i,
    {
        copy.push(images[i].clone());
        i += 1;
    }
    assert(copy.deep_view() =~= images.deep_view());
    copy
}

impl Clone for Message {
    fn clone(&self) -> (copy: Self)
        ensures
            copy.deep_view() == self.deep_view(),
    {
        Message {
            content: self.content.clone(),
            message_type: self.message_type,
            id: self.id.clone(),
            tool_calls: match &self.tool_calls {
                Some(calls) => Some(calls.clone()),
                None => None,
            },
            images: match &self.images {
                Some(images) => Some(clone_images(images)),
                None => None,
            },
            name: self.name.clone(),
        }
    }
}

impl Default for Message {
    fn default() -> (message: Self)
        ensures
            message.deep_view() == (MessageView {
                content: None,
                ..plain_message(MessageType::SystemMessage, Seq::empty())
            }),
    {
        Message {
            content: None,
            message_type: MessageType::SystemMessage,
            id: None,
            tool_calls: None,
            images: None,
            name: None,
        }
    }
}

impl Message {
    /// A message of `kind` that holds `content` and nothing else.
    fn plain(kind: MessageType, content: &str) -> (message: Message)
        ensures
            message.deep_view() == plain_message(kind, content@),
    {
        Message {
            content: Some(content.to_owned()),
            message_type: kind,
            id: None,
            tool_calls: None,
            images: None,
            name: None,
        }
    }

    /// What the user says.
    pub fn new_human_message(content: &str) -> (message: Message)
        ensures
            message.deep_view() == plain_message(MessageType::HumanMessage, content@),
    {
        Message::plain(MessageType::HumanMessage, content)
    }

    /// What the user shows: a message with empty text and the images.
    pub fn new_human_message_with_images(images: Vec<ImageContent>) -> (message: Message)
        ensures
            message.deep_view() == (MessageView {
                images: Some(images.deep_view()),
                ..plain_message(MessageType::HumanMessage, Seq::empty())
            }),
    {
        Message {
            content: Some(String::new()),
            message_type: MessageType::HumanMessage,
            id: None,
            tool_calls: None,
            images: Some(images),
            name: None,
        }
    }

    /// An instruction to the provider.
    pub fn new_system_message(content: &str) -> (message: Message)
        ensures
            message.deep_view() == plain_message(MessageType::SystemMessage, content@),
    {
        Message::plain(MessageType::SystemMessage, content)
    }

    /// What the assistant said.
    pub fn new_ai_message(content: &str) -> (message: Message)
        ensures
            message.deep_view() == plain_message(MessageType::AIMessage, content@),
    {
        Message::plain(MessageType::AIMessage, content)
    }

    /// The answer of a tool to the call `id`.
    pub fn new_tool_message(content: &str, id: &str) -> (message: Message)
        ensures
            message.deep_view() == tool_message(content@, id@),
    {
        Message {
            content: Some(content.to_owned()),
            message_type: MessageType::ToolMessage,
            id: Some(id.to_owned()),
            tool_calls: None,
            images: None,
            name: None,
        }
    }

    /// The message with `tool_calls` attached.
    pub fn with_tool_calls(self, tool_calls: Json) -> (message: Message)
        ensures
            message.deep_view() == (MessageView {
                tool_calls: Some(tool_calls.deep_view()),
                ..self.deep_view()
            }),
    {
        let mut message = self;
        message.tool_calls = Some(tool_calls);
        message
    }
}

/// A conversation and the tools advertised with it.
#[derive(Debug, PartialEq)]
pub struct Messages {
    pub messages: Vec<Message>,
    pub tools: Vec<Tool>,
}

pub struct MessagesView {
    pub messages: Seq<MessageView>,
    pub tools: Seq<ToolView>,
}

impl DeepView for Messages {
    type V = MessagesView;

    open spec fn deep_view(&self) -> MessagesView {
        MessagesView { messages: self.messages.deep_view(), tools: self.tools.deep_view() }
    }
}

/// A copy of a list of messages.
pub fn clone_messages(messages: &Vec<Message>) -> (copy: Vec<Message>)
    ensures
        copy.deep_view() == messages.deep_view(),
{
    let mut copy: Vec<Message> = Vec::new();
    let mut i: usize = 0;
    while i < messages.len()
        invariant
            i <= messages.len(),
            copy.len() == i,
            forall|k: int| 0 <= k < i ==> copy@[k].deep_view() == messages@[k].deep_view(),
        decreases messages.len() - i,
    {
        copy.push(messages[i].clone());
        i += 1;
    }
    assert(copy.deep_view() =~= messages.deep_view());
    copy
}

/// A copy of a list of tools.
pub fn clone_tools(tools: &Vec<Tool>) -> (copy: Vec<Tool>)
    ensures
        copy.deep_view() == tools.deep_view(),
{
    let mut copy: Vec<Tool> = Vec::new();
    let mut i: usize = 0;
    while i < tools.len()
        invariant
            i <= tools.len(),
            copy.len() == i,
            forall|k: int| 0 <= k < i ==> copy@[k].deep_view() == tools@[k].deep_view(),
        decreases tools.len() - i,
    {
        copy.push(tools[i].clone());
        i += 1;
    }
    assert(copy.deep_view() =~= tools.deep_view());
    copy
}

impl Clone for Messages {
    fn clone(&self) -> (copy: Self)
        ensures
            copy.deep_view() == self.deep_view(),
    {
        Messages { messages: clone_messages(&self.messages), tools: clone_tools(&self.tools) }
    }
}

impl Default for Messages {
    fn default() -> (messages: Self)
        ensures
            messages.deep_view() == (MessagesView { messages: Seq::empty(), tools: Seq::empty() }),
    {
        let messages = Messages { messages: Vec::new(), tools: Vec::new() };
        assert(messages.messages.deep_view() =~= Seq::<MessageView>::empty());
        assert(messages.tools.deep_view() =~= Seq::<ToolView>::empty());
        messages
    }
}

impl Messages {
    /// A builder with no message and no tool.
    pub fn builder() -> (builder: MessagesBuilder)
        ensures
            builder.deep_view() == (MessagesView { messages: Seq::empty(), tools: Seq::empty() }),
    {
        MessagesBuilder::new()
    }

    /// Appends `message` to the conversation.
    pub fn add_message(&mut self, message: Message)
        ensures
            final(self).deep_view() == (MessagesView {
                messages: old(self).deep_view().messages.push(message.deep_view()),
                ..old(self).deep_view()
            }),
    {
        self.messages.push(message);
        assert(self.messages.deep_view() =~= old(self).messages.deep_view().push(
            message.deep_view(),
        ));
    }
}

/// Collects messages and tools into a [`Messages`].
pub struct MessagesBuilder {
    messages: Vec<Message>,
    tools: Vec<Tool>,
}

impl DeepView for MessagesBuilder {
    type V = MessagesView;

    closed spec fn deep_view(&self) -> MessagesView {
        MessagesView { messages: self.messages.deep_view(), tools: self.tools.deep_view() }
    }
}

impl MessagesBuilder {
    /// A builder with no message and no tool.
    pub fn new() -> (builder: MessagesBuilder)
        ensures
            builder.deep_view() == (MessagesView { messages: Seq::empty(), tools: Seq::empty() }),
    {
        let builder = MessagesBuilder { messages: Vec::new(), tools: Vec::new() };
        assert(builder.messages.deep_view() =~= Seq::<MessageView>::empty());
        assert(builder.tools.deep_view() =~= Seq::<ToolView>::empty());
        builder
    }

    /// Appends `message`.
    pub fn add_message(self, message: Message) -> (builder: MessagesBuilder)
        ensures
            builder.deep_view() == (MessagesView {
                messages: self.deep_view().messages.push(message.deep_view()),
                ..self.deep_view()
            }),
    {
        let mut builder = self;
        builder.messages.push(message);
        assert(builder.messages.deep_view() =~= self.messages.deep_view().push(
            message.deep_view(),
        ));
        builder
    }

    /// Appends what the user says.
    pub fn add_human_message(self, content: &str) -> (builder: MessagesBuilder)
        ensures
            builder.deep_view() == (MessagesView {
                messages: self.deep_view().messages.push(
                    plain_message(MessageType::HumanMessage, content@),
                ),
                ..self.deep_view()
            }),
    {
        self.add_message(Message::new_human_message(content))
    }

    /// Appends an instruction to the provider.
    pub fn add_system_message(self, content: &str) -> (builder: MessagesBuilder)
        ensures
            builder.deep_view() == (MessagesView {
                messages: self.deep_view().messages.push(
                    plain_message(MessageType::SystemMessage, content@),
                ),
                ..self.deep_view()
            }),
    {
        self.add_message(Message::new_system_message(content))
    }

    /// Appends the answer of a tool to the call `id`.
    pub fn add_tool_message(self, content: &str, id: &str) -> (builder: MessagesBuilder)
        ensures
            builder.deep_view() == (MessagesView {
                messages: self.deep_view().messages.push(tool_message(content@, id@)),
                ..self.deep_view()
            }),
    {
        self.add_message(Message::new_tool_message(content, id))
    }

    /// Appends what the assistant said.
    pub fn add_ai_message(self, content: &str) -> (builder: MessagesBuilder)
        ensures
            builder.deep_view() == (MessagesView {
                messages: self.deep_view().messages.push(
                    plain_message(MessageType::AIMessage, content@),
                ),
                ..self.deep_view()
            }),
    {
        self.add_message(Message::new_ai_message(content))
    }

    /// Appends `tools` to the tools advertised.
    pub fn add_tools(self, tools: Vec<Tool>) -> (builder: MessagesBuilder)
        ensures
            builder.deep_view() == (MessagesView {
                tools: self.deep_view().tools + tools.deep_view(),
                ..self.deep_view()
            }),
    {
        let mut builder = self;
        let mut added = tools;
        builder.tools.append(&mut added);
        assert(builder.tools.deep_view() =~= self.tools.deep_view() + tools.deep_view());
        builder
    }

    /// The conversation collected so far.
    pub fn build(self) -> (messages: Messages)
        ensures
            messages.deep_view() == self.deep_view(),
    {
        Messages { messages: self.messages, tools: self.tools }
    }
}

} // verus!
