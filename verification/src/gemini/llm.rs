//! The provider itself: how a conversation becomes a request, and what an
//! answer means.
use crate::gemini::config::{GeminiConfig, GeminiConfigView, GeminiModel};
use crate::gemini::schema::{
    GeminiRequest, GeminiRequestView, GeminiResponse, GeminiResponseView, OpenAIContent,
    OpenAIContentView,
};
use crate::json::{parsed_json, rendered_json, Json};
use crate::llm::{
    merged_options, text_answer, CallOptions, GenerateResult, LLMError, LLMErrorView, LLMResult, LLMResultView,
    ToolCallResult, ToolCallResultView,
};
use crate::messages::{clone_tools, Message, MessageType, MessageView, Messages, MessagesView};
use crate::openai::FinishReason;
use crate::stream::{announcement, item_view};
use crate::text::join;
use crate::wire::answers::response_of;
use crate::wire::requests::{
    contents_doc, contents_to_json, request_doc, tool_calls_doc, tool_calls_to_json,
};
use vstd::prelude::*;

verus! {

/// A message as the provider receives it: the kind becomes the role, and the
/// identifier becomes the identifier of the tool call that is answered.
pub open spec fn openai_content(message: MessageView) -> OpenAIContentView {
    OpenAIContentView {
        role: message.message_type.role(),
        content: message.content,
        tool_calls: message.tool_calls,
        tool_call_id: message.id,
    }
}

/// The messages as the provider receives them, in order.
pub open spec fn openai_contents(messages: Seq<MessageView>) -> Seq<OpenAIContentView> {
    Seq::new(messages.len(), |i: int| openai_content(messages[i]))
}

/// The request for a conversation: tools and the tool choice `"auto"` only
/// where tools are advertised, the stream flag only for a streamed call.
pub open spec fn gemini_request(messages: MessagesView, model: GeminiModel, is_stream: bool) -> GeminiRequestView {
    GeminiRequestView {
        messages: openai_contents(messages.messages),
        tools: if messages.tools.len() == 0 {
            None
        } else {
            Some(messages.tools)
        },
        tool_choice: if messages.tools.len() == 0 {
            None
        } else {
            Some("auto"@)
        },
        model: model.name(),
        stream: if is_stream {
            Some(true)
        } else {
            None
        },
    }
}

/// What a non-streaming answer means. Only the first choice counts. Where it
/// ends in tool calls, the first call is the call of the turn, with its
/// arguments parsed, and all calls stand in the announcement; else its
/// content is the answer. An answer without choices, a turn that ends in
/// tool calls without a call, and a choice without content are errors.
pub open spec fn response_turn(response: GeminiResponseView) -> Result<LLMResultView, LLMErrorView> {
    if response.choices.len() == 0 {
        Err(LLMErrorView::OtherError("No choices in response"@))
    } else {
        let message = response.choices[0].message;
        if response.choices[0].finish_reason == Some(FinishReason::ToolCalls) {
            if message.tool_calls is None || message.tool_calls->0.len() == 0 {
                Err(LLMErrorView::OtherError("No tool call in response"@))
            } else {
                let first = message.tool_calls->0[0];
                match parsed_json(first.function.arguments) {
                    Err(report) => Err(LLMErrorView::SerdeError(report)),
                    Ok(arguments) => Ok(
                        LLMResultView::ToolCall(
                            ToolCallResultView {
                                id: first.id,
                                name: first.function.name,
                                arguments,
                                ai_message: announcement(tool_calls_doc(message.tool_calls->0)),
                            },
                        ),
                    ),
                }
            }
        } else {
            match message.content {
                Some(content) => Ok(LLMResultView::Generate(text_answer(content, None))),
                None => Err(LLMErrorView::OtherError("No content in response"@)),
            }
        }
    }
}

/// Whether the status of a reply says that the call succeeded.
pub open spec fn is_success(status: u16) -> bool {
    200 <= status < 300
}

/// What a reply means: a reply that did not succeed is an error that quotes
/// the status and the body; the body of one that did is an answer in JSON.
pub open spec fn reply_turn(status: u16, status_text: Seq<char>, body: Seq<char>) -> Result<
    LLMResultView,
    LLMErrorView,
> {
    if is_success(status) {
        match parsed_json(body) {
            Err(report) => Err(LLMErrorView::SerdeError(report)),
            Ok(doc) => match response_of(doc) {
                Err(error) => Err(LLMErrorView::SerdeError(error.message())),
                Ok(response) => response_turn(response),
            },
        }
    } else {
        Err(LLMErrorView::OtherError("Gemini API error: "@ + status_text + " - "@ + body))
    }
}

impl Messages {
    /// The messages as the provider receives them, in order.
    pub fn to_openai_messages(&self) -> (contents: Vec<OpenAIContent>)
        ensures
            contents.deep_view() == openai_contents(self.deep_view().messages),
    {
        let mut contents: Vec<OpenAIContent> = Vec::new();
        let mut i: usize = 0;
        while i < self.messages.len()
            invariant
                i <= self.messages.len(),
                contents.len() == i,
                forall|k: int|
                    0 <= k < i ==> contents@[k].deep_view() == openai_content(
                        self.messages@[k].deep_view(),
                    ),
            decreases self.messages.len() - i,
        {
            let message = &self.messages[i];
            contents.push(
                OpenAIContent {
                    role: message.message_type.role_name(),
                    content: message.content.clone(),
                    tool_calls: match &message.tool_calls {
                        Some(calls) => Some(calls.clone()),
                        None => None,
                    },
                    tool_call_id: message.id.clone(),
                },
            );
            i += 1;
        }
        assert(contents.deep_view() =~= openai_contents(self.deep_view().messages));
        contents
    }

    /// The messages as the provider receives them, as a JSON document.
    pub fn to_json_value(&self) -> (doc: Json)
        ensures
            doc.deep_view() == contents_doc(openai_contents(self.deep_view().messages)),
    {
        contents_to_json(&self.to_openai_messages())
    }
}

/// A conversation in the provider's terms.
pub trait OpenAIMessages {
    /// The messages of the conversation as the provider receives them, in
    /// order.
    spec fn provider_contents(&self) -> Seq<OpenAIContentView>;

    /// The messages as the provider receives them, in order.
    fn to_openai_messages(&self) -> (contents: Vec<OpenAIContent>)
        ensures
            contents.deep_view() == self.provider_contents(),
    ;

    /// The messages as the provider receives them, as a JSON document.
    fn to_json_value(&self) -> (doc: Json)
        ensures
            doc.deep_view() == contents_doc(self.provider_contents()),
    ;
}

impl OpenAIMessages for Messages {
    open spec fn provider_contents(&self) -> Seq<OpenAIContentView> {
        openai_contents(self.deep_view().messages)
    }

    fn to_openai_messages(&self) -> Vec<OpenAIContent> {
        Messages::to_openai_messages(self)
    }

    fn to_json_value(&self) -> Json {
        Messages::to_json_value(self)
    }
}

/// What a non-streaming answer means.
pub fn interpret_response(response: &GeminiResponse) -> (turn: Result<LLMResult, LLMError>)
    ensures
        item_view(turn) == response_turn(response.deep_view()),
{
    if response.choices.len() == 0 {
        return Err(LLMError::OtherError("No choices in response".to_owned()));
    }
    let choice = &response.choices[0];
    assert(choice.deep_view() == response.deep_view().choices[0]);
    let ends_in_calls = match choice.finish_reason {
        Some(FinishReason::ToolCalls) => true,
        _ => false,
    };
    if ends_in_calls {
        let calls = match &choice.message.tool_calls {
            None => {
                return Err(LLMError::OtherError("No tool call in response".to_owned()));
            },
            Some(calls) => calls,
        };
        if calls.len() == 0 {
            return Err(LLMError::OtherError("No tool call in response".to_owned()));
        }
        let first = &calls[0];
        assert(first.deep_view() == calls.deep_view()[0]);
        let arguments = match Json::parse(first.function.arguments.as_str()) {
            Err(report) => {
                return Err(LLMError::SerdeError(report));
            },
            Ok(arguments) => arguments,
        };
        let ai_message = Message {
            content: Some("tool called".to_owned()),
            message_type: MessageType::AIMessage,
            id: None,
            tool_calls: Some(tool_calls_to_json(calls)),
            images: None,
            name: None,
        };
        Ok(
            LLMResult::ToolCall(
                ToolCallResult {
                    id: first.id.clone(),
                    name: first.function.name.clone(),
                    arguments,
                    ai_message,
                },
            ),
        )
    } else {
        match &choice.message.content {
            Some(content) => Ok(LLMResult::Generate(GenerateResult::new(content.clone(), None))),
            None => Err(LLMError::OtherError("No content in response".to_owned())),
        }
    }
}

/// The Gemini provider: its settings and the options of its calls.
#[derive(Debug, PartialEq)]
pub struct Gemini {
    config: GeminiConfig,
    options: CallOptions,
}

impl Clone for Gemini {
    fn clone(&self) -> (copy: Self)
        ensures
            copy.config_view() == self.config_view(),
            copy.call_options() == self.call_options(),
    {
        Gemini { config: self.config.clone(), options: self.options }
    }
}

impl Gemini {
    /// The settings of the provider.
    pub closed spec fn config_view(&self) -> GeminiConfigView {
        self.config.deep_view()
    }

    /// The options of the calls of the provider.
    pub closed spec fn call_options(&self) -> CallOptions {
        self.options
    }

    /// A provider with the settings `config` and the default options.
    pub fn new(config: GeminiConfig) -> (gemini: Gemini)
        ensures
            gemini.config_view() == config.deep_view(),
            gemini.call_options() == (CallOptions {  }),
    {
        Gemini { config, options: CallOptions::default() }
    }

    /// The provider with the options `options`.
    pub fn with_options(self, options: CallOptions) -> (gemini: Gemini)
        ensures
            gemini.config_view() == self.config_view(),
            gemini.call_options() == options,
    {
        let mut gemini = self;
        gemini.options = options;
        gemini
    }

    /// Merges `options` into the options of the calls that follow.
    pub fn add_options(&mut self, options: &CallOptions)
        ensures
            final(self).config_view() == old(self).config_view(),
            final(self).call_options() == merged_options(old(self).call_options(), *options),
    {
        self.options = self.options.merge(options);
    }

    /// The settings of the provider.
    pub fn config(&self) -> (config: &GeminiConfig)
        ensures
            config.deep_view() == self.config_view(),
    {
        &self.config
    }

    /// The address that calls go to.
    pub fn endpoint(&self) -> (url: String)
        ensures
            url@ == self.config_view().api_base + "/chat/completions"@,
    {
        join(self.config.api_base(), "/chat/completions")
    }

    /// The authorization sent with each call.
    pub fn authorization(&self) -> (header: String)
        ensures
            header@ == "Bearer "@ + self.config_view().api_key,
    {
        join("Bearer ", self.config.api_key())
    }

    /// The request for a conversation.
    pub fn build_gemini_request(&self, messages: &Messages, is_stream: bool) -> (outcome: Result<
        GeminiRequest,
        LLMError,
    >)
        ensures
            outcome matches Ok(request) && request.deep_view() == gemini_request(
                messages.deep_view(),
                self.config_view().model,
                is_stream,
            ),
    {
        Ok(self.request(messages, is_stream))
    }

    /// The request for a conversation.
    fn request(&self, messages: &Messages, is_stream: bool) -> (request: GeminiRequest)
        ensures
            request.deep_view() == gemini_request(
                messages.deep_view(),
                self.config_view().model,
                is_stream,
            ),
    {
        let contents = messages.to_openai_messages();
        let tools = if messages.tools.len() == 0 {
            None
        } else {
            Some(clone_tools(&messages.tools))
        };
        let tool_choice = if messages.tools.len() == 0 {
            None
        } else {
            Some("auto".to_owned())
        };
        let stream = if is_stream {
            Some(true)
        } else {
            None
        };
        GeminiRequest {
            messages: contents,
            model: self.config.model().to_string(),
            stream,
            tools,
            tool_choice,
        }
    }

    /// The request for a streamed call.
    pub fn build_gemini_stream_request(&self, messages: &Messages) -> (outcome: Result<
        GeminiRequest,
        LLMError,
    >)
        ensures
            outcome matches Ok(request) && request.deep_view() == gemini_request(
                messages.deep_view(),
                self.config_view().model,
                true,
            ),
    {
        self.build_gemini_request(messages, true)
    }

    /// The request for a non-streaming call.
    pub fn build_gemini_request_no_stream(&self, messages: &Messages) -> (outcome: Result<
        GeminiRequest,
        LLMError,
    >)
        ensures
            outcome matches Ok(request) && request.deep_view() == gemini_request(
                messages.deep_view(),
                self.config_view().model,
                false,
            ),
    {
        self.build_gemini_request(messages, false)
    }

    /// The body of the request for a conversation, as JSON text.
    pub fn request_body(&self, messages: &Messages, is_stream: bool) -> (body: String)
        ensures
            body@ == rendered_json(
                request_doc(
                    gemini_request(messages.deep_view(), self.config_view().model, is_stream),
                ),
            ),
    {
        self.request(messages, is_stream).to_json().render()
    }

    /// What a reply to a non-streaming call means. `status` is the status
    /// code of the reply, `status_text` the code with its reason as the
    /// transport writes it, `body` the body as text.
    pub fn read_response(status: u16, status_text: &str, body: &str) -> (turn: Result<
        LLMResult,
        LLMError,
    >)
        ensures
            item_view(turn) == reply_turn(status, status_text@, body@),
    {
        if status < 200 || status >= 300 {
            let head = join("Gemini API error: ", status_text);
            let head = join(head.as_str(), " - ");
            return Err(LLMError::OtherError(join(head.as_str(), body)));
        }
        let doc = match Json::parse(body) {
            Err(report) => {
                return Err(LLMError::SerdeError(report));
            },
            Ok(doc) => doc,
        };
        match GeminiResponse::from_json(&doc) {
            Err(error) => Err(LLMError::SerdeError(error.to_string())),
            Ok(response) => interpret_response(&response),
        }
    }
}

} // verus!
