use fungraph::gemini::config::{GeminiConfigBuilder, GeminiModel};
use fungraph::gemini::llm::{interpret_response, Gemini, OpenAIMessages};
use fungraph::gemini::schema::GeminiResponse;
use fungraph::json::Json;
use fungraph::llm::{CallOptions, LLMError, LLMResult};
use fungraph::messages::{Message, Messages, MessagesBuilder};
use fungraph::openai::{FinishReason, FunctionDescription, Role, Tool, ToolType};
use fungraph::schema::{Parameters, PropertyMap};

fn test_response() -> &'static str {
    r#"{"choices":[{"finish_reason":"stop","index":0,"message":{"content":"こんにちは世界","role":"assistant"}}],"created":1743601854,"model":"gemini-2.0-flash","object":"chat.completion","usage":{"completion_tokens":1527,"prompt_tokens":6,"total_tokens":1533}}"#
}

fn build_gemini(model: GeminiModel) -> Gemini {
    let config = GeminiConfigBuilder::new()
        .with_api_key("test_api_key")
        .with_api_base("http://localhost:8080")
        .with_model(model)
        .build()
        .unwrap();
    Gemini::new(config)
}

#[test]
fn test_build_gemini_request() {
    let gemini = build_gemini(GeminiModel::Gemini20);
    let messages: Messages = MessagesBuilder::new()
        .add_human_message("Translate the following sentence to Japanese: Hello, world!")
        .build();
    let request = gemini.build_gemini_request_no_stream(&messages).unwrap();
    assert_eq!(request.messages.len(), 1);
    assert_eq!(request.model, "gemini-2.0-flash-001");
    assert_eq!(request.tools, None);
    assert_eq!(request.tool_choice, None);
    assert_eq!(request.stream, None);
    let request = gemini.build_gemini_stream_request(&messages).unwrap();
    assert_eq!(request.stream, Some(true));
}

#[test]
fn test_build_gemini_request_with_tools() {
    let gemini = build_gemini(GeminiModel::Gemini20);
    let tools = vec![Tool {
        kind: ToolType::Function,
        function: FunctionDescription {
            name: "my_function".to_string(),
            description: "This is a test function".to_string(),
            parameters: Parameters {
                kind: "object".to_string(),
                properties: PropertyMap::new(),
                required: Some(vec![]),
            },
        },
    }];
    let messages: Messages = MessagesBuilder::new()
        .add_human_message("Translate the following sentence to Japanese: Hello, world!")
        .add_tools(tools)
        .build();
    let request = gemini.build_gemini_request_no_stream(&messages).unwrap();
    assert_eq!(request.messages.len(), 1);
    assert_eq!(request.tools.unwrap().len(), 1);
    assert_eq!(request.tool_choice.unwrap(), "auto");
    assert_eq!(request.model, "gemini-2.0-flash-001");
}

#[test]
fn llm_test_invoke() {
    let result = Gemini::read_response(200, "200 OK", test_response()).unwrap();
    match result {
        LLMResult::Generate(result) => {
            assert_eq!(result.generation(), "こんにちは世界");
            assert_eq!(result.tokens(), None);
        }
        _ => panic!("Expected Generate result"),
    }
}

#[test]
fn llm_test_invoke_error() {
    let error_response = r#"
    {
        "error": {
            "code": 500,
            "message": "Internal Server Error",
            "status": "INTERNAL"
        }
    }
    "#;
    let result = Gemini::read_response(500, "500 Internal Server Error", error_response);
    assert!(result.is_err());
    assert_eq!(
        result,
        Err(LLMError::OtherError(format!(
            "Gemini API error: 500 Internal Server Error - {}",
            error_response
        )))
    );
}

#[test]
fn tests_test_invoke() {
    let gemini = build_gemini(GeminiModel::Gemini15);
    let messages: Messages = MessagesBuilder::new()
        .add_human_message("Translate the following sentence to Japanese: Hello, world!")
        .build();
    assert_eq!(
        gemini.request_body(&messages, false),
        r#"{"messages":[{"content":"Translate the following sentence to Japanese: Hello, world!","role":"user"}],"model":"gemini-1.5-flash"}"#
    );
    match Gemini::read_response(200, "200 OK", test_response()) {
        Ok(LLMResult::Generate(result)) => assert_eq!(result.generation(), "こんにちは世界"),
        other => panic!("{:?}", other),
    }
}

#[test]
fn tests_test_invoke_error() {
    for status in [199, 300, 404, 500] {
        assert!(Gemini::read_response(status, "status", test_response()).is_err());
    }
    for status in [200, 201, 299] {
        assert!(Gemini::read_response(status, "status", test_response()).is_ok());
    }
}

#[test]
fn a_tool_call_answer_is_a_tool_call_turn() {
    let body = r#"
{
  "choices": [
    {
      "finish_reason": "tool_calls",
      "index": 0,
      "message": {
        "content": null,
        "role": "assistant",
        "tool_calls": [
          {
            "id": "call_abc123",
            "function": {
              "arguments": "{\"location\":\"tokyo\"}",
              "name": "get_weather"
            },
            "type": "function"
          }
        ]
      }
    }
  ],
  "created": 1743601854,
  "model": "gemini-2.0-flash",
  "object": "chat.completion",
  "usage": {
    "completion_tokens": 1527,
    "prompt_tokens": 6,
    "total_tokens": 1533
  }
}"#;
    match Gemini::read_response(200, "200 OK", body) {
        Ok(LLMResult::ToolCall(call)) => {
            assert_eq!(call.name, "get_weather");
            assert_eq!(call.id, "call_abc123");
            assert_eq!(
                call.arguments,
                Json::parse(r#"{"location":"tokyo"}"#).unwrap()
            );
            assert_eq!(call.ai_message.content, Some("tool called".to_string()));
            assert_eq!(
                call.ai_message.tool_calls.unwrap().render(),
                r#"[{"function":{"arguments":"{\"location\":\"tokyo\"}","name":"get_weather"},"id":"call_abc123","type":"function"}]"#
            );
        }
        other => panic!("{:?}", other),
    }
}

#[test]
fn answers_that_break_the_protocol_are_errors() {
    let read = |body: &str| Gemini::read_response(200, "200 OK", body);
    assert_eq!(
        read("{}"),
        Err(LLMError::OtherError("No choices in response".to_string()))
    );
    assert_eq!(
        read(r#"{"choices":[{"message":{"role":"assistant"},"finish_reason":"stop"}]}"#),
        Err(LLMError::OtherError("No content in response".to_string()))
    );
    assert_eq!(
        read(r#"{"choices":[{"message":{"content":"x"},"finish_reason":"tool_calls"}]}"#),
        Err(LLMError::OtherError("No tool call in response".to_string()))
    );
    assert_eq!(
        read(r#"{"choices":[{"message":{"tool_calls":[]},"finish_reason":"tool_calls"}]}"#),
        Err(LLMError::OtherError("No tool call in response".to_string()))
    );
    assert_eq!(
        read(r#"{"choices":[{"finish_reason":"stop"}]}"#),
        Err(LLMError::SerdeError("missing field: message".to_string()))
    );
    assert_eq!(
        read(r#"{"choices":[{"message":{"content":"x"},"finish_reason":"later"}]}"#),
        Err(LLMError::SerdeError(
            "unknown variant: finish_reason".to_string()
        ))
    );
    assert_eq!(
        read(r#"{"choices":[{"message":{"tool_calls":[{"id":"1"}]},"finish_reason":"tool_calls"}]}"#),
        Err(LLMError::SerdeError("missing field: function".to_string()))
    );
    assert_eq!(
        read("not json"),
        Err(LLMError::SerdeError(Json::parse("not json").unwrap_err()))
    );
    assert_eq!(
        read(
            r#"{"choices":[{"message":{"tool_calls":[{"function":{"name":"f","arguments":"oops"}}]},"finish_reason":"tool_calls"}]}"#
        ),
        Err(LLMError::SerdeError(Json::parse("oops").unwrap_err()))
    );
    match read(r#"{"choices":[{"message":{"content":"no reason given"}}]}"#) {
        Ok(LLMResult::Generate(answer)) => assert_eq!(answer.generation(), "no reason given"),
        other => panic!("{:?}", other),
    }
}

#[test]
fn a_response_is_read_field_by_field() {
    let doc = Json::parse(test_response()).unwrap();
    let response = GeminiResponse::from_json(&doc).unwrap();
    assert_eq!(response.id, None);
    assert_eq!(response.created, 1743601854);
    assert_eq!(response.model, "gemini-2.0-flash");
    assert_eq!(response.object, "chat.completion");
    let usage = response.usage.unwrap();
    assert_eq!(usage.prompt_tokens, 6);
    assert_eq!(usage.completion_tokens, 1527);
    assert_eq!(usage.total_tokens, 1533);
    assert_eq!(usage.token_usage().total_tokens, 1533);
    assert_eq!(response.choices.len(), 1);
    assert_eq!(response.choices[0].index, 0);
    assert_eq!(response.choices[0].finish_reason, Some(FinishReason::Stop));
    assert_eq!(response.choices[0].message.role, Role::Assistant);
    assert_eq!(
        response.choices[0].message.content,
        Some("こんにちは世界".to_string())
    );
    let doc = Json::parse(test_response()).unwrap();
    let response = GeminiResponse::from_json(&doc).unwrap();
    match interpret_response(&response) {
        Ok(LLMResult::Generate(answer)) => assert_eq!(answer.generation(), "こんにちは世界"),
        other => panic!("{:?}", other),
    }
}

#[test]
fn the_provider_is_addressed_with_the_key() {
    let gemini = build_gemini(GeminiModel::Gemini20).with_options(CallOptions::default());
    assert_eq!(gemini.endpoint(), "http://localhost:8080/chat/completions");
    assert_eq!(gemini.authorization(), "Bearer test_api_key");
    assert_eq!(gemini.config().api_key(), "test_api_key");
    let mut gemini = gemini.clone();
    gemini.add_options(&CallOptions {});
    assert_eq!(*gemini.config().model(), GeminiModel::Gemini20);
}

#[test]
fn a_request_with_tools_names_them_and_lets_the_provider_choose() {
    let gemini = build_gemini(GeminiModel::Gemini20);
    let tools = vec![Tool {
        kind: ToolType::Function,
        function: FunctionDescription {
            name: "f".to_string(),
            description: "d".to_string(),
            parameters: Parameters {
                kind: "object".to_string(),
                properties: PropertyMap::new(),
                required: None,
            },
        },
    }];
    let messages = MessagesBuilder::new()
        .add_system_message("be kind")
        .add_human_message("hi")
        .add_ai_message("hello")
        .add_tool_message("42", "call_1")
        .add_tools(tools)
        .build();
    assert_eq!(
        gemini.request_body(&messages, true),
        r#"{"messages":[{"content":"be kind","role":"system"},{"content":"hi","role":"user"},{"content":"hello","role":"assistant"},{"content":"42","role":"tool","tool_call_id":"call_1"}],"model":"gemini-2.0-flash-001","stream":true,"tool_choice":"auto","tools":[{"function":{"description":"d","name":"f","parameters":{"properties":{},"type":"object"}},"type":"function"}]}"#
    );
}

#[test]
fn messages_go_to_the_provider_under_its_roles() {
    let with_calls = Message::new_ai_message("tool called")
        .with_tool_calls(Json::parse(r#"[{"id":"call_abc123"}]"#).unwrap());
    let mut messages = Messages::builder().add_human_message("q").build();
    messages.add_message(with_calls);
    messages.add_message(Message {
        content: None,
        ..Message::new_system_message("")
    });
    let contents = messages.to_openai_messages();
    assert_eq!(contents.len(), 3);
    assert_eq!(contents[0].role, "user");
    assert_eq!(contents[1].role, "assistant");
    assert_eq!(contents[2].role, "system");
    assert_eq!(contents[2].content, None);
    assert_eq!(
        messages.to_json_value().render(),
        r#"[{"content":"q","role":"user"},{"content":"tool called","role":"assistant","tool_calls":[{"id":"call_abc123"}]},{"content":null,"role":"system"}]"#
    );
    assert_eq!(
        OpenAIMessages::to_json_value(&messages),
        messages.to_json_value()
    );
    assert_eq!(
        OpenAIMessages::to_openai_messages(&messages),
        messages.to_openai_messages()
    );
}
