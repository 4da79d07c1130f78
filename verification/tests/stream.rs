use fungraph::json::Json;
use fungraph::llm::{LLMError, LLMResult};
use fungraph::messages::MessageType;
use fungraph::openai::TokenUsage;
use fungraph::stream::{assemble, stream, stream_step, ChatStream, FrameStep, StreamEvent, StreamStep};

fn message(data: &str) -> StreamEvent {
    StreamEvent::Message(data.to_string())
}

fn generation(step: StreamStep) -> String {
    match step {
        StreamStep::Item(Ok(LLMResult::Generate(delta))) => delta.generation().to_string(),
        other => panic!("Expected Stream result, got {:?}", other),
    }
}

#[test]
fn test_invoke_stream() {
    let events = vec![
        StreamEvent::Open,
        message(
            r#"{"choices":[{"delta":{"content":"hello"},"finish_reason":null,"index":0}],"created":1677667095,"model":"gpt-3.5-turbo-0301","object":"chat.completion.chunk"}"#,
        ),
        message(
            r#"{"choices":[{"delta":{"content":" world"},"finish_reason":null,"index":0}],"created":1677667095,"model":"gpt-3.5-turbo-0301","object":"chat.completion.chunk"}"#,
        ),
        message("[DONE]"),
    ];
    let mut chat = ChatStream::new();
    let mut expected_values = vec!["hello", " world"];
    let mut ended = false;
    for event in events.iter() {
        match chat.on_event(event) {
            StreamStep::Pending => {}
            StreamStep::End => {
                ended = true;
            }
            step => {
                assert_eq!(generation(step), expected_values.remove(0));
            }
        }
    }
    assert!(expected_values.is_empty());
    assert!(ended);
    assert!(chat.is_finished());
}

#[test]
fn test_invoke_stream_tool_calls() {
    let body = r#"{"choices":[{"delta":{"role":"assistant","tool_calls":[{"function":{"arguments":"{\"location\":\"Tokyo\"}","name":"get_current_weather"},"id":"","type":"function"}]},"finish_reason":"tool_calls","index":0}],"created":1743981505,"model":"gemini-2.0-flash","object":"chat.completion.chunk"}"#;
    let mut chat = ChatStream::new();
    match chat.on_event(&message(body)) {
        StreamStep::Item(Ok(LLMResult::ToolCall(delta))) => {
            assert_eq!(delta.name, "get_current_weather");
            assert_eq!(delta.id, "");
            assert_eq!(
                delta.arguments,
                Json::parse(r#"{"location":"Tokyo"}"#).unwrap()
            );
            assert_eq!(delta.ai_message.content, Some("tool called".to_string()));
            assert_eq!(delta.ai_message.message_type, MessageType::AIMessage);
            assert_eq!(delta.ai_message.id, None);
            assert_eq!(
                delta.ai_message.tool_calls.unwrap().render(),
                r#"[{"function":{"arguments":"{\"location\":\"Tokyo\"}","name":"get_current_weather"},"id":"","type":"function"}]"#
            );
        }
        _ => assert!(false, "Expected Stream result"),
    }
    assert_eq!(chat.on_event(&message("[DONE]")), StreamStep::End);
}

#[test]
fn two_frames_and_the_sentinel_make_hello() {
    let events = vec![
        message(r#"{"choices":[{"delta":{"content":"he"}}]}"#),
        message(r#"{"choices":[{"delta":{"content":"llo"}}]}"#),
        message("[DONE]"),
    ];
    match assemble(&events) {
        LLMResult::Generate(answer) => {
            assert_eq!(answer.generation(), "hello");
            assert_eq!(answer.tokens(), None);
        }
        other => panic!("{:?}", other),
    }
}

#[test]
fn a_text_cut_at_every_place_comes_out_whole() {
    let text = "こんにちは, world! \"quoted\"";
    let chars: Vec<char> = text.chars().collect();
    for cut in 0..=chars.len() {
        let head: String = chars[..cut].iter().collect();
        let tail: String = chars[cut..].iter().collect();
        let mut events = Vec::new();
        for piece in [head, tail] {
            let mut delta = Vec::new();
            Json::push_member(&mut delta, "content", Json::Str(piece));
            let mut choice = Vec::new();
            Json::push_member(&mut choice, "delta", Json::from_members(delta));
            let mut frame = Vec::new();
            Json::push_member(
                &mut frame,
                "choices",
                Json::from_items(vec![Json::from_members(choice)]),
            );
            events.push(StreamEvent::Message(Json::from_members(frame).render()));
        }
        events.push(message("[DONE]"));
        match assemble(&events) {
            LLMResult::Generate(answer) => assert_eq!(answer.generation(), text),
            other => panic!("{:?}", other),
        }
    }
}

fn tool_frame(index: u32, id: Option<&str>, name: Option<&str>, arguments: &str, finish: bool) -> StreamEvent {
    let mut function = Vec::new();
    if let Some(name) = name {
        Json::push_member(&mut function, "name", Json::from_text(name));
    }
    Json::push_member(&mut function, "arguments", Json::from_text(arguments));
    let mut call = Vec::new();
    Json::push_member(&mut call, "index", Json::from_u32(index));
    if let Some(id) = id {
        Json::push_member(&mut call, "id", Json::from_text(id));
    }
    Json::push_member(&mut call, "function", Json::from_members(function));
    let mut delta = Vec::new();
    Json::push_member(
        &mut delta,
        "tool_calls",
        Json::from_items(vec![Json::from_members(call)]),
    );
    let mut choice = Vec::new();
    Json::push_member(&mut choice, "delta", Json::from_members(delta));
    if finish {
        Json::push_member(&mut choice, "finish_reason", Json::from_text("tool_calls"));
    }
    let mut frame = Vec::new();
    Json::push_member(
        &mut frame,
        "choices",
        Json::from_items(vec![Json::from_members(choice)]),
    );
    StreamEvent::Message(Json::from_members(frame).render())
}

#[test]
fn fragments_of_arguments_are_joined_before_they_are_parsed() {
    let whole = r#"{"location":"tokyo","unit":"celsius"}"#;
    let single = assemble(&vec![
        tool_frame(0, Some("call_1"), Some("get_weather"), whole, true),
        message("[DONE]"),
    ]);
    for cut in 0..=whole.len() {
        let mut chat = ChatStream::new();
        let first = tool_frame(0, Some("call_1"), Some("get_weather"), &whole[..cut], false);
        assert_eq!(chat.on_event(&first), StreamStep::Pending);
        let second = tool_frame(0, None, None, &whole[cut..], true);
        match chat.on_event(&second) {
            StreamStep::Item(Ok(result)) => {
                assert_eq!(result, single);
                match result {
                    LLMResult::ToolCall(call) => {
                        assert_eq!(call.id, "call_1");
                        assert_eq!(call.name, "get_weather");
                        assert_eq!(call.arguments, Json::parse(whole).unwrap());
                    }
                    other => panic!("{:?}", other),
                }
            }
            other => panic!("{:?}", other),
        }
    }
}

#[test]
fn calls_under_way_go_out_when_the_stream_ends() {
    for end in [message("[DONE]"), StreamEvent::StreamEnded] {
        let mut chat = ChatStream::new();
        assert_eq!(
            chat.on_event(&tool_frame(0, Some("a"), Some("first"), "{\"x\":", false)),
            StreamStep::Pending
        );
        assert_eq!(
            chat.on_event(&tool_frame(1, Some("b"), Some("second"), "{}", false)),
            StreamStep::Pending
        );
        assert_eq!(
            chat.on_event(&tool_frame(0, None, None, "1}", false)),
            StreamStep::Pending
        );
        assert!(!chat.is_finished());
        match chat.on_event(&end) {
            StreamStep::Item(Ok(LLMResult::ToolCall(call))) => {
                assert_eq!(call.id, "a");
                assert_eq!(call.name, "first");
                assert_eq!(call.arguments.render(), r#"{"x":1}"#);
                assert_eq!(
                    call.ai_message.tool_calls.unwrap().render(),
                    r#"[{"function":{"arguments":"{\"x\":1}","name":"first"},"id":"a","type":"function"},{"function":{"arguments":"{}","name":"second"},"id":"b","type":"function"}]"#
                );
            }
            other => panic!("{:?}", other),
        }
        assert!(chat.is_finished());
        assert_eq!(chat.on_event(&message("{}")), StreamStep::End);
        assert_eq!(chat.on_event(&StreamEvent::Open), StreamStep::End);
    }
}

#[test]
fn faults_are_items_and_the_stream_goes_on() {
    let mut chat = ChatStream::new();
    assert_eq!(
        chat.on_event(&StreamEvent::Failed("connection reset".to_string())),
        StreamStep::Item(Err(LLMError::EventSourceError(
            "connection reset".to_string()
        )))
    );
    match chat.on_event(&message("{not json")) {
        StreamStep::Item(Err(LLMError::SerdeError(report))) => {
            assert_eq!(Json::parse("{not json").unwrap_err(), report)
        }
        other => panic!("{:?}", other),
    }
    assert_eq!(
        chat.on_event(&message(r#"{"choices":"none"}"#)),
        StreamStep::Item(Err(LLMError::SerdeError(
            "invalid type: choices".to_string()
        )))
    );
    assert_eq!(
        chat.on_event(&message(r#"{"choices":[]}"#)),
        StreamStep::Item(Err(LLMError::OtherError(
            "No choices in response".to_string()
        )))
    );
    assert_eq!(
        chat.on_event(&message(r#"{"choices":[{"delta":{},"finish_reason":"stop"}]}"#)),
        StreamStep::Item(Err(LLMError::OtherError(
            "No content in response".to_string()
        )))
    );
    assert_eq!(
        chat.on_event(&message(r#"{"choices":[{"delta":{},"finish_reason":"tool_calls"}]}"#)),
        StreamStep::Item(Err(LLMError::OtherError(
            "No tool call in response".to_string()
        )))
    );
    assert_eq!(
        chat.on_event(&message(
            r#"{"choices":[{"delta":{"tool_calls":[{"function":{"arguments":"{}"}}]},"finish_reason":"tool_calls"}]}"#
        )),
        StreamStep::Item(Err(LLMError::OtherError(
            "No tool name in response".to_string()
        )))
    );
    match chat.on_event(&message(
        r#"{"choices":[{"delta":{"tool_calls":[{"function":{"name":"f","arguments":"{"}}]},"finish_reason":"tool_calls"}]}"#,
    )) {
        StreamStep::Item(Err(LLMError::SerdeError(report))) => {
            assert_eq!(Json::parse("{").unwrap_err(), report)
        }
        other => panic!("{:?}", other),
    }
    assert!(!chat.is_finished());
    assert_eq!(
        generation(chat.on_event(&message(r#"{"choices":[{"delta":{"content":"ok"}}]}"#))),
        "ok"
    );
    assert_eq!(chat.on_event(&StreamEvent::StreamEnded), StreamStep::End);
    assert_eq!(chat.on_event(&StreamEvent::StreamEnded), StreamStep::End);
}

#[test]
fn the_accounting_of_a_frame_goes_with_its_text() {
    let mut chat = ChatStream::new();
    let step = chat.on_event(&message(
        r#"{"choices":[{"delta":{"content":"x"}}],"usage":{"prompt_tokens":6,"completion_tokens":1527,"total_tokens":1533}}"#,
    ));
    match step {
        StreamStep::Item(Ok(LLMResult::Generate(answer))) => {
            assert_eq!(
                answer.tokens(),
                Some(TokenUsage {
                    prompt_tokens: 6,
                    completion_tokens: 1527,
                    total_tokens: 1533
                })
            );
        }
        other => panic!("{:?}", other),
    }
    let events = vec![
        message(
            r#"{"choices":[{"delta":{"content":"a"}}],"usage":{"prompt_tokens":1,"completion_tokens":2,"total_tokens":3}}"#,
        ),
        message("{"),
        message(r#"{"choices":[{"delta":{"content":"b"}}]}"#),
        message("[DONE]"),
        message(r#"{"choices":[{"delta":{"content":"after the end"}}]}"#),
    ];
    match assemble(&events) {
        LLMResult::Generate(answer) => {
            assert_eq!(answer.generation(), "ab");
            assert_eq!(
                answer.tokens(),
                Some(TokenUsage {
                    prompt_tokens: 1,
                    completion_tokens: 2,
                    total_tokens: 3
                })
            );
        }
        other => panic!("{:?}", other),
    }
}

#[test]
fn a_stream_with_a_tool_call_is_a_tool_call_turn() {
    let events = vec![
        message(r#"{"choices":[{"delta":{"content":"thinking"}}]}"#),
        tool_frame(0, Some("id"), Some("f"), "{}", true),
        message(r#"{"choices":[{"delta":{"content":"more"}}]}"#),
        message("[DONE]"),
    ];
    match assemble(&events) {
        LLMResult::ToolCall(call) => assert_eq!(call.name, "f"),
        other => panic!("{:?}", other),
    }
    match assemble(&vec![]) {
        LLMResult::Generate(answer) => assert_eq!(answer.generation(), ""),
        other => panic!("{:?}", other),
    }
}

#[test]
fn frames_come_out_until_the_stream_ends() {
    assert_eq!(stream_step(&StreamEvent::Open), FrameStep::Skip);
    assert_eq!(stream_step(&StreamEvent::StreamEnded), FrameStep::Stop);
    assert_eq!(stream_step(&message("[DONE]")), FrameStep::Stop);
    assert_eq!(
        stream_step(&StreamEvent::Failed("boom".to_string())),
        FrameStep::Frame(Err(LLMError::OtherError(
            "Event source error: boom".to_string()
        )))
    );
    assert_eq!(
        stream_step(&message("[]")),
        FrameStep::Frame(Err(LLMError::OtherError(
            "serde_json error: expected an object: chat.completion.chunk".to_string()
        )))
    );
    let events = vec![
        StreamEvent::Open,
        message(r#"{"id":"1","choices":[{"index":2,"delta":{"role":"assistant","content":"a"}}],"model":"m"}"#),
        message("nope"),
        message("[DONE]"),
        message(r#"{"choices":[]}"#),
    ];
    let frames = stream(&events);
    assert_eq!(frames.len(), 2);
    let first = frames[0].as_ref().unwrap();
    assert_eq!(first.id, Some("1".to_string()));
    assert_eq!(first.model, "m");
    assert_eq!(first.object, "");
    assert_eq!(first.created, 0);
    assert_eq!(first.choices.len(), 1);
    assert_eq!(first.choices[0].index, 2);
    assert_eq!(first.choices[0].delta.content, Some("a".to_string()));
    assert_eq!(
        frames[1],
        Err(LLMError::OtherError(format!(
            "serde_json error: {}",
            Json::parse("nope").unwrap_err()
        )))
    );
}
