use fungraph::agent::{
    AbortReason, AgentAction, AgentState, GeminiAgent, LLMAgent, SimpleLLM,
    DEFAULT_MAX_TOOL_CALLS,
};
use fungraph::gemini::config::GeminiConfigBuilder;
use fungraph::gemini::llm::Gemini;
use fungraph::json::Json;
use fungraph::llm::{CallOptions, GenerateResult, LLMError, LLMResult, LLM};
use fungraph::messages::{MessageType, Messages};
use fungraph::openai::Tool;
use fungraph::schema::{Parameters, Property, PropertyMap};
use fungraph::tools::FunTool;
use std::cell::RefCell;

/// A provider that answers from a script: a request that names the assistant
/// gets the second answer, any other the first.
struct Scripted {
    gemini: Gemini,
    first: String,
    second: String,
    seen: RefCell<Vec<String>>,
}

impl Scripted {
    fn new(first: &str, second: &str) -> Scripted {
        let config = GeminiConfigBuilder::new()
            .with_api_key("test_api_key")
            .build()
            .unwrap();
        Scripted {
            gemini: Gemini::new(config),
            first: first.to_string(),
            second: second.to_string(),
            seen: RefCell::new(Vec::new()),
        }
    }
}

impl LLM for Scripted {
    fn generate(&self, prompt: &Messages) -> Result<LLMResult, LLMError> {
        let body = self.gemini.request_body(prompt, false);
        let answer = if body.contains("assistant") {
            &self.second
        } else {
            &self.first
        };
        self.seen.borrow_mut().push(body);
        Gemini::read_response(200, "200 OK", answer)
    }

    fn invoke(&self, messages: &Messages) -> Result<LLMResult, LLMError> {
        self.generate(messages)
    }

    fn invoke_stream_one_result(&self, messages: &Messages) -> Result<LLMResult, LLMError> {
        self.generate(messages)
    }

    fn add_options(&mut self, _options: &CallOptions) {}
}

fn text_response(text: &str) -> String {
    format!(
        r#"{{"choices":[{{"finish_reason":"stop","index":0,"message":{{"content":"{}","role":"assistant"}}}}],"created":1743601854,"model":"gemini-2.0-flash","object":"chat.completion","usage":{{"completion_tokens":1527,"prompt_tokens":6,"total_tokens":1533}}}}"#,
        text
    )
}

fn tool_call_response(name: &str, tool_args: &str) -> String {
    let escaped = tool_args.replace('\\', "\\\\").replace('"', "\\\"").replace('\n', "\\n");
    format!(
        r#"
{{
  "id": "chatcmpl-example",
  "object": "chat.completion",
  "created": 1627034289,
  "model": "gpt-3.5-turbo-0613",
  "choices": [
    {{
      "index": 0,
      "message": {{
        "role": "assistant",
        "content": null,
        "tool_calls": [
          {{
            "id": "call_abc123",
            "type": "function",
            "function": {{
              "name": "{}",
              "arguments": "{}"
            }}
          }}
        ]
      }},
      "finish_reason": "tool_calls"
    }}
  ],
  "usage": {{
    "prompt_tokens": 80,
    "completion_tokens": 30,
    "total_tokens": 110
  }}
}}"#,
        name, escaped
    )
}

struct MyTool;

impl FunTool for MyTool {
    fn described(&self) -> Tool {
        self.to_openai_tool()
    }
    fn name(&self) -> String {
        "get_weather".into()
    }
    fn description(&self) -> String {
        "Get the current weather in a given location".into()
    }
    fn parameters(&self) -> Parameters {
        let location_prop = Property {
            kind: "string".to_string(),
            description: Some("The city and state, e.g. San Francisco, CA".to_string()),
            enum_values: None,
            items: None,
        };
        let unit_prop = Property {
            kind: "string".to_string(),
            description: Some(
                "The temperature unit to use. Infer this from the user's location.".to_string(),
            ),
            enum_values: Some(vec!["celsius".to_string(), "fahrenheit".to_string()]),
            items: None,
        };
        let mut props = PropertyMap::new();
        props.insert("location".to_string(), location_prop);
        props.insert("unit".to_string(), unit_prop);
        Parameters {
            kind: "object".to_string(),
            properties: props,
            required: Some(vec!["location".to_string()]),
        }
    }
    fn call(&self, input: Json) -> Result<String, String> {
        match input.get("location") {
            Some(Json::Str(place)) if place == "nowhere" => Err("unknown place".to_string()),
            _ => Ok("現在の東京の天気は晴れ、気温は25度です。".into()),
        }
    }
}

fn same_json(expected: &str, found: &Json) {
    assert_eq!(Json::parse(expected).unwrap().render(), found.render());
}

#[test]
fn test_agent_init() {
    let config = GeminiConfigBuilder::new()
        .with_api_key("test_api_key")
        .with_api_base("http://localhost:8080")
        .build()
        .unwrap();
    let gemini = Gemini::new(config);
    let agent = GeminiAgent::new(gemini);
    assert_eq!(agent.get_name(), "GeminiAgent");
    assert_eq!(agent.get_llm().endpoint(), "http://localhost:8080/chat/completions");
}

#[test]
fn mod_test_agent_chat() {
    let llm = Scripted::new(&text_response("こんにちは"), "");
    let agent: LLMAgent<Scripted, MyTool> = LLMAgent::builder(llm)
        .with_system_prompt("あなたは親切なアシスタントです。")
        .build()
        .unwrap();
    let results = agent.chat("こんにちは").unwrap();
    match &results.first().unwrap().response {
        LLMResult::Generate(result) => {
            assert_eq!(result.generation(), "こんにちは");
        }
        _ => panic!("No results returned"),
    }
    assert_eq!(results.len(), 1);
}

fn test_request_messages_1() -> &'static str {
    r#"[
            {
              "role": "system",
              "content": "あなたは親切なアシスタントです。"
            },
            {
              "role": "user",
              "content": "現在の東京の天気を調べてください。"
            }
          ]"#
}

fn test_request_messages_2() -> &'static str {
    r#"[
                {
                  "role": "system",
                  "content": "あなたは親切なアシスタントです。"
                },
                {
                    "role": "user",
                    "content": "現在の東京の天気を調べてください。"
                },
                {
                    "role": "assistant",
                    "content": "tool called",
                    "tool_calls": [
                {
                    "id": "call_abc123",
                    "type": "function",
                    "function": {
                        "name": "get_weather",
                        "arguments": "{\n \"location\": \"tokyo\",\n \"unit\": \"celsius\"\n}"
                    }
                }
                    ]
                },
                {
                    "role": "tool",
                    "tool_call_id": "call_abc123",
                    "content": "現在の東京の天気は晴れ、気温は25度です。"
                }
            ]"#
}

fn weather_agent(llm: Scripted) -> LLMAgent<Scripted, MyTool> {
    LLMAgent::builder(llm)
        .with_system_prompt("あなたは親切なアシスタントです。")
        .with_tool(MyTool {})
        .build()
        .unwrap()
}

#[test]
fn mod_test_agent_chat_with_tools() {
    let response1 = tool_call_response(
        "get_weather",
        "{\n \"location\": \"tokyo\",\n \"unit\": \"celsius\"\n}",
    );
    let response2 = text_response("現在の東京は晴れ、気温は25度です。");
    let tool_json = MyTool.to_openai_tool();
    let messages_1 = Messages::builder()
        .add_human_message("現在の東京の天気を調べてください。")
        .add_tools(vec![tool_json])
        .build();

    let agent = weather_agent(Scripted::new(&response1, &response2));
    let results = agent.chat("現在の東京の天気を調べてください。").unwrap();
    {
        let seen = agent.llm().seen.borrow();
        assert_eq!(seen.len(), 2);
        assert!(!seen[0].contains("assistant") && seen[0].contains("tools"));
        assert!(seen[1].contains("assistant") && seen[1].contains("tools"));
    }

    assert_eq!(results.len(), 2);
    assert_eq!(
        results[0].request.messages[1].content, // 0 is system_prompt
        messages_1.messages[0].content
    );
    assert_eq!(results[0].request.tools, messages_1.tools);

    same_json(test_request_messages_1(), &results[0].request.to_json_value());
    same_json(test_request_messages_2(), &results[1].request.to_json_value());

    match &results.get(0).unwrap().response {
        LLMResult::ToolCall(result) => {
            assert_eq!(result.name, "get_weather");
        }
        _ => assert!(false, "No results returned"),
    }

    match &results.get(1).unwrap().response {
        LLMResult::Generate(tool_call) => {
            assert_eq!(tool_call.generation(), "現在の東京は晴れ、気温は25度です。");
        }
        LLMResult::ToolCall(_) => assert!(false, "No generate"),
    }
}

#[test]
fn one_tool_call_makes_two_conversations() {
    let agent = weather_agent(Scripted::new(
        &tool_call_response("get_weather", "{\"location\":\"tokyo\"}"),
        &text_response("sunny"),
    ));
    let messages = Messages::builder().add_human_message("weather?").build();
    let response = agent.invoke(&messages).unwrap();
    assert_eq!(response.state, AgentState::Done);
    assert_eq!(response.final_answer, "sunny");
    let steps = response.intermediate_steps;
    assert_eq!(steps.len(), 2);
    let kinds = |k: usize| -> Vec<MessageType> {
        steps[k].request.messages.iter().map(|m| m.message_type).collect()
    };
    assert_eq!(
        kinds(0),
        vec![MessageType::SystemMessage, MessageType::HumanMessage]
    );
    assert_eq!(
        kinds(1),
        vec![
            MessageType::SystemMessage,
            MessageType::HumanMessage,
            MessageType::AIMessage,
            MessageType::ToolMessage
        ]
    );
    let answer = &steps[1].request.messages[3];
    assert_eq!(answer.id, Some("call_abc123".to_string()));
    assert_eq!(
        answer.content,
        Some("現在の東京の天気は晴れ、気温は25度です。".to_string())
    );
    assert_eq!(steps[1].request.tools, steps[0].request.tools);
    assert_eq!(steps[0].request.tools.len(), 1);
}

#[test]
fn test_agent_invoke() {
    let llm = Scripted::new(&text_response("こんにちは"), "");
    let system_prompt = "あなたは親切なアシスタントです。";
    let agent: LLMAgent<Scripted, MyTool> = LLMAgent::builder(llm)
        .with_system_prompt(system_prompt)
        .build()
        .unwrap();
    let messages = Messages::builder()
        .add_human_message("現在の東京の天気を調べてください。")
        .build();
    let results = agent.invoke(&messages).unwrap();
    assert_eq!(results.intermediate_steps.len(), 1);
    assert_eq!(
        results.intermediate_steps[0].request.messages[0].content,
        Some(system_prompt.to_string())
    );
    assert_eq!(
        results.intermediate_steps[0].request.messages[1].content,
        messages.messages[0].content
    );
}

fn setup_agent(response: &str) -> LLMAgent<Scripted, MyTool> {
    LLMAgent::builder(Scripted::new(response, ""))
        .with_system_prompt("あなたは親切なアシスタントです。")
        .build()
        .unwrap()
}

#[test]
fn test_agent_invoke_2() {
    let request_message = "現在の東京の天気を調べてください。";
    let response_message = "晴れ";
    let agent = setup_agent(&text_response(response_message));
    let messages = Messages::builder().add_human_message(request_message).build();
    let result = agent.invoke(&messages).unwrap();
    assert_eq!(response_message, result.final_answer);
}

#[test]
fn test_agent_invoke_chat() {
    let request_message = "現在の東京の天気を調べてください。";
    let response_message = "晴れ";
    let agent = setup_agent(&text_response(response_message));
    let result = agent.invoke_chat(request_message).unwrap();
    if let LLMResult::Generate(result) = result {
        assert_eq!(response_message, result.generation());
    } else {
        assert!(false, "No results returned");
    }
}

#[test]
fn test_agent_invoke_tool_call() {
    let request_message = "現在の東京の天気を調べてください。";
    let tool_args = r#"{"location": "tokyo"}"#;
    let agent = setup_agent(&tool_call_response("get_weather", tool_args));
    let result = agent.invoke_chat(request_message).unwrap();
    if let LLMResult::ToolCall(result) = result {
        assert_eq!("get_weather", result.name);
        assert_eq!(Json::parse(tool_args).unwrap(), result.arguments);
    } else {
        assert!(false, "No results returned");
    }
}

#[test]
fn a_call_of_an_unknown_tool_aborts_with_the_record() {
    let agent = weather_agent(Scripted::new(
        &tool_call_response("get_time", "{}"),
        &text_response("never asked"),
    ));
    let messages = Messages::builder().add_human_message("time?").build();
    let response = agent.invoke(&messages).unwrap();
    assert_eq!(
        response.state,
        AgentState::Aborted(AbortReason::ToolNotFound)
    );
    assert_eq!(response.final_answer, "");
    assert_eq!(response.intermediate_steps.len(), 1);
    assert_eq!(response.intermediate_steps[0].request.messages.len(), 2);
    assert_eq!(agent.llm().seen.borrow().len(), 1);
    let steps = agent.chat("time?").unwrap();
    assert_eq!(steps.len(), 1);
}

#[test]
fn a_failing_tool_aborts_with_the_record() {
    let agent = weather_agent(Scripted::new(
        &tool_call_response("get_weather", "{\"location\":\"nowhere\"}"),
        &text_response("never asked"),
    ));
    let messages = Messages::builder().add_human_message("weather?").build();
    let response = agent.invoke(&messages).unwrap();
    assert_eq!(response.state, AgentState::Aborted(AbortReason::ToolFailed));
    assert_eq!(response.intermediate_steps.len(), 1);
    assert_eq!(response.final_answer, "");
}

/// A provider that asks for the tool again and again.
struct Insistent {
    calls: RefCell<usize>,
}

impl LLM for Insistent {
    fn generate(&self, _prompt: &Messages) -> Result<LLMResult, LLMError> {
        *self.calls.borrow_mut() += 1;
        Gemini::read_response(200, "200 OK", &tool_call_response("get_weather", "{}"))
    }

    fn invoke(&self, messages: &Messages) -> Result<LLMResult, LLMError> {
        self.generate(messages)
    }

    fn invoke_stream_one_result(&self, messages: &Messages) -> Result<LLMResult, LLMError> {
        self.generate(messages)
    }

    fn add_options(&mut self, _options: &CallOptions) {}
}

#[test]
fn the_loop_is_cut_off_at_the_limit_of_tool_calls() {
    let agent: LLMAgent<Insistent, MyTool> = LLMAgent::builder(Insistent {
        calls: RefCell::new(0),
    })
    .with_tool(MyTool)
    .with_max_tool_calls(3)
    .build()
    .unwrap();
    let messages = Messages::builder().add_human_message("weather?").build();
    let response = agent.invoke(&messages).unwrap();
    assert_eq!(
        response.state,
        AgentState::Aborted(AbortReason::ToolCallLimit)
    );
    assert_eq!(response.intermediate_steps.len(), 4);
    assert_eq!(*agent.llm().calls.borrow(), 4);
    assert_eq!(response.intermediate_steps[3].request.messages.len(), 7);
    assert_eq!(
        agent.chat("weather?"),
        Err(LLMError::OtherError("Tool call limit reached".to_string()))
    );
    assert_eq!(DEFAULT_MAX_TOOL_CALLS, 8);
    let agent: LLMAgent<Insistent, MyTool> = LLMAgent::builder(Insistent {
        calls: RefCell::new(0),
    })
    .with_tool(MyTool)
    .build()
    .unwrap();
    assert_eq!(agent.invoke(&messages).unwrap().intermediate_steps.len(), 9);
    assert_eq!(agent.system_prompt(), None);
    assert_eq!(agent.tools().len(), 1);
}

/// A provider that is out of order.
struct Broken;

impl LLM for Broken {
    fn generate(&self, _prompt: &Messages) -> Result<LLMResult, LLMError> {
        Err(LLMError::Timeout)
    }

    fn invoke(&self, messages: &Messages) -> Result<LLMResult, LLMError> {
        self.generate(messages)
    }

    fn invoke_stream_one_result(&self, messages: &Messages) -> Result<LLMResult, LLMError> {
        self.generate(messages)
    }

    fn add_options(&mut self, _options: &CallOptions) {}
}

#[test]
fn a_fault_of_the_provider_fails_the_run() {
    let agent: LLMAgent<Broken, MyTool> = LLMAgent::builder(Broken).build().unwrap();
    let messages = Messages::builder().add_human_message("hi").build();
    assert_eq!(agent.invoke(&messages), Err(LLMError::Timeout));
    assert_eq!(agent.chat("hi"), Err(LLMError::Timeout));
    assert_eq!(agent.invoke_chat("hi"), Err(LLMError::Timeout));
    assert_eq!(SimpleLLM::new(Broken).run("hi"), Err(LLMError::Timeout));
}

#[test]
fn the_simplest_caller_drops_the_answer() {
    let simple = SimpleLLM::new(Scripted::new(&text_response("hello"), ""));
    assert_eq!(simple.run("hi"), Ok(String::new()));
}

#[test]
fn the_first_request_has_no_system_prompt_where_none_is_set() {
    let agent: LLMAgent<Scripted, MyTool> =
        LLMAgent::builder(Scripted::new(&text_response("x"), ""))
            .build()
            .unwrap();
    let request = agent.build_messages("hi");
    assert_eq!(request.messages.len(), 1);
    assert_eq!(request.messages[0].message_type, MessageType::HumanMessage);
    assert!(request.tools.is_empty());
    let history = Messages::builder()
        .add_human_message("a")
        .add_ai_message("b")
        .build();
    assert_eq!(agent.build_messages2(&history).messages, history.messages);
}

#[test]
fn the_action_after_a_turn_follows_its_kind() {
    let answer = LLMResult::Generate(GenerateResult::new("晴れ".to_string(), None));
    assert_eq!(
        AgentAction::after(&answer),
        AgentAction::Response("晴れ".to_string())
    );
    let call = Gemini::read_response(200, "200 OK", &tool_call_response("f", "{}")).unwrap();
    assert_eq!(AgentAction::after(&call), AgentAction::ToolCall);
}

fn tool_call(name: &str, arguments: &str) -> LLMResult {
    Gemini::read_response(200, "200 OK", &tool_call_response(name, arguments)).unwrap()
}

#[test]
fn the_loop_goes_from_state_to_state() {
    use_loop_by_hand();
}

fn use_loop_by_hand() {
    let mut tools: fungraph::tools::ToolSet<MyTool> = fungraph::tools::ToolSet::new();
    tools.add_tool(MyTool);
    let first = Messages::builder().add_human_message("weather?").build();
    let mut run = fungraph::agent::AgentLoop::start(first.clone(), 2);
    assert_eq!(run.state(), AgentState::AwaitingFirstResponse);
    assert_eq!(*run.request(), first);
    assert_eq!(run.pending_arguments(), None);

    // an event that the run does not wait for changes nothing
    let command = run.on_event(
        fungraph::agent::AgentEvent::ToolOutput(Ok("early".to_string())),
        &tools,
    );
    assert_eq!(command, fungraph::agent::AgentCommand::AskProvider);
    assert_eq!(run.state(), AgentState::AwaitingFirstResponse);

    let command = run.on_event(
        fungraph::agent::AgentEvent::Response(tool_call("get_weather", "{\"location\":\"tokyo\"}")),
        &tools,
    );
    assert_eq!(command, fungraph::agent::AgentCommand::RunTool(0));
    assert_eq!(run.state(), AgentState::ResolvingToolCall);
    assert_eq!(
        run.pending_arguments(),
        Some(Json::parse("{\"location\":\"tokyo\"}").unwrap())
    );
    let command = run.on_event(
        fungraph::agent::AgentEvent::Response(tool_call("get_weather", "{}")),
        &tools,
    );
    assert_eq!(command, fungraph::agent::AgentCommand::RunTool(0));
    assert_eq!(*run.request(), first);

    let command = run.on_event(
        fungraph::agent::AgentEvent::ToolOutput(Ok("sunny".to_string())),
        &tools,
    );
    assert_eq!(command, fungraph::agent::AgentCommand::AskProvider);
    assert_eq!(run.state(), AgentState::ResolvingToolCall);
    assert_eq!(run.request().messages.len(), 3);
    assert_eq!(
        run.request().messages[2],
        fungraph::messages::Message::new_tool_message("sunny", "call_abc123")
    );

    let command = run.on_event(
        fungraph::agent::AgentEvent::Response(LLMResult::Generate(GenerateResult::new(
            "It is sunny.".to_string(),
            None,
        ))),
        &tools,
    );
    assert_eq!(command, fungraph::agent::AgentCommand::Stop);
    assert_eq!(run.state(), AgentState::Done);
    let command = run.on_event(
        fungraph::agent::AgentEvent::Response(tool_call("get_weather", "{}")),
        &tools,
    );
    assert_eq!(command, fungraph::agent::AgentCommand::Stop);
    let response = run.finish();
    assert_eq!(response.final_answer, "It is sunny.");
    assert_eq!(response.state, AgentState::Done);
    assert_eq!(response.intermediate_steps.len(), 2);
}

#[test]
fn the_loop_gives_up_where_it_cannot_go_on() {
    let mut tools: fungraph::tools::ToolSet<MyTool> = fungraph::tools::ToolSet::new();
    tools.add_tool(MyTool);
    let first = Messages::builder().add_human_message("q").build();

    let mut run = fungraph::agent::AgentLoop::start(first.clone(), 0);
    let command = run.on_event(
        fungraph::agent::AgentEvent::Response(tool_call("get_weather", "{}")),
        &tools,
    );
    assert_eq!(command, fungraph::agent::AgentCommand::Stop);
    assert_eq!(
        run.state(),
        AgentState::Aborted(AbortReason::ToolCallLimit)
    );

    let mut run = fungraph::agent::AgentLoop::start(first.clone(), 5);
    let command = run.on_event(
        fungraph::agent::AgentEvent::Response(tool_call("other", "{}")),
        &tools,
    );
    assert_eq!(command, fungraph::agent::AgentCommand::Stop);
    assert_eq!(run.state(), AgentState::Aborted(AbortReason::ToolNotFound));

    let mut run = fungraph::agent::AgentLoop::start(first, 5);
    run.on_event(
        fungraph::agent::AgentEvent::Response(tool_call("get_weather", "{}")),
        &tools,
    );
    let command = run.on_event(
        fungraph::agent::AgentEvent::ToolOutput(Err("broken".to_string())),
        &tools,
    );
    assert_eq!(command, fungraph::agent::AgentCommand::Stop);
    assert_eq!(run.state(), AgentState::Aborted(AbortReason::ToolFailed));
    let response = run.finish();
    assert_eq!(response.final_answer, "");
    assert_eq!(response.intermediate_steps.len(), 1);
}

#[test]
fn gemini_test_agent_chat() {
    let llm = Scripted::new(&text_response("こんにちは"), "");
    let agent: LLMAgent<Scripted, MyTool> = LLMAgent::builder(llm).build().unwrap();
    let results = agent.chat("こんにちは").unwrap();
    match &results.first().unwrap().response {
        LLMResult::Generate(result) => {
            assert_eq!(result.generation(), "こんにちは");
        }
        _ => panic!("No results returned"),
    }
}

#[test]
fn gemini_test_agent_chat_with_tools() {
    let response1 = tool_call_response(
        "get_weather",
        "{\n \"location\": \"tokyo\",\n \"unit\": \"celsius\"\n}",
    );
    let response2 = text_response("現在の東京は晴れ、気温は25度です。");
    let tool_json = MyTool.to_openai_tool();
    let messages_1 = Messages::builder()
        .add_human_message("現在の東京の天気を調べてください。")
        .add_tools(vec![tool_json])
        .build();

    let req_messages_1 = r#"[
            {
              "role": "user",
              "content": "現在の東京の天気を調べてください。"
            }
          ]"#;
    let req_messages_2 = r#"[
                {
                    "role": "user",
                    "content": "現在の東京の天気を調べてください。"
                },
                {
                    "role": "assistant",
                    "content": "tool called",
                    "tool_calls": [
                {
                    "id": "call_abc123",
                    "type": "function",
                    "function": {
                        "name": "get_weather",
                        "arguments": "{\n \"location\": \"tokyo\",\n \"unit\": \"celsius\"\n}"
                    }
                }
                    ]
                },
                {
                    "role": "tool",
                    "tool_call_id": "call_abc123",
                    "content": "現在の東京の天気は晴れ、気温は25度です。"
                }
            ]"#;

    let agent: LLMAgent<Scripted, MyTool> =
        LLMAgent::builder(Scripted::new(&response1, &response2))
            .with_tool(MyTool {})
            .build()
            .unwrap();
    let results = agent.chat("現在の東京の天気を調べてください。").unwrap();
    assert_eq!(agent.llm().seen.borrow().len(), 2);

    assert_eq!(results.len(), 2);
    assert_eq!(
        results[0].request.messages[0].content,
        messages_1.messages[0].content
    );

    same_json(req_messages_1, &results[0].request.to_json_value());
    same_json(req_messages_2, &results[1].request.to_json_value());

    match &results.get(0).unwrap().response {
        LLMResult::ToolCall(result) => {
            assert_eq!(result.name, "get_weather");
        }
        _ => assert!(false, "No results returned"),
    }

    match &results.get(1).unwrap().response {
        LLMResult::Generate(tool_call) => {
            assert_eq!(tool_call.generation(), "現在の東京は晴れ、気温は25度です。");
        }
        LLMResult::ToolCall(_) => assert!(false, "No generate"),
    }
}
