use fungraph::json::{DecodeError, Json};
use fungraph::openai::{FunctionDescription, Tool, ToolType};
use fungraph::schema::{Items, Parameters, Property, PropertyMap};
use fungraph::tools::{FunTool, ToolParameters, ToolSet};

struct MyTool;

struct MyToolParameters {}

impl ToolParameters for MyToolParameters {
    fn parameters() -> Parameters {
        let location_prop = Property {
            kind: "string".to_string(),
            description: Some("The city and state, e.g. San Francisco, CA".to_string()),
            enum_values: None,
            items: None,
        };
        let unit_prop = Property {
            kind: "string".to_string(),
            description: Some(
                "The temperature unit to use. Infer this from the user's location.".to_string(),
            ),
            enum_values: Some(vec!["celsius".to_string(), "fahrenheit".to_string()]),
            items: None,
        };

        let mut props = PropertyMap::new();
        props.insert("location".to_string(), location_prop);
        props.insert("unit".to_string(), unit_prop);

        Parameters {
            kind: "object".to_string(),
            properties: props,
            required: Some(vec!["location".to_string()]),
        }
    }
}

impl FunTool for MyTool {
    fn described(&self) -> Tool {
        self.to_openai_tool()
    }
    fn name(&self) -> String {
        "get_weather".into()
    }
    fn description(&self) -> String {
        "Get the current weather in a given location".into()
    }
    fn parameters(&self) -> Parameters {
        MyToolParameters::parameters()
    }
    fn call(&self, _input: Json) -> Result<String, String> {
        Ok("test".into())
    }
}

fn same_json(expected: &str, found: &Json) {
    assert_eq!(Json::parse(expected).unwrap().render(), found.render());
}

#[test]
fn tool_test_tool_json() {
    let expected = r#"
          {
            "type": "function",
            "function": {
              "name": "get_weather",
              "description": "Get the current weather in a given location",
              "parameters": {
                "type": "object",
                "properties": {
                  "location": {
                    "type": "string",
                    "description": "The city and state, e.g. San Francisco, CA"
                  },
                  "unit": {
                    "type": "string",
                    "enum": ["celsius", "fahrenheit"],
                    "description": "The temperature unit to use. Infer this from the user's location."
                  }
                },
                "required": ["location"]
              }
            }
          }"#;
    let my_tool = MyTool {};
    let openai_tool = my_tool.to_openai_tool();
    let result = openai_tool.to_json();
    same_json(expected, &result);
}

#[test]
fn test_tool_runner() {
    let my_tool = MyTool {};
    assert_eq!(my_tool.call(Json::Null), Ok("test".to_string()));
}

#[test]
fn test_convert_to_funtools() {
    assert_eq!(2 + 2, 4);
    let mut set: ToolSet<MyTool> = ToolSet::new();
    set.add_tool(MyTool);
    assert_eq!(set.len(), 1);
}

#[test]
fn openai_test_tool_json() {
    let tool = Tool {
        kind: ToolType::Function,
        function: FunctionDescription {
            name: "test_function".to_string(),
            description: "This is a test function".to_string(),
            parameters: Parameters {
                kind: "object".to_string(),
                properties: PropertyMap::new(),
                required: Some(vec!["param1".to_string()]),
            },
        },
    };
    let result = tool.to_json();
    let expected = r#"{
            "type": "function",
            "function": {
            "name": "test_function",
            "description": "This is a test function",
            "parameters": {
                "type": "object",
                "properties": {},
                "required": ["param1"]
            }
            }
        }"#;
    same_json(expected, &result);
}

struct TestToolParam {}

impl ToolParameters for TestToolParam {
    fn parameters() -> Parameters {
        let value1 = Property {
            kind: "string".to_string(),
            description: Some("This is a string parameter".to_string()),
            enum_values: Some(vec!["value1".to_string(), "value2".to_string()]),
            ..Default::default()
        };
        let value2 = Property {
            kind: "number".to_string(),
            description: Some("This is an integer parameter".to_string()),
            enum_values: Some(vec!["1".to_string(), "2".to_string()]),
            ..Default::default()
        };
        let mut properties = PropertyMap::new();
        properties.insert("param1".to_string(), value1);
        properties.insert("param2".to_string(), value2);
        Parameters {
            kind: "object".to_string(),
            properties,
            required: Some(vec!["param1".to_string()]),
        }
    }
}

#[test]
fn test_parameters_json() {
    let json = TestToolParam::parameters().to_json();
    let json_value = r#"
            {
                "type":"object",
                "properties": {
                    "param1":{"type":"string","description":"This is a string parameter","enum":["value1","value2"]},
                    "param2":{"type":"number","description":"This is an integer parameter","enum":["1","2"]}
                },
                "required":["param1"]
            }"#;
    same_json(json_value, &json);
}

#[test]
fn parameters_survive_json_and_back() {
    let mut parameters = MyToolParameters::parameters();
    parameters.properties.insert(
        "tags".to_string(),
        Property {
            kind: "array".to_string(),
            items: Some(Items {
                kind: "string".to_string(),
            }),
            description: None,
            enum_values: None,
        },
    );
    let doc = parameters.to_json();
    let back = Parameters::from_json(&doc).unwrap();
    assert_eq!(back, parameters);
    // through text, where serde_json sorts the names
    let reread = Parameters::from_json(&Json::parse(&doc.render()).unwrap()).unwrap();
    assert_eq!(reread.kind, "object");
    assert_eq!(reread.required, Some(vec!["location".to_string()]));
    assert_eq!(reread.properties.len(), 3);
    for name in ["location", "unit", "tags"] {
        assert_eq!(reread.properties.get(name), parameters.properties.get(name));
    }
    assert_eq!(
        reread.properties.get("unit").unwrap().enum_values,
        Some(vec!["celsius".to_string(), "fahrenheit".to_string()])
    );
}

#[test]
fn parameters_without_a_required_list_leave_it_out() {
    let parameters = Parameters {
        kind: "object".to_string(),
        properties: PropertyMap::new(),
        required: None,
    };
    assert_eq!(
        parameters.to_json().render(),
        r#"{"properties":{},"type":"object"}"#
    );
    assert_eq!(
        Parameters::from_json(&parameters.to_json()).unwrap(),
        parameters
    );
}

#[test]
fn reading_a_schema_reports_what_is_wrong() {
    let read = |text: &str| Parameters::from_json(&Json::parse(text).unwrap());
    assert_eq!(read("[]"), Err(DecodeError::NotAnObject("parameters")));
    assert_eq!(read("{}"), Err(DecodeError::Missing("type")));
    assert_eq!(
        read(r#"{"type":"object"}"#),
        Err(DecodeError::Missing("properties"))
    );
    assert_eq!(
        read(r#"{"type":"object","properties":[]}"#),
        Err(DecodeError::WrongType("properties"))
    );
    assert_eq!(
        read(r#"{"type":"object","properties":{"a":1}}"#),
        Err(DecodeError::NotAnObject("properties"))
    );
    assert_eq!(
        read(r#"{"type":"object","properties":{"a":{}}}"#),
        Err(DecodeError::Missing("type"))
    );
    assert_eq!(
        read(r#"{"type":"object","properties":{"a":{"type":"array","items":3}}}"#),
        Err(DecodeError::NotAnObject("items"))
    );
    assert_eq!(
        read(r#"{"type":"object","properties":{},"required":"a"}"#),
        Err(DecodeError::WrongType("required"))
    );
}

#[test]
fn property_map_keeps_one_property_per_name() {
    let mut map = PropertyMap::new();
    assert!(map.is_empty());
    let first = Property {
        kind: "string".to_string(),
        ..Default::default()
    };
    let second = Property {
        kind: "number".to_string(),
        ..Default::default()
    };
    assert_eq!(Property::default().kind, "");
    assert_eq!(map.insert("a".to_string(), first.clone()), None);
    assert_eq!(map.insert("b".to_string(), first.clone()), None);
    assert_eq!(map.insert("a".to_string(), second.clone()), Some(first.clone()));
    assert_eq!(map.len(), 2);
    assert_eq!(map.get("a"), Some(&second));
    assert_eq!(map.get("b"), Some(&first));
    assert_eq!(map.get("c"), None);
    assert!(map.contains_key("a"));
    assert!(!map.contains_key("c"));
    assert_eq!(map.name_at(0), "a");
    assert_eq!(map.name_at(1), "b");
    assert_eq!(*map.property_at(0), second);
    assert_eq!(map.clone(), map);
}

struct Named {
    name: &'static str,
    answer: &'static str,
}

impl FunTool for Named {
    fn described(&self) -> Tool {
        self.to_openai_tool()
    }
    fn name(&self) -> String {
        self.name.to_string()
    }
    fn description(&self) -> String {
        String::new()
    }
    fn parameters(&self) -> Parameters {
        Parameters {
            kind: "object".to_string(),
            properties: PropertyMap::new(),
            required: None,
        }
    }
    fn call(&self, _input: Json) -> Result<String, String> {
        Ok(self.answer.to_string())
    }
}

#[test]
fn tool_set_finds_tools_by_name_and_replaces_on_the_same_name() {
    let mut set: ToolSet<Named> = ToolSet::new();
    set.add_tool(Named {
        name: "a",
        answer: "1",
    });
    set.add_tool(Named {
        name: "b",
        answer: "2",
    });
    set.add_tool(Named {
        name: "a",
        answer: "3",
    });
    assert_eq!(set.len(), 2);
    assert_eq!(set.find("a"), Some(0));
    assert_eq!(set.find("b"), Some(1));
    assert_eq!(set.find("c"), None);
    assert_eq!(set.get_tool("a").unwrap().answer, "3");
    assert!(set.get_tool("c").is_none());
    assert_eq!(set.get(1).answer, "2");
    assert_eq!(set.tools().len(), 2);
    let advertised = set.to_openai_tools();
    assert_eq!(advertised.len(), 2);
    assert_eq!(advertised[0].function.name, "a");
    assert_eq!(advertised[1].function.name, "b");
}
