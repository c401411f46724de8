use gpt5::{
    Gpt5Model, Gpt5RequestBuilder, JsonValue, ReasoningEffort, Tool, ValidationWarning,
    VerbosityLevel,
};

/// A small JSON schema document describing one string argument.
fn location_schema() -> JsonValue {
    JsonValue::Obj(vec![
        ("type".to_string(), JsonValue::Str("object".to_string())),
        (
            "properties".to_string(),
            JsonValue::Obj(vec![(
                "location".to_string(),
                JsonValue::Obj(vec![("type".to_string(), JsonValue::Str("string".to_string()))]),
            )]),
        ),
    ])
}

#[test]
fn lib_test_gpt5_request_builder_basic() {
    let request = Gpt5RequestBuilder::new(Gpt5Model::Gpt5Nano)
        .input("Hello, world!")
        .build();

    assert_eq!(request.model, "gpt-5-nano");
    assert_eq!(request.input, "Hello, world!");
    assert!(request.reasoning.is_none());
    assert!(request.tools.is_none());
    assert!(request.tool_choice.is_none());
    assert!(request.max_output_tokens.is_none());
    assert!(request.top_p.is_none());
    assert!(request.text.is_none());
    assert!(request.instructions.is_none());
}

#[test]
fn integration_tests_test_gpt5_request_builder_basic() {
    let request = Gpt5RequestBuilder::new(Gpt5Model::Gpt5Nano)
        .input("Hello, world!")
        .build();

    assert_eq!(request.model, "gpt-5-nano");
    assert_eq!(request.input, "Hello, world!");
    assert!(request.reasoning.is_none());
    assert!(request.tools.is_none());
    assert!(request.tool_choice.is_none());
    assert!(request.max_output_tokens.is_none());
    assert!(request.top_p.is_none());
    assert!(request.text.is_none());
    assert!(request.instructions.is_none());
}

#[test]
fn lib_test_gpt5_request_builder_complete() {
    let weather_tool = Tool {
        tool_type: "function".to_string(),
        name: Some("get_weather".to_string()),
        description: Some("Get current weather".to_string()),
        parameters: Some(location_schema()),
    };

    let request = Gpt5RequestBuilder::new(Gpt5Model::Gpt5)
        .input("What's the weather?")
        .instructions("Use the weather tool")
        .reasoning_effort(ReasoningEffort::Medium)
        .verbosity(VerbosityLevel::High)
        .tools(vec![weather_tool])
        .tool_choice("auto")
        .max_output_tokens(1000)
        .top_p(900)
        .build();

    assert_eq!(request.model, "gpt-5");
    assert_eq!(request.input, "What's the weather?");
    assert_eq!(
        request.instructions,
        Some("Use the weather tool".to_string())
    );
    assert!(request.reasoning.is_some());
    assert!(request.tools.is_some());
    assert_eq!(request.tool_choice, Some("auto".to_string()));
    assert_eq!(request.max_output_tokens, Some(1000));
    assert_eq!(request.top_p, Some(900));
    assert!(request.text.is_some());
}

#[test]
fn integration_tests_test_gpt5_request_builder_complete() {
    let weather_tool = Tool {
        tool_type: "function".to_string(),
        name: Some("get_weather".to_string()),
        description: Some("Get current weather".to_string()),
        parameters: Some(location_schema()),
    };

    let request = Gpt5RequestBuilder::new(Gpt5Model::Gpt5)
        .input("What's the weather?")
        .instructions("Use the weather tool")
        .reasoning_effort(ReasoningEffort::Medium)
        .verbosity(VerbosityLevel::High)
        .tools(vec![weather_tool])
        .tool_choice("auto")
        .max_output_tokens(1000)
        .top_p(900)
        .build();

    assert_eq!(request.model, "gpt-5");
    assert_eq!(request.input, "What's the weather?");
    assert_eq!(
        request.instructions,
        Some("Use the weather tool".to_string())
    );
    assert!(request.reasoning.is_some());
    assert!(request.tools.is_some());
    assert_eq!(request.tool_choice, Some("auto".to_string()));
    assert_eq!(request.max_output_tokens, Some(1000));
    assert_eq!(request.top_p, Some(900));
    assert!(request.text.is_some());
}

#[test]
fn lib_test_gpt5_request_serialization() {
    let request = Gpt5RequestBuilder::new(Gpt5Model::Gpt5Nano)
        .input("Test input")
        .max_output_tokens(100)
        .build();

    let serialized = request.to_json_text();
    let deserialized: serde_json::Value = serde_json::from_str(&serialized).unwrap();

    assert_eq!(deserialized.get("model").unwrap().as_str().unwrap(), request.model);
    assert_eq!(deserialized.get("input").unwrap().as_str().unwrap(), request.input);
    assert_eq!(
        deserialized.get("max_output_tokens").unwrap().as_u64().unwrap() as u32,
        request.max_output_tokens.unwrap()
    );
}

#[test]
fn integration_tests_test_gpt5_request_serialization() {
    let request = Gpt5RequestBuilder::new(Gpt5Model::Gpt5Nano)
        .input("Test input")
        .max_output_tokens(100)
        .build();

    let serialized = request.to_json_text();
    let deserialized: serde_json::Value = serde_json::from_str(&serialized).unwrap();

    assert_eq!(deserialized.get("model").unwrap().as_str().unwrap(), request.model);
    assert_eq!(deserialized.get("input").unwrap().as_str().unwrap(), request.input);
    assert_eq!(
        deserialized.get("max_output_tokens").unwrap().as_u64().unwrap() as u32,
        request.max_output_tokens.unwrap()
    );
}

#[test]
fn lib_test_builder_method_chaining() {
    let request = Gpt5RequestBuilder::new(Gpt5Model::Gpt5)
        .input("Test")
        .instructions("Be helpful")
        .reasoning_effort(ReasoningEffort::High)
        .verbosity(VerbosityLevel::Medium)
        .max_output_tokens(500)
        .top_p(800)
        .param("custom_param", JsonValue::Str("custom_value".to_string()))
        .build();

    assert_eq!(request.input, "Test");
    assert_eq!(request.instructions, Some("Be helpful".to_string()));
    assert!(request.reasoning.is_some());
    assert!(request.text.is_some());
    assert_eq!(request.max_output_tokens, Some(500));
    assert_eq!(request.top_p, Some(800));
    assert!(request.parameters.iter().any(|(k, _)| k == "custom_param"));
}

#[test]
fn integration_tests_test_builder_method_chaining() {
    let request = Gpt5RequestBuilder::new(Gpt5Model::Gpt5)
        .input("Test")
        .instructions("Be helpful")
        .reasoning_effort(ReasoningEffort::High)
        .verbosity(VerbosityLevel::Medium)
        .max_output_tokens(500)
        .top_p(800)
        .param("custom_param", JsonValue::Str("custom_value".to_string()))
        .build();

    assert_eq!(request.input, "Test");
    assert_eq!(request.instructions, Some("Be helpful".to_string()));
    assert!(request.reasoning.is_some());
    assert!(request.text.is_some());
    assert_eq!(request.max_output_tokens, Some(500));
    assert_eq!(request.top_p, Some(800));
    assert!(request.parameters.iter().any(|(k, _)| k == "custom_param"));
}

#[test]
fn test_user_text_alias() {
    let request = Gpt5RequestBuilder::new(Gpt5Model::Gpt5Nano)
        .user_text("Hello from user_text method")
        .build();

    assert_eq!(request.input, "Hello from user_text method");
}

#[test]
fn test_validation_warnings() {
    // Empty input and a very low token bound never block building
    let request = Gpt5RequestBuilder::new(Gpt5Model::Gpt5Nano)
        .input("")
        .max_output_tokens(5)
        .build();

    assert_eq!(request.input, "");
    assert_eq!(request.max_output_tokens, Some(5));
}

#[test]
fn test_gpt5_request_builder_validation() {
    let request = Gpt5RequestBuilder::new(Gpt5Model::Gpt5Nano)
        .input("")
        .max_output_tokens(5)
        .build();

    assert_eq!(request.input, "");
    assert_eq!(request.max_output_tokens, Some(5));
}

#[test]
fn test_web_search_configuration() {
    let request = Gpt5RequestBuilder::new(Gpt5Model::Gpt5Nano)
        .input("Search something")
        .web_search_enabled(true)
        .web_search_query("latest rust news")
        .web_search_max_results(5)
        .build();

    let tools = request.tools.expect("web_search tool should be present");
    let search_tool = tools
        .into_iter()
        .find(|tool| tool.tool_type == "web_search")
        .expect("expected a web_search tool");

    assert!(search_tool.name.is_none());
    assert!(search_tool.description.is_none());

    let config = request
        .web_search_config
        .expect("web_search metadata should be stored");
    assert_eq!(config.query.as_deref(), Some("latest rust news"));
    assert_eq!(config.max_results, Some(5));
}

#[test]
fn test_web_search_disabled_is_omitted() {
    let request = Gpt5RequestBuilder::new(Gpt5Model::Gpt5Nano)
        .input("No search")
        .web_search_enabled(false)
        .build();

    assert!(request.tools.is_none());
    assert!(request.web_search_config.is_none());
}

#[test]
fn lib_test_tool_creation() {
    let tool = Tool {
        tool_type: "function".to_string(),
        name: Some("test_function".to_string()),
        description: Some("A test function".to_string()),
        parameters: Some(JsonValue::Obj(vec![
            ("type".to_string(), JsonValue::Str("object".to_string())),
            (
                "properties".to_string(),
                JsonValue::Obj(vec![(
                    "param1".to_string(),
                    JsonValue::Obj(vec![(
                        "type".to_string(),
                        JsonValue::Str("string".to_string()),
                    )]),
                )]),
            ),
        ])),
    };

    assert_eq!(tool.tool_type, "function");
    assert_eq!(tool.name.as_deref(), Some("test_function"));
    assert_eq!(tool.description.as_deref(), Some("A test function"));
}

#[test]
fn integration_tests_test_tool_creation() {
    let tool = Tool {
        tool_type: "function".to_string(),
        name: Some("test_function".to_string()),
        description: Some("A test function".to_string()),
        parameters: Some(JsonValue::Obj(vec![
            ("type".to_string(), JsonValue::Str("object".to_string())),
            (
                "properties".to_string(),
                JsonValue::Obj(vec![(
                    "param1".to_string(),
                    JsonValue::Obj(vec![(
                        "type".to_string(),
                        JsonValue::Str("string".to_string()),
                    )]),
                )]),
            ),
        ])),
    };

    assert_eq!(tool.tool_type, "function");
    assert_eq!(tool.name.as_deref(), Some("test_function"));
    assert_eq!(tool.description.as_deref(), Some("A test function"));
}

#[test]
fn test_complex_tool_definition() {
    let complex_tool = Tool {
        tool_type: "function".to_string(),
        name: Some("analyze_data".to_string()),
        description: Some("Analyze complex data with multiple parameters".to_string()),
        parameters: Some(JsonValue::Obj(vec![
            ("type".to_string(), JsonValue::Str("object".to_string())),
            (
                "properties".to_string(),
                JsonValue::Obj(vec![
                    (
                        "data".to_string(),
                        JsonValue::Obj(vec![
                            ("type".to_string(), JsonValue::Str("array".to_string())),
                            (
                                "items".to_string(),
                                JsonValue::Obj(vec![(
                                    "type".to_string(),
                                    JsonValue::Str("number".to_string()),
                                )]),
                            ),
                            (
                                "description".to_string(),
                                JsonValue::Str("Array of numbers to analyze".to_string()),
                            ),
                        ]),
                    ),
                    (
                        "method".to_string(),
                        JsonValue::Obj(vec![
                            ("type".to_string(), JsonValue::Str("string".to_string())),
                            (
                                "enum".to_string(),
                                JsonValue::Arr(vec![
                                    JsonValue::Str("mean".to_string()),
                                    JsonValue::Str("median".to_string()),
                                    JsonValue::Str("mode".to_string()),
                                ]),
                            ),
                            (
                                "description".to_string(),
                                JsonValue::Str("Analysis method to use".to_string()),
                            ),
                        ]),
                    ),
                    (
                        "options".to_string(),
                        JsonValue::Obj(vec![
                            ("type".to_string(), JsonValue::Str("object".to_string())),
                            (
                                "properties".to_string(),
                                JsonValue::Obj(vec![
                                    (
                                        "include_stats".to_string(),
                                        JsonValue::Obj(vec![(
                                            "type".to_string(),
                                            JsonValue::Str("boolean".to_string()),
                                        )]),
                                    ),
                                    (
                                        "confidence_level".to_string(),
                                        JsonValue::Obj(vec![
                                            (
                                                "type".to_string(),
                                                JsonValue::Str("number".to_string()),
                                            ),
                                            ("minimum".to_string(), JsonValue::Num("0".to_string())),
                                            ("maximum".to_string(), JsonValue::Num("1".to_string())),
                                        ]),
                                    ),
                                ]),
                            ),
                        ]),
                    ),
                ]),
            ),
            (
                "required".to_string(),
                JsonValue::Arr(vec![
                    JsonValue::Str("data".to_string()),
                    JsonValue::Str("method".to_string()),
                ]),
            ),
        ])),
    };

    assert_eq!(complex_tool.name.as_deref(), Some("analyze_data"));
    assert!(matches!(complex_tool.parameters, Some(JsonValue::Obj(_))));
}

#[test]
fn lib_test_multiple_tools() {
    let tool1 = Tool {
        tool_type: "function".to_string(),
        name: Some("tool1".to_string()),
        description: Some("First tool".to_string()),
        parameters: Some(JsonValue::Obj(vec![])),
    };

    let tool2 = Tool {
        tool_type: "function".to_string(),
        name: Some("tool2".to_string()),
        description: Some("Second tool".to_string()),
        parameters: Some(JsonValue::Obj(vec![])),
    };

    let request = Gpt5RequestBuilder::new(Gpt5Model::Gpt5)
        .input("Use both tools")
        .tools(vec![tool1, tool2])
        .tool_choice("auto")
        .build();

    assert!(request.tools.is_some());
    assert_eq!(request.tools.unwrap().len(), 2);
    assert_eq!(request.tool_choice, Some("auto".to_string()));
}

#[test]
fn integration_tests_test_multiple_tools() {
    let tool1 = Tool {
        tool_type: "function".to_string(),
        name: Some("tool1".to_string()),
        description: Some("First tool".to_string()),
        parameters: Some(JsonValue::Obj(vec![])),
    };

    let tool2 = Tool {
        tool_type: "function".to_string(),
        name: Some("tool2".to_string()),
        description: Some("Second tool".to_string()),
        parameters: Some(JsonValue::Obj(vec![])),
    };

    let request = Gpt5RequestBuilder::new(Gpt5Model::Gpt5)
        .input("Use both tools")
        .tools(vec![tool1, tool2])
        .tool_choice("auto")
        .build();

    assert!(request.tools.is_some());
    assert_eq!(request.tools.unwrap().len(), 2);
    assert_eq!(request.tool_choice, Some("auto".to_string()));
}

#[test]
fn query_only_setter_enables_web_search() {
    let request = Gpt5RequestBuilder::new(Gpt5Model::Gpt5Nano)
        .input("Search something")
        .web_search_query("rust verification")
        .build();

    let tools = request.tools.expect("web_search tool should be present");
    assert_eq!(tools.len(), 1);
    assert_eq!(tools[0].tool_type, "web_search");
    let config = request.web_search_config.expect("intent record kept");
    assert!(config.enabled);
    assert_eq!(config.query.as_deref(), Some("rust verification"));
}

#[test]
fn explicit_web_search_tool_is_not_duplicated() {
    let search_tool = Tool {
        tool_type: "web_search".to_string(),
        name: Some("my_search".to_string()),
        description: None,
        parameters: None,
    };
    let request = Gpt5RequestBuilder::new(Gpt5Model::Gpt5)
        .input("Search")
        .tools(vec![search_tool])
        .web_search_enabled(true)
        .build();

    let tools = request.tools.unwrap();
    assert_eq!(tools.len(), 1);
    assert_eq!(tools[0].name.as_deref(), Some("my_search"));
}

#[test]
fn validate_reports_each_finding_in_order() {
    let builder = Gpt5RequestBuilder::new(Gpt5Model::Gpt5Nano)
        .input("   ")
        .max_output_tokens(5)
        .top_p(1500)
        .reasoning_effort(ReasoningEffort::High)
        .verbosity(VerbosityLevel::Low)
        .web_search_max_results(0)
        .tools(vec![]);
    let warnings = builder.validate();
    assert_eq!(
        warnings,
        vec![
            ValidationWarning::EmptyInput,
            ValidationWarning::MaxTokensVeryLow,
            ValidationWarning::TopPOutOfRange,
            ValidationWarning::HighEffortLowVerbosity,
            ValidationWarning::ZeroWebSearchResults,
            ValidationWarning::EmptyToolList,
        ]
    );
}

#[test]
fn validate_reports_high_bound_and_mismatch() {
    let builder = Gpt5RequestBuilder::new(Gpt5Model::Gpt5)
        .input("fine")
        .max_output_tokens(100001)
        .reasoning_effort(ReasoningEffort::Low)
        .verbosity(VerbosityLevel::High);
    let warnings = builder.validate();
    assert_eq!(
        warnings,
        vec![
            ValidationWarning::MaxTokensVeryHigh,
            ValidationWarning::LowEffortHighVerbosity,
        ]
    );
}

#[test]
fn validate_accepts_an_ordinary_request() {
    let builder = Gpt5RequestBuilder::new(Gpt5Model::Gpt5)
        .input("hello")
        .max_output_tokens(1000)
        .top_p(900);
    assert_eq!(builder.validate(), vec![]);
}

#[test]
fn param_overwrites_earlier_value_in_place() {
    let request = Gpt5RequestBuilder::new(Gpt5Model::Gpt5)
        .input("x")
        .param("seed", JsonValue::Num("1".to_string()))
        .param("user_tag", JsonValue::Str("a".to_string()))
        .param("seed", JsonValue::Num("2".to_string()))
        .build();

    assert_eq!(request.parameters.len(), 2);
    assert_eq!(request.parameters[0].0, "seed");
    assert!(matches!(&request.parameters[0].1, JsonValue::Num(n) if n == "2"));
    assert_eq!(request.parameters[1].0, "user_tag");
}

#[test]
fn disabling_after_query_drops_the_intent() {
    let request = Gpt5RequestBuilder::new(Gpt5Model::Gpt5Nano)
        .input("No search after all")
        .web_search_query("something")
        .web_search_enabled(false)
        .build();

    assert!(request.tools.is_none());
    assert!(request.web_search_config.is_none());
}

#[test]
fn max_results_setter_alone_enables_web_search() {
    let request = Gpt5RequestBuilder::new(Gpt5Model::Gpt5Nano)
        .input("Search")
        .web_search_max_results(3)
        .build();

    let tools = request.tools.expect("web_search tool should be present");
    assert_eq!(tools.len(), 1);
    assert_eq!(tools[0].tool_type, "web_search");
    let config = request.web_search_config.expect("intent record kept");
    assert!(config.enabled);
    assert_eq!(config.max_results, Some(3));
}
