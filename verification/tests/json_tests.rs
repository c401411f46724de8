use gpt5::{Gpt5Model, Gpt5RequestBuilder, JsonValue, ReasoningEffort, Tool, VerbosityLevel};

#[test]
fn minimal_request_serializes_to_exactly_two_members() {
    let request = Gpt5RequestBuilder::new(Gpt5Model::Gpt5Nano)
        .input("Hello, world!")
        .build();
    assert_eq!(
        request.to_json_text(),
        r#"{"model":"gpt-5-nano","input":"Hello, world!"}"#
    );
}

#[test]
fn end_to_end_request_and_reply() {
    let request = Gpt5RequestBuilder::new(Gpt5Model::Gpt5Nano)
        .input("Hello, world!")
        .build();
    assert_eq!(
        request.to_json_text(),
        r#"{"model":"gpt-5-nano","input":"Hello, world!"}"#
    );

    let body = r#"{"output":[{"type":"message","content":[{"type":"output_text","text":"Hi!"}]}]}"#;
    let response = gpt5::Gpt5Response::from_json_str(body).unwrap();
    assert_eq!(response.text(), Some("Hi!".to_string()));
}

#[test]
fn optional_fields_serialize_in_declaration_order() {
    let request = Gpt5RequestBuilder::new(Gpt5Model::Gpt5)
        .input("question")
        .instructions("terse")
        .reasoning_effort(ReasoningEffort::Low)
        .verbosity(VerbosityLevel::Low)
        .max_output_tokens(100)
        .top_p(900)
        .tool_choice("auto")
        .build();
    let expected = r#"{"model":"gpt-5","input":"question","reasoning":{"effort":"low"},"tool_choice":"auto","max_output_tokens":100,"top_p":0.9,"text":{"verbosity":"low"},"instructions":"terse"}"#;
    assert_eq!(request.to_json_text(), expected);
}

#[test]
fn tools_and_parameters_serialize_fully() {
    let tool = Tool {
        tool_type: "function".to_string(),
        name: Some("lookup".to_string()),
        description: None,
        parameters: Some(JsonValue::Obj(vec![(
            "type".to_string(),
            JsonValue::Str("object".to_string()),
        )])),
    };
    let request = Gpt5RequestBuilder::new(Gpt5Model::Gpt5)
        .input("q")
        .tools(vec![tool])
        .param("seed", JsonValue::Num("7".to_string()))
        .build();
    let expected = r#"{"model":"gpt-5","input":"q","tools":[{"type":"function","name":"lookup","parameters":{"type":"object"}}],"seed":7}"#;
    assert_eq!(request.to_json_text(), expected);
}

#[test]
fn renderer_escapes_strings() {
    let v = JsonValue::Str("a\"b\\c\nd".to_string());
    assert_eq!(v.to_text(), r#""a\"b\\c\u000ad""#);
}

#[test]
fn renderer_handles_each_document_kind() {
    assert_eq!(JsonValue::Null.to_text(), "null");
    assert_eq!(JsonValue::Bool(true).to_text(), "true");
    assert_eq!(JsonValue::Bool(false).to_text(), "false");
    assert_eq!(JsonValue::Num("42".to_string()).to_text(), "42");
    assert_eq!(JsonValue::Arr(vec![]).to_text(), "[]");
    assert_eq!(JsonValue::Obj(vec![]).to_text(), "{}");
    let nested = JsonValue::Arr(vec![
        JsonValue::Num("1".to_string()),
        JsonValue::Arr(vec![JsonValue::Null]),
        JsonValue::Obj(vec![("k".to_string(), JsonValue::Bool(false))]),
    ]);
    assert_eq!(nested.to_text(), r#"[1,[null],{"k":false}]"#);
}

#[test]
fn rendered_output_reparses_identically() {
    let v = JsonValue::Obj(vec![
        ("text".to_string(), JsonValue::Str("line\u{1}\tend".to_string())),
        ("n".to_string(), JsonValue::Num("31".to_string())),
    ]);
    let text = v.to_text();
    let reparsed: serde_json::Value = serde_json::from_str(&text).unwrap();
    assert_eq!(
        reparsed.get("text").unwrap().as_str().unwrap(),
        "line\u{1}\tend"
    );
    assert_eq!(reparsed.get("n").unwrap().as_u64().unwrap(), 31);
}

#[test]
fn duplicate_makes_a_structurally_equal_copy() {
    let v = JsonValue::Obj(vec![(
        "items".to_string(),
        JsonValue::Arr(vec![JsonValue::Num("1".to_string()), JsonValue::Str("x".to_string())]),
    )]);
    let copy = v.duplicate();
    assert_eq!(copy.to_text(), v.to_text());
}

#[test]
fn top_p_thousandths_render_without_trailing_zeros() {
    let cases: Vec<(u32, &str)> = vec![
        (0, "0"),
        (1000, "1"),
        (900, "0.9"),
        (950, "0.95"),
        (955, "0.955"),
        (50, "0.05"),
        (5, "0.005"),
        (1500, "1.5"),
        (2001, "2.001"),
    ];
    for (permille, expected) in cases {
        let request = Gpt5RequestBuilder::new(Gpt5Model::Gpt5)
            .input("x")
            .top_p(permille)
            .build();
        let text = request.to_json_text();
        let expected_member = format!("\"top_p\":{}", expected);
        assert!(
            text.contains(&expected_member),
            "{} should contain {}",
            text,
            expected_member
        );
    }
}
