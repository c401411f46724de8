use gpt5::{DecodeFault, Gpt5Response, OpenAiError, Status};

#[test]
fn lib_test_gpt5_response_deserialization() {
    let sample_response = r#"{
        "id": "resp_123",
        "object": "response",
        "created_at": 1234567890,
        "status": "completed",
        "model": "gpt-5-nano",
        "output": [
            {
                "type": "message",
                "id": "msg_123",
                "content": [
                    {
                        "type": "output_text",
                        "text": "Hello, world!"
                    }
                ]
            }
        ],
        "usage": {
            "input_tokens": 10,
            "output_tokens": 5,
            "total_tokens": 15
        }
    }"#;

    let response = Gpt5Response::from_json_str(sample_response).unwrap();

    assert_eq!(response.id, Some("resp_123".to_string()));
    assert_eq!(response.object, Some("response".to_string()));
    assert_eq!(response.status, Some(Status::Completed));
    assert_eq!(response.model, Some("gpt-5-nano".to_string()));
    assert!(response.output.is_some());
    assert!(response.usage.is_some());
}

#[test]
fn integration_tests_test_gpt5_response_deserialization() {
    let sample_response = r#"{
        "id": "resp_123",
        "object": "response",
        "created_at": 1234567890,
        "status": "completed",
        "model": "gpt-5-nano",
        "output": [
            {
                "type": "message",
                "id": "msg_123",
                "content": [
                    {
                        "type": "output_text",
                        "text": "Hello, world!"
                    }
                ]
            }
        ],
        "usage": {
            "input_tokens": 10,
            "output_tokens": 5,
            "total_tokens": 15
        }
    }"#;

    let response = Gpt5Response::from_json_str(sample_response).unwrap();

    assert_eq!(response.id, Some("resp_123".to_string()));
    assert_eq!(response.object, Some("response".to_string()));
    assert_eq!(response.status, Some(Status::Completed));
    assert_eq!(response.model, Some("gpt-5-nano".to_string()));
    assert!(response.output.is_some());
    assert!(response.usage.is_some());
}

#[test]
fn lib_test_gpt5_response_text_extraction() {
    let sample_response = r#"{
        "output": [
            {
                "type": "message",
                "content": [
                    {
                        "type": "output_text",
                        "text": "Hello, world!"
                    }
                ]
            }
        ]
    }"#;

    let response = Gpt5Response::from_json_str(sample_response).unwrap();
    let text = response.text();

    assert_eq!(text, Some("Hello, world!".to_string()));
}

#[test]
fn integration_tests_test_gpt5_response_text_extraction() {
    let sample_response = r#"{
        "output": [
            {
                "type": "message",
                "content": [
                    {
                        "type": "output_text",
                        "text": "Hello, world!"
                    }
                ]
            }
        ]
    }"#;

    let response = Gpt5Response::from_json_str(sample_response).unwrap();
    let text = response.text();

    assert_eq!(text, Some("Hello, world!".to_string()));
}

#[test]
fn lib_test_gpt5_response_function_calls() {
    let sample_response = r#"{
        "output": [
            {
                "type": "function_call",
                "name": "get_weather",
                "arguments": "{\"location\": \"Boston\"}"
            },
            {
                "type": "message",
                "content": [
                    {
                        "type": "output_text",
                        "text": "I'll check the weather for you."
                    }
                ]
            }
        ]
    }"#;

    let response = Gpt5Response::from_json_str(sample_response).unwrap();
    let function_calls = response.function_calls();

    assert_eq!(function_calls.len(), 1);
    assert_eq!(function_calls[0].name, Some("get_weather".to_string()));
    assert_eq!(
        function_calls[0].arguments,
        Some("{\"location\": \"Boston\"}".to_string())
    );
}

#[test]
fn integration_tests_test_gpt5_response_function_calls() {
    let sample_response = r#"{
        "output": [
            {
                "type": "function_call",
                "name": "get_weather",
                "arguments": "{\"location\": \"Boston\"}"
            },
            {
                "type": "message",
                "content": [
                    {
                        "type": "output_text",
                        "text": "I'll check the weather for you."
                    }
                ]
            }
        ]
    }"#;

    let response = Gpt5Response::from_json_str(sample_response).unwrap();
    let function_calls = response.function_calls();

    assert_eq!(function_calls.len(), 1);
    assert_eq!(function_calls[0].name, Some("get_weather".to_string()));
    assert_eq!(
        function_calls[0].arguments,
        Some("{\"location\": \"Boston\"}".to_string())
    );
}

#[test]
fn lib_test_gpt5_response_completion_status() {
    let response = Gpt5Response::from_json_str(r#"{"status": "completed"}"#).unwrap();
    assert!(response.is_completed());

    let response = Gpt5Response::from_json_str(r#"{"status": "incomplete"}"#).unwrap();
    assert!(!response.is_completed());
}

#[test]
fn integration_tests_test_gpt5_response_completion_status() {
    let response = Gpt5Response::from_json_str(r#"{"status": "completed"}"#).unwrap();
    assert!(response.is_completed());

    let response = Gpt5Response::from_json_str(r#"{"status": "incomplete"}"#).unwrap();
    assert!(!response.is_completed());
}

#[test]
fn lib_test_gpt5_response_token_usage() {
    let sample_response = r#"{
        "usage": {
            "input_tokens": 10,
            "output_tokens": 5,
            "total_tokens": 15,
            "output_tokens_details": {
                "reasoning_tokens": 3
            }
        }
    }"#;

    let response = Gpt5Response::from_json_str(sample_response).unwrap();

    assert_eq!(response.total_tokens(), 15);
    assert_eq!(response.reasoning_tokens(), Some(3));
}

#[test]
fn integration_tests_test_gpt5_response_token_usage() {
    let sample_response = r#"{
        "usage": {
            "input_tokens": 10,
            "output_tokens": 5,
            "total_tokens": 15,
            "output_tokens_details": {
                "reasoning_tokens": 3
            }
        }
    }"#;

    let response = Gpt5Response::from_json_str(sample_response).unwrap();

    assert_eq!(response.total_tokens(), 15);
    assert_eq!(response.reasoning_tokens(), Some(3));
}

#[test]
fn lib_test_error_response_deserialization() {
    let error_response = r#"{
        "error": {
            "message": "Invalid API key",
            "type": "invalid_request_error",
            "param": "api_key",
            "code": "invalid_api_key"
        }
    }"#;

    let error = OpenAiError::from_json_str(error_response).unwrap();

    assert_eq!(error.error.message, "Invalid API key");
    assert_eq!(error.error.error_type, "invalid_request_error");
    assert_eq!(error.error.param, Some("api_key".to_string()));
    assert_eq!(error.error.code, Some("invalid_api_key".to_string()));
}

#[test]
fn integration_tests_test_error_response_deserialization() {
    let error_response = r#"{
        "error": {
            "message": "Invalid API key",
            "type": "invalid_request_error",
            "param": "api_key",
            "code": "invalid_api_key"
        }
    }"#;

    let error = OpenAiError::from_json_str(error_response).unwrap();

    assert_eq!(error.error.message, "Invalid API key");
    assert_eq!(error.error.error_type, "invalid_request_error");
    assert_eq!(error.error.param, Some("api_key".to_string()));
    assert_eq!(error.error.code, Some("invalid_api_key".to_string()));
}

#[test]
fn test_all_text_extraction() {
    let sample_response = r#"{
        "output": [
            {
                "type": "message",
                "content": [
                    {
                        "type": "output_text",
                        "text": "First message"
                    }
                ]
            },
            {
                "type": "message",
                "content": [
                    {
                        "type": "output_text",
                        "text": "Second message"
                    }
                ]
            }
        ]
    }"#;

    let response = Gpt5Response::from_json_str(sample_response).unwrap();
    let all_texts = response.all_text();

    assert_eq!(all_texts.len(), 2);
    assert_eq!(all_texts[0], "First message");
    assert_eq!(all_texts[1], "Second message");
}

#[test]
fn test_has_error() {
    let response = Gpt5Response::from_json_str(r#"{"error": {"message": "Test error"}}"#).unwrap();
    assert!(response.has_error());

    let response = Gpt5Response::from_json_str(r#"{"status": "completed"}"#).unwrap();
    assert!(!response.has_error());
}

#[test]
fn first_text_takes_only_the_first_of_two_messages() {
    let body = r#"{
        "output": [
            {"type": "message", "content": [{"type": "output_text", "text": "one"}]},
            {"type": "message", "content": [{"type": "output_text", "text": "two"}]}
        ]
    }"#;
    let response = Gpt5Response::from_json_str(body).unwrap();
    assert_eq!(response.text(), Some("one".to_string()));
    assert_eq!(response.all_text(), vec!["one".to_string(), "two".to_string()]);
}

#[test]
fn unknown_status_string_decodes_to_catch_all() {
    let response = Gpt5Response::from_json_str(r#"{"status": "queued"}"#).unwrap();
    assert_eq!(response.status, Some(Status::Unknown("queued".to_string())));
    assert!(!response.is_completed());
}

#[test]
fn missing_status_is_not_completed() {
    let response = Gpt5Response::from_json_str(r#"{}"#).unwrap();
    assert!(!response.is_completed());
    assert_eq!(response.status, None);
}

#[test]
fn missing_usage_yields_zero_and_absent_counts() {
    let response = Gpt5Response::from_json_str(r#"{"id": "resp_9"}"#).unwrap();
    assert_eq!(response.total_tokens(), 0);
    assert_eq!(response.reasoning_tokens(), None);
}

#[test]
fn null_error_counts_as_absent() {
    let response = Gpt5Response::from_json_str(r#"{"error": null}"#).unwrap();
    assert!(!response.has_error());
}

#[test]
fn unknown_top_level_members_are_ignored() {
    let response =
        Gpt5Response::from_json_str(r#"{"status": "completed", "novel_field": [1, 2]}"#).unwrap();
    assert!(response.is_completed());
}

#[test]
fn wrongly_shaped_fields_name_their_fault() {
    assert!(matches!(
        Gpt5Response::from_json_str(r#"{"id": 5}"#),
        Err(DecodeFault::IdField)
    ));
    assert!(matches!(
        Gpt5Response::from_json_str(r#"{"created_at": "late"}"#),
        Err(DecodeFault::CreatedAtField)
    ));
    assert!(matches!(
        Gpt5Response::from_json_str(r#"{"created_at": -4}"#),
        Err(DecodeFault::CreatedAtField)
    ));
    assert!(matches!(
        Gpt5Response::from_json_str(r#"{"status": 3}"#),
        Err(DecodeFault::StatusField)
    ));
    assert!(matches!(
        Gpt5Response::from_json_str(r#"{"output": "none"}"#),
        Err(DecodeFault::OutputField)
    ));
    assert!(matches!(
        Gpt5Response::from_json_str(r#"{"output": [7]}"#),
        Err(DecodeFault::OutputItemNotAnObject)
    ));
    assert!(matches!(
        Gpt5Response::from_json_str(r#"{"output": [{"id": "i1"}]}"#),
        Err(DecodeFault::OutputTypeField)
    ));
    assert!(matches!(
        Gpt5Response::from_json_str(r#"{"output": [{"type": "message", "content": [{"type": "output_text", "text": 1}]}]}"#),
        Err(DecodeFault::ContentTextField)
    ));
    assert!(matches!(
        Gpt5Response::from_json_str(r#"{"usage": {"output_tokens": 1, "total_tokens": 2}}"#),
        Err(DecodeFault::InputTokensField)
    ));
    assert!(matches!(
        Gpt5Response::from_json_str(r#"{"usage": 9}"#),
        Err(DecodeFault::UsageNotAnObject)
    ));
    assert!(matches!(
        Gpt5Response::from_json_str(r#"{"top_p": "high"}"#),
        Err(DecodeFault::TopPField)
    ));
    assert!(matches!(
        Gpt5Response::from_json_str("[1, 2]"),
        Err(DecodeFault::NotAnObject)
    ));
    assert!(matches!(
        Gpt5Response::from_json_str("not json at all"),
        Err(DecodeFault::MalformedJson)
    ));
}

#[test]
fn response_top_p_keeps_the_number_text() {
    let response = Gpt5Response::from_json_str(r#"{"top_p": 0.9}"#).unwrap();
    assert_eq!(response.top_p, Some("0.9".to_string()));
}

#[test]
fn error_envelope_without_message_is_refused() {
    assert!(matches!(
        OpenAiError::from_json_str(r#"{"error": {"type": "x"}}"#),
        Err(DecodeFault::MessageField)
    ));
    assert!(matches!(
        OpenAiError::from_json_str(r#"{"status": "completed"}"#),
        Err(DecodeFault::ErrorField)
    ));
}

#[test]
fn no_matching_segment_yields_absent_text() {
    let body = r#"{
        "output": [
            {"type": "function_call", "name": "f", "arguments": "{}"},
            {"type": "message", "content": [{"type": "refusal", "text": "no"}]},
            {"type": "message", "content": [{"type": "output_text"}]}
        ]
    }"#;
    let response = Gpt5Response::from_json_str(body).unwrap();
    assert_eq!(response.text(), None);
    assert_eq!(response.all_text(), Vec::<String>::new());
    assert_eq!(response.function_calls().len(), 1);
}

#[test]
fn message_items_are_not_function_calls() {
    let body = r#"{"output": [{"type": "message"}, {"type": "surprise"}]}"#;
    let response = Gpt5Response::from_json_str(body).unwrap();
    assert!(response.function_calls().is_empty());
}
