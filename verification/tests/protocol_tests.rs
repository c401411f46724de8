use gpt5::{classify_reply, is_gpt5_model, DecodeFault, ReplyOutcome};

#[test]
fn model_family_check_accepts_the_known_family() {
    assert!(is_gpt5_model("gpt-5"));
    assert!(is_gpt5_model("gpt-5-mini"));
    assert!(is_gpt5_model("gpt-5-nano"));
    assert!(is_gpt5_model("gpt-5-experimental"));
    assert!(!is_gpt5_model("gpt-4"));
    assert!(!is_gpt5_model("gpt"));
    assert!(!is_gpt5_model(""));
    assert!(!is_gpt5_model("davinci"));
}

#[test]
fn success_status_with_good_body_succeeds() {
    let outcome = classify_reply(200, r#"{"status": "completed"}"#);
    match outcome {
        ReplyOutcome::Success(resp) => assert!(resp.is_completed()),
        other => panic!("expected success, got {:?}", other),
    }
}

#[test]
fn invalid_json_is_malformed_whatever_the_status() {
    assert!(matches!(
        classify_reply(200, "not json"),
        ReplyOutcome::MalformedBody(_)
    ));
    assert!(matches!(
        classify_reply(500, "<html>oops</html>"),
        ReplyOutcome::MalformedBody(_)
    ));
}

#[test]
fn failure_status_with_vendor_envelope_reports_the_message() {
    let body = r#"{"error": {"message": "Invalid API key", "type": "invalid_request_error"}}"#;
    match classify_reply(401, body) {
        ReplyOutcome::VendorError { status, message } => {
            assert_eq!(status, 401);
            assert_eq!(message, "Invalid API key");
        },
        other => panic!("expected vendor error, got {:?}", other),
    }
}

#[test]
fn failure_status_without_envelope_is_unrecognized() {
    match classify_reply(503, r#"{"detail": "down"}"#) {
        ReplyOutcome::UnrecognizedFailure { status } => assert_eq!(status, 503),
        other => panic!("expected unrecognized failure, got {:?}", other),
    }
}

#[test]
fn success_status_with_wrong_shape_is_a_schema_mismatch() {
    assert!(matches!(
        classify_reply(200, r#"{"status": 5}"#),
        ReplyOutcome::SchemaMismatch(DecodeFault::StatusField)
    ));
    assert!(matches!(
        classify_reply(299, r#"[1]"#),
        ReplyOutcome::SchemaMismatch(DecodeFault::NotAnObject)
    ));
}

#[test]
fn status_three_hundred_is_not_success() {
    assert!(matches!(
        classify_reply(300, r#"{"status": "completed"}"#),
        ReplyOutcome::UnrecognizedFailure { status: 300 }
    ));
}
