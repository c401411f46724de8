use gpt5::{
    ContentType, FormatType, JsonValue, OutputType, ReasoningEffort, Role, Status, VerbosityLevel,
};

/// The JSON text an enum value serializes to on the wire.
fn wire_json(s: &str) -> String {
    JsonValue::Str(s.to_string()).to_text()
}

#[test]
fn lib_test_reasoning_effort_serialization() {
    let low = ReasoningEffort::Low;
    let serialized = wire_json(low.as_wire());
    assert_eq!(serialized, "\"low\"");

    let deserialized = ReasoningEffort::from_wire("low".to_string());
    assert_eq!(deserialized, ReasoningEffort::Low);
}

#[test]
fn integration_tests_test_reasoning_effort_serialization() {
    let low = ReasoningEffort::Low;
    let serialized = wire_json(low.as_wire());
    assert_eq!(serialized, "\"low\"");

    let deserialized = ReasoningEffort::from_wire("low".to_string());
    assert_eq!(deserialized, ReasoningEffort::Low);

    // An unknown value round-trips verbatim
    let unknown = ReasoningEffort::Unknown("custom".to_string());
    let serialized = wire_json(unknown.as_wire());
    assert_eq!(serialized, "\"custom\"");
}

#[test]
fn lib_test_verbosity_level_serialization() {
    let high = VerbosityLevel::High;
    let serialized = wire_json(high.as_wire());
    assert_eq!(serialized, "\"high\"");

    let deserialized = VerbosityLevel::from_wire("high".to_string());
    assert_eq!(deserialized, VerbosityLevel::High);
}

#[test]
fn integration_tests_test_verbosity_level_serialization() {
    let low = VerbosityLevel::Low;
    let serialized = wire_json(low.as_wire());
    assert_eq!(serialized, "\"low\"");

    let deserialized = VerbosityLevel::from_wire("low".to_string());
    assert_eq!(deserialized, VerbosityLevel::Low);
}

#[test]
fn lib_test_output_type_serialization() {
    let message = OutputType::Message;
    let serialized = wire_json(message.as_wire());
    assert_eq!(serialized, "\"message\"");

    let deserialized = OutputType::from_wire("message".to_string());
    assert_eq!(deserialized, OutputType::Message);
}

#[test]
fn integration_tests_test_output_type_serialization() {
    let message = OutputType::Message;
    let serialized = wire_json(message.as_wire());
    assert_eq!(serialized, "\"message\"");

    let deserialized = OutputType::from_wire("message".to_string());
    assert_eq!(deserialized, OutputType::Message);

    let function_call = OutputType::FunctionCall;
    let serialized = wire_json(function_call.as_wire());
    assert_eq!(serialized, "\"function_call\"");
}

#[test]
fn lib_test_content_type_serialization() {
    let output_text = ContentType::OutputText;
    let serialized = wire_json(output_text.as_wire());
    assert_eq!(serialized, "\"output_text\"");

    let deserialized = ContentType::from_wire("output_text".to_string());
    assert_eq!(deserialized, ContentType::OutputText);
}

#[test]
fn integration_tests_test_content_type_serialization() {
    let output_text = ContentType::OutputText;
    let serialized = wire_json(output_text.as_wire());
    assert_eq!(serialized, "\"output_text\"");

    let deserialized = ContentType::from_wire("output_text".to_string());
    assert_eq!(deserialized, ContentType::OutputText);
}

#[test]
fn lib_test_status_serialization() {
    let completed = Status::Completed;
    let serialized = wire_json(completed.as_wire());
    assert_eq!(serialized, "\"completed\"");

    let deserialized = Status::from_wire("completed".to_string());
    assert_eq!(deserialized, Status::Completed);
}

#[test]
fn integration_tests_test_status_serialization() {
    let completed = Status::Completed;
    let serialized = wire_json(completed.as_wire());
    assert_eq!(serialized, "\"completed\"");

    let deserialized = Status::from_wire("completed".to_string());
    assert_eq!(deserialized, Status::Completed);

    let in_progress = Status::InProgress;
    let serialized = wire_json(in_progress.as_wire());
    assert_eq!(serialized, "\"in_progress\"");
}

#[test]
fn lib_test_role_serialization() {
    let user = Role::User;
    let serialized = wire_json(user.as_wire());
    assert_eq!(serialized, "\"user\"");

    let deserialized = Role::from_wire("user".to_string());
    assert_eq!(deserialized, Role::User);
}

#[test]
fn integration_tests_test_role_serialization() {
    let user = Role::User;
    let serialized = wire_json(user.as_wire());
    assert_eq!(serialized, "\"user\"");

    let deserialized = Role::from_wire("user".to_string());
    assert_eq!(deserialized, Role::User);

    let assistant = Role::Assistant;
    let serialized = wire_json(assistant.as_wire());
    assert_eq!(serialized, "\"assistant\"");
}

#[test]
fn lib_test_format_type_serialization() {
    let markdown = FormatType::Markdown;
    let serialized = wire_json(markdown.as_wire());
    assert_eq!(serialized, "\"markdown\"");

    let deserialized = FormatType::from_wire("markdown".to_string());
    assert_eq!(deserialized, FormatType::Markdown);
}

#[test]
fn integration_tests_test_format_type_serialization() {
    let markdown = FormatType::Markdown;
    let serialized = wire_json(markdown.as_wire());
    assert_eq!(serialized, "\"markdown\"");

    let deserialized = FormatType::from_wire("markdown".to_string());
    assert_eq!(deserialized, FormatType::Markdown);
}

#[test]
fn lib_test_enum_equality() {
    assert_eq!(ReasoningEffort::Low, ReasoningEffort::Low);
    assert_ne!(ReasoningEffort::Low, ReasoningEffort::High);

    assert_eq!(VerbosityLevel::Medium, VerbosityLevel::Medium);
    assert_ne!(VerbosityLevel::Low, VerbosityLevel::High);

    assert_eq!(Status::Completed, Status::Completed);
    assert_ne!(Status::Completed, Status::InProgress);
}

#[test]
fn integration_tests_test_enum_equality() {
    assert_eq!(ReasoningEffort::Low, ReasoningEffort::Low);
    assert_ne!(ReasoningEffort::Low, ReasoningEffort::High);

    assert_eq!(VerbosityLevel::Medium, VerbosityLevel::Medium);
    assert_ne!(VerbosityLevel::Low, VerbosityLevel::High);

    assert_eq!(Status::Completed, Status::Completed);
    assert_ne!(Status::Completed, Status::InProgress);
}

#[test]
fn lib_test_unknown_enum_values() {
    let unknown_reasoning = ReasoningEffort::Unknown("custom_effort".to_string());
    let serialized = wire_json(unknown_reasoning.as_wire());
    assert_eq!(serialized, "\"custom_effort\"");

    let deserialized = ReasoningEffort::from_wire("custom_effort".to_string());
    assert_eq!(
        deserialized,
        ReasoningEffort::Unknown("custom_effort".to_string())
    );
}

#[test]
fn integration_tests_test_unknown_enum_values() {
    let unknown_reasoning = ReasoningEffort::Unknown("custom_effort".to_string());
    let serialized = wire_json(unknown_reasoning.as_wire());
    assert_eq!(serialized, "\"custom_effort\"");

    let deserialized = ReasoningEffort::from_wire("custom_effort".to_string());
    assert_eq!(
        deserialized,
        ReasoningEffort::Unknown("custom_effort".to_string())
    );
}

#[test]
fn unknown_values_round_trip_for_every_enum() {
    assert_eq!(ReasoningEffort::from_wire("warp".to_string()).as_wire(), "warp");
    assert_eq!(VerbosityLevel::from_wire("shout".to_string()).as_wire(), "shout");
    assert_eq!(OutputType::from_wire("hologram".to_string()).as_wire(), "hologram");
    assert_eq!(ContentType::from_wire("output_audio".to_string()).as_wire(), "output_audio");
    assert_eq!(Status::from_wire("queued".to_string()).as_wire(), "queued");
    assert_eq!(Role::from_wire("narrator".to_string()).as_wire(), "narrator");
    assert_eq!(FormatType::from_wire("sgml".to_string()).as_wire(), "sgml");
}

#[test]
fn known_values_decode_to_named_variants() {
    assert_eq!(ReasoningEffort::from_wire("medium".to_string()), ReasoningEffort::Medium);
    assert_eq!(VerbosityLevel::from_wire("medium".to_string()), VerbosityLevel::Medium);
    assert_eq!(OutputType::from_wire("function_call".to_string()), OutputType::FunctionCall);
    assert_eq!(Status::from_wire("requires_action".to_string()), Status::RequiresAction);
    assert_eq!(Status::from_wire("failed".to_string()), Status::Failed);
    assert_eq!(Role::from_wire("tool".to_string()), Role::Tool);
    assert_eq!(Role::from_wire("system".to_string()), Role::System);
    assert_eq!(FormatType::from_wire("plain_text".to_string()), FormatType::PlainText);
}

#[test]
fn catch_all_equality_is_structural() {
    assert_eq!(
        Status::Unknown("queued".to_string()),
        Status::Unknown("queued".to_string())
    );
    assert_ne!(
        Status::Unknown("queued".to_string()),
        Status::Unknown("paused".to_string())
    );
    // A catch-all holding a known wire string is still not the named variant
    assert_ne!(Status::Unknown("completed".to_string()), Status::Completed);
}
