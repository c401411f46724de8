use gpt5::Gpt5Model;

#[test]
fn test_gpt5_model_as_str() {
    assert_eq!(Gpt5Model::Gpt5.as_str(), "gpt-5");
    assert_eq!(Gpt5Model::Gpt5Mini.as_str(), "gpt-5-mini");
    assert_eq!(Gpt5Model::Gpt5Nano.as_str(), "gpt-5-nano");
    assert_eq!(Gpt5Model::Custom("custom".to_string()).as_str(), "custom");
}

#[test]
fn test_gpt5_model_serialization() {
    assert_eq!(Gpt5Model::Gpt5.as_str(), "gpt-5");
    assert_eq!(Gpt5Model::Gpt5Mini.as_str(), "gpt-5-mini");
    assert_eq!(Gpt5Model::Gpt5Nano.as_str(), "gpt-5-nano");

    let custom = Gpt5Model::Custom("gpt-5-custom".to_string());
    assert_eq!(custom.as_str(), "gpt-5-custom");
}
