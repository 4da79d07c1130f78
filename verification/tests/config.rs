use fungraph::gemini::config::{ConfigError, GeminiConfigBuilder, GeminiModel};

#[test]
fn config_test_gemini_config_builder_api_key_empty() {
    let result = GeminiConfigBuilder::new().build();
    match result {
        Ok(_) => assert!(false),
        Err(err) => assert_eq!(err.to_string(), "API key must be set"),
    }
}

#[test]
fn config_test_gemini_config_builder_all_fields() {
    let config = GeminiConfigBuilder::new()
        .with_api_base("https://example.com")
        .with_api_key("test_api_key")
        .with_model(GeminiModel::Gemini20)
        .build()
        .unwrap();
    assert_eq!(config.api_base(), "https://example.com");
    assert_eq!(config.api_key(), "test_api_key");
    assert_eq!(*config.model(), GeminiModel::Gemini20);
}

#[test]
fn config_defaults() {
    let config = GeminiConfigBuilder::new().with_api_key("k").build().unwrap();
    assert_eq!(
        config.api_base(),
        "https://generativelanguage.googleapis.com/v1beta/openai"
    );
    assert_eq!(*config.model(), GeminiModel::Gemini15);
    assert!(!config.is_json_response());
    let config = GeminiConfigBuilder::new()
        .with_api_key("k")
        .with_json_response()
        .build()
        .unwrap();
    assert!(config.is_json_response());
}

#[test]
fn config_error_is_missing_api_key() {
    let result = GeminiConfigBuilder::new().with_api_key("").build();
    assert_eq!(result.err(), Some(ConfigError::MissingApiKey));
}

#[test]
fn model_names() {
    assert_eq!(GeminiModel::Gemini15.to_string(), "gemini-1.5-flash");
    assert_eq!(GeminiModel::Gemini20.to_string(), "gemini-2.0-flash-001");
}
