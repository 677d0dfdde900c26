use gopher_mcp_rust::{Config, ConfigBuilder};

#[test]
fn test_builder_with_api_key() {
    let config = ConfigBuilder::new()
        .with_provider("AnthropicProvider")
        .with_model("haiku-3-20240307")
        .with_api_key("test-api-key")
        .build();

    assert_eq!(config.provider(), "AnthropicProvider");
    assert_eq!(config.model(), "haiku-3-20240307");
    assert!(config.has_api_key());
    assert!(!config.has_server_config());
    assert_eq!(config.api_key(), Some("test-api-key"));
}

#[test]
fn test_builder_with_server_config() {
    let server_config = r#"{"succeeded": true}"#;
    let config = ConfigBuilder::new()
        .with_provider("AnthropicProvider")
        .with_model("haiku-3-20240307")
        .with_server_config(server_config)
        .build();

    assert_eq!(config.provider(), "AnthropicProvider");
    assert_eq!(config.model(), "haiku-3-20240307");
    assert!(!config.has_api_key());
    assert!(config.has_server_config());
    assert_eq!(config.server_config(), Some(server_config));
}

#[test]
fn test_empty_config() {
    let config = ConfigBuilder::new().build();

    assert!(!config.has_api_key());
    assert!(!config.has_server_config());
    assert!(config.provider().is_empty());
    assert!(config.model().is_empty());
}

#[test]
fn lib_test_config_builder() {
    let config = ConfigBuilder::new()
        .with_provider("TestProvider")
        .with_model("test-model")
        .with_api_key("test-key")
        .build();

    assert_eq!(config.provider(), "TestProvider");
    assert_eq!(config.model(), "test-model");
    assert!(config.has_api_key());
}

#[test]
fn empty_api_key_is_not_configured() {
    let config = ConfigBuilder::new().with_api_key("").with_server_config("").build();
    assert_eq!(config.api_key(), Some(""));
    assert_eq!(config.server_config(), Some(""));
    assert!(!config.has_api_key());
    assert!(!config.has_server_config());
}

#[test]
fn last_setting_wins_and_others_stay() {
    let config = ConfigBuilder::new()
        .with_provider("first")
        .with_model("m")
        .with_provider("second")
        .build();
    assert_eq!(config.provider(), "second");
    assert_eq!(config.model(), "m");
    assert_eq!(config.api_key(), None);
    assert_eq!(config.server_config(), None);
}

#[test]
fn default_config_is_empty() {
    let config = Config::default();
    assert_eq!(config.provider(), "");
    assert_eq!(config.model(), "");
    assert_eq!(config.api_key(), None);
    assert_eq!(config.server_config(), None);
    let built = ConfigBuilder::default().build();
    assert_eq!(built.provider(), "");
    assert!(!built.has_api_key());
}
