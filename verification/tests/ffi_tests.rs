//! Configuration tests of the SDK's public surface.

use gopher_mcp_rust::ConfigBuilder;

const TEST_SERVER_CONFIG: &str = r#"{
    "succeeded": true,
    "code": 200000000,
    "message": "success",
    "data": {
        "servers": [
            {
                "version": "2025-01-09",
                "serverId": "1",
                "name": "test-server",
                "transport": "http_sse",
                "config": {"url": "http://127.0.0.1:9999/mcp", "headers": {}},
                "connectTimeout": 5000,
                "requestTimeout": 30000
            }
        ]
    }
}"#;

#[test]
fn ffi_tests_test_config_builder() {
    let config = ConfigBuilder::new()
        .with_provider("TestProvider")
        .with_model("test-model")
        .with_api_key("test-key")
        .build();

    assert_eq!(config.provider(), "TestProvider");
    assert_eq!(config.model(), "test-model");
    assert!(config.has_api_key());
    assert!(!config.has_server_config());
}

#[test]
fn test_config_builder_with_server_config() {
    let config = ConfigBuilder::new()
        .with_provider("TestProvider")
        .with_model("test-model")
        .with_server_config(TEST_SERVER_CONFIG)
        .build();

    assert_eq!(config.provider(), "TestProvider");
    assert_eq!(config.model(), "test-model");
    assert!(!config.has_api_key());
    assert!(config.has_server_config());
}
