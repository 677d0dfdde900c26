use gopher_mcp_rust::agent::{
    creation_error, detailed_result, plan_creation, run_response, DEFAULT_TIMEOUT_MS,
};
use gopher_mcp_rust::native::{join, native_library_candidates, native_library_file, select_library_path};
use gopher_mcp_rust::text::{i32_to_decimal, u64_to_decimal};
use gopher_mcp_rust::{
    init, is_initialized, shutdown, AgentLifecycle, AgentResultStatus, ConfigBuilder, CreationMode,
    Error, Runtime, TargetOs,
};
use std::path::Path;

#[test]
fn test_init() {
    // Just test that init doesn't panic
    let mut runtime = Runtime::new();
    let _ = init(&mut runtime, false);
}

#[test]
fn init_initializes_when_needed() {
    let mut runtime = Runtime::new();
    assert!(!is_initialized(&runtime));
    // While the native library cannot be loaded, every init fails.
    for _ in 0..2 {
        match init(&mut runtime, false) {
            Err(Error::Library(msg)) => assert_eq!(msg, "Failed to load gopher-orch native library"),
            other => panic!("unexpected {:?}", other),
        }
        assert!(!is_initialized(&runtime));
    }
    // Once it can be loaded, init initializes.
    assert!(init(&mut runtime, true).is_ok());
    assert!(is_initialized(&runtime));
    // An initialized library stays so, whatever a later probe would find.
    assert!(init(&mut runtime, false).is_ok());
    assert!(is_initialized(&runtime));
    // After shutdown, init initializes again.
    shutdown(&mut runtime);
    assert!(!is_initialized(&runtime));
    assert!(init(&mut runtime, true).is_ok());
    assert!(is_initialized(&runtime));
}

#[test]
fn test_initialization() {
    if !Path::new("native/lib").exists() {
        println!("Skipping test: Native library not built. Run ./build.sh first");
        return;
    }

    // Test that initialization works
    let mut runtime = Runtime::new();
    let result = init(&mut runtime, Path::new("native/lib").exists());
    assert!(result.is_ok() || is_initialized(&runtime));
}

#[test]
fn agent_test_create_with_empty_config() {
    let config = ConfigBuilder::new().build();
    let result = plan_creation(&config);
    assert!(result.is_err());
}

#[test]
fn ffi_tests_test_create_with_empty_config() {
    let config = ConfigBuilder::new().build();
    let result = plan_creation(&config);

    assert!(result.is_err());
    match result {
        Err(e) => assert!(e.to_string().contains("API key or server config")),
        Ok(_) => panic!("Expected error for empty config"),
    }
}

#[test]
fn api_key_takes_precedence() {
    let both = ConfigBuilder::new()
        .with_provider("P")
        .with_model("M")
        .with_server_config("{}")
        .with_api_key("k")
        .build();
    let request = plan_creation(&both).unwrap();
    assert!(request.mode == CreationMode::ApiKey);
    assert_eq!(request.provider, "P");
    assert_eq!(request.model, "M");
    assert_eq!(request.credential, "k");

    let json = ConfigBuilder::new().with_api_key("").with_server_config("{}").build();
    let request = plan_creation(&json).unwrap();
    assert!(request.mode == CreationMode::ServerConfig);
    assert_eq!(request.credential, "{}");

    match plan_creation(&ConfigBuilder::new().with_api_key("").build()) {
        Err(Error::Config(msg)) => {
            assert_eq!(msg, "Either API key or server config must be provided")
        }
        _ => panic!("expected a configuration error"),
    }
}

#[test]
fn creation_error_messages() {
    match creation_error("") {
        Error::Agent(msg) => assert_eq!(msg, "Failed to create agent"),
        _ => panic!("expected an agent error"),
    }
    match creation_error("bad key") {
        Error::Agent(msg) => assert_eq!(msg, "bad key"),
        _ => panic!("expected an agent error"),
    }
}

#[test]
fn run_answers() {
    assert_eq!(DEFAULT_TIMEOUT_MS, 60000);
    assert_eq!(run_response("hi", "hello".to_string()), "hello");
    assert_eq!(run_response("hi", String::new()), "No response for query: \"hi\"");
}

#[test]
fn detailed_results() {
    let ok = detailed_result(Ok("answer".to_string()));
    assert!(ok.is_success());
    assert_eq!(ok.response(), "answer");

    let timeout = detailed_result(Err(Error::timeout("too slow")));
    assert_eq!(timeout.status(), AgentResultStatus::Timeout);
    assert_eq!(timeout.error_message(), Some("too slow"));

    let disposed = detailed_result(Err(Error::Disposed));
    assert_eq!(disposed.status(), AgentResultStatus::Error);
    assert_eq!(disposed.error_message(), Some("Agent has been disposed"));

    let conn = detailed_result(Err(Error::connection("refused")));
    assert_eq!(conn.error_message(), Some("Connection error: refused"));
    assert_eq!(conn.response(), "");
}

#[test]
fn dispose_releases_once() {
    let mut life = AgentLifecycle::new(true);
    assert!(!life.is_disposed());
    assert!(life.ensure_not_disposed().is_ok());
    assert!(life.dispose());
    assert!(life.is_disposed());
    assert!(!life.dispose());
    assert!(matches!(life.ensure_not_disposed(), Err(Error::Disposed)));

    let mut empty = AgentLifecycle::new(false);
    assert!(!empty.dispose());
    assert!(empty.is_disposed());
}

#[test]
fn error_display() {
    assert_eq!(Error::library("x").to_string(), "Library error: x");
    assert_eq!(Error::agent("x").to_string(), "Agent error: x");
    assert_eq!(Error::ApiKey("x".to_string()).to_string(), "API key error: x");
    assert_eq!(Error::connection("x").to_string(), "Connection error: x");
    assert_eq!(Error::timeout("x").to_string(), "Timeout error: x");
    assert_eq!(Error::config("x").to_string(), "Configuration error: x");
    assert_eq!(Error::Disposed.to_string(), "Agent has been disposed");
    assert_eq!(Error::auth("x").to_string(), "Auth error: x");
}

#[test]
fn decimal_text() {
    assert_eq!(u64_to_decimal(0), "0");
    assert_eq!(u64_to_decimal(1234567890), "1234567890");
    assert_eq!(u64_to_decimal(u64::MAX), "18446744073709551615");
    assert_eq!(i32_to_decimal(-1), "-1");
    assert_eq!(i32_to_decimal(i32::MIN), "-2147483648");
    assert_eq!(i32_to_decimal(i32::MAX), "2147483647");
}

#[test]
fn native_library_lookup() {
    assert_eq!(native_library_file(TargetOs::Other), "libgopher-orch.so");
    assert_eq!(native_library_file(TargetOs::MacOs), "libgopher-orch.dylib");
    assert_eq!(native_library_file(TargetOs::Windows), "gopher-orch.dll");
    assert_eq!(join("", "a"), "a");
    assert_eq!(join("d/", "a"), "d/a");
    assert_eq!(join("d", "a"), "d/a");

    let candidates = native_library_candidates("/opt/bin", "/proj", TargetOs::Other);
    assert_eq!(
        candidates,
        vec![
            "/opt/bin/native/lib/libgopher-orch.so",
            "./native/lib/libgopher-orch.so",
            "/proj/native/lib/libgopher-orch.so"
        ]
    );
    assert_eq!(
        select_library_path(&candidates, &vec![false, true, true], TargetOs::Other),
        "./native/lib/libgopher-orch.so"
    );
    assert_eq!(
        native_library_candidates("", "", TargetOs::Windows)[0],
        "native/lib/gopher-orch.dll"
    );
    assert_eq!(
        select_library_path(&candidates, &vec![false, false, false], TargetOs::Other),
        "libgopher-orch.so"
    );
}
