use gopher_mcp_rust::{AgentResult, AgentResultBuilder, AgentResultStatus};

#[test]
fn test_success_result() {
    let result = AgentResult::success("Hello, world!");

    assert_eq!(result.response(), "Hello, world!");
    assert_eq!(result.status(), AgentResultStatus::Success);
    assert!(result.is_success());
}

#[test]
fn test_error_result() {
    let result = AgentResult::error("Something went wrong");

    assert_eq!(result.error_message(), Some("Something went wrong"));
    assert_eq!(result.status(), AgentResultStatus::Error);
    assert!(!result.is_success());
}

#[test]
fn test_timeout_result() {
    let result = AgentResult::timeout("Operation timed out");

    assert_eq!(result.error_message(), Some("Operation timed out"));
    assert_eq!(result.status(), AgentResultStatus::Timeout);
    assert!(!result.is_success());
}

#[test]
fn test_builder() {
    let result = AgentResultBuilder::new()
        .with_response("Test response")
        .with_status(AgentResultStatus::Success)
        .with_iteration_count(5)
        .with_tokens_used(100)
        .build();

    assert_eq!(result.response(), "Test response");
    assert_eq!(result.status(), AgentResultStatus::Success);
    assert_eq!(result.iteration_count(), 5);
    assert_eq!(result.tokens_used(), 100);
}

#[test]
fn test_status_display() {
    assert_eq!(AgentResultStatus::Success.to_string(), "SUCCESS");
    assert_eq!(AgentResultStatus::Error.to_string(), "ERROR");
    assert_eq!(AgentResultStatus::Timeout.to_string(), "TIMEOUT");
    assert_eq!(
        AgentResultStatus::MaxIterationsReached.to_string(),
        "MAX_ITERATIONS_REACHED"
    );
}

#[test]
fn constructors_fill_every_field() {
    let ok = AgentResult::success("r");
    assert_eq!(ok.error_message(), None);
    assert_eq!(ok.iteration_count(), 1);
    assert_eq!(ok.tokens_used(), 0);

    let err = AgentResult::error("e");
    assert_eq!(err.response(), "");
    assert_eq!(err.iteration_count(), 0);
    assert_eq!(err.tokens_used(), 0);

    let t = AgentResult::timeout("t");
    assert_eq!(t.response(), "");
    assert_eq!(t.iteration_count(), 0);
}

#[test]
fn builder_without_status_builds_success() {
    let result = AgentResultBuilder::new().with_error_message("note").build();
    assert_eq!(result.status(), AgentResultStatus::Success);
    assert!(result.is_success());
    assert_eq!(result.error_message(), Some("note"));
    assert_eq!(result.response(), "");
    assert_eq!(result.iteration_count(), 0);
    assert_eq!(result.tokens_used(), 0);

    let limited = AgentResultBuilder::default()
        .with_status(AgentResultStatus::MaxIterationsReached)
        .build();
    assert_eq!(limited.status(), AgentResultStatus::MaxIterationsReached);
    assert!(!limited.is_success());
}
