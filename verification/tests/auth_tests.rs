use gopher_mcp_rust::auth::{
    auth_init_outcome, auth_library_candidates, auth_library_load_error, auth_library_names,
    auth_search_paths, client_create_outcome, dirs_of, invalid_input_message, load_failure_message,
    payload_outcome, set_option_outcome, split_colon, validation_outcome,
};
use gopher_mcp_rust::{Error, TargetOs, TokenPayload, ValidationResult};

#[test]
fn test_validation_result_success() {
    let result = ValidationResult::success();
    assert!(result.valid);
    assert_eq!(result.error_code, 0);
    assert!(result.error_message.is_none());
}

#[test]
fn test_validation_result_failure() {
    let result = ValidationResult::failure(-1, "Token expired");
    assert!(!result.valid);
    assert_eq!(result.error_code, -1);
    assert_eq!(result.error_message, Some("Token expired".to_string()));
}

#[test]
fn test_token_payload_fields() {
    let payload = TokenPayload {
        subject: "user123".to_string(),
        scopes: "openid profile".to_string(),
        audience: "my-app".to_string(),
        expiration: 1234567890,
    };

    assert_eq!(payload.subject, "user123");
    assert_eq!(payload.scopes, "openid profile");
    assert_eq!(payload.audience, "my-app");
    assert_eq!(payload.expiration, 1234567890);
}

#[test]
fn test_token_payload_clone() {
    let payload = TokenPayload {
        subject: "user".to_string(),
        scopes: "read write".to_string(),
        audience: "api".to_string(),
        expiration: 9999999999,
    };

    let cloned = payload.clone();
    assert_eq!(payload.subject, cloned.subject);
    assert_eq!(payload.scopes, cloned.scopes);
}

fn auth_message(e: Error) -> String {
    match e {
        Error::Auth(m) => m,
        other => panic!("expected an auth error, got {:?}", other),
    }
}

#[test]
fn split_keeps_empty_pieces() {
    assert_eq!(split_colon(""), vec![""]);
    assert_eq!(split_colon("a"), vec!["a"]);
    assert_eq!(split_colon("a::b:"), vec!["a", "", "b", ""]);
    assert_eq!(split_colon(":x"), vec!["", "x"]);
}

#[test]
fn search_dirs_skip_empty_and_end_in_slash() {
    assert_eq!(dirs_of("/opt/lib::/usr/x/:"), vec!["/opt/lib/", "/usr/x/"]);
    assert!(dirs_of("").is_empty());
}

#[test]
fn search_paths_in_order() {
    let plain = auth_search_paths(None, None);
    assert_eq!(
        plain,
        vec!["", "./", "./native/lib/", "../native/lib/", "/usr/local/lib/", "/usr/lib/"]
    );
    let with_env = auth_search_paths(Some("/a:/b/"), Some("/c"));
    assert_eq!(
        with_env,
        vec![
            "", "./", "./native/lib/", "../native/lib/", "/a/", "/b/", "/c/", "/usr/local/lib/",
            "/usr/lib/"
        ]
    );
}

#[test]
fn library_names_per_system() {
    assert_eq!(
        auth_library_names(TargetOs::Other),
        vec!["libgopher-orch.so", "libgopher-orch.so.0", "libgopher_orch.so"]
    );
    assert_eq!(
        auth_library_names(TargetOs::MacOs),
        vec!["libgopher-orch.dylib", "libgopher-orch.0.dylib", "libgopher_orch.dylib"]
    );
    assert_eq!(
        auth_library_names(TargetOs::Windows),
        vec!["gopher-orch.dll", "libgopher-orch.dll", "gopher_orch.dll"]
    );
}

#[test]
fn candidates_go_directory_by_directory() {
    let c = auth_library_candidates(TargetOs::Other, None, Some("/opt"));
    assert_eq!(c.len(), 7 * 3);
    assert_eq!(c[0], "libgopher-orch.so");
    assert_eq!(c[1], "libgopher-orch.so.0");
    assert_eq!(c[3], "./libgopher-orch.so");
    assert_eq!(c[12], "/opt/libgopher-orch.so");
    assert_eq!(c[20], "/usr/lib/libgopher_orch.so");
}

#[test]
fn load_error_lists_names() {
    assert_eq!(
        auth_message(auth_library_load_error(TargetOs::Other)),
        "Failed to load gopher-auth library. Tried: [\"libgopher-orch.so\", \"libgopher-orch.so.0\", \"libgopher_orch.so\"]"
    );
    assert_eq!(
        auth_library_load_error(TargetOs::Other).to_string(),
        format!("Auth error: {}", auth_message(auth_library_load_error(TargetOs::Other)))
    );
}

#[test]
fn validation_outcomes() {
    let ok = validation_outcome(0, 1, None);
    assert!(ok.valid);
    assert_eq!(ok.error_code, 0);
    assert_eq!(ok.error_message, None);

    let call_failed = validation_outcome(-7, 1, None);
    assert!(!call_failed.valid);
    assert_eq!(call_failed.error_code, -7);
    assert_eq!(call_failed.error_message.as_deref(), Some("Validation failed with code -7"));

    let call_failed_msg = validation_outcome(3, 0, Some("bad signature".to_string()));
    assert_eq!(call_failed_msg.error_code, 3);
    assert_eq!(call_failed_msg.error_message.as_deref(), Some("bad signature"));

    let invalid = validation_outcome(0, 0, None);
    assert!(!invalid.valid);
    assert_eq!(invalid.error_code, -2);
    assert_eq!(invalid.error_message.as_deref(), Some("Token validation failed"));

    let invalid_msg = validation_outcome(0, 0, Some("expired".to_string()));
    assert_eq!(invalid_msg.error_code, -2);
    assert_eq!(invalid_msg.error_message.as_deref(), Some("expired"));
}

#[test]
fn status_outcomes() {
    assert!(auth_init_outcome(0).is_ok());
    assert_eq!(
        auth_message(auth_init_outcome(-2147483648).unwrap_err()),
        "gopher_auth_init failed with code -2147483648"
    );
    assert!(client_create_outcome(0, false).is_ok());
    assert_eq!(
        auth_message(client_create_outcome(0, true).unwrap_err()),
        "gopher_auth_client_create failed with code 0"
    );
    assert_eq!(
        auth_message(client_create_outcome(12, false).unwrap_err()),
        "gopher_auth_client_create failed with code 12"
    );
    assert!(payload_outcome(0, false).is_ok());
    assert_eq!(
        auth_message(payload_outcome(1, false).unwrap_err()),
        "Failed to extract payload, code 1"
    );
    assert_eq!(
        auth_message(payload_outcome(0, true).unwrap_err()),
        "Failed to extract payload, code 0"
    );
    assert!(set_option_outcome("cache_duration", 0).is_ok());
    assert_eq!(
        auth_message(set_option_outcome("auto_refresh", 2147483647).unwrap_err()),
        "Failed to set option 'auto_refresh', code 2147483647"
    );
}

#[test]
fn messages() {
    assert_eq!(
        load_failure_message("set_option", "undefined symbol"),
        "Failed to load set_option: undefined symbol"
    );
    assert_eq!(
        invalid_input_message("issuer", "nul byte"),
        "Invalid issuer: nul byte"
    );
}
