use tfmcp::errors::{
    json_excerpt_of, json_parse_error, regex_compile_error, safe_regex_compile, safe_status_text, status_text_from_reason,
    McpError,
};

#[test]
fn test_safe_regex_compile() {
    let valid_pattern = r"test.*";
    let result = safe_regex_compile(valid_pattern);
    assert!(result.is_ok());

    let invalid_pattern = r"[";
    let result = safe_regex_compile(invalid_pattern);
    assert!(result.is_err());
}

#[test]
fn invalid_regex_reports_the_pattern() {
    match safe_regex_compile("(") {
        Err(McpError::InvalidToolConfig(message)) => {
            assert!(message.starts_with("Invalid regex pattern '(': "));
            assert!(message.len() > "Invalid regex pattern '(': ".len());
        }
        other => panic!("unexpected result: {other:?}"),
    }
}

#[test]
fn regex_error_message_is_prefixed() {
    let e = regex_compile_error("a[", "unclosed class");
    assert_eq!(e, McpError::InvalidToolConfig("Invalid regex pattern 'a[': unclosed class".to_string()));
    assert_eq!(
        e.message(),
        "Invalid tool configuration: Invalid regex pattern 'a[': unclosed class"
    );
}

#[test]
fn mcp_error_messages() {
    assert_eq!(McpError::JsonParseError("x".into()).message(), "JSON parsing error: x");
    assert_eq!(McpError::TransportError("x".into()).message(), "Transport error: x");
    assert_eq!(McpError::TerraformError("x".into()).message(), "Terraform operation failed: x");
    assert_eq!(McpError::RegistryError("x".into()).message(), "Registry operation failed: x");
    assert_eq!(McpError::SecurityError("x".into()).message(), "Security policy violation: x");
    assert_eq!(McpError::ResourceNotFound("x".into()).message(), "Resource not found: x");
    assert_eq!(McpError::InternalError("x".into()).message(), "Internal error: x");
}

#[test]
fn status_text_uses_reason_phrase() {
    assert_eq!(safe_status_text(404), "Not Found");
    assert_eq!(safe_status_text(200), "OK");
    assert_eq!(safe_status_text(599), "HTTP 599");
    assert_eq!(status_text_from_reason(418, None), "HTTP 418");
    assert_eq!(status_text_from_reason(418, Some("Teapot")), "Teapot");
}

#[test]
fn json_excerpt_keeps_short_text_whole() {
    assert_eq!(json_excerpt_of("{\"a\": 1"), "{\"a\": 1");
    let exactly = "x".repeat(100);
    assert_eq!(json_excerpt_of(&exactly), exactly);
}

#[test]
fn json_excerpt_cuts_long_text_at_100_bytes() {
    let long = "y".repeat(150);
    assert_eq!(json_excerpt_of(&long), format!("{}...", "y".repeat(100)));
}

#[test]
fn json_excerpt_cuts_between_characters() {
    // 99 ASCII bytes, then a two-byte character that would cross byte 100.
    let text = format!("{}é{}", "z".repeat(99), "z".repeat(10));
    assert_eq!(json_excerpt_of(&text), format!("{}...", "z".repeat(99)));
}

#[test]
fn json_parse_error_message_names_detail_and_content() {
    let e = json_parse_error("expected value at line 1 column 1", "nope");
    assert_eq!(
        e,
        McpError::JsonParseError("Failed to parse JSON: expected value at line 1 column 1 - Content: nope".to_string())
    );
}

#[test]
fn regex_error_message_is_prefix_then_compiler_text() {
    let pattern = "(unclosed";
    let detail = regex::Regex::new(pattern).unwrap_err().to_string();
    match safe_regex_compile(pattern) {
        Err(McpError::InvalidToolConfig(m)) => {
            assert_eq!(m, format!("Invalid regex pattern '(unclosed': {detail}"));
        }
        other => panic!("unexpected: {other:?}"),
    }
}
