use std::collections::HashMap;
use tfmcp::transport::{
    normalize_endpoint, parse_heartbeat_interval, parse_port, CorsMode, CorsPolicy,
    HttpSessionMode, HttpTransportConfig, TransportMode,
};

#[test]
fn transport_mode_defaults_to_stdio() {
    assert_eq!(TransportMode::parse("").unwrap(), TransportMode::Stdio);
    assert_eq!(
        TransportMode::parse("streamable-http").unwrap(),
        TransportMode::StreamableHttp
    );
}

#[test]
fn http_config_uses_safe_defaults() {
    let vars = HashMap::<String, String>::new();
    let config = HttpTransportConfig::from_lookup(|key| vars.get(key).cloned()).unwrap();

    assert_eq!(config.host, "127.0.0.1");
    assert_eq!(config.port, 8080);
    assert_eq!(config.endpoint, "/mcp");
    assert_eq!(config.health_endpoint, "/health");
    assert_eq!(config.metrics_endpoint, "/metrics");
    assert_eq!(config.cors_mode, CorsMode::Strict);
    assert!(config.allowed_hosts.is_empty());
    assert_eq!(config.heartbeat_interval_secs, Some(15));
    assert_eq!(config.session_mode, HttpSessionMode::Stateful);
    assert!(config.deployment.organization_allowlist.is_empty());
    assert_eq!(config.deployment.rate_limit_global, None);
    let allowed_origins = config.effective_allowed_origins();
    assert!(allowed_origins.contains(&"http://localhost".to_string()));
    assert!(!allowed_origins.contains(&"https://attacker.example".to_string()));
}

#[test]
fn http_config_parses_remote_settings() {
    let vars = HashMap::from([
        ("TRANSPORT_HOST".to_string(), "0.0.0.0".to_string()),
        ("TRANSPORT_PORT".to_string(), "9090".to_string()),
        ("MCP_ENDPOINT".to_string(), "/terraform-mcp".to_string()),
        ("MCP_CORS_MODE".to_string(), "development".to_string()),
        (
            "MCP_ALLOWED_HOSTS".to_string(),
            "mcp.example.com,localhost".to_string(),
        ),
        ("MCP_HEARTBEAT_INTERVAL".to_string(), "0".to_string()),
        ("MCP_SESSION_MODE".to_string(), "stateless".to_string()),
        (
            "MCP_ORGANIZATION_ALLOWLIST".to_string(),
            "org-a,org-b".to_string(),
        ),
        ("MCP_RATE_LIMIT_GLOBAL".to_string(), "100".to_string()),
    ]);

    let config = HttpTransportConfig::from_lookup(|key| vars.get(key).cloned()).unwrap();

    assert_eq!(format!("{}:{}", config.host, config.port), "0.0.0.0:9090");
    assert_eq!(config.endpoint, "/terraform-mcp");
    assert_eq!(config.cors_mode, CorsMode::Development);
    assert_eq!(config.allowed_hosts, vec!["mcp.example.com", "localhost"]);
    assert_eq!(config.heartbeat_interval_secs, None);
    assert_eq!(config.session_mode, HttpSessionMode::Stateless);
    assert!(config.deployment.organization_allowed("org-a"));
    assert_eq!(config.deployment.rate_limit_global, Some(100));
    assert!(!config.session_mode.is_stateful());
}

#[test]
fn endpoint_must_start_with_slash() {
    let vars = HashMap::from([("MCP_ENDPOINT".to_string(), "mcp".to_string())]);
    let error = HttpTransportConfig::from_lookup(|key| vars.get(key).cloned())
        .expect_err("missing leading slash should fail");

    assert!(error.message().contains("MCP_ENDPOINT"));
}

#[test]
fn transport_mode_is_case_and_space_insensitive() {
    assert_eq!(TransportMode::parse("  HTTP ").unwrap(), TransportMode::StreamableHttp);
    assert_eq!(TransportMode::parse("StdIO").unwrap(), TransportMode::Stdio);
    let err = TransportMode::parse(" Sse ").unwrap_err();
    assert_eq!(
        err.message(),
        "unsupported TRANSPORT_MODE 'sse', expected 'stdio' or 'streamable-http'"
    );
}

#[test]
fn endpoints_are_trimmed_and_lose_trailing_slashes() {
    assert_eq!(normalize_endpoint("  /api//  ".to_string(), "X").unwrap(), "/api");
    assert_eq!(normalize_endpoint("/".to_string(), "X").unwrap(), "");
    assert_eq!(
        normalize_endpoint("   ".to_string(), "MCP_HEALTH_ENDPOINT")
            .unwrap_err()
            .message(),
        "MCP_HEALTH_ENDPOINT cannot be empty"
    );
    assert_eq!(
        normalize_endpoint("mcp".to_string(), "MCP_ENDPOINT")
            .unwrap_err()
            .message(),
        "MCP_ENDPOINT must start with '/'"
    );
}

#[test]
fn port_and_heartbeat_parsing() {
    assert_eq!(parse_port(None).unwrap(), 8080);
    assert_eq!(parse_port(Some("  ".to_string())).unwrap(), 8080);
    assert_eq!(parse_port(Some(" 443 ".to_string())).unwrap(), 443);
    assert_eq!(
        parse_port(Some(" 70000".to_string())).unwrap_err().message(),
        "invalid TRANSPORT_PORT ' 70000': number too large to fit in target type"
    );
    assert_eq!(parse_heartbeat_interval(None).unwrap(), Some(15));
    assert_eq!(parse_heartbeat_interval(Some("0".to_string())).unwrap(), None);
    assert_eq!(parse_heartbeat_interval(Some("30".to_string())).unwrap(), Some(30));
    assert_eq!(
        parse_heartbeat_interval(Some("".to_string())).unwrap(),
        Some(15)
    );
    assert_eq!(
        parse_heartbeat_interval(Some("-1".to_string()))
            .unwrap_err()
            .message(),
        "invalid MCP_HEARTBEAT_INTERVAL '-1': invalid digit found in string"
    );
}

#[test]
fn unknown_cors_mode_is_refused() {
    let vars = HashMap::from([("MCP_CORS_MODE".to_string(), " Loose ".to_string())]);
    let error = HttpTransportConfig::from_lookup(|key| vars.get(key).cloned()).unwrap_err();
    assert_eq!(error.message(), "unsupported MCP_CORS_MODE 'Loose'");
}

#[test]
fn cors_policy_and_health_report() {
    let vars = HashMap::from([
        ("MCP_CORS_MODE".to_string(), "OFF".to_string()),
        ("MCP_ALLOWED_HOSTS".to_string(), "a.example".to_string()),
        ("MCP_TLS_CERT_FILE".to_string(), "/c.pem".to_string()),
        ("MCP_TLS_KEY_FILE".to_string(), "/k.pem".to_string()),
    ]);
    let config = HttpTransportConfig::from_lookup(|key| vars.get(key).cloned()).unwrap();
    assert!(matches!(config.cors_policy(), CorsPolicy::Disabled));
    let health = config.health_response();
    assert_eq!(health.status, "ok");
    assert_eq!(health.server, "tfmcp");
    assert_eq!(health.transport, TransportMode::StreamableHttp);
    assert_eq!(health.endpoint, "/mcp");
    assert!(health.tls_enabled);
    assert!(health.allowed_hosts_enabled);
    assert!(!health.organization_allowlist_enabled);
    assert!(health.origin_validation_enabled);
    assert_eq!(health.heartbeat_interval_seconds, Some(15));

    let strict = HttpTransportConfig::from_lookup(|key| {
        if key == "MCP_ALLOWED_ORIGINS" {
            Some("https://a.example, https://b.example".to_string())
        } else {
            None
        }
    })
    .unwrap();
    match strict.cors_policy() {
        CorsPolicy::Origins(o) => assert_eq!(o, vec!["https://a.example", "https://b.example"]),
        _ => panic!("strict mode lists origins"),
    }
}

#[test]
fn streamable_settings_follow_session_mode() {
    let vars = HashMap::from([
        ("MCP_SESSION_MODE".to_string(), "stateless".to_string()),
        ("MCP_ALLOWED_HOSTS".to_string(), "a.example".to_string()),
        ("MCP_HEARTBEAT_INTERVAL".to_string(), "0".to_string()),
    ]);
    let config = HttpTransportConfig::from_lookup(|key| vars.get(key).cloned()).unwrap();
    let settings = config.streamable_http_settings();
    assert!(!settings.legacy_session_mode);
    assert!(settings.json_response);
    assert_eq!(settings.sse_keep_alive_secs, None);
    assert_eq!(settings.allowed_hosts, Some(vec!["a.example".to_string()]));
    assert_eq!(settings.allowed_origins.len(), 6);
    let defaults = HttpTransportConfig::from_lookup(|_| None).unwrap().streamable_http_settings();
    assert!(defaults.legacy_session_mode);
    assert_eq!(defaults.sse_keep_alive_secs, Some(15));
    assert_eq!(defaults.allowed_hosts, None);
}
