use std::collections::HashMap;
use tfmcp::deployment::{
    DeploymentControls, RateLimitError, RateLimiter, WindowCounter, MAX_TRACKED_SESSIONS, RATE_LIMIT_WINDOW_NANOS,
};

#[test]
fn parses_deployment_controls() {
    let vars = HashMap::from([
        (
            "MCP_ORGANIZATION_ALLOWLIST".to_string(),
            "org-a, org-b".to_string(),
        ),
        ("MCP_RATE_LIMIT_GLOBAL".to_string(), "10".to_string()),
        ("MCP_RATE_LIMIT_SESSION".to_string(), "3".to_string()),
        ("MCP_TLS_CERT_FILE".to_string(), "/tmp/cert.pem".to_string()),
        ("MCP_TLS_KEY_FILE".to_string(), "/tmp/key.pem".to_string()),
    ]);

    let controls = DeploymentControls::from_lookup(|key| vars.get(key).cloned()).unwrap();

    assert!(controls.organization_allowed("org-a"));
    assert!(!controls.organization_allowed("org-c"));
    assert_eq!(controls.rate_limit_global, Some(10));
    assert_eq!(controls.rate_limit_session, Some(3));
    assert_eq!(
        controls.tls.as_ref().map(|tls| tls.cert_file.as_str()),
        Some("/tmp/cert.pem")
    );
}

#[test]
fn rate_limiter_enforces_global_limit() {
    let mut controls = DeploymentControls::empty();
    controls.rate_limit_global = Some(1);
    let mut limiter = RateLimiter::new(&controls);

    assert!(limiter.check(None).is_ok());
    assert_eq!(limiter.check(None), Err(RateLimitError::Global));
}

#[test]
fn rate_limiter_prunes_expired_sessions() {
    let mut controls = DeploymentControls::empty();
    controls.rate_limit_session = Some(1);
    let mut limiter = RateLimiter::new(&controls);
    {
        let started = limiter.clock() - RATE_LIMIT_WINDOW_NANOS;
        assert!(limiter.track_session(
            "expired",
            WindowCounter {
                window_started: started,
                count: 1,
            },
        ));
    }

    assert!(limiter.check(Some("current")).is_ok());
    assert!(!limiter.is_tracking("expired"));
    assert!(limiter.is_tracking("current"));
}

#[test]
fn session_limit_refuses_second_request_in_window() {
    let mut controls = DeploymentControls::empty();
    controls.rate_limit_session = Some(1);
    let mut limiter = RateLimiter::new(&controls);
    assert_eq!(limiter.check_at(0, Some("s")), Ok(()));
    assert_eq!(limiter.check_at(10, Some("s")), Err(RateLimitError::Session));
    assert_eq!(limiter.check_at(10, Some("t")), Ok(()));
    // a new window admits again
    assert_eq!(limiter.check_at(RATE_LIMIT_WINDOW_NANOS, Some("s")), Ok(()));
    // requests without a session id only meet the global limit
    assert_eq!(limiter.check_at(20, None), Ok(()));
}

#[test]
fn zero_limit_admits_everything() {
    let mut controls = DeploymentControls::empty();
    controls.rate_limit_global = Some(0);
    controls.rate_limit_session = Some(0);
    let mut limiter = RateLimiter::new(&controls);
    for t in 0..10 {
        assert_eq!(limiter.check_at(t, Some("s")), Ok(()));
    }
}

#[test]
fn global_limit_resets_after_window() {
    let mut controls = DeploymentControls::empty();
    controls.rate_limit_global = Some(2);
    let mut limiter = RateLimiter::new(&controls);
    assert_eq!(limiter.check_at(0, None), Ok(()));
    assert_eq!(limiter.check_at(1, None), Ok(()));
    assert_eq!(limiter.check_at(2, None), Err(RateLimitError::Global));
    assert_eq!(limiter.check_at(RATE_LIMIT_WINDOW_NANOS + 5, None), Ok(()));
}

#[test]
fn status_messages() {
    assert_eq!(
        RateLimitError::Global.status_message(),
        "global MCP rate limit exceeded"
    );
    assert_eq!(
        RateLimitError::Session.status_message(),
        "session MCP rate limit exceeded"
    );
}

#[test]
fn tls_needs_both_files() {
    let err = DeploymentControls::from_values(Some("/c".to_string()), None, None, None, None)
        .unwrap_err();
    assert_eq!(
        err.message(),
        "MCP_TLS_KEY_FILE is required when MCP_TLS_CERT_FILE is set"
    );
    let err = DeploymentControls::from_values(None, Some("/k".to_string()), None, None, None)
        .unwrap_err();
    assert_eq!(
        err.message(),
        "MCP_TLS_CERT_FILE is required when MCP_TLS_KEY_FILE is set"
    );
}

#[test]
fn invalid_limit_reports_value_and_reason() {
    let err = DeploymentControls::from_values(None, None, None, Some(" 12x ".to_string()), None)
        .unwrap_err();
    assert_eq!(
        err.message(),
        "invalid MCP_RATE_LIMIT_GLOBAL '12x': invalid digit found in string"
    );
    let err = DeploymentControls::from_values(None, None, None, None, Some("4294967296".to_string()))
        .unwrap_err();
    assert_eq!(
        err.message(),
        "invalid MCP_RATE_LIMIT_SESSION '4294967296': number too large to fit in target type"
    );
    let ok = DeploymentControls::from_values(None, None, Some(" , a ,, b,".to_string()), Some("  ".to_string()), Some("+7".to_string()))
        .unwrap();
    assert_eq!(ok.organization_allowlist, vec!["a".to_string(), "b".to_string()]);
    assert_eq!(ok.rate_limit_global, None);
    assert_eq!(ok.rate_limit_session, Some(7));
    assert!(ok.tls.is_none());
}

#[test]
fn empty_allowlist_allows_every_organization() {
    let controls = DeploymentControls::empty();
    assert!(controls.organization_allowed("anything"));
}

#[test]
fn zero_session_limit_keeps_no_session_table() {
    let mut limiter = RateLimiter::new(&DeploymentControls {
        rate_limit_session: Some(0),
        ..DeploymentControls::empty()
    });
    for i in 0..5000i128 {
        let id = format!("session-{i}");
        assert_eq!(limiter.check_at(i, Some(id.as_str())), Ok(()));
    }
    assert!(!limiter.is_tracking("session-0"));
    assert_eq!(limiter.check(Some("fresh")), Ok(()));
}

#[test]
fn full_session_table_refuses_new_session() {
    let mut limiter = RateLimiter::new(&DeploymentControls {
        rate_limit_session: Some(5),
        ..DeploymentControls::empty()
    });
    for i in 0..MAX_TRACKED_SESSIONS {
        let id = format!("s{i}");
        assert_eq!(limiter.check_at(1, Some(id.as_str())), Ok(()));
    }
    assert_eq!(limiter.check_at(2, Some("newcomer")), Err(RateLimitError::Session));
    assert!(!limiter.is_tracking("newcomer"));
    assert_eq!(limiter.check_at(2, Some("s7")), Ok(()));
    assert_eq!(limiter.check_at(2, None), Ok(()));
}

#[test]
fn each_session_gets_its_own_budget() {
    let mut limiter = RateLimiter::new(&DeploymentControls {
        rate_limit_session: Some(2),
        ..DeploymentControls::empty()
    });
    assert_eq!(limiter.check_at(0, Some("a")), Ok(()));
    assert_eq!(limiter.check_at(1, Some("b")), Ok(()));
    assert_eq!(limiter.check_at(2, Some("a")), Ok(()));
    assert_eq!(limiter.check_at(3, Some("a")), Err(RateLimitError::Session));
    assert_eq!(limiter.check_at(4, Some("b")), Ok(()));
    assert_eq!(limiter.check_at(5, Some("b")), Err(RateLimitError::Session));
    assert_eq!(limiter.check_at(6, None), Ok(()));
}

#[test]
fn check_readings_never_go_back() {
    let mut limiter = RateLimiter::new(&DeploymentControls {
        rate_limit_global: Some(3),
        ..DeploymentControls::empty()
    });
    assert_eq!(limiter.check(None), Ok(()));
    assert_eq!(limiter.check(Some("x")), Ok(()));
    assert_eq!(limiter.check(None), Ok(()));
    assert_eq!(limiter.check(None), Err(RateLimitError::Global));
}
