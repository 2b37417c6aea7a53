use tfmcp::metrics::{record_http_request, record_tool_call, reset_for_tests, snapshot, MetricsStore};

#[test]
fn records_tool_error_metric() {
    let mut store = MetricsStore::new();
    reset_for_tests(&mut store);

    record_tool_call(&mut store, "create_workspace", false, 25_000_000);
    let metrics = snapshot(&store);

    assert!(metrics.iter().any(|metric| metric.name == "mcp.server.tool.call.errors"));
    assert!(metrics.iter().any(|metric| metric.name == "mcp.server.tool.call.duration"));
}

#[test]
fn successful_tool_call_records_no_error() {
    let mut store = MetricsStore::new();
    record_tool_call(&mut store, "list_workspaces", true, 1_000);
    let metrics = snapshot(&store);
    assert_eq!(metrics.len(), 2);
    assert!(!metrics.iter().any(|metric| metric.name == "mcp.server.tool.call.errors"));
    assert_eq!(metrics[0].name, "mcp.server.tool.call.count");
    assert_eq!(metrics[0].unit, "{call}");
    assert_eq!(
        metrics[0].attributes,
        vec![
            ("mcp.tool.name".to_string(), "list_workspaces".to_string()),
            ("mcp.tool.success".to_string(), "true".to_string()),
        ]
    );
}

#[test]
fn repeated_calls_accumulate_in_one_series() {
    let mut store = MetricsStore::new();
    record_tool_call(&mut store, "plan", true, 10);
    record_tool_call(&mut store, "plan", true, 30);
    record_tool_call(&mut store, "plan", true, 20);
    let metrics = snapshot(&store);
    assert_eq!(metrics.len(), 2);
    assert_eq!(metrics[0].count, 3);
    assert_eq!(metrics[0].sum, 3);
    assert_eq!(metrics[0].max, 1);
    assert_eq!(metrics[1].count, 3);
    assert_eq!(metrics[1].sum, 60);
    assert_eq!(metrics[1].max, 30);
}

#[test]
fn http_request_records_known_body_sizes() {
    let mut store = MetricsStore::new();
    record_http_request(&mut store, "POST", "/mcp", 200, 5_000, Some(120), None);
    let metrics = snapshot(&store);
    assert_eq!(metrics.len(), 2);
    assert_eq!(metrics[0].name, "http.server.request.body.size");
    assert_eq!(metrics[1].name, "http.server.request.duration");
    assert_eq!(metrics[0].sum, 120);
    assert_eq!(
        metrics[1].attributes,
        vec![
            ("http.request.method".to_string(), "POST".to_string()),
            ("http.response.status_code".to_string(), "200".to_string()),
            ("http.route".to_string(), "/mcp".to_string()),
        ]
    );
    reset_for_tests(&mut store);
    assert_eq!(snapshot(&store).len(), 0);
}

#[test]
fn snapshot_lists_series_in_key_order() {
    let mut store = MetricsStore::new();
    record_tool_call(&mut store, "zeta", false, 5);
    record_http_request(&mut store, "GET", "/health", 200, 7, None, Some(3));
    record_tool_call(&mut store, "alpha", true, 9);
    let names: Vec<(String, String)> = snapshot(&store)
        .iter()
        .map(|m| (m.name.clone(), m.attributes[0].1.clone()))
        .collect();
    assert_eq!(
        names,
        vec![
            ("http.server.request.duration".to_string(), "GET".to_string()),
            ("http.server.response.body.size".to_string(), "GET".to_string()),
            ("mcp.server.tool.call.count".to_string(), "alpha".to_string()),
            ("mcp.server.tool.call.count".to_string(), "zeta".to_string()),
            ("mcp.server.tool.call.duration".to_string(), "alpha".to_string()),
            ("mcp.server.tool.call.duration".to_string(), "zeta".to_string()),
            ("mcp.server.tool.call.errors".to_string(), "zeta".to_string()),
        ]
    );
}

#[test]
fn tool_call_leaves_other_series_alone() {
    let mut store = MetricsStore::new();
    record_http_request(&mut store, "POST", "/mcp", 500, 11, Some(4), None);
    let before = snapshot(&store);
    record_tool_call(&mut store, "plan", true, 2);
    let after = snapshot(&store);
    assert_eq!(after.len(), before.len() + 2);
    for b in &before {
        let a = after.iter().find(|m| m.name == b.name && m.attributes == b.attributes).unwrap();
        assert_eq!((a.count, a.sum, a.max), (b.count, b.sum, b.max));
    }
}

#[test]
fn records_under_one_key_count_sum_and_max() {
    let mut store = MetricsStore::new();
    reset_for_tests(&mut store);
    for d in [40u64, 10, 25] {
        record_http_request(&mut store, "GET", "/mcp", 200, d, None, None);
    }
    let metrics = snapshot(&store);
    assert_eq!(metrics.len(), 1);
    assert_eq!((metrics[0].count, metrics[0].sum, metrics[0].max), (3, 75, 40));
}
