use tfmcp::server::tools::validation_answer;
use tfmcp::text::text_contains;
use tfmcp::deployment::DeploymentControls;
use tfmcp::json::{JsonMember, JsonValue};
use tfmcp::registry::decode::ProviderInfo;
use tfmcp::server::handlers::{MessagesHandler, ResourcesHandler, SecurityToolsHandler, TerraformToolsHandler};
use tfmcp::server::http::{
    content_length, flag_is_true, method_label, scan_status, HttpMetricRoutes, SecurityPermissions,
};
use tfmcp::server::resources::{
    provider_docs_content, provider_not_found_text, resolve_resource, terraform_resource_templates,
    terraform_resources, unknown_resource_text, ResourceRequest,
};
use tfmcp::server::session::{
    called_tool, message_parse_error, message_text_of_line, request_failure, route_request,
    route_tool, session_resource, empty_message_error, Error, JsonRpcErrorCode, Message,
    RequestRoute, SessionAction, SessionGuide, SessionTool, StdioSession,
};
use tfmcp::server::capabilities::{categorize_docs, listed_titles, provider_capabilities};
use tfmcp::server::session::{
    bool_argument, directory_changed_message, method_not_found_text, required_argument,
    session_resource_listing, session_tool_failure_prefix, session_tool_request,
    split_handler_serves, tool_failure, tool_not_found_text, SessionToolRequest,
};
use tfmcp::server::tools::{
    check_tool_enabled, docs_request_defaults, filtered_tools, tfe_audit_fields, private_namespace, private_registry_name,
    text_error, validate_tfe_call, workspace_lookup, AnalysisToolCall, RegistryToolCall,
    TfeToolCall, TfmcpToolCall, WorkspaceLookup,
};
use tfmcp::types::registry::ProviderDocsInput;
use tfmcp::tool_filter::ToolFilter;
use tfmcp::transport::HttpTransportConfig;
use tfmcp::types::tfe::{TfeOrganizationInput, TfeRunInput, TfeWorkspaceInput};

fn obj(members: Vec<(&str, JsonValue)>) -> JsonValue {
    JsonValue::Object(
        members
            .into_iter()
            .map(|(key, value)| JsonMember { key: key.to_string(), value })
            .collect(),
    )
}

fn controls(allowlist: Option<&str>) -> DeploymentControls {
    DeploymentControls::from_values(None, None, allowlist.map(str::to_string), None, None).unwrap()
}

fn org_call(org: &str) -> TfeToolCall {
    TfeToolCall::ListWorkspaces(TfeOrganizationInput {
        organization: org.to_string(),
        page_number: None,
        page_size: None,
    })
}

#[test]
fn allowlist_admits_only_listed_organizations() {
    let open = controls(None);
    assert_eq!(validate_tfe_call(&open, &TfeToolCall::TokenPermissions), Ok(()));
    let limited = controls(Some("org-a,org-b"));
    assert_eq!(validate_tfe_call(&limited, &org_call("org-a")), Ok(()));
    assert_eq!(
        validate_tfe_call(&limited, &org_call("org-c")),
        Err("organization 'org-c' is not allowed by MCP_ORGANIZATION_ALLOWLIST".to_string())
    );
    assert_eq!(
        validate_tfe_call(&limited, &TfeToolCall::RunDetails(TfeRunInput { run_id: "run-1".into() })),
        Err("MCP_ORGANIZATION_ALLOWLIST cannot verify account-wide or ID-scoped TFE requests; use an organization-scoped tool or disable remote TFE access".to_string())
    );
    let by_id = TfeToolCall::WorkspaceDetails(TfeWorkspaceInput {
        workspace_id: Some("ws-1".into()),
        organization: Some("org-a".into()),
        workspace_name: None,
    });
    assert_eq!(by_id.organization(), None);
    let by_name = TfeToolCall::WorkspaceDetails(TfeWorkspaceInput {
        workspace_id: None,
        organization: Some("org-a".into()),
        workspace_name: Some("w".into()),
    });
    assert_eq!(by_name.organization(), Some("org-a"));
}

#[test]
fn tool_call_names_and_prefixes() {
    assert_eq!(TfeToolCall::TokenPermissions.metadata(), ("get_token_permissions", "Token permission lookup failed"));
    assert_eq!(org_call("o").metadata(), ("list_workspaces", "Workspace listing failed"));
    assert!(!org_call("o").requires_audit());
    assert_eq!(TfmcpToolCall::Apply(true).tool_name(), "apply_terraform");
    assert_eq!(TfmcpToolCall::Validate.error_prefix(), "Validation failed");
    assert_eq!(TfmcpToolCall::Graph(None).tool_name(), "terraform_graph");
    assert_eq!(RegistryToolCall::SearchModules("vpc".into()).tool_name(), "search_terraform_modules");
    assert_eq!(RegistryToolCall::SearchProviders("aws".into()).error_prefix(), "Provider search failed");
    assert_eq!(AnalysisToolCall::ModuleHealth.metadata(), ("analyze_module_health", "Module health analysis failed"));
    assert_eq!(text_error("Failed to apply", "boom"), "Failed to apply: boom");
}

#[test]
fn disabled_tools_are_refused() {
    let filter = ToolFilter::from_cli(&["registry".to_string()], None);
    assert_eq!(check_tool_enabled(&filter, "search_terraform_providers"), Ok(()));
    assert_eq!(
        check_tool_enabled(&filter, "apply_terraform"),
        Err("Tool 'apply_terraform' is not enabled. Check --toolsets configuration.".to_string())
    );
    assert_eq!(check_tool_enabled(&ToolFilter::all(), "anything"), Ok(()));
}

#[test]
fn resources_resolve_by_address() {
    assert_eq!(terraform_resources().len(), 5);
    assert_eq!(terraform_resources()[1].uri, "/terraform/style-guide");
    assert_eq!(terraform_resource_templates().len(), 2);
    assert!(matches!(resolve_resource("terraform://style-guide"), ResourceRequest::StyleGuide));
    assert!(matches!(resolve_resource("/terraform/module-development"), ResourceRequest::ModuleDevelopment));
    assert!(matches!(resolve_resource("terraform://best-practices"), ResourceRequest::BestPractices));
    assert!(matches!(resolve_resource("/terraform/best-practices"), ResourceRequest::Unknown));
    match resolve_resource("terraform://providers/hashicorp/aws/5.0.0/docs") {
        ResourceRequest::ProviderDocs { namespace, name } => {
            assert_eq!(namespace, "hashicorp");
            assert_eq!(name, "aws");
        }
        other => panic!("unexpected request: {other:?}"),
    }
    match resolve_resource("/terraform/providers/hashicorp/name/google/version/6.0.0") {
        ResourceRequest::ProviderDocs { namespace, name } => {
            assert_eq!(namespace, "hashicorp");
            assert_eq!(name, "google");
        }
        other => panic!("unexpected request: {other:?}"),
    }
    assert!(matches!(resolve_resource("/terraform/providers/hashicorp/aws/5.0.0"), ResourceRequest::Unknown));
    assert!(matches!(resolve_resource("terraform://providers/hashicorp/docs"), ResourceRequest::Unknown));
    assert_eq!(unknown_resource_text("x://y"), "Unknown resource: x://y");
    assert_eq!(provider_not_found_text("gone"), "Provider not found: gone");
}

#[test]
fn provider_docs_resource_lists_entries() {
    let docs = JsonValue::Array(vec![
        obj(vec![("category", JsonValue::String("resources".into())), ("title", JsonValue::String("aws_s3_bucket".into()))]),
        obj(vec![]),
    ]);
    let info = ProviderInfo {
        name: "aws".into(),
        namespace: "hashicorp".into(),
        version: "5.0.0".into(),
        description: "AWS".into(),
        downloads: 0,
        published_at: String::new(),
        id: String::new(),
        source: None,
        tag: None,
        logo_url: None,
        owner: None,
        tier: None,
        verified: None,
        trusted: None,
        extra: vec![JsonMember { key: "docs".into(), value: docs }],
    };
    assert_eq!(
        provider_docs_content(&info, "hashicorp"),
        "# aws (hashicorp/aws)\n\nVersion: 5.0.0\nAWS\n\n## Available Documentation (2 items)\n\n- **[resources]** aws_s3_bucket\n- **[other]** ?"
    );
}

fn request(method: &str, id: u64, params: Option<JsonValue>) -> Message {
    Message::Request { jsonrpc: "2.0".into(), method: method.into(), id, params }
}

#[test]
fn session_requires_initialize_first() {
    let mut session = StdioSession::new();
    match session.on_message(&request("tools/list", 1, None)) {
        SessionAction::Reject { id, code, message } => {
            assert_eq!(id, 1);
            assert_eq!(code, JsonRpcErrorCode::InvalidRequest);
            assert_eq!(code.code(), -32600);
            assert_eq!(message, "Server not initialized. Send 'initialize' request first.");
        }
        other => panic!("unexpected action: {other:?}"),
    }
    assert!(matches!(session.on_message(&request("initialize", 2, None)), SessionAction::Initialize { id: 2 }));
    let failure = session.on_initialize_result(2, Err("closed".into()));
    assert_eq!(failure, Some((2, JsonRpcErrorCode::InternalError, "Failed to initialize: closed".to_string())));
    assert!(!session.initialized);
    assert_eq!(session.on_initialize_result(2, Ok(())), None);
    assert!(session.initialized);
    assert!(matches!(
        session.on_message(&request("tools/call", 3, Some(obj(vec![])))),
        SessionAction::Dispatch { id: 3, route: RequestRoute::ToolsCall }
    ));
    assert!(matches!(
        session.on_message(&Message::Notification { jsonrpc: "2.0".into(), method: "x".into(), params: None }),
        SessionAction::Ignore
    ));
}

#[test]
fn session_routes_methods_and_tools() {
    assert_eq!(route_request("resources/read", false), RequestRoute::MissingParams);
    assert_eq!(route_request("prompts/list", false), RequestRoute::PromptsList);
    assert_eq!(route_request("nope", true), RequestRoute::MethodNotFound);
    assert_eq!(route_tool("get_terraform_plan"), SessionTool::GetTerraformPlan);
    assert_eq!(route_tool("unknown_tool"), SessionTool::NotFound);
    assert_eq!(called_tool(&obj(vec![("name", JsonValue::String("init_terraform".into()))])), "init_terraform");
    assert_eq!(called_tool(&obj(vec![])), "");
    assert_eq!(session_resource(&obj(vec![("uri", JsonValue::String("terraform://best-practices".into()))])), Ok(SessionGuide::BestPractices));
    assert_eq!(session_resource(&obj(vec![])), Err("Missing required parameter: uri".to_string()));
    assert_eq!(
        session_resource(&obj(vec![("uri", JsonValue::String("x".into()))])),
        Err("Unknown resource URI: x".to_string())
    );
    assert_eq!(request_failure("oops"), (JsonRpcErrorCode::InternalError, "Failed to handle request: oops".to_string()));
}

#[test]
fn stdio_lines_and_errors() {
    assert_eq!(message_text_of_line("  {\"a\":1}\n"), Some("{\"a\":1}".to_string()));
    assert_eq!(message_text_of_line(" \t\n"), None);
    assert_eq!(empty_message_error(), Error::Serialization("Empty JSON string".into()));
    assert_eq!(message_parse_error("eof").message(), "Serialization error: JSON parse error: eof");
    assert_eq!(Error::Io("x".into()).message(), "IO error: x");
    assert_eq!(Error::Other("x".into()).message(), "Other error: x");
}

#[test]
fn http_request_reporting() {
    let config = HttpTransportConfig::from_lookup(|_| None).unwrap();
    let routes = HttpMetricRoutes::from_config(&config);
    assert_eq!(routes.metric_route("/mcp"), "/mcp");
    assert_eq!(routes.metric_route("/health"), "/health");
    assert_eq!(routes.metric_route("/other"), "unmatched");
    assert_eq!(method_label("PATCH"), "OTHER");
    assert_eq!(method_label("DELETE"), "DELETE");
    assert_eq!(content_length(Some("42")), Some(42));
    assert_eq!(content_length(Some("+7")), Some(7));
    assert_eq!(content_length(Some("x")), None);
    assert_eq!(content_length(None), None);
    assert!(flag_is_true(Some("true")));
    assert!(!flag_is_true(Some("TRUE")));
    assert_eq!(
        SecurityPermissions::from_policy(false),
        SecurityPermissions { apply: false, destroy: false, init: true, plan: true, validate: true }
    );
    assert_eq!(scan_status(false), "failed");
}

#[test]
fn handlers_answer_without_outside_state() {
    let _ = TerraformToolsHandler::new();
    let init = MessagesHandler::new().initialize_result();
    match init {
        JsonValue::Object(members) => {
            assert_eq!(members[1].key, "protocolVersion");
            assert!(matches!(&members[1].value, JsonValue::String(v) if v == "2024-11-05"));
        }
        other => panic!("unexpected value: {other:?}"),
    }
    assert!(matches!(ResourcesHandler::new().resources_list_result(), JsonValue::Object(_)));
    let handler = SecurityToolsHandler::new();
    let settings = handler.policy_settings(Some("TRUE"), None, Some("25"), Some("false"));
    assert!(settings.allow_dangerous_operations);
    assert!(!settings.allow_auto_approve);
    assert_eq!(settings.max_resource_limit, Some(25));
    assert!(!settings.audit_enabled);
    assert!(handler.policy_settings(None, None, Some("-1"), None).audit_enabled);
    assert_eq!(handler.blocked_patterns().len(), 5);
}

#[test]
fn call_defaults_and_workspace_lookup() {
    let input = ProviderDocsInput {
        provider_name: "aws".into(),
        service_slug: "s3".into(),
        namespace: None,
        data_type: Some("data-sources".into()),
    };
    assert_eq!(docs_request_defaults(&input), ("hashicorp".to_string(), "data-sources".to_string()));
    assert_eq!(private_registry_name(None), "private");
    assert_eq!(private_registry_name(Some("public")), "public");
    assert_eq!(private_namespace(None, "acme"), "acme");
    assert_eq!(private_namespace(Some("team"), "acme"), "team");
    let by_id = TfeWorkspaceInput { workspace_id: Some("ws-1".into()), organization: None, workspace_name: None };
    assert_eq!(workspace_lookup(&by_id), Ok(WorkspaceLookup::ById("ws-1".into())));
    let by_name = TfeWorkspaceInput { workspace_id: None, organization: Some("acme".into()), workspace_name: Some("web".into()) };
    assert_eq!(
        workspace_lookup(&by_name),
        Ok(WorkspaceLookup::ByName { organization: "acme".into(), name: "web".into() })
    );
    let missing = TfeWorkspaceInput { workspace_id: None, organization: Some("acme".into()), workspace_name: None };
    assert_eq!(
        workspace_lookup(&missing),
        Err("workspace_name is required when workspace_id is not provided".to_string())
    );
    let nothing = TfeWorkspaceInput { workspace_id: None, organization: None, workspace_name: None };
    assert_eq!(
        workspace_lookup(&nothing),
        Err("organization is required when workspace_id is not provided".to_string())
    );
}

#[test]
fn session_arguments_and_messages() {
    let params = obj(vec![(
        "arguments",
        obj(vec![("directory", JsonValue::String("/tmp/tf".into())), ("auto_approve", JsonValue::Bool(true))]),
    )]);
    assert_eq!(required_argument(&params, "directory"), Ok("/tmp/tf".to_string()));
    assert_eq!(
        required_argument(&params, "query"),
        Err((JsonRpcErrorCode::InvalidParams, "Missing required parameter: query".to_string()))
    );
    assert!(bool_argument(&params, "auto_approve", false));
    assert!(!bool_argument(&params, "missing", false));
    assert!(bool_argument(&obj(vec![]), "auto_approve", true));
    assert_eq!(method_not_found_text("x/y"), "Method not found: x/y");
    assert_eq!(tool_not_found_text("nope"), "Tool not found: nope");
    assert_eq!(
        tool_failure("Failed to destroy Terraform resources", "locked"),
        (JsonRpcErrorCode::InternalError, "Failed to destroy Terraform resources: locked".to_string())
    );
    assert_eq!(
        directory_changed_message("/tmp/tf"),
        "Successfully changed to Terraform project directory: /tmp/tf"
    );
    let listing = session_resource_listing();
    assert_eq!(listing.len(), 3);
    assert_eq!(listing[1].name, "Terraform Module Development Guide");
    assert_eq!(JsonRpcErrorCode::MethodNotFound.code(), -32601);
    assert!(matches!(MessagesHandler::new().prompts_list_result(), JsonValue::Object(_)));
}

fn doc(category: Option<&str>, title: &str) -> JsonValue {
    let mut members = vec![("title", JsonValue::String(title.into()))];
    if let Some(c) = category {
        members.push(("category", JsonValue::String(c.into())));
    }
    obj(members)
}

#[test]
fn capabilities_group_docs_by_category() {
    let docs = vec![
        doc(Some("resources"), "a"),
        doc(Some("data-sources"), "b"),
        doc(Some("resources"), "c"),
        doc(None, "d"),
    ];
    let groups = categorize_docs(&docs);
    assert_eq!(groups.len(), 3);
    assert_eq!(groups[0].category, "resources");
    assert_eq!(groups[0].titles, vec!["a".to_string(), "c".to_string()]);
    assert_eq!(groups[2].category, "other");
    let total: usize = groups.iter().map(|g| g.titles.len()).sum();
    assert_eq!(total, docs.len());
    let many: Vec<String> = (0..25).map(|i| format!("t{i}")).collect();
    let listed = listed_titles(&many);
    assert_eq!(listed.len(), 20);
    assert_eq!(listed[19], "t19");
    let info = ProviderInfo {
        name: "aws".into(),
        namespace: "hashicorp".into(),
        version: String::new(),
        description: String::new(),
        downloads: 0,
        published_at: String::new(),
        id: String::new(),
        source: None,
        tag: None,
        logo_url: None,
        owner: None,
        tier: None,
        verified: None,
        trusted: None,
        extra: vec![JsonMember { key: "docs".into(), value: JsonValue::Array(docs) }],
    };
    let (groups, total) = provider_capabilities(&info);
    assert_eq!(groups.len(), 3);
    assert_eq!(total, 4);
}

#[test]
fn provider_docs_address_edge_cases() {
    assert!(matches!(
        resolve_resource("terraform://providers/hashicorp/aws/docs/docs"),
        ResourceRequest::Unknown
    ));
    match resolve_resource("terraform://providers//aws/1.0/docs") {
        ResourceRequest::ProviderDocs { namespace, name } => {
            assert_eq!(namespace, "");
            assert_eq!(name, "aws");
        }
        other => panic!("unexpected request: {other:?}"),
    }
}

#[test]
fn split_session_serves_fewer_tools() {
    assert!(split_handler_serves(route_tool("set_terraform_directory")));
    assert!(split_handler_serves(route_tool("get_security_status")));
    assert!(!split_handler_serves(route_tool("search_terraform_modules")));
    assert!(!split_handler_serves(route_tool("nope")));
}

#[test]
fn stdio_tool_arguments_are_read_in_order() {
    let args = |members: Vec<(&str, JsonValue)>| obj(vec![("arguments", obj(members))]);
    let text = |v: &str| JsonValue::String(v.into());
    assert_eq!(
        session_tool_request(SessionTool::GetModuleDetails, &args(vec![("name", text("vpc"))])),
        Err((JsonRpcErrorCode::InvalidParams, "Missing required parameter: namespace".to_string()))
    );
    assert_eq!(
        session_tool_request(
            SessionTool::GetModuleDetails,
            &args(vec![("namespace", text("ns")), ("name", text("vpc"))])
        ),
        Err((JsonRpcErrorCode::InvalidParams, "Missing required parameter: provider".to_string()))
    );
    assert_eq!(
        session_tool_request(
            SessionTool::GetModuleDetails,
            &args(vec![("namespace", text("ns")), ("name", text("vpc")), ("provider", text("aws"))])
        ),
        Ok(SessionToolRequest::GetModuleDetails {
            namespace: "ns".into(),
            name: "vpc".into(),
            provider: "aws".into(),
            version: None
        })
    );
    assert_eq!(
        session_tool_request(
            SessionTool::GetProviderDocs,
            &args(vec![("provider_name", text("aws")), ("service_slug", text("s3"))])
        ),
        Ok(SessionToolRequest::GetProviderDocs {
            provider_name: "aws".into(),
            service_slug: "s3".into(),
            namespace: None,
            data_type: "resources".into()
        })
    );
    assert_eq!(
        session_tool_request(SessionTool::ApplyTerraform, &obj(vec![])),
        Ok(SessionToolRequest::ApplyTerraform { auto_approve: false })
    );
    assert_eq!(
        session_tool_failure_prefix(SessionTool::GetResourceDependencyGraph),
        Some("Failed to build dependency graph")
    );
    assert_eq!(session_tool_failure_prefix(SessionTool::GetSecurityStatus), None);
}

#[test]
fn tool_listing_and_audit_fields() {
    let filter = ToolFilter::from_cli(&["registry".to_string()], None);
    let names = vec![
        "apply_terraform".to_string(),
        "search_terraform_providers".to_string(),
        "get_provider_info".to_string(),
    ];
    assert_eq!(
        filtered_tools(&filter, names.clone()),
        vec!["search_terraform_providers".to_string(), "get_provider_info".to_string()]
    );
    assert_eq!(filtered_tools(&ToolFilter::all(), names.clone()), names);
    let (target, command) = tfe_audit_fields("create_run", "https://app.terraform.io");
    assert_eq!(target, "remote:https://app.terraform.io");
    assert_eq!(command, vec!["tfe".to_string(), "create_run".to_string()]);
}

#[test]
fn validation_answer_marks_errors_invalid() {
    let ok = validation_answer("Success! The configuration is valid.");
    let bad = validation_answer("Error: Missing required argument");
    for (answer, expected) in [(ok, true), (bad, false)] {
        match answer {
            JsonValue::Object(m) => {
                assert_eq!(m[0].key, "valid");
                assert!(matches!(m[0].value, JsonValue::Bool(b) if b == expected));
                assert_eq!(m[1].key, "message");
            }
            _ => panic!("not an object"),
        }
    }
}

#[test]
fn text_contains_finds_inner_text() {
    assert!(text_contains("warning; Error: x", "Error:"));
    assert!(!text_contains("Err or:", "Error:"));
    assert!(text_contains("abc", ""));
}
