//! A stdio MCP session: the messages it reads, the order in which it accepts
//! requests, and where each request and tool call goes.
use crate::json::{get_str, json_as_str, json_get, JsonValue};
use crate::server::resources::{entry_view, ResourceEntry};
use crate::text::{join_all, joined, text_eq, trim, trimmed_chars, string_of};
use vstd::prelude::*;

verus! {

/// A JSON-RPC error code.
#[derive(Debug, Clone, Copy, PartialEq, Eq, Structural)]
pub enum JsonRpcErrorCode {
    ParseError,
    InvalidRequest,
    MethodNotFound,
    InvalidParams,
    InternalError,
}

impl JsonRpcErrorCode {
    /// The number JSON-RPC gives the code.
    pub fn code(&self) -> (r: i32)
        ensures
            r == match *self {
                JsonRpcErrorCode::ParseError => -32700i32,
                JsonRpcErrorCode::InvalidRequest => -32600i32,
                JsonRpcErrorCode::MethodNotFound => -32601i32,
                JsonRpcErrorCode::InvalidParams => -32602i32,
                JsonRpcErrorCode::InternalError => -32603i32,
            },
    {
        match self {
            JsonRpcErrorCode::ParseError => -32700,
            JsonRpcErrorCode::InvalidRequest => -32600,
            JsonRpcErrorCode::MethodNotFound => -32601,
            JsonRpcErrorCode::InvalidParams => -32602,
            JsonRpcErrorCode::InternalError => -32603,
        }
    }
}

/// What can go wrong on the stdio transport.
#[derive(Debug, Clone, PartialEq, Eq)]
pub enum Error {
    Io(String),
    Serialization(String),
    Other(String),
}

/// The text an `Error` shows.
pub open spec fn error_text(e: Error) -> Seq<char> {
    match e {
        Error::Io(s) => "IO error: "@ + s@,
        Error::Serialization(s) => "Serialization error: "@ + s@,
        Error::Other(s) => "Other error: "@ + s@,
    }
}

impl Error {
    /// The human-readable text of the error.
    pub fn message(&self) -> (r: String)
        ensures
            r@ == error_text(*self),
    {
        let r = match self {
            Error::Io(s) => join_all(&vec!["IO error: ", s.as_str()]),
            Error::Serialization(s) => join_all(&vec!["Serialization error: ", s.as_str()]),
            Error::Other(s) => join_all(&vec!["Other error: ", s.as_str()]),
        };
        proof {
            reveal_with_fuel(joined, 3);
        }
        r
    }
}

/// A JSON-RPC message.
#[derive(Debug)]
pub enum Message {
    Request { jsonrpc: String, method: String, id: u64, params: Option<JsonValue> },
    Notification { jsonrpc: String, method: String, params: Option<JsonValue> },
    Response { jsonrpc: String, id: u64, result: Option<JsonValue>, error: Option<JsonValue> },
}

/// The text of an input line that carries a message: the line trimmed, unless
/// nothing is left of it.
pub fn message_text_of_line(line: &str) -> (r: Option<String>)
    ensures
        match r {
            Some(t) => t@ == trim(line@) && t@.len() > 0,
            None => trim(line@).len() == 0,
        },
{
    let t = trimmed_chars(line);
    if t.len() == 0 {
        None
    } else {
        Some(string_of(&t))
    }
}

/// The error for a message text that is empty.
pub fn empty_message_error() -> (r: Error)
    ensures
        r matches Error::Serialization(s) && s@ == "Empty JSON string"@,
{
    Error::Serialization("Empty JSON string".to_owned())
}

/// The error for a message text that is no JSON-RPC message; `detail` says why.
pub fn message_parse_error(detail: &str) -> (r: Error)
    ensures
        r matches Error::Serialization(s) && s@ == "JSON parse error: "@ + detail@,
{
    let s = join_all(&vec!["JSON parse error: ", detail]);
    proof {
        reveal_with_fuel(joined, 3);
    }
    Error::Serialization(s)
}

/// Where a request goes once the session is initialized.
#[derive(Debug, Clone, Copy, PartialEq, Eq, Structural)]
pub enum RequestRoute {
    ToolsList,
    ToolsCall,
    ResourcesList,
    ResourcesRead,
    PromptsList,
    /// `tools/call` or `resources/read` without parameters: nothing is done.
    MissingParams,
    /// No method of that name: answered with `MethodNotFound`.
    MethodNotFound,
}

/// Where a request for `method` goes.
pub open spec fn route_of(method: Seq<char>, has_params: bool) -> RequestRoute {
    if method == "tools/list"@ {
        RequestRoute::ToolsList
    } else if method == "tools/call"@ {
        if has_params { RequestRoute::ToolsCall } else { RequestRoute::MissingParams }
    } else if method == "resources/list"@ {
        RequestRoute::ResourcesList
    } else if method == "resources/read"@ {
        if has_params { RequestRoute::ResourcesRead } else { RequestRoute::MissingParams }
    } else if method == "prompts/list"@ {
        RequestRoute::PromptsList
    } else {
        RequestRoute::MethodNotFound
    }
}

/// Routes a request of an initialized session.
pub fn route_request(method: &str, has_params: bool) -> (r: RequestRoute)
    ensures
        r == route_of(method@, has_params),
{
    if text_eq(method, "tools/list") {
        RequestRoute::ToolsList
    } else if text_eq(method, "tools/call") {
        if has_params { RequestRoute::ToolsCall } else { RequestRoute::MissingParams }
    } else if text_eq(method, "resources/list") {
        RequestRoute::ResourcesList
    } else if text_eq(method, "resources/read") {
        if has_params { RequestRoute::ResourcesRead } else { RequestRoute::MissingParams }
    } else if text_eq(method, "prompts/list") {
        RequestRoute::PromptsList
    } else {
        RequestRoute::MethodNotFound
    }
}

/// The error text for a method the session does not know.
pub fn method_not_found_text(method: &str) -> (r: String)
    ensures
        r@ == "Method not found: "@ + method@,
{
    let r = join_all(&vec!["Method not found: ", method]);
    proof {
        reveal_with_fuel(joined, 3);
    }
    r
}

/// The refusal of a request that comes before `initialize`.
pub open spec fn not_initialized_text() -> Seq<char> {
    "Server not initialized. Send 'initialize' request first."@
}

/// What a session does with a message.
#[derive(Debug)]
pub enum SessionAction {
    /// Answer the `initialize` request `id`.
    Initialize { id: u64 },
    /// Answer request `id` with an error.
    Reject { id: u64, code: JsonRpcErrorCode, message: String },
    /// Handle request `id` along `route`.
    Dispatch { id: u64, route: RequestRoute },
    /// Nothing to answer (notifications and responses).
    Ignore,
}

/// The state of a stdio session: whether `initialize` has been answered.
#[derive(Debug, Clone, Copy, PartialEq, Eq, Structural)]
pub struct StdioSession {
    pub initialized: bool,
}

/// What a session in state `initialized` does with a message: `initialize` is always
/// answered, other requests are refused until it has been, and then routed by method.
pub open spec fn session_action_ok(initialized: bool, msg: Message, action: SessionAction) -> bool {
    match msg {
        Message::Request { method, id, params, .. } => if method@ == "initialize"@ {
            action == SessionAction::Initialize { id }
        } else if !initialized {
            action matches SessionAction::Reject { id: i, code, message } && i == id && code
                == JsonRpcErrorCode::InvalidRequest && message@ == not_initialized_text()
        } else {
            action == SessionAction::Dispatch { id, route: route_of(method@, params is Some) }
        },
        _ => action == SessionAction::Ignore,
    }
}

impl StdioSession {
    /// A session that has not been initialized.
    pub fn new() -> (r: Self)
        ensures
            !r.initialized,
    {
        StdioSession { initialized: false }
    }

    /// Decides what to do with a message.
    pub fn on_message(&self, msg: &Message) -> (r: SessionAction)
        ensures
            session_action_ok(self.initialized, *msg, r),
    {
        match msg {
            Message::Request { method, id, params, .. } => {
                if text_eq(method.as_str(), "initialize") {
                    SessionAction::Initialize { id: *id }
                } else if !self.initialized {
                    SessionAction::Reject {
                        id: *id,
                        code: JsonRpcErrorCode::InvalidRequest,
                        message: "Server not initialized. Send 'initialize' request first.".to_owned(),
                    }
                } else {
                    SessionAction::Dispatch {
                        id: *id,
                        route: route_request(method.as_str(), params.is_some()),
                    }
                }
            },
            _ => SessionAction::Ignore,
        }
    }

    /// Takes the outcome of answering `initialize` request `id`: success initializes
    /// the session, a failure is reported as an internal error and changes nothing.
    pub fn on_initialize_result(&mut self, id: u64, result: Result<(), String>) -> (r: Option<
        (u64, JsonRpcErrorCode, String),
    >)
        ensures
            match result {
                Ok(()) => final(self).initialized && r is None,
                Err(e) => *final(self) == *old(self) && (r matches Some(t) && t.0 == id && t.1
                    == JsonRpcErrorCode::InternalError && t.2@ == "Failed to initialize: "@ + e@),
            },
    {
        match result {
            Ok(()) => {
                self.initialized = true;
                None
            },
            Err(e) => {
                let m = join_all(&vec!["Failed to initialize: ", e.as_str()]);
                proof {
                    reveal_with_fuel(joined, 3);
                }
                Some((id, JsonRpcErrorCode::InternalError, m))
            },
        }
    }
}

/// The error to answer a request whose handling failed with `error`.
pub fn request_failure(error: &str) -> (r: (JsonRpcErrorCode, String))
    ensures
        r.0 == JsonRpcErrorCode::InternalError,
        r.1@ == "Failed to handle request: "@ + error@,
{
    let m = join_all(&vec!["Failed to handle request: ", error]);
    proof {
        reveal_with_fuel(joined, 3);
    }
    (JsonRpcErrorCode::InternalError, m)
}

/// Before `initialize` has been answered, every other request is refused with
/// `InvalidRequest`; `initialize` is answered in any state; notifications and
/// responses are never answered.
pub proof fn law_requests_wait_for_initialize(initialized: bool, msg: Message, action: SessionAction)
    requires
        session_action_ok(initialized, msg, action),
    ensures
        msg is Request && msg->Request_method@ == "initialize"@ ==> action is Initialize,
        !initialized && msg is Request && msg->Request_method@ != "initialize"@ ==> (action is Reject
            && action->code == JsonRpcErrorCode::InvalidRequest),
        initialized && msg is Request && msg->Request_method@ != "initialize"@ ==> action is Dispatch,
        !(msg is Request) ==> action is Ignore,
{
}

/// A tool of the stdio session.
#[derive(Debug, Clone, Copy, PartialEq, Eq, Structural)]
pub enum SessionTool {
    ListTerraformResources,
    AnalyzeTerraform,
    GetTerraformPlan,
    ApplyTerraform,
    DestroyTerraform,
    ValidateTerraform,
    ValidateTerraformDetailed,
    GetTerraformState,
    InitTerraform,
    SetTerraformDirectory,
    GetSecurityStatus,
    SearchTerraformProviders,
    GetProviderInfo,
    GetProviderDocs,
    SearchTerraformModules,
    GetModuleDetails,
    GetLatestModuleVersion,
    GetLatestProviderVersion,
    AnalyzeModuleHealth,
    GetResourceDependencyGraph,
    SuggestModuleRefactoring,
    /// No tool of that name.
    NotFound,
}

/// The tool a name selects.
pub open spec fn session_tool_of(name: Seq<char>) -> SessionTool {
    if name == "list_terraform_resources"@ {
        SessionTool::ListTerraformResources
    } else if name == "analyze_terraform"@ {
        SessionTool::AnalyzeTerraform
    } else if name == "get_terraform_plan"@ {
        SessionTool::GetTerraformPlan
    } else if name == "apply_terraform"@ {
        SessionTool::ApplyTerraform
    } else if name == "destroy_terraform"@ {
        SessionTool::DestroyTerraform
    } else if name == "validate_terraform"@ {
        SessionTool::ValidateTerraform
    } else if name == "validate_terraform_detailed"@ {
        SessionTool::ValidateTerraformDetailed
    } else if name == "get_terraform_state"@ {
        SessionTool::GetTerraformState
    } else if name == "init_terraform"@ {
        SessionTool::InitTerraform
    } else if name == "set_terraform_directory"@ {
        SessionTool::SetTerraformDirectory
    } else if name == "get_security_status"@ {
        SessionTool::GetSecurityStatus
    } else if name == "search_terraform_providers"@ {
        SessionTool::SearchTerraformProviders
    } else if name == "get_provider_info"@ {
        SessionTool::GetProviderInfo
    } else if name == "get_provider_docs"@ {
        SessionTool::GetProviderDocs
    } else if name == "search_terraform_modules"@ {
        SessionTool::SearchTerraformModules
    } else if name == "get_module_details"@ {
        SessionTool::GetModuleDetails
    } else if name == "get_latest_module_version"@ {
        SessionTool::GetLatestModuleVersion
    } else if name == "get_latest_provider_version"@ {
        SessionTool::GetLatestProviderVersion
    } else if name == "analyze_module_health"@ {
        SessionTool::AnalyzeModuleHealth
    } else if name == "get_resource_dependency_graph"@ {
        SessionTool::GetResourceDependencyGraph
    } else if name == "suggest_module_refactoring"@ {
        SessionTool::SuggestModuleRefactoring
    } else {
        SessionTool::NotFound
    }
}


/// The name under which each tool is called (the empty text for `NotFound`).
pub open spec fn session_tool_name(t: SessionTool) -> Seq<char> {
    match t {
        SessionTool::ListTerraformResources => "list_terraform_resources"@,
        SessionTool::AnalyzeTerraform => "analyze_terraform"@,
        SessionTool::GetTerraformPlan => "get_terraform_plan"@,
        SessionTool::ApplyTerraform => "apply_terraform"@,
        SessionTool::DestroyTerraform => "destroy_terraform"@,
        SessionTool::ValidateTerraform => "validate_terraform"@,
        SessionTool::ValidateTerraformDetailed => "validate_terraform_detailed"@,
        SessionTool::GetTerraformState => "get_terraform_state"@,
        SessionTool::InitTerraform => "init_terraform"@,
        SessionTool::SetTerraformDirectory => "set_terraform_directory"@,
        SessionTool::GetSecurityStatus => "get_security_status"@,
        SessionTool::SearchTerraformProviders => "search_terraform_providers"@,
        SessionTool::GetProviderInfo => "get_provider_info"@,
        SessionTool::GetProviderDocs => "get_provider_docs"@,
        SessionTool::SearchTerraformModules => "search_terraform_modules"@,
        SessionTool::GetModuleDetails => "get_module_details"@,
        SessionTool::GetLatestModuleVersion => "get_latest_module_version"@,
        SessionTool::GetLatestProviderVersion => "get_latest_provider_version"@,
        SessionTool::AnalyzeModuleHealth => "analyze_module_health"@,
        SessionTool::GetResourceDependencyGraph => "get_resource_dependency_graph"@,
        SessionTool::SuggestModuleRefactoring => "suggest_module_refactoring"@,
        SessionTool::NotFound => ""@,
    }
}

/// Tools and their names correspond one to one: a tool's own name selects that tool,
/// and a name selects a tool only when it is that tool's name.
pub proof fn law_tool_routing_by_name(t: SessionTool, name: Seq<char>)
    ensures
        t != SessionTool::NotFound ==> session_tool_of(session_tool_name(t)) == t,
        session_tool_of(name) != SessionTool::NotFound ==> session_tool_name(session_tool_of(name)) == name,
        session_tool_of(name) == SessionTool::NotFound ==> forall|u: SessionTool|
            u != SessionTool::NotFound ==> #[trigger] session_tool_name(u) != name,
{
    match t {
        SessionTool::ListTerraformResources => {
            assert(session_tool_of(session_tool_name(t)) == t) by {
                reveal_strlit("list_terraform_resources");
                assert("list_terraform_resources"@.len() == 24);
            }
        },
        SessionTool::AnalyzeTerraform => {
            assert(session_tool_of(session_tool_name(t)) == t) by {
                reveal_strlit("analyze_terraform");
                assert("analyze_terraform"@.len() == 17);
                reveal_strlit("list_terraform_resources");
                assert("list_terraform_resources"@.len() == 24);
                assert("analyze_terraform"@ != "list_terraform_resources"@);
            }
        },
        SessionTool::GetTerraformPlan => {
            assert(session_tool_of(session_tool_name(t)) == t) by {
                reveal_strlit("get_terraform_plan");
                assert("get_terraform_plan"@.len() == 18);
                reveal_strlit("list_terraform_resources");
                assert("list_terraform_resources"@.len() == 24);
                assert("get_terraform_plan"@ != "list_terraform_resources"@);
                reveal_strlit("analyze_terraform");
                assert("analyze_terraform"@.len() == 17);
                assert("get_terraform_plan"@ != "analyze_terraform"@);
            }
        },
        SessionTool::ApplyTerraform => {
            assert(session_tool_of(session_tool_name(t)) == t) by {
                reveal_strlit("apply_terraform");
                assert("apply_terraform"@.len() == 15);
                reveal_strlit("list_terraform_resources");
                assert("list_terraform_resources"@.len() == 24);
                assert("apply_terraform"@ != "list_terraform_resources"@);
                reveal_strlit("analyze_terraform");
                assert("analyze_terraform"@.len() == 17);
                assert("apply_terraform"@ != "analyze_terraform"@);
                reveal_strlit("get_terraform_plan");
                assert("get_terraform_plan"@.len() == 18);
                assert("apply_terraform"@ != "get_terraform_plan"@);
            }
        },
        SessionTool::DestroyTerraform => {
            assert(session_tool_of(session_tool_name(t)) == t) by {
                reveal_strlit("destroy_terraform");
                assert("destroy_terraform"@.len() == 17);
                reveal_strlit("list_terraform_resources");
                assert("list_terraform_resources"@.len() == 24);
                assert("destroy_terraform"@ != "list_terraform_resources"@);
                reveal_strlit("analyze_terraform");
                assert("analyze_terraform"@.len() == 17);
                assert("destroy_terraform"@[0] != "analyze_terraform"@[0]);
                assert("destroy_terraform"@ != "analyze_terraform"@);
                reveal_strlit("get_terraform_plan");
                assert("get_terraform_plan"@.len() == 18);
                assert("destroy_terraform"@ != "get_terraform_plan"@);
                reveal_strlit("apply_terraform");
                assert("apply_terraform"@.len() == 15);
                assert("destroy_terraform"@ != "apply_terraform"@);
            }
        },
        SessionTool::ValidateTerraform => {
            assert(session_tool_of(session_tool_name(t)) == t) by {
                reveal_strlit("validate_terraform");
                assert("validate_terraform"@.len() == 18);
                reveal_strlit("list_terraform_resources");
                assert("list_terraform_resources"@.len() == 24);
                assert("validate_terraform"@ != "list_terraform_resources"@);
                reveal_strlit("analyze_terraform");
                assert("analyze_terraform"@.len() == 17);
                assert("validate_terraform"@ != "analyze_terraform"@);
                reveal_strlit("get_terraform_plan");
                assert("get_terraform_plan"@.len() == 18);
                assert("validate_terraform"@[0] != "get_terraform_plan"@[0]);
                assert("validate_terraform"@ != "get_terraform_plan"@);
                reveal_strlit("apply_terraform");
                assert("apply_terraform"@.len() == 15);
                assert("validate_terraform"@ != "apply_terraform"@);
                reveal_strlit("destroy_terraform");
                assert("destroy_terraform"@.len() == 17);
                assert("validate_terraform"@ != "destroy_terraform"@);
            }
        },
        SessionTool::ValidateTerraformDetailed => {
            assert(session_tool_of(session_tool_name(t)) == t) by {
                reveal_strlit("validate_terraform_detailed");
                assert("validate_terraform_detailed"@.len() == 27);
                reveal_strlit("list_terraform_resources");
                assert("list_terraform_resources"@.len() == 24);
                assert("validate_terraform_detailed"@ != "list_terraform_resources"@);
                reveal_strlit("analyze_terraform");
                assert("analyze_terraform"@.len() == 17);
                assert("validate_terraform_detailed"@ != "analyze_terraform"@);
                reveal_strlit("get_terraform_plan");
                assert("get_terraform_plan"@.len() == 18);
                assert("validate_terraform_detailed"@ != "get_terraform_plan"@);
                reveal_strlit("apply_terraform");
                assert("apply_terraform"@.len() == 15);
                assert("validate_terraform_detailed"@ != "apply_terraform"@);
                reveal_strlit("destroy_terraform");
                assert("destroy_terraform"@.len() == 17);
                assert("validate_terraform_detailed"@ != "destroy_terraform"@);
                reveal_strlit("validate_terraform");
                assert("validate_terraform"@.len() == 18);
                assert("validate_terraform_detailed"@ != "validate_terraform"@);
            }
        },
        SessionTool::GetTerraformState => {
            assert(session_tool_of(session_tool_name(t)) == t) by {
                reveal_strlit("get_terraform_state");
                assert("get_terraform_state"@.len() == 19);
                reveal_strlit("list_terraform_resources");
                assert("list_terraform_resources"@.len() == 24);
                assert("get_terraform_state"@ != "list_terraform_resources"@);
                reveal_strlit("analyze_terraform");
                assert("analyze_terraform"@.len() == 17);
                assert("get_terraform_state"@ != "analyze_terraform"@);
                reveal_strlit("get_terraform_plan");
                assert("get_terraform_plan"@.len() == 18);
                assert("get_terraform_state"@ != "get_terraform_plan"@);
                reveal_strlit("apply_terraform");
                assert("apply_terraform"@.len() == 15);
                assert("get_terraform_state"@ != "apply_terraform"@);
                reveal_strlit("destroy_terraform");
                assert("destroy_terraform"@.len() == 17);
                assert("get_terraform_state"@ != "destroy_terraform"@);
                reveal_strlit("validate_terraform");
                assert("validate_terraform"@.len() == 18);
                assert("get_terraform_state"@ != "validate_terraform"@);
                reveal_strlit("validate_terraform_detailed");
                assert("validate_terraform_detailed"@.len() == 27);
                assert("get_terraform_state"@ != "validate_terraform_detailed"@);
            }
        },
        SessionTool::InitTerraform => {
            assert(session_tool_of(session_tool_name(t)) == t) by {
                reveal_strlit("init_terraform");
                assert("init_terraform"@.len() == 14);
                reveal_strlit("list_terraform_resources");
                assert("list_terraform_resources"@.len() == 24);
                assert("init_terraform"@ != "list_terraform_resources"@);
                reveal_strlit("analyze_terraform");
                assert("analyze_terraform"@.len() == 17);
                assert("init_terraform"@ != "analyze_terraform"@);
                reveal_strlit("get_terraform_plan");
                assert("get_terraform_plan"@.len() == 18);
                assert("init_terraform"@ != "get_terraform_plan"@);
                reveal_strlit("apply_terraform");
                assert("apply_terraform"@.len() == 15);
                assert("init_terraform"@ != "apply_terraform"@);
                reveal_strlit("destroy_terraform");
                assert("destroy_terraform"@.len() == 17);
                assert("init_terraform"@ != "destroy_terraform"@);
                reveal_strlit("validate_terraform");
                assert("validate_terraform"@.len() == 18);
                assert("init_terraform"@ != "validate_terraform"@);
                reveal_strlit("validate_terraform_detailed");
                assert("validate_terraform_detailed"@.len() == 27);
                assert("init_terraform"@ != "validate_terraform_detailed"@);
                reveal_strlit("get_terraform_state");
                assert("get_terraform_state"@.len() == 19);
                assert("init_terraform"@ != "get_terraform_state"@);
            }
        },
        SessionTool::SetTerraformDirectory => {
            assert(session_tool_of(session_tool_name(t)) == t) by {
                reveal_strlit("set_terraform_directory");
                assert("set_terraform_directory"@.len() == 23);
                reveal_strlit("list_terraform_resources");
                assert("list_terraform_resources"@.len() == 24);
                assert("set_terraform_directory"@ != "list_terraform_resources"@);
                reveal_strlit("analyze_terraform");
                assert("analyze_terraform"@.len() == 17);
                assert("set_terraform_directory"@ != "analyze_terraform"@);
                reveal_strlit("get_terraform_plan");
                assert("get_terraform_plan"@.len() == 18);
                assert("set_terraform_directory"@ != "get_terraform_plan"@);
                reveal_strlit("apply_terraform");
                assert("apply_terraform"@.len() == 15);
                assert("set_terraform_directory"@ != "apply_terraform"@);
                reveal_strlit("destroy_terraform");
                assert("destroy_terraform"@.len() == 17);
                assert("set_terraform_directory"@ != "destroy_terraform"@);
                reveal_strlit("validate_terraform");
                assert("validate_terraform"@.len() == 18);
                assert("set_terraform_directory"@ != "validate_terraform"@);
                reveal_strlit("validate_terraform_detailed");
                assert("validate_terraform_detailed"@.len() == 27);
                assert("set_terraform_directory"@ != "validate_terraform_detailed"@);
                reveal_strlit("get_terraform_state");
                assert("get_terraform_state"@.len() == 19);
                assert("set_terraform_directory"@ != "get_terraform_state"@);
                reveal_strlit("init_terraform");
                assert("init_terraform"@.len() == 14);
                assert("set_terraform_directory"@ != "init_terraform"@);
            }
        },
        SessionTool::GetSecurityStatus => {
            assert(session_tool_of(session_tool_name(t)) == t) by {
                reveal_strlit("get_security_status");
                assert("get_security_status"@.len() == 19);
                reveal_strlit("list_terraform_resources");
                assert("list_terraform_resources"@.len() == 24);
                assert("get_security_status"@ != "list_terraform_resources"@);
                reveal_strlit("analyze_terraform");
                assert("analyze_terraform"@.len() == 17);
                assert("get_security_status"@ != "analyze_terraform"@);
                reveal_strlit("get_terraform_plan");
                assert("get_terraform_plan"@.len() == 18);
                assert("get_security_status"@ != "get_terraform_plan"@);
                reveal_strlit("apply_terraform");
                assert("apply_terraform"@.len() == 15);
                assert("get_security_status"@ != "apply_terraform"@);
                reveal_strlit("destroy_terraform");
                assert("destroy_terraform"@.len() == 17);
                assert("get_security_status"@ != "destroy_terraform"@);
                reveal_strlit("validate_terraform");
                assert("validate_terraform"@.len() == 18);
                assert("get_security_status"@ != "validate_terraform"@);
                reveal_strlit("validate_terraform_detailed");
                assert("validate_terraform_detailed"@.len() == 27);
                assert("get_security_status"@ != "validate_terraform_detailed"@);
                reveal_strlit("get_terraform_state");
                assert("get_terraform_state"@.len() == 19);
                assert("get_security_status"@[4] != "get_terraform_state"@[4]);
                assert("get_security_status"@ != "get_terraform_state"@);
                reveal_strlit("init_terraform");
                assert("init_terraform"@.len() == 14);
                assert("get_security_status"@ != "init_terraform"@);
                reveal_strlit("set_terraform_directory");
                assert("set_terraform_directory"@.len() == 23);
                assert("get_security_status"@ != "set_terraform_directory"@);
            }
        },
        SessionTool::SearchTerraformProviders => {
            assert(session_tool_of(session_tool_name(t)) == t) by {
                reveal_strlit("search_terraform_providers");
                assert("search_terraform_providers"@.len() == 26);
                reveal_strlit("list_terraform_resources");
                assert("list_terraform_resources"@.len() == 24);
                assert("search_terraform_providers"@ != "list_terraform_resources"@);
                reveal_strlit("analyze_terraform");
                assert("analyze_terraform"@.len() == 17);
                assert("search_terraform_providers"@ != "analyze_terraform"@);
                reveal_strlit("get_terraform_plan");
                assert("get_terraform_plan"@.len() == 18);
                assert("search_terraform_providers"@ != "get_terraform_plan"@);
                reveal_strlit("apply_terraform");
                assert("apply_terraform"@.len() == 15);
                assert("search_terraform_providers"@ != "apply_terraform"@);
                reveal_strlit("destroy_terraform");
                assert("destroy_terraform"@.len() == 17);
                assert("search_terraform_providers"@ != "destroy_terraform"@);
                reveal_strlit("validate_terraform");
                assert("validate_terraform"@.len() == 18);
                assert("search_terraform_providers"@ != "validate_terraform"@);
                reveal_strlit("validate_terraform_detailed");
                assert("validate_terraform_detailed"@.len() == 27);
                assert("search_terraform_providers"@ != "validate_terraform_detailed"@);
                reveal_strlit("get_terraform_state");
                assert("get_terraform_state"@.len() == 19);
                assert("search_terraform_providers"@ != "get_terraform_state"@);
                reveal_strlit("init_terraform");
                assert("init_terraform"@.len() == 14);
                assert("search_terraform_providers"@ != "init_terraform"@);
                reveal_strlit("set_terraform_directory");
                assert("set_terraform_directory"@.len() == 23);
                assert("search_terraform_providers"@ != "set_terraform_directory"@);
                reveal_strlit("get_security_status");
                assert("get_security_status"@.len() == 19);
                assert("search_terraform_providers"@ != "get_security_status"@);
            }
        },
        SessionTool::GetProviderInfo => {
            assert(session_tool_of(session_tool_name(t)) == t) by {
                reveal_strlit("get_provider_info");
                assert("get_provider_info"@.len() == 17);
                reveal_strlit("list_terraform_resources");
                assert("list_terraform_resources"@.len() == 24);
                assert("get_provider_info"@ != "list_terraform_resources"@);
                reveal_strlit("analyze_terraform");
                assert("analyze_terraform"@.len() == 17);
                assert("get_provider_info"@[0] != "analyze_terraform"@[0]);
                assert("get_provider_info"@ != "analyze_terraform"@);
                reveal_strlit("get_terraform_plan");
                assert("get_terraform_plan"@.len() == 18);
                assert("get_provider_info"@ != "get_terraform_plan"@);
                reveal_strlit("apply_terraform");
                assert("apply_terraform"@.len() == 15);
                assert("get_provider_info"@ != "apply_terraform"@);
                reveal_strlit("destroy_terraform");
                assert("destroy_terraform"@.len() == 17);
                assert("get_provider_info"@[0] != "destroy_terraform"@[0]);
                assert("get_provider_info"@ != "destroy_terraform"@);
                reveal_strlit("validate_terraform");
                assert("validate_terraform"@.len() == 18);
                assert("get_provider_info"@ != "validate_terraform"@);
                reveal_strlit("validate_terraform_detailed");
                assert("validate_terraform_detailed"@.len() == 27);
                assert("get_provider_info"@ != "validate_terraform_detailed"@);
                reveal_strlit("get_terraform_state");
                assert("get_terraform_state"@.len() == 19);
                assert("get_provider_info"@ != "get_terraform_state"@);
                reveal_strlit("init_terraform");
                assert("init_terraform"@.len() == 14);
                assert("get_provider_info"@ != "init_terraform"@);
                reveal_strlit("set_terraform_directory");
                assert("set_terraform_directory"@.len() == 23);
                assert("get_provider_info"@ != "set_terraform_directory"@);
                reveal_strlit("get_security_status");
                assert("get_security_status"@.len() == 19);
                assert("get_provider_info"@ != "get_security_status"@);
                reveal_strlit("search_terraform_providers");
                assert("search_terraform_providers"@.len() == 26);
                assert("get_provider_info"@ != "search_terraform_providers"@);
            }
        },
        SessionTool::GetProviderDocs => {
            assert(session_tool_of(session_tool_name(t)) == t) by {
                reveal_strlit("get_provider_docs");
                assert("get_provider_docs"@.len() == 17);
                reveal_strlit("list_terraform_resources");
                assert("list_terraform_resources"@.len() == 24);
                assert("get_provider_docs"@ != "list_terraform_resources"@);
                reveal_strlit("analyze_terraform");
                assert("analyze_terraform"@.len() == 17);
                assert("get_provider_docs"@[0] != "analyze_terraform"@[0]);
                assert("get_provider_docs"@ != "analyze_terraform"@);
                reveal_strlit("get_terraform_plan");
                assert("get_terraform_plan"@.len() == 18);
                assert("get_provider_docs"@ != "get_terraform_plan"@);
                reveal_strlit("apply_terraform");
                assert("apply_terraform"@.len() == 15);
                assert("get_provider_docs"@ != "apply_terraform"@);
                reveal_strlit("destroy_terraform");
                assert("destroy_terraform"@.len() == 17);
                assert("get_provider_docs"@[0] != "destroy_terraform"@[0]);
                assert("get_provider_docs"@ != "destroy_terraform"@);
                reveal_strlit("validate_terraform");
                assert("validate_terraform"@.len() == 18);
                assert("get_provider_docs"@ != "validate_terraform"@);
                reveal_strlit("validate_terraform_detailed");
                assert("validate_terraform_detailed"@.len() == 27);
                assert("get_provider_docs"@ != "validate_terraform_detailed"@);
                reveal_strlit("get_terraform_state");
                assert("get_terraform_state"@.len() == 19);
                assert("get_provider_docs"@ != "get_terraform_state"@);
                reveal_strlit("init_terraform");
                assert("init_terraform"@.len() == 14);
                assert("get_provider_docs"@ != "init_terraform"@);
                reveal_strlit("set_terraform_directory");
                assert("set_terraform_directory"@.len() == 23);
                assert("get_provider_docs"@ != "set_terraform_directory"@);
                reveal_strlit("get_security_status");
                assert("get_security_status"@.len() == 19);
                assert("get_provider_docs"@ != "get_security_status"@);
                reveal_strlit("search_terraform_providers");
                assert("search_terraform_providers"@.len() == 26);
                assert("get_provider_docs"@ != "search_terraform_providers"@);
                reveal_strlit("get_provider_info");
                assert("get_provider_info"@.len() == 17);
                assert("get_provider_docs"@[13] != "get_provider_info"@[13]);
                assert("get_provider_docs"@ != "get_provider_info"@);
            }
        },
        SessionTool::SearchTerraformModules => {
            assert(session_tool_of(session_tool_name(t)) == t) by {
                reveal_strlit("search_terraform_modules");
                assert("search_terraform_modules"@.len() == 24);
                reveal_strlit("list_terraform_resources");
                assert("list_terraform_resources"@.len() == 24);
                assert("search_terraform_modules"@[0] != "list_terraform_resources"@[0]);
                assert("search_terraform_modules"@ != "list_terraform_resources"@);
                reveal_strlit("analyze_terraform");
                assert("analyze_terraform"@.len() == 17);
                assert("search_terraform_modules"@ != "analyze_terraform"@);
                reveal_strlit("get_terraform_plan");
                assert("get_terraform_plan"@.len() == 18);
                assert("search_terraform_modules"@ != "get_terraform_plan"@);
                reveal_strlit("apply_terraform");
                assert("apply_terraform"@.len() == 15);
                assert("search_terraform_modules"@ != "apply_terraform"@);
                reveal_strlit("destroy_terraform");
                assert("destroy_terraform"@.len() == 17);
                assert("search_terraform_modules"@ != "destroy_terraform"@);
                reveal_strlit("validate_terraform");
                assert("validate_terraform"@.len() == 18);
                assert("search_terraform_modules"@ != "validate_terraform"@);
                reveal_strlit("validate_terraform_detailed");
                assert("validate_terraform_detailed"@.len() == 27);
                assert("search_terraform_modules"@ != "validate_terraform_detailed"@);
                reveal_strlit("get_terraform_state");
                assert("get_terraform_state"@.len() == 19);
                assert("search_terraform_modules"@ != "get_terraform_state"@);
                reveal_strlit("init_terraform");
                assert("init_terraform"@.len() == 14);
                assert("search_terraform_modules"@ != "init_terraform"@);
                reveal_strlit("set_terraform_directory");
                assert("set_terraform_directory"@.len() == 23);
                assert("search_terraform_modules"@ != "set_terraform_directory"@);
                reveal_strlit("get_security_status");
                assert("get_security_status"@.len() == 19);
                assert("search_terraform_modules"@ != "get_security_status"@);
                reveal_strlit("search_terraform_providers");
                assert("search_terraform_providers"@.len() == 26);
                assert("search_terraform_modules"@ != "search_terraform_providers"@);
                reveal_strlit("get_provider_info");
                assert("get_provider_info"@.len() == 17);
                assert("search_terraform_modules"@ != "get_provider_info"@);
                reveal_strlit("get_provider_docs");
                assert("get_provider_docs"@.len() == 17);
                assert("search_terraform_modules"@ != "get_provider_docs"@);
            }
        },
        SessionTool::GetModuleDetails => {
            assert(session_tool_of(session_tool_name(t)) == t) by {
                reveal_strlit("get_module_details");
                assert("get_module_details"@.len() == 18);
                reveal_strlit("list_terraform_resources");
                assert("list_terraform_resources"@.len() == 24);
                assert("get_module_details"@ != "list_terraform_resources"@);
                reveal_strlit("analyze_terraform");
                assert("analyze_terraform"@.len() == 17);
                assert("get_module_details"@ != "analyze_terraform"@);
                reveal_strlit("get_terraform_plan");
                assert("get_terraform_plan"@.len() == 18);
                assert("get_module_details"@[4] != "get_terraform_plan"@[4]);
                assert("get_module_details"@ != "get_terraform_plan"@);
                reveal_strlit("apply_terraform");
                assert("apply_terraform"@.len() == 15);
                assert("get_module_details"@ != "apply_terraform"@);
                reveal_strlit("destroy_terraform");
                assert("destroy_terraform"@.len() == 17);
                assert("get_module_details"@ != "destroy_terraform"@);
                reveal_strlit("validate_terraform");
                assert("validate_terraform"@.len() == 18);
                assert("get_module_details"@[0] != "validate_terraform"@[0]);
                assert("get_module_details"@ != "validate_terraform"@);
                reveal_strlit("validate_terraform_detailed");
                assert("validate_terraform_detailed"@.len() == 27);
                assert("get_module_details"@ != "validate_terraform_detailed"@);
                reveal_strlit("get_terraform_state");
                assert("get_terraform_state"@.len() == 19);
                assert("get_module_details"@ != "get_terraform_state"@);
                reveal_strlit("init_terraform");
                assert("init_terraform"@.len() == 14);
                assert("get_module_details"@ != "init_terraform"@);
                reveal_strlit("set_terraform_directory");
                assert("set_terraform_directory"@.len() == 23);
                assert("get_module_details"@ != "set_terraform_directory"@);
                reveal_strlit("get_security_status");
                assert("get_security_status"@.len() == 19);
                assert("get_module_details"@ != "get_security_status"@);
                reveal_strlit("search_terraform_providers");
                assert("search_terraform_providers"@.len() == 26);
                assert("get_module_details"@ != "search_terraform_providers"@);
                reveal_strlit("get_provider_info");
                assert("get_provider_info"@.len() == 17);
                assert("get_module_details"@ != "get_provider_info"@);
                reveal_strlit("get_provider_docs");
                assert("get_provider_docs"@.len() == 17);
                assert("get_module_details"@ != "get_provider_docs"@);
                reveal_strlit("search_terraform_modules");
                assert("search_terraform_modules"@.len() == 24);
                assert("get_module_details"@ != "search_terraform_modules"@);
            }
        },
        SessionTool::GetLatestModuleVersion => {
            assert(session_tool_of(session_tool_name(t)) == t) by {
                reveal_strlit("get_latest_module_version");
                assert("get_latest_module_version"@.len() == 25);
                reveal_strlit("list_terraform_resources");
                assert("list_terraform_resources"@.len() == 24);
                assert("get_latest_module_version"@ != "list_terraform_resources"@);
                reveal_strlit("analyze_terraform");
                assert("analyze_terraform"@.len() == 17);
                assert("get_latest_module_version"@ != "analyze_terraform"@);
                reveal_strlit("get_terraform_plan");
                assert("get_terraform_plan"@.len() == 18);
                assert("get_latest_module_version"@ != "get_terraform_plan"@);
                reveal_strlit("apply_terraform");
                assert("apply_terraform"@.len() == 15);
                assert("get_latest_module_version"@ != "apply_terraform"@);
                reveal_strlit("destroy_terraform");
                assert("destroy_terraform"@.len() == 17);
                assert("get_latest_module_version"@ != "destroy_terraform"@);
                reveal_strlit("validate_terraform");
                assert("validate_terraform"@.len() == 18);
                assert("get_latest_module_version"@ != "validate_terraform"@);
                reveal_strlit("validate_terraform_detailed");
                assert("validate_terraform_detailed"@.len() == 27);
                assert("get_latest_module_version"@ != "validate_terraform_detailed"@);
                reveal_strlit("get_terraform_state");
                assert("get_terraform_state"@.len() == 19);
                assert("get_latest_module_version"@ != "get_terraform_state"@);
                reveal_strlit("init_terraform");
                assert("init_terraform"@.len() == 14);
                assert("get_latest_module_version"@ != "init_terraform"@);
                reveal_strlit("set_terraform_directory");
                assert("set_terraform_directory"@.len() == 23);
                assert("get_latest_module_version"@ != "set_terraform_directory"@);
                reveal_strlit("get_security_status");
                assert("get_security_status"@.len() == 19);
                assert("get_latest_module_version"@ != "get_security_status"@);
                reveal_strlit("search_terraform_providers");
                assert("search_terraform_providers"@.len() == 26);
                assert("get_latest_module_version"@ != "search_terraform_providers"@);
                reveal_strlit("get_provider_info");
                assert("get_provider_info"@.len() == 17);
                assert("get_latest_module_version"@ != "get_provider_info"@);
                reveal_strlit("get_provider_docs");
                assert("get_provider_docs"@.len() == 17);
                assert("get_latest_module_version"@ != "get_provider_docs"@);
                reveal_strlit("search_terraform_modules");
                assert("search_terraform_modules"@.len() == 24);
                assert("get_latest_module_version"@ != "search_terraform_modules"@);
                reveal_strlit("get_module_details");
                assert("get_module_details"@.len() == 18);
                assert("get_latest_module_version"@ != "get_module_details"@);
            }
        },
        SessionTool::GetLatestProviderVersion => {
            assert(session_tool_of(session_tool_name(t)) == t) by {
                reveal_strlit("get_latest_provider_version");
                assert("get_latest_provider_version"@.len() == 27);
                reveal_strlit("list_terraform_resources");
                assert("list_terraform_resources"@.len() == 24);
                assert("get_latest_provider_version"@ != "list_terraform_resources"@);
                reveal_strlit("analyze_terraform");
                assert("analyze_terraform"@.len() == 17);
                assert("get_latest_provider_version"@ != "analyze_terraform"@);
                reveal_strlit("get_terraform_plan");
                assert("get_terraform_plan"@.len() == 18);
                assert("get_latest_provider_version"@ != "get_terraform_plan"@);
                reveal_strlit("apply_terraform");
                assert("apply_terraform"@.len() == 15);
                assert("get_latest_provider_version"@ != "apply_terraform"@);
                reveal_strlit("destroy_terraform");
                assert("destroy_terraform"@.len() == 17);
                assert("get_latest_provider_version"@ != "destroy_terraform"@);
                reveal_strlit("validate_terraform");
                assert("validate_terraform"@.len() == 18);
                assert("get_latest_provider_version"@ != "validate_terraform"@);
                reveal_strlit("validate_terraform_detailed");
                assert("validate_terraform_detailed"@.len() == 27);
                assert("get_latest_provider_version"@[0] != "validate_terraform_detailed"@[0]);
                assert("get_latest_provider_version"@ != "validate_terraform_detailed"@);
                reveal_strlit("get_terraform_state");
                assert("get_terraform_state"@.len() == 19);
                assert("get_latest_provider_version"@ != "get_terraform_state"@);
                reveal_strlit("init_terraform");
                assert("init_terraform"@.len() == 14);
                assert("get_latest_provider_version"@ != "init_terraform"@);
                reveal_strlit("set_terraform_directory");
                assert("set_terraform_directory"@.len() == 23);
                assert("get_latest_provider_version"@ != "set_terraform_directory"@);
                reveal_strlit("get_security_status");
                assert("get_security_status"@.len() == 19);
                assert("get_latest_provider_version"@ != "get_security_status"@);
                reveal_strlit("search_terraform_providers");
                assert("search_terraform_providers"@.len() == 26);
                assert("get_latest_provider_version"@ != "search_terraform_providers"@);
                reveal_strlit("get_provider_info");
                assert("get_provider_info"@.len() == 17);
                assert("get_latest_provider_version"@ != "get_provider_info"@);
                reveal_strlit("get_provider_docs");
                assert("get_provider_docs"@.len() == 17);
                assert("get_latest_provider_version"@ != "get_provider_docs"@);
                reveal_strlit("search_terraform_modules");
                assert("search_terraform_modules"@.len() == 24);
                assert("get_latest_provider_version"@ != "search_terraform_modules"@);
                reveal_strlit("get_module_details");
                assert("get_module_details"@.len() == 18);
                assert("get_latest_provider_version"@ != "get_module_details"@);
                reveal_strlit("get_latest_module_version");
                assert("get_latest_module_version"@.len() == 25);
                assert("get_latest_provider_version"@ != "get_latest_module_version"@);
            }
        },
        SessionTool::AnalyzeModuleHealth => {
            assert(session_tool_of(session_tool_name(t)) == t) by {
                reveal_strlit("analyze_module_health");
                assert("analyze_module_health"@.len() == 21);
                reveal_strlit("list_terraform_resources");
                assert("list_terraform_resources"@.len() == 24);
                assert("analyze_module_health"@ != "list_terraform_resources"@);
                reveal_strlit("analyze_terraform");
                assert("analyze_terraform"@.len() == 17);
                assert("analyze_module_health"@ != "analyze_terraform"@);
                reveal_strlit("get_terraform_plan");
                assert("get_terraform_plan"@.len() == 18);
                assert("analyze_module_health"@ != "get_terraform_plan"@);
                reveal_strlit("apply_terraform");
                assert("apply_terraform"@.len() == 15);
                assert("analyze_module_health"@ != "apply_terraform"@);
                reveal_strlit("destroy_terraform");
                assert("destroy_terraform"@.len() == 17);
                assert("analyze_module_health"@ != "destroy_terraform"@);
                reveal_strlit("validate_terraform");
                assert("validate_terraform"@.len() == 18);
                assert("analyze_module_health"@ != "validate_terraform"@);
                reveal_strlit("validate_terraform_detailed");
                assert("validate_terraform_detailed"@.len() == 27);
                assert("analyze_module_health"@ != "validate_terraform_detailed"@);
                reveal_strlit("get_terraform_state");
                assert("get_terraform_state"@.len() == 19);
                assert("analyze_module_health"@ != "get_terraform_state"@);
                reveal_strlit("init_terraform");
                assert("init_terraform"@.len() == 14);
                assert("analyze_module_health"@ != "init_terraform"@);
                reveal_strlit("set_terraform_directory");
                assert("set_terraform_directory"@.len() == 23);
                assert("analyze_module_health"@ != "set_terraform_directory"@);
                reveal_strlit("get_security_status");
                assert("get_security_status"@.len() == 19);
                assert("analyze_module_health"@ != "get_security_status"@);
                reveal_strlit("search_terraform_providers");
                assert("search_terraform_providers"@.len() == 26);
                assert("analyze_module_health"@ != "search_terraform_providers"@);
                reveal_strlit("get_provider_info");
                assert("get_provider_info"@.len() == 17);
                assert("analyze_module_health"@ != "get_provider_info"@);
                reveal_strlit("get_provider_docs");
                assert("get_provider_docs"@.len() == 17);
                assert("analyze_module_health"@ != "get_provider_docs"@);
                reveal_strlit("search_terraform_modules");
                assert("search_terraform_modules"@.len() == 24);
                assert("analyze_module_health"@ != "search_terraform_modules"@);
                reveal_strlit("get_module_details");
                assert("get_module_details"@.len() == 18);
                assert("analyze_module_health"@ != "get_module_details"@);
                reveal_strlit("get_latest_module_version");
                assert("get_latest_module_version"@.len() == 25);
                assert("analyze_module_health"@ != "get_latest_module_version"@);
                reveal_strlit("get_latest_provider_version");
                assert("get_latest_provider_version"@.len() == 27);
                assert("analyze_module_health"@ != "get_latest_provider_version"@);
            }
        },
        SessionTool::GetResourceDependencyGraph => {
            assert(session_tool_of(session_tool_name(t)) == t) by {
                reveal_strlit("get_resource_dependency_graph");
                assert("get_resource_dependency_graph"@.len() == 29);
                reveal_strlit("list_terraform_resources");
                assert("list_terraform_resources"@.len() == 24);
                assert("get_resource_dependency_graph"@ != "list_terraform_resources"@);
                reveal_strlit("analyze_terraform");
                assert("analyze_terraform"@.len() == 17);
                assert("get_resource_dependency_graph"@ != "analyze_terraform"@);
                reveal_strlit("get_terraform_plan");
                assert("get_terraform_plan"@.len() == 18);
                assert("get_resource_dependency_graph"@ != "get_terraform_plan"@);
                reveal_strlit("apply_terraform");
                assert("apply_terraform"@.len() == 15);
                assert("get_resource_dependency_graph"@ != "apply_terraform"@);
                reveal_strlit("destroy_terraform");
                assert("destroy_terraform"@.len() == 17);
                assert("get_resource_dependency_graph"@ != "destroy_terraform"@);
                reveal_strlit("validate_terraform");
                assert("validate_terraform"@.len() == 18);
                assert("get_resource_dependency_graph"@ != "validate_terraform"@);
                reveal_strlit("validate_terraform_detailed");
                assert("validate_terraform_detailed"@.len() == 27);
                assert("get_resource_dependency_graph"@ != "validate_terraform_detailed"@);
                reveal_strlit("get_terraform_state");
                assert("get_terraform_state"@.len() == 19);
                assert("get_resource_dependency_graph"@ != "get_terraform_state"@);
                reveal_strlit("init_terraform");
                assert("init_terraform"@.len() == 14);
                assert("get_resource_dependency_graph"@ != "init_terraform"@);
                reveal_strlit("set_terraform_directory");
                assert("set_terraform_directory"@.len() == 23);
                assert("get_resource_dependency_graph"@ != "set_terraform_directory"@);
                reveal_strlit("get_security_status");
                assert("get_security_status"@.len() == 19);
                assert("get_resource_dependency_graph"@ != "get_security_status"@);
                reveal_strlit("search_terraform_providers");
                assert("search_terraform_providers"@.len() == 26);
                assert("get_resource_dependency_graph"@ != "search_terraform_providers"@);
                reveal_strlit("get_provider_info");
                assert("get_provider_info"@.len() == 17);
                assert("get_resource_dependency_graph"@ != "get_provider_info"@);
                reveal_strlit("get_provider_docs");
                assert("get_provider_docs"@.len() == 17);
                assert("get_resource_dependency_graph"@ != "get_provider_docs"@);
                reveal_strlit("search_terraform_modules");
                assert("search_terraform_modules"@.len() == 24);
                assert("get_resource_dependency_graph"@ != "search_terraform_modules"@);
                reveal_strlit("get_module_details");
                assert("get_module_details"@.len() == 18);
                assert("get_resource_dependency_graph"@ != "get_module_details"@);
                reveal_strlit("get_latest_module_version");
                assert("get_latest_module_version"@.len() == 25);
                assert("get_resource_dependency_graph"@ != "get_latest_module_version"@);
                reveal_strlit("get_latest_provider_version");
                assert("get_latest_provider_version"@.len() == 27);
                assert("get_resource_dependency_graph"@ != "get_latest_provider_version"@);
                reveal_strlit("analyze_module_health");
                assert("analyze_module_health"@.len() == 21);
                assert("get_resource_dependency_graph"@ != "analyze_module_health"@);
            }
        },
        SessionTool::SuggestModuleRefactoring => {
            assert(session_tool_of(session_tool_name(t)) == t) by {
                reveal_strlit("suggest_module_refactoring");
                assert("suggest_module_refactoring"@.len() == 26);
                reveal_strlit("list_terraform_resources");
                assert("list_terraform_resources"@.len() == 24);
                assert("suggest_module_refactoring"@ != "list_terraform_resources"@);
                reveal_strlit("analyze_terraform");
                assert("analyze_terraform"@.len() == 17);
                assert("suggest_module_refactoring"@ != "analyze_terraform"@);
                reveal_strlit("get_terraform_plan");
                assert("get_terraform_plan"@.len() == 18);
                assert("suggest_module_refactoring"@ != "get_terraform_plan"@);
                reveal_strlit("apply_terraform");
                assert("apply_terraform"@.len() == 15);
                assert("suggest_module_refactoring"@ != "apply_terraform"@);
                reveal_strlit("destroy_terraform");
                assert("destroy_terraform"@.len() == 17);
                assert("suggest_module_refactoring"@ != "destroy_terraform"@);
                reveal_strlit("validate_terraform");
                assert("validate_terraform"@.len() == 18);
                assert("suggest_module_refactoring"@ != "validate_terraform"@);
                reveal_strlit("validate_terraform_detailed");
                assert("validate_terraform_detailed"@.len() == 27);
                assert("suggest_module_refactoring"@ != "validate_terraform_detailed"@);
                reveal_strlit("get_terraform_state");
                assert("get_terraform_state"@.len() == 19);
                assert("suggest_module_refactoring"@ != "get_terraform_state"@);
                reveal_strlit("init_terraform");
                assert("init_terraform"@.len() == 14);
                assert("suggest_module_refactoring"@ != "init_terraform"@);
                reveal_strlit("set_terraform_directory");
                assert("set_terraform_directory"@.len() == 23);
                assert("suggest_module_refactoring"@ != "set_terraform_directory"@);
                reveal_strlit("get_security_status");
                assert("get_security_status"@.len() == 19);
                assert("suggest_module_refactoring"@ != "get_security_status"@);
                reveal_strlit("search_terraform_providers");
                assert("search_terraform_providers"@.len() == 26);
                assert("suggest_module_refactoring"@[1] != "search_terraform_providers"@[1]);
                assert("suggest_module_refactoring"@ != "search_terraform_providers"@);
                reveal_strlit("get_provider_info");
                assert("get_provider_info"@.len() == 17);
                assert("suggest_module_refactoring"@ != "get_provider_info"@);
                reveal_strlit("get_provider_docs");
                assert("get_provider_docs"@.len() == 17);
                assert("suggest_module_refactoring"@ != "get_provider_docs"@);
                reveal_strlit("search_terraform_modules");
                assert("search_terraform_modules"@.len() == 24);
                assert("suggest_module_refactoring"@ != "search_terraform_modules"@);
                reveal_strlit("get_module_details");
                assert("get_module_details"@.len() == 18);
                assert("suggest_module_refactoring"@ != "get_module_details"@);
                reveal_strlit("get_latest_module_version");
                assert("get_latest_module_version"@.len() == 25);
                assert("suggest_module_refactoring"@ != "get_latest_module_version"@);
                reveal_strlit("get_latest_provider_version");
                assert("get_latest_provider_version"@.len() == 27);
                assert("suggest_module_refactoring"@ != "get_latest_provider_version"@);
                reveal_strlit("analyze_module_health");
                assert("analyze_module_health"@.len() == 21);
                assert("suggest_module_refactoring"@ != "analyze_module_health"@);
                reveal_strlit("get_resource_dependency_graph");
                assert("get_resource_dependency_graph"@.len() == 29);
                assert("suggest_module_refactoring"@ != "get_resource_dependency_graph"@);
            }
        },
        SessionTool::NotFound => {},
    }
}

/// The name a `tools/call` request gives: its `name` parameter, or the empty text.
pub open spec fn called_tool_name(params: JsonValue) -> Seq<char> {
    match json_as_str(json_get(params, "name"@)) {
        Some(n) => n,
        None => Seq::empty(),
    }
}

/// The name of the tool a `tools/call` request asks for.
pub fn called_tool(params: &JsonValue) -> (r: String)
    ensures
        r@ == called_tool_name(*params),
{
    match get_str(params, "name") {
        Some(n) => n.to_owned(),
        None => String::new(),
    }
}

/// Selects the tool of a `tools/call` request by name.
pub fn route_tool(name: &str) -> (r: SessionTool)
    ensures
        r == session_tool_of(name@),
        r != SessionTool::NotFound ==> session_tool_name(r) == name@,
{
    proof {
        law_tool_routing_by_name(SessionTool::NotFound, name@);
    }
    if text_eq(name, "list_terraform_resources") {
        SessionTool::ListTerraformResources
    } else if text_eq(name, "analyze_terraform") {
        SessionTool::AnalyzeTerraform
    } else if text_eq(name, "get_terraform_plan") {
        SessionTool::GetTerraformPlan
    } else if text_eq(name, "apply_terraform") {
        SessionTool::ApplyTerraform
    } else if text_eq(name, "destroy_terraform") {
        SessionTool::DestroyTerraform
    } else if text_eq(name, "validate_terraform") {
        SessionTool::ValidateTerraform
    } else if text_eq(name, "validate_terraform_detailed") {
        SessionTool::ValidateTerraformDetailed
    } else if text_eq(name, "get_terraform_state") {
        SessionTool::GetTerraformState
    } else if text_eq(name, "init_terraform") {
        SessionTool::InitTerraform
    } else if text_eq(name, "set_terraform_directory") {
        SessionTool::SetTerraformDirectory
    } else if text_eq(name, "get_security_status") {
        SessionTool::GetSecurityStatus
    } else if text_eq(name, "search_terraform_providers") {
        SessionTool::SearchTerraformProviders
    } else if text_eq(name, "get_provider_info") {
        SessionTool::GetProviderInfo
    } else if text_eq(name, "get_provider_docs") {
        SessionTool::GetProviderDocs
    } else if text_eq(name, "search_terraform_modules") {
        SessionTool::SearchTerraformModules
    } else if text_eq(name, "get_module_details") {
        SessionTool::GetModuleDetails
    } else if text_eq(name, "get_latest_module_version") {
        SessionTool::GetLatestModuleVersion
    } else if text_eq(name, "get_latest_provider_version") {
        SessionTool::GetLatestProviderVersion
    } else if text_eq(name, "analyze_module_health") {
        SessionTool::AnalyzeModuleHealth
    } else if text_eq(name, "get_resource_dependency_graph") {
        SessionTool::GetResourceDependencyGraph
    } else if text_eq(name, "suggest_module_refactoring") {
        SessionTool::SuggestModuleRefactoring
    } else {
        SessionTool::NotFound
    }
}

/// The error text for a tool the session does not have.
pub fn tool_not_found_text(name: &str) -> (r: String)
    ensures
        r@ == "Tool not found: "@ + name@,
{
    let r = join_all(&vec!["Tool not found: ", name]);
    proof {
        reveal_with_fuel(joined, 3);
    }
    r
}

/// A guide the stdio session serves.
#[derive(Debug, Clone, Copy, PartialEq, Eq, Structural)]
pub enum SessionGuide {
    StyleGuide,
    ModuleDevelopment,
    BestPractices,
}

/// The guide a `resources/read` request of the stdio session asks for, or the
/// `InvalidParams` error text when it gives no address or an unknown one.
pub open spec fn session_resource_of(params: JsonValue) -> Result<SessionGuide, Seq<char>> {
    match json_as_str(json_get(params, "uri"@)) {
        None => Err("Missing required parameter: uri"@),
        Some(uri) => if uri == "terraform://style-guide"@ {
            Ok(SessionGuide::StyleGuide)
        } else if uri == "terraform://module-development"@ {
            Ok(SessionGuide::ModuleDevelopment)
        } else if uri == "terraform://best-practices"@ {
            Ok(SessionGuide::BestPractices)
        } else {
            Err("Unknown resource URI: "@ + uri)
        },
    }
}

/// Resolves a `resources/read` request of the stdio session; every guide is served
/// as `text/markdown`.
pub fn session_resource(params: &JsonValue) -> (r: Result<SessionGuide, String>)
    ensures
        match r {
            Ok(g) => session_resource_of(*params) == Ok::<SessionGuide, Seq<char>>(g),
            Err(m) => session_resource_of(*params) == Err::<SessionGuide, Seq<char>>(m@),
        },
{
    let uri = match get_str(params, "uri") {
        Some(u) => u,
        None => return Err("Missing required parameter: uri".to_owned()),
    };
    if text_eq(uri, "terraform://style-guide") {
        Ok(SessionGuide::StyleGuide)
    } else if text_eq(uri, "terraform://module-development") {
        Ok(SessionGuide::ModuleDevelopment)
    } else if text_eq(uri, "terraform://best-practices") {
        Ok(SessionGuide::BestPractices)
    } else {
        let m = join_all(&vec!["Unknown resource URI: ", uri]);
        proof {
            reveal_with_fuel(joined, 3);
        }
        Err(m)
    }
}

/// The argument `name` of a `tools/call` request: the member `name` of its
/// `arguments` object.
pub open spec fn argument_of(params: JsonValue, name: Seq<char>) -> Option<JsonValue> {
    match json_get(params, "arguments"@) {
        Some(a) => json_get(a, name),
        None => None,
    }
}

/// The text argument `name`, if it is there and a string.
pub fn string_argument<'a>(params: &'a JsonValue, name: &str) -> (r: Option<&'a str>)
    ensures
        match json_as_str(argument_of(*params, name@)) {
            Some(v) => r matches Some(x) && x@ == v,
            None => r is None,
        },
{
    match params.get("arguments") {
        Some(a) => get_str(a, name),
        None => None,
    }
}

/// The text argument `name`, or the `InvalidParams` error a tool answers when it is
/// missing.
pub fn required_argument(params: &JsonValue, name: &str) -> (r: Result<String, (JsonRpcErrorCode, String)>)
    ensures
        match json_as_str(argument_of(*params, name@)) {
            Some(v) => r matches Ok(x) && x@ == v,
            None => r matches Err(e) && e.0 == JsonRpcErrorCode::InvalidParams && e.1@
                == "Missing required parameter: "@ + name@,
        },
{
    match string_argument(params, name) {
        Some(v) => Ok(v.to_owned()),
        None => {
            let m = join_all(&vec!["Missing required parameter: ", name]);
            proof {
                reveal_with_fuel(joined, 3);
            }
            Err((JsonRpcErrorCode::InvalidParams, m))
        },
    }
}

/// The boolean argument `name`, or `default` when it is missing or no boolean.
pub fn bool_argument(params: &JsonValue, name: &str, default: bool) -> (r: bool)
    ensures
        r == match crate::json::json_as_bool(argument_of(*params, name@)) {
            Some(b) => b,
            None => default,
        },
{
    match params.get("arguments") {
        Some(a) => match crate::json::get_bool(a, name) {
            Some(b) => b,
            None => default,
        },
        None => default,
    }
}

/// The error a tool answers when its operation failed: an internal error whose text
/// is the failure prefix, a colon and the error.
pub fn tool_failure(prefix: &str, error: &str) -> (r: (JsonRpcErrorCode, String))
    ensures
        r.0 == JsonRpcErrorCode::InternalError,
        r.1@ == prefix@ + ": "@ + error@,
{
    let m = join_all(&vec![prefix, ": ", error]);
    proof {
        reveal_with_fuel(joined, 4);
    }
    (JsonRpcErrorCode::InternalError, m)
}

/// The message of a successful change of the project directory.
pub fn directory_changed_message(directory: &str) -> (r: String)
    ensures
        r@ == "Successfully changed to Terraform project directory: "@ + directory@,
{
    let m = join_all(&vec!["Successfully changed to Terraform project directory: ", directory]);
    proof {
        reveal_with_fuel(joined, 3);
    }
    m
}

/// The guides the stdio session lists.
pub fn session_resource_listing() -> (r: Vec<ResourceEntry>)
    ensures
        r@.len() == 3,
        entry_view(r@[0]) == ("terraform://style-guide"@, "Terraform Style Guide"@, "Official Terraform style guide with best practices for HCL formatting, naming conventions, and code organization"@, "text/markdown"@),
        entry_view(r@[1]) == ("terraform://module-development"@, "Terraform Module Development Guide"@, "Comprehensive guide on module composition, structure, providers, publishing, and refactoring"@, "text/markdown"@),
        entry_view(r@[2]) == ("terraform://best-practices"@, "Terraform Best Practices"@, "Security, performance, and operational best practices for Terraform configurations"@, "text/markdown"@),
{
    vec![
        ResourceEntry {
            uri: "terraform://style-guide",
            name: "Terraform Style Guide",
            description: "Official Terraform style guide with best practices for HCL formatting, naming conventions, and code organization",
            mime_type: "text/markdown",
        },
        ResourceEntry {
            uri: "terraform://module-development",
            name: "Terraform Module Development Guide",
            description: "Comprehensive guide on module composition, structure, providers, publishing, and refactoring",
            mime_type: "text/markdown",
        },
        ResourceEntry {
            uri: "terraform://best-practices",
            name: "Terraform Best Practices",
            description: "Security, performance, and operational best practices for Terraform configurations",
            mime_type: "text/markdown",
        },
    ]
}

/// Whether the session whose tools are split among the Terraform, registry and
/// security handlers serves a tool: the local Terraform tools, the provider search,
/// information and documentation tools, and the security status; every other tool
/// is not found there.
pub open spec fn split_session_serves(tool: SessionTool) -> bool {
    match tool {
        SessionTool::ListTerraformResources => true,
        SessionTool::AnalyzeTerraform => true,
        SessionTool::GetTerraformPlan => true,
        SessionTool::ApplyTerraform => true,
        SessionTool::DestroyTerraform => true,
        SessionTool::ValidateTerraform => true,
        SessionTool::ValidateTerraformDetailed => true,
        SessionTool::GetTerraformState => true,
        SessionTool::InitTerraform => true,
        SessionTool::SetTerraformDirectory => true,
        SessionTool::SearchTerraformProviders => true,
        SessionTool::GetProviderInfo => true,
        SessionTool::GetProviderDocs => true,
        SessionTool::GetSecurityStatus => true,
        _ => false,
    }
}

/// Whether the split session serves `tool`.
pub fn split_handler_serves(tool: SessionTool) -> (r: bool)
    ensures
        r == split_session_serves(tool),
{
    match tool {
        SessionTool::ListTerraformResources => true,
        SessionTool::AnalyzeTerraform => true,
        SessionTool::GetTerraformPlan => true,
        SessionTool::ApplyTerraform => true,
        SessionTool::DestroyTerraform => true,
        SessionTool::ValidateTerraform => true,
        SessionTool::ValidateTerraformDetailed => true,
        SessionTool::GetTerraformState => true,
        SessionTool::InitTerraform => true,
        SessionTool::SetTerraformDirectory => true,
        SessionTool::SearchTerraformProviders => true,
        SessionTool::GetProviderInfo => true,
        SessionTool::GetProviderDocs => true,
        SessionTool::GetSecurityStatus => true,
        _ => false,
    }
}

/// The text argument `name` of a `tools/call` request.
pub open spec fn text_arg(params: JsonValue, name: Seq<char>) -> Option<Seq<char>> {
    json_as_str(argument_of(params, name))
}

/// The boolean argument `name`, `false` when missing.
pub open spec fn flag_arg(params: JsonValue, name: Seq<char>) -> bool {
    match crate::json::json_as_bool(argument_of(params, name)) {
        Some(b) => b,
        None => false,
    }
}

pub open spec fn opt_text_view(o: Option<String>) -> Option<Seq<char>> {
    match o {
        Some(s) => Some(s@),
        None => None,
    }
}

/// A stdio tool call with its arguments read.
#[derive(Debug, PartialEq, Eq)]
pub enum SessionToolRequest {
    ListTerraformResources,
    AnalyzeTerraform { path: Option<String> },
    GetTerraformPlan,
    ApplyTerraform { auto_approve: bool },
    DestroyTerraform { auto_approve: bool },
    ValidateTerraform,
    ValidateTerraformDetailed,
    GetTerraformState,
    InitTerraform,
    SetTerraformDirectory { directory: String },
    GetSecurityStatus,
    SearchTerraformProviders { query: String },
    GetProviderInfo { provider_name: String, namespace: Option<String> },
    GetProviderDocs { provider_name: String, service_slug: String, namespace: Option<String>, data_type: String },
    SearchTerraformModules { query: String },
    GetModuleDetails { namespace: String, name: String, provider: String, version: Option<String> },
    GetLatestModuleVersion { namespace: String, name: String, provider: String },
    GetLatestProviderVersion { provider_name: String, namespace: Option<String> },
    AnalyzeModuleHealth,
    GetResourceDependencyGraph,
    SuggestModuleRefactoring,
}

/// The refusal of a call that lacks the required argument `name`.
pub open spec fn missing_arg(name: Seq<char>) -> (JsonRpcErrorCode, Seq<char>) {
    (JsonRpcErrorCode::InvalidParams, "Missing required parameter: "@ + name)
}

pub open spec fn refusal_view(e: (JsonRpcErrorCode, String)) -> (JsonRpcErrorCode, Seq<char>) {
    (e.0, e.1@)
}

/// Whether `r` is how a stdio session reads the arguments of a call of `tool`: the
/// required ones in order, the first missing one refused, optional ones as given,
/// flags `false` and the documentation kind `resources` unless given.
pub open spec fn tool_request_ok(tool: SessionTool, params: JsonValue, r: Result<SessionToolRequest, (JsonRpcErrorCode, String)>) -> bool {
    match tool {
        SessionTool::ListTerraformResources => r == Ok::<SessionToolRequest, (JsonRpcErrorCode, String)>(SessionToolRequest::ListTerraformResources),
        SessionTool::AnalyzeTerraform => r matches Ok(SessionToolRequest::AnalyzeTerraform { path }) && opt_text_view(path) == text_arg(params, "path"@),
        SessionTool::GetTerraformPlan => r == Ok::<SessionToolRequest, (JsonRpcErrorCode, String)>(SessionToolRequest::GetTerraformPlan),
        SessionTool::ApplyTerraform => r == Ok::<SessionToolRequest, (JsonRpcErrorCode, String)>(SessionToolRequest::ApplyTerraform { auto_approve: flag_arg(params, "auto_approve"@) }),
        SessionTool::DestroyTerraform => r == Ok::<SessionToolRequest, (JsonRpcErrorCode, String)>(SessionToolRequest::DestroyTerraform { auto_approve: flag_arg(params, "auto_approve"@) }),
        SessionTool::ValidateTerraform => r == Ok::<SessionToolRequest, (JsonRpcErrorCode, String)>(SessionToolRequest::ValidateTerraform),
        SessionTool::ValidateTerraformDetailed => r == Ok::<SessionToolRequest, (JsonRpcErrorCode, String)>(SessionToolRequest::ValidateTerraformDetailed),
        SessionTool::GetTerraformState => r == Ok::<SessionToolRequest, (JsonRpcErrorCode, String)>(SessionToolRequest::GetTerraformState),
        SessionTool::InitTerraform => r == Ok::<SessionToolRequest, (JsonRpcErrorCode, String)>(SessionToolRequest::InitTerraform),
        SessionTool::SetTerraformDirectory => match text_arg(params, "directory"@) {
            None => r matches Err(e) && refusal_view(e) == missing_arg("directory"@),
            Some(d) => r matches Ok(SessionToolRequest::SetTerraformDirectory { directory }) && directory@ == d,
        },
        SessionTool::GetSecurityStatus => r == Ok::<SessionToolRequest, (JsonRpcErrorCode, String)>(SessionToolRequest::GetSecurityStatus),
        SessionTool::SearchTerraformProviders => match text_arg(params, "query"@) {
            None => r matches Err(e) && refusal_view(e) == missing_arg("query"@),
            Some(q) => r matches Ok(SessionToolRequest::SearchTerraformProviders { query }) && query@ == q,
        },
        SessionTool::GetProviderInfo => match text_arg(params, "provider_name"@) {
            None => r matches Err(e) && refusal_view(e) == missing_arg("provider_name"@),
            Some(p) => r matches Ok(SessionToolRequest::GetProviderInfo { provider_name, namespace })
                && provider_name@ == p && opt_text_view(namespace) == text_arg(params, "namespace"@),
        },
        SessionTool::GetProviderDocs => match (text_arg(params, "provider_name"@), text_arg(params, "service_slug"@)) {
            (None, _) => r matches Err(e) && refusal_view(e) == missing_arg("provider_name"@),
            (Some(_), None) => r matches Err(e) && refusal_view(e) == missing_arg("service_slug"@),
            (Some(p), Some(sl)) => r matches Ok(SessionToolRequest::GetProviderDocs { provider_name, service_slug, namespace, data_type })
                && provider_name@ == p && service_slug@ == sl && opt_text_view(namespace) == text_arg(params, "namespace"@)
                && data_type@ == match text_arg(params, "data_type"@) {
                    Some(d) => d,
                    None => "resources"@,
                },
        },
        SessionTool::SearchTerraformModules => match text_arg(params, "query"@) {
            None => r matches Err(e) && refusal_view(e) == missing_arg("query"@),
            Some(q) => r matches Ok(SessionToolRequest::SearchTerraformModules { query }) && query@ == q,
        },
        SessionTool::GetModuleDetails => match (text_arg(params, "namespace"@), text_arg(params, "name"@), text_arg(params, "provider"@)) {
            (None, _, _) => r matches Err(e) && refusal_view(e) == missing_arg("namespace"@),
            (Some(_), None, _) => r matches Err(e) && refusal_view(e) == missing_arg("name"@),
            (Some(_), Some(_), None) => r matches Err(e) && refusal_view(e) == missing_arg("provider"@),
            (Some(ns), Some(n), Some(p)) => r matches Ok(SessionToolRequest::GetModuleDetails { namespace, name, provider, version })
                && namespace@ == ns && name@ == n && provider@ == p && opt_text_view(version) == text_arg(params, "version"@),
        },
        SessionTool::GetLatestModuleVersion => match (text_arg(params, "namespace"@), text_arg(params, "name"@), text_arg(params, "provider"@)) {
            (None, _, _) => r matches Err(e) && refusal_view(e) == missing_arg("namespace"@),
            (Some(_), None, _) => r matches Err(e) && refusal_view(e) == missing_arg("name"@),
            (Some(_), Some(_), None) => r matches Err(e) && refusal_view(e) == missing_arg("provider"@),
            (Some(ns), Some(n), Some(p)) => r matches Ok(SessionToolRequest::GetLatestModuleVersion { namespace, name, provider })
                && namespace@ == ns && name@ == n && provider@ == p,
        },
        SessionTool::GetLatestProviderVersion => match text_arg(params, "provider_name"@) {
            None => r matches Err(e) && refusal_view(e) == missing_arg("provider_name"@),
            Some(p) => r matches Ok(SessionToolRequest::GetLatestProviderVersion { provider_name, namespace })
                && provider_name@ == p && opt_text_view(namespace) == text_arg(params, "namespace"@),
        },
        SessionTool::AnalyzeModuleHealth => r == Ok::<SessionToolRequest, (JsonRpcErrorCode, String)>(SessionToolRequest::AnalyzeModuleHealth),
        SessionTool::GetResourceDependencyGraph => r == Ok::<SessionToolRequest, (JsonRpcErrorCode, String)>(SessionToolRequest::GetResourceDependencyGraph),
        SessionTool::SuggestModuleRefactoring => r == Ok::<SessionToolRequest, (JsonRpcErrorCode, String)>(SessionToolRequest::SuggestModuleRefactoring),
        SessionTool::NotFound => false,
    }
}

fn optional_argument(params: &JsonValue, name: &str) -> (r: Option<String>)
    ensures
        opt_text_view(r) == text_arg(*params, name@),
{
    match string_argument(params, name) {
        Some(v) => Some(v.to_owned()),
        None => None,
    }
}

/// Reads the arguments of a call of `tool`, or says which required one is missing.
pub fn session_tool_request(tool: SessionTool, params: &JsonValue) -> (r: Result<SessionToolRequest, (JsonRpcErrorCode, String)>)
    requires
        tool != SessionTool::NotFound,
    ensures
        tool_request_ok(tool, *params, r),
{
    match tool {
        SessionTool::ListTerraformResources => Ok(SessionToolRequest::ListTerraformResources),
        SessionTool::AnalyzeTerraform => Ok(SessionToolRequest::AnalyzeTerraform { path: optional_argument(params, "path") }),
        SessionTool::GetTerraformPlan => Ok(SessionToolRequest::GetTerraformPlan),
        SessionTool::ApplyTerraform => Ok(SessionToolRequest::ApplyTerraform { auto_approve: bool_argument(params, "auto_approve", false) }),
        SessionTool::DestroyTerraform => Ok(SessionToolRequest::DestroyTerraform { auto_approve: bool_argument(params, "auto_approve", false) }),
        SessionTool::ValidateTerraform => Ok(SessionToolRequest::ValidateTerraform),
        SessionTool::ValidateTerraformDetailed => Ok(SessionToolRequest::ValidateTerraformDetailed),
        SessionTool::GetTerraformState => Ok(SessionToolRequest::GetTerraformState),
        SessionTool::InitTerraform => Ok(SessionToolRequest::InitTerraform),
        SessionTool::SetTerraformDirectory => {
            let directory = required_argument(params, "directory")?;
            Ok(SessionToolRequest::SetTerraformDirectory { directory })
        },
        SessionTool::GetSecurityStatus => Ok(SessionToolRequest::GetSecurityStatus),
        SessionTool::SearchTerraformProviders => {
            let query = required_argument(params, "query")?;
            Ok(SessionToolRequest::SearchTerraformProviders { query })
        },
        SessionTool::GetProviderInfo => {
            let provider_name = required_argument(params, "provider_name")?;
            Ok(SessionToolRequest::GetProviderInfo { provider_name, namespace: optional_argument(params, "namespace") })
        },
        SessionTool::GetProviderDocs => {
            let provider_name = required_argument(params, "provider_name")?;
            let service_slug = required_argument(params, "service_slug")?;
            let data_type = match string_argument(params, "data_type") {
                Some(d) => d.to_owned(),
                None => "resources".to_owned(),
            };
            Ok(SessionToolRequest::GetProviderDocs {
                provider_name,
                service_slug,
                namespace: optional_argument(params, "namespace"),
                data_type,
            })
        },
        SessionTool::SearchTerraformModules => {
            let query = required_argument(params, "query")?;
            Ok(SessionToolRequest::SearchTerraformModules { query })
        },
        SessionTool::GetModuleDetails => {
            let namespace = required_argument(params, "namespace")?;
            let name = required_argument(params, "name")?;
            let provider = required_argument(params, "provider")?;
            Ok(SessionToolRequest::GetModuleDetails { namespace, name, provider, version: optional_argument(params, "version") })
        },
        SessionTool::GetLatestModuleVersion => {
            let namespace = required_argument(params, "namespace")?;
            let name = required_argument(params, "name")?;
            let provider = required_argument(params, "provider")?;
            Ok(SessionToolRequest::GetLatestModuleVersion { namespace, name, provider })
        },
        SessionTool::GetLatestProviderVersion => {
            let provider_name = required_argument(params, "provider_name")?;
            Ok(SessionToolRequest::GetLatestProviderVersion { provider_name, namespace: optional_argument(params, "namespace") })
        },
        SessionTool::AnalyzeModuleHealth => Ok(SessionToolRequest::AnalyzeModuleHealth),
        SessionTool::GetResourceDependencyGraph => Ok(SessionToolRequest::GetResourceDependencyGraph),
        SessionTool::SuggestModuleRefactoring => Ok(SessionToolRequest::SuggestModuleRefactoring),
        SessionTool::NotFound => vstd::pervasive::unreached(),
    }
}

/// How a failed stdio tool call is reported; the security status has no failure of
/// its own.
pub open spec fn session_failure_prefix(tool: SessionTool) -> Option<Seq<char>> {
    match tool {
        SessionTool::ListTerraformResources => Some("Failed to list Terraform resources"@),
        SessionTool::AnalyzeTerraform => Some("Failed to analyze Terraform configuration"@),
        SessionTool::GetTerraformPlan => Some("Failed to get Terraform plan"@),
        SessionTool::ApplyTerraform => Some("Failed to apply Terraform configuration"@),
        SessionTool::DestroyTerraform => Some("Failed to destroy Terraform resources"@),
        SessionTool::ValidateTerraform => Some("Failed to validate Terraform configuration"@),
        SessionTool::ValidateTerraformDetailed => Some("Failed to perform detailed validation"@),
        SessionTool::GetTerraformState => Some("Failed to get Terraform state"@),
        SessionTool::InitTerraform => Some("Failed to initialize Terraform"@),
        SessionTool::SetTerraformDirectory => Some("Failed to change Terraform directory"@),
        SessionTool::SearchTerraformProviders => Some("Failed to search providers"@),
        SessionTool::GetProviderInfo => Some("Failed to get provider info"@),
        SessionTool::GetProviderDocs => Some("Failed to get provider documentation"@),
        SessionTool::SearchTerraformModules => Some("Failed to search modules"@),
        SessionTool::GetModuleDetails => Some("Failed to get module details"@),
        SessionTool::GetLatestModuleVersion => Some("Failed to get latest module version"@),
        SessionTool::GetLatestProviderVersion => Some("Failed to get latest provider version"@),
        SessionTool::AnalyzeModuleHealth => Some("Failed to analyze module health"@),
        SessionTool::GetResourceDependencyGraph => Some("Failed to build dependency graph"@),
        SessionTool::SuggestModuleRefactoring => Some("Failed to generate refactoring suggestions"@),
        _ => None,
    }
}

/// How a failed stdio tool call is reported.
pub fn session_tool_failure_prefix(tool: SessionTool) -> (r: Option<&'static str>)
    ensures
        match r {
            Some(p) => session_failure_prefix(tool) == Some(p@),
            None => session_failure_prefix(tool) is None,
        },
{
    match tool {
        SessionTool::ListTerraformResources => Some("Failed to list Terraform resources"),
        SessionTool::AnalyzeTerraform => Some("Failed to analyze Terraform configuration"),
        SessionTool::GetTerraformPlan => Some("Failed to get Terraform plan"),
        SessionTool::ApplyTerraform => Some("Failed to apply Terraform configuration"),
        SessionTool::DestroyTerraform => Some("Failed to destroy Terraform resources"),
        SessionTool::ValidateTerraform => Some("Failed to validate Terraform configuration"),
        SessionTool::ValidateTerraformDetailed => Some("Failed to perform detailed validation"),
        SessionTool::GetTerraformState => Some("Failed to get Terraform state"),
        SessionTool::InitTerraform => Some("Failed to initialize Terraform"),
        SessionTool::SetTerraformDirectory => Some("Failed to change Terraform directory"),
        SessionTool::SearchTerraformProviders => Some("Failed to search providers"),
        SessionTool::GetProviderInfo => Some("Failed to get provider info"),
        SessionTool::GetProviderDocs => Some("Failed to get provider documentation"),
        SessionTool::SearchTerraformModules => Some("Failed to search modules"),
        SessionTool::GetModuleDetails => Some("Failed to get module details"),
        SessionTool::GetLatestModuleVersion => Some("Failed to get latest module version"),
        SessionTool::GetLatestProviderVersion => Some("Failed to get latest provider version"),
        SessionTool::AnalyzeModuleHealth => Some("Failed to analyze module health"),
        SessionTool::GetResourceDependencyGraph => Some("Failed to build dependency graph"),
        SessionTool::SuggestModuleRefactoring => Some("Failed to generate refactoring suggestions"),
        _ => None,
    }
}

} // verus!
