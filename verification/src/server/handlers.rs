//! The stdio handlers: the answers they give that depend on nothing outside.
use crate::json::{json_as_str, json_get, JsonMember, JsonValue};
use crate::text::{chars_of, lowercase, parse_unsigned, parse_unsigned_chars, text_eq, to_lowercase};
use vstd::prelude::*;

verus! {

/// Answers the session messages: `initialize` and `prompts/list`.
#[derive(Debug, Clone, Copy)]
pub struct MessagesHandler;

/// Answers `resources/list`.
#[derive(Debug, Clone, Copy)]
pub struct ResourcesHandler;

/// Answers the security status tool.
#[derive(Debug, Clone, Copy)]
pub struct SecurityToolsHandler;

/// Answers the local Terraform tools.
#[derive(Debug, Clone, Copy)]
pub struct TerraformToolsHandler;

fn member(key: &str, value: JsonValue) -> (r: JsonMember)
    ensures
        r.key@ == key@,
        r.value == value,
{
    JsonMember { key: key.to_owned(), value }
}

fn string_value(s: &str) -> (r: JsonValue)
    ensures
        r matches JsonValue::String(t) && t@ == s@,
{
    JsonValue::String(s.to_owned())
}

/// Whether `v` is an object whose members are exactly `keys`, in order.
pub open spec fn object_keys(v: JsonValue, keys: Seq<Seq<char>>) -> bool {
    v matches JsonValue::Object(m) && m@.len() == keys.len() && forall|i: int|
        0 <= i < keys.len() ==> #[trigger] m@[i].key@ == keys[i]
}

/// Whether `v` is an object with exactly `keys`, in order, each set to `false`.
pub open spec fn false_flags(v: JsonValue, keys: Seq<Seq<char>>) -> bool {
    &&& object_keys(v, keys)
    &&& v matches JsonValue::Object(m) && forall|i: int|
        0 <= i < m@.len() ==> #[trigger] m@[i].value == JsonValue::Bool(false)
}

/// The capabilities the stdio session announces: no experimental features, and
/// prompts, resources and tools whose lists do not change.
pub open spec fn session_capabilities(v: JsonValue) -> bool {
    &&& object_keys(v, seq!["experimental"@, "prompts"@, "resources"@, "tools"@])
    &&& v matches JsonValue::Object(m) && object_keys(m@[0].value, Seq::empty()) && false_flags(
        m@[1].value,
        seq!["listChanged"@],
    ) && false_flags(m@[2].value, seq!["listChanged"@, "subscribe"@]) && false_flags(
        m@[3].value,
        seq!["listChanged"@],
    )
}

fn unchanging_list() -> (r: JsonValue)
    ensures
        false_flags(r, seq!["listChanged"@]),
{
    JsonValue::Object(vec![member("listChanged", JsonValue::Bool(false))])
}

impl MessagesHandler {
    pub fn new() -> (r: Self) {
        MessagesHandler
    }

    /// The result of `initialize`: the capabilities, the protocol version and who
    /// the server is.
    pub fn initialize_result(&self) -> (r: JsonValue)
        ensures
            object_keys(r, seq!["capabilities"@, "protocolVersion"@, "serverInfo"@]),
            r matches JsonValue::Object(m) && session_capabilities(m@[0].value) && json_as_str(Some(m@[1].value)) == Some("2024-11-05"@)
                && object_keys(m@[2].value, seq!["name"@, "version"@]) && (m@[2].value matches JsonValue::Object(s)
                && json_as_str(Some(s@[0].value)) == Some("tfmcp"@) && json_as_str(
                Some(s@[1].value),
            ) == Some("0.1.3"@)),
    {
        let resources = JsonValue::Object(
            vec![
                member("listChanged", JsonValue::Bool(false)),
                member("subscribe", JsonValue::Bool(false)),
            ],
        );
        let prompts = unchanging_list();
        let tools = unchanging_list();
        let capabilities = JsonValue::Object(
            vec![
                member("experimental", JsonValue::Object(Vec::new())),
                member("prompts", prompts),
                member("resources", resources),
                member("tools", tools),
            ],
        );
        let server_info = JsonValue::Object(
            vec![member("name", string_value("tfmcp")), member("version", string_value("0.1.3"))],
        );
        let r = JsonValue::Object(
            vec![
                member("capabilities", capabilities),
                member("protocolVersion", string_value("2024-11-05")),
                member("serverInfo", server_info),
            ],
        );
        r
    }

    /// The result of `prompts/list`: no prompts.
    pub fn prompts_list_result(&self) -> (r: JsonValue)
        ensures
            object_keys(r, seq!["prompts"@]),
            r matches JsonValue::Object(m) && m@[0].value matches JsonValue::Array(a) && a@.len() == 0,
    {
        JsonValue::Object(vec![member("prompts", JsonValue::Array(Vec::new()))])
    }
}

impl ResourcesHandler {
    pub fn new() -> (r: Self) {
        ResourcesHandler
    }

    /// The result of `resources/list`: no resources.
    pub fn resources_list_result(&self) -> (r: JsonValue)
        ensures
            object_keys(r, seq!["resources"@]),
            r matches JsonValue::Object(m) && m@[0].value matches JsonValue::Array(a) && a@.len() == 0,
    {
        JsonValue::Object(vec![member("resources", JsonValue::Array(Vec::new()))])
    }
}

impl TerraformToolsHandler {
    pub fn new() -> (r: Self) {
        TerraformToolsHandler
    }
}

/// The security policy the status tool reports.
#[derive(Debug, Clone, Copy, PartialEq, Eq, Structural)]
pub struct SecurityPolicySettings {
    pub allow_dangerous_operations: bool,
    pub allow_auto_approve: bool,
    pub max_resource_limit: Option<usize>,
    pub audit_enabled: bool,
}

/// A flag read in any case: `true` when it says `true`, `default` when it is unset.
pub open spec fn flag_setting(value: Option<Seq<char>>, default: bool) -> bool {
    match value {
        Some(v) => lowercase(v) == "true"@,
        None => default,
    }
}

/// A resource limit: the number the setting gives, if it is one.
pub open spec fn limit_setting(value: Option<Seq<char>>) -> Option<usize> {
    match value {
        Some(v) => match parse_unsigned(v, usize::MAX as nat) {
            Ok(n) => Some(n as usize),
            Err(_) => None,
        },
        None => None,
    }
}

pub open spec fn opt_str_view(o: Option<&str>) -> Option<Seq<char>> {
    match o {
        Some(s) => Some(s@),
        None => None,
    }
}

fn read_flag(value: Option<&str>, default: bool) -> (r: bool)
    ensures
        r == flag_setting(opt_str_view(value), default),
{
    match value {
        Some(v) => {
            let lower = to_lowercase(v);
            text_eq(lower.as_str(), "true")
        },
        None => default,
    }
}

impl SecurityToolsHandler {
    pub fn new() -> (r: Self) {
        SecurityToolsHandler
    }

    /// The policy the environment settings give: dangerous operations and auto-approve
    /// off unless set to `true`, a resource limit when one is given, auditing on
    /// unless set otherwise.
    pub fn policy_settings(
        &self,
        allow_dangerous: Option<&str>,
        allow_auto_approve: Option<&str>,
        max_resources: Option<&str>,
        audit_enabled: Option<&str>,
    ) -> (r: SecurityPolicySettings)
        ensures
            r.allow_dangerous_operations == flag_setting(opt_str_view(allow_dangerous), false),
            r.allow_auto_approve == flag_setting(opt_str_view(allow_auto_approve), false),
            r.max_resource_limit == limit_setting(opt_str_view(max_resources)),
            r.audit_enabled == flag_setting(opt_str_view(audit_enabled), true),
    {
        let limit = match max_resources {
            Some(v) => {
                let chars = chars_of(v);
                match parse_unsigned_chars(&chars, usize::MAX as u64) {
                    Ok(n) => Some(n as usize),
                    Err(_) => None,
                }
            },
            None => None,
        };
        SecurityPolicySettings {
            allow_dangerous_operations: read_flag(allow_dangerous, false),
            allow_auto_approve: read_flag(allow_auto_approve, false),
            max_resource_limit: limit,
            audit_enabled: read_flag(audit_enabled, true),
        }
    }

    /// The path patterns the policy blocks.
    pub fn blocked_patterns(&self) -> (r: Vec<&'static str>)
        ensures
            r@.len() == 5,
            r@[0]@ == "**/prod*/**"@,
            r@[1]@ == "**/production*/**"@,
            r@[2]@ == "**/*prod*.tf"@,
            r@[3]@ == "**/*production*.tf"@,
            r@[4]@ == "**/*secret*"@,
    {
        vec!["**/prod*/**", "**/production*/**", "**/*prod*.tf", "**/*production*.tf", "**/*secret*"]
    }

    /// The notes the status adds on how to change the policy.
    pub fn security_notes(&self) -> (r: Vec<&'static str>)
        ensures
            r@.len() == 4,
            r@[0]@ == "Set TFMCP_ALLOW_DANGEROUS_OPS=true to enable apply/destroy operations"@,
            r@[1]@ == "Set TFMCP_ALLOW_AUTO_APPROVE=true to enable auto-approve for dangerous operations"@,
            r@[2]@ == "Set TFMCP_MAX_RESOURCES=N to limit maximum resource count"@,
            r@[3]@ == "Audit logs are stored in ~/.tfmcp/audit.log by default"@,
    {
        vec![
            "Set TFMCP_ALLOW_DANGEROUS_OPS=true to enable apply/destroy operations",
            "Set TFMCP_ALLOW_AUTO_APPROVE=true to enable auto-approve for dangerous operations",
            "Set TFMCP_MAX_RESOURCES=N to limit maximum resource count",
            "Audit logs are stored in ~/.tfmcp/audit.log by default",
        ]
    }
}

} // verus!
