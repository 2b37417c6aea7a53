//! The per-request decisions of the HTTP transport: which route a request is
//! counted under, how its method and body size are reported, and the security
//! settings the status tool reports.
use crate::text::{chars_of, parse_unsigned, parse_unsigned_chars, text_eq};
use crate::transport::HttpTransportConfig;
use vstd::prelude::*;

verus! {

/// The routes requests are counted under.
#[derive(Debug, Clone)]
pub struct HttpMetricRoutes {
    pub mcp: String,
    pub health: String,
    pub metrics: String,
}

/// The route a request for `path` is counted under: one of the served endpoints, or
/// `unmatched`.
pub open spec fn metric_route_of(routes: HttpMetricRoutes, path: Seq<char>) -> Seq<char> {
    if path == routes.mcp@ {
        routes.mcp@
    } else if path == routes.health@ {
        routes.health@
    } else if path == routes.metrics@ {
        routes.metrics@
    } else {
        "unmatched"@
    }
}

impl HttpMetricRoutes {
    /// The routes of the endpoints a configuration serves.
    pub fn from_config(config: &HttpTransportConfig) -> (r: Self)
        ensures
            r.mcp@ == config.endpoint@,
            r.health@ == config.health_endpoint@,
            r.metrics@ == config.metrics_endpoint@,
    {
        HttpMetricRoutes {
            mcp: config.endpoint.clone(),
            health: config.health_endpoint.clone(),
            metrics: config.metrics_endpoint.clone(),
        }
    }

    /// The route a request for `path` is counted under.
    pub fn metric_route(&self, path: &str) -> (r: &str)
        ensures
            r@ == metric_route_of(*self, path@),
    {
        if text_eq(path, self.mcp.as_str()) {
            self.mcp.as_str()
        } else if text_eq(path, self.health.as_str()) {
            self.health.as_str()
        } else if text_eq(path, self.metrics.as_str()) {
            self.metrics.as_str()
        } else {
            "unmatched"
        }
    }
}

/// How a request method is reported: the four the server serves by name, any other
/// as `OTHER`.
pub fn method_label(method: &str) -> (r: &'static str)
    ensures
        r@ == if method@ == "GET"@ {
            "GET"@
        } else if method@ == "POST"@ {
            "POST"@
        } else if method@ == "DELETE"@ {
            "DELETE"@
        } else if method@ == "OPTIONS"@ {
            "OPTIONS"@
        } else {
            "OTHER"@
        },
{
    if text_eq(method, "GET") {
        "GET"
    } else if text_eq(method, "POST") {
        "POST"
    } else if text_eq(method, "DELETE") {
        "DELETE"
    } else if text_eq(method, "OPTIONS") {
        "OPTIONS"
    } else {
        "OTHER"
    }
}

/// The body size a `Content-Length` header gives, when it is present and a number.
pub fn content_length(value: Option<&str>) -> (r: Option<u64>)
    ensures
        match value {
            None => r is None,
            Some(v) => match parse_unsigned(v@, u64::MAX as nat) {
                Ok(n) => r == Some(n as u64),
                Err(_) => r is None,
            },
        },
{
    match value {
        None => None,
        Some(v) => {
            let chars = chars_of(v);
            match parse_unsigned_chars(&chars, u64::MAX) {
                Ok(n) => Some(n),
                Err(_) => None,
            }
        },
    }
}

/// Whether an environment flag is set to exactly `true`.
pub fn flag_is_true(value: Option<&str>) -> (r: bool)
    ensures
        r == (value matches Some(v) && v@ == "true"@),
{
    match value {
        Some(v) => text_eq(v, "true"),
        None => false,
    }
}

/// What a security status reports the server may do.
#[derive(Debug, Clone, Copy, PartialEq, Eq, Structural)]
pub struct SecurityPermissions {
    pub apply: bool,
    pub destroy: bool,
    pub init: bool,
    pub plan: bool,
    pub validate: bool,
}

impl SecurityPermissions {
    /// The permissions under the dangerous-operations flag: apply and destroy only
    /// when it is set; init, plan and validate always.
    pub fn from_policy(allow_dangerous: bool) -> (r: Self)
        ensures
            r == (SecurityPermissions {
                apply: allow_dangerous,
                destroy: allow_dangerous,
                init: true,
                plan: true,
                validate: true,
            }),
    {
        SecurityPermissions {
            apply: allow_dangerous,
            destroy: allow_dangerous,
            init: true,
            plan: true,
            validate: true,
        }
    }
}

/// How a security scan went.
pub fn scan_status(completed: bool) -> (r: &'static str)
    ensures
        r@ == if completed {
            "completed"@
        } else {
            "failed"@
        },
{
    if completed {
        "completed"
    } else {
        "failed"
    }
}

} // verus!
