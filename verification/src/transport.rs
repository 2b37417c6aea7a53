//! MCP transport configuration: transport mode, HTTP endpoint settings and the health
//! report.
use crate::deployment::{
    controls_outcome, controls_spec, opt_text, ConfigError, ControlsView, DeploymentControls,
};
use crate::text::{
    append_str, ascii_lower, ascii_lower_chars, chars_of, concat, csv_items, decimal,
    int_error_text, parse_csv, parse_unsigned, parse_unsigned_chars, string_of, text_eq, texts,
    trim, trim_chars, IntParseError,
};
use vstd::prelude::*;

verus! {

/// The package version reported by the health endpoint.
pub const SERVER_VERSION: &'static str = "0.2.2";

/// How the server talks to its client.
#[derive(Debug, Clone, Copy, PartialEq, Eq, Structural)]
pub enum TransportMode {
    Stdio,
    StreamableHttp,
}

/// Whether HTTP sessions keep server-side state.
#[derive(Debug, Clone, Copy, PartialEq, Eq, Structural)]
pub enum HttpSessionMode {
    Stateful,
    Stateless,
}

/// Cross-origin policy of the HTTP transport.
#[derive(Debug, Clone, Copy, PartialEq, Eq, Structural)]
pub enum CorsMode {
    Strict,
    Development,
    Disabled,
}

/// The normalized spelling of a setting: trimmed, ASCII letters in lower case.
pub open spec fn normalized(s: Seq<char>) -> Seq<char> {
    ascii_lower(trim(s))
}

/// `TRANSPORT_MODE`: empty or `stdio`, or `streamable-http` or `http`, in any case and
/// with surrounding white space.
pub open spec fn transport_mode_spec(value: Seq<char>) -> Result<TransportMode, Seq<char>> {
    let n = normalized(value);
    if n == ""@ || n == "stdio"@ {
        Ok(TransportMode::Stdio)
    } else if n == "streamable-http"@ || n == "http"@ {
        Ok(TransportMode::StreamableHttp)
    } else {
        Err("unsupported TRANSPORT_MODE '"@ + n + "', expected 'stdio' or 'streamable-http'"@)
    }
}

impl TransportMode {
    /// Parses a `TRANSPORT_MODE` value.
    pub fn parse(value: &str) -> (r: Result<Self, ConfigError>)
        ensures
            match transport_mode_spec(value@) {
                Ok(m) => r == Ok::<TransportMode, ConfigError>(m),
                Err(msg) => r matches Err(e) && e.message@ == msg,
            },
    {
        let v = chars_of(value);
        let t = trim_chars(&v);
        let n = ascii_lower_chars(&t);
        let ns = string_of(&n);
        if text_eq(ns.as_str(), "") || text_eq(ns.as_str(), "stdio") {
            Ok(TransportMode::Stdio)
        } else if text_eq(ns.as_str(), "streamable-http") || text_eq(ns.as_str(), "http") {
            Ok(TransportMode::StreamableHttp)
        } else {
            let mut m = concat("unsupported TRANSPORT_MODE '", ns.as_str());
            append_str(&mut m, "', expected 'stdio' or 'streamable-http'");
            Err(ConfigError { message: m })
        }
    }
}

impl HttpSessionMode {
    /// Whether sessions keep server-side state.
    pub fn is_stateful(self) -> (r: bool)
        ensures
            r == (self == HttpSessionMode::Stateful),
    {
        match self {
            HttpSessionMode::Stateful => true,
            HttpSessionMode::Stateless => false,
        }
    }
}

/// Settings of the Streamable HTTP transport.
#[derive(Debug)]
pub struct HttpTransportConfig {
    pub host: String,
    pub port: u16,
    pub endpoint: String,
    pub health_endpoint: String,
    pub metrics_endpoint: String,
    pub cors_mode: CorsMode,
    pub allowed_origins: Vec<String>,
    pub allowed_hosts: Vec<String>,
    pub heartbeat_interval_secs: Option<u64>,
    pub session_mode: HttpSessionMode,
    pub deployment: DeploymentControls,
}

/// How the Streamable HTTP service is set up.
#[derive(Debug, Clone)]
pub struct StreamableHttpSettings {
    pub legacy_session_mode: bool,
    pub json_response: bool,
    pub sse_keep_alive_secs: Option<u64>,
    pub allowed_hosts: Option<Vec<String>>,
    pub allowed_origins: Vec<String>,
}

/// The cross-origin layer a router gets.
#[derive(Debug, Clone)]
pub enum CorsPolicy {
    Disabled,
    AnyOrigin,
    Origins(Vec<String>),
}

/// What the health endpoint answers.
#[derive(Debug, Clone)]
pub struct HealthResponse {
    pub status: &'static str,
    pub server: &'static str,
    pub version: &'static str,
    pub transport: TransportMode,
    pub endpoint: String,
    pub metrics_endpoint: String,
    pub session_mode: HttpSessionMode,
    pub organization_allowlist_enabled: bool,
    pub rate_limit_global: Option<u32>,
    pub rate_limit_session: Option<u32>,
    pub tls_enabled: bool,
    pub allowed_hosts_enabled: bool,
    pub origin_validation_enabled: bool,
    pub heartbeat_interval_seconds: Option<u64>,
}

/// The value of an optional setting or its default.
pub open spec fn or_default(v: Option<Seq<char>>, d: Seq<char>) -> Seq<char> {
    match v {
        Some(s) => s,
        None => d,
    }
}

/// `TRANSPORT_PORT`: absent or blank means 8080; otherwise the trimmed text must be a
/// `u16` (the message quotes the value as given).
pub open spec fn port_spec(value: Option<Seq<char>>) -> Result<u16, Seq<char>> {
    match value {
        None => Ok(8080),
        Some(raw) => if trim(raw).len() == 0 {
            Ok(8080)
        } else {
            match parse_unsigned(trim(raw), u16::MAX as nat) {
                Ok(n) => Ok(n as u16),
                Err(e) => Err("invalid TRANSPORT_PORT '"@ + raw + "': "@ + int_error_text(e)),
            }
        },
    }
}

/// `s` without its trailing slashes (`trim_end_matches('/')`).
pub open spec fn trim_end_slashes(s: Seq<char>) -> Seq<char>
    decreases s.len(),
{
    if s.len() > 0 && s.last() == '/' {
        trim_end_slashes(s.drop_last())
    } else {
        s
    }
}

/// An endpoint path: trimmed, not empty, starting with a slash; trailing slashes are
/// dropped.
pub open spec fn endpoint_spec(value: Seq<char>, name: Seq<char>) -> Result<Seq<char>, Seq<char>> {
    let t = trim(value);
    if t.len() == 0 {
        Err(name + " cannot be empty"@)
    } else if t[0] != '/' {
        Err(name + " must start with '/'"@)
    } else {
        Ok(trim_end_slashes(t))
    }
}

/// `MCP_HEARTBEAT_INTERVAL`: absent or blank means 15 seconds, zero turns keep-alive off,
/// otherwise the trimmed text must be a `u64`.
pub open spec fn heartbeat_spec(value: Option<Seq<char>>) -> Result<Option<u64>, Seq<char>> {
    match value {
        None => Ok(Some(15)),
        Some(raw) => if trim(raw).len() == 0 {
            Ok(Some(15))
        } else {
            match parse_unsigned(trim(raw), u64::MAX as nat) {
                Ok(n) => if n > 0 {
                    Ok(Some(n as u64))
                } else {
                    Ok(None)
                },
                Err(e) => Err(
                    "invalid MCP_HEARTBEAT_INTERVAL '"@ + raw + "': "@ + int_error_text(e),
                ),
            }
        },
    }
}

/// The candidate index that equals `n`, or -1; the first one wins.
pub open spec fn choice_index(candidates: Seq<Seq<char>>, n: Seq<char>) -> int
    decreases candidates.len(),
{
    if candidates.len() == 0 {
        -1
    } else if choice_index(candidates.drop_last(), n) >= 0 {
        choice_index(candidates.drop_last(), n)
    } else if candidates.last() == n {
        candidates.len() - 1
    } else {
        -1
    }
}

/// A setting chosen from a fixed list by its normalized spelling.
pub open spec fn choice_spec<T>(
    name: Seq<char>,
    value: Option<Seq<char>>,
    default: Seq<char>,
    candidates: Seq<Seq<char>>,
    parsed: Seq<T>,
) -> Result<T, Seq<char>> {
    let raw = or_default(value, default);
    let i = choice_index(candidates, normalized(raw));
    if i >= 0 {
        Ok(parsed[i])
    } else {
        Err("unsupported "@ + name + " '"@ + trim(raw) + "'"@)
    }
}

pub open spec fn cors_names() -> Seq<Seq<char>> {
    seq![""@, "strict"@, "development"@, "dev"@, "disabled"@, "off"@, "none"@]
}

pub open spec fn cors_values() -> Seq<CorsMode> {
    seq![
        CorsMode::Strict,
        CorsMode::Strict,
        CorsMode::Development,
        CorsMode::Development,
        CorsMode::Disabled,
        CorsMode::Disabled,
        CorsMode::Disabled,
    ]
}

pub open spec fn session_names() -> Seq<Seq<char>> {
    seq![""@, "stateful"@, "stateless"@]
}

pub open spec fn session_values() -> Seq<HttpSessionMode> {
    seq![HttpSessionMode::Stateful, HttpSessionMode::Stateful, HttpSessionMode::Stateless]
}

/// Reads `TRANSPORT_PORT`.
pub fn parse_port(value: Option<String>) -> (r: Result<u16, ConfigError>)
    ensures
        match port_spec(opt_text(value)) {
            Ok(p) => r == Ok::<u16, ConfigError>(p),
            Err(m) => r matches Err(e) && e.message@ == m,
        },
{
    match value {
        None => Ok(8080),
        Some(raw) => {
            let v = chars_of(raw.as_str());
            let t = trim_chars(&v);
            if t.len() == 0 {
                return Ok(8080);
            }
            match parse_unsigned_chars(&t, 0xffff) {
                Ok(n) => Ok(n as u16),
                Err(e) => {
                    let mut m = concat("invalid TRANSPORT_PORT '", raw.as_str());
                    append_str(&mut m, "': ");
                    append_str(&mut m, e.message());
                    Err(ConfigError { message: m })
                },
            }
        },
    }
}

/// Reads `MCP_HEARTBEAT_INTERVAL`.
pub fn parse_heartbeat_interval(value: Option<String>) -> (r: Result<Option<u64>, ConfigError>)
    ensures
        match heartbeat_spec(opt_text(value)) {
            Ok(h) => r == Ok::<Option<u64>, ConfigError>(h),
            Err(m) => r matches Err(e) && e.message@ == m,
        },
{
    match value {
        None => Ok(Some(15)),
        Some(raw) => {
            let v = chars_of(raw.as_str());
            let t = trim_chars(&v);
            if t.len() == 0 {
                return Ok(Some(15));
            }
            match parse_unsigned_chars(&t, 0xffff_ffff_ffff_ffff) {
                Ok(n) => if n > 0 {
                    Ok(Some(n))
                } else {
                    Ok(None)
                },
                Err(e) => {
                    let mut m = concat("invalid MCP_HEARTBEAT_INTERVAL '", raw.as_str());
                    append_str(&mut m, "': ");
                    append_str(&mut m, e.message());
                    Err(ConfigError { message: m })
                },
            }
        },
    }
}

/// Drops trailing slashes.
fn trim_end_slashes_chars(v: &Vec<char>) -> (r: Vec<char>)
    ensures
        r@ == trim_end_slashes(v@),
{
    let mut j = v.len();
    proof {
        assert(v@.subrange(0, j as int) =~= v@);
    }
    while j > 0 && v[j - 1] == '/'
        invariant
            j <= v.len(),
            trim_end_slashes(v@) == trim_end_slashes(v@.subrange(0, j as int)),
        decreases j,
    {
        proof {
            assert(v@.subrange(0, j as int).drop_last() =~= v@.subrange(0, j - 1));
        }
        j = j - 1;
    }
    crate::text::sub_chars(v, 0, j)
}

/// Checks and normalizes an endpoint path named `name`.
pub fn normalize_endpoint(value: String, name: &str) -> (r: Result<String, ConfigError>)
    ensures
        match endpoint_spec(value@, name@) {
            Ok(p) => r matches Ok(s) && s@ == p,
            Err(m) => r matches Err(e) && e.message@ == m,
        },
{
    let v = chars_of(value.as_str());
    let t = trim_chars(&v);
    if t.len() == 0 {
        return Err(ConfigError { message: concat(name, " cannot be empty") });
    }
    if t[0] != '/' {
        return Err(ConfigError { message: concat(name, " must start with '/'") });
    }
    let e = trim_end_slashes_chars(&t);
    Ok(string_of(&e))
}

/// Chooses the value whose candidate spelling equals the normalized setting; the
/// setting falls back to `default` when absent.
pub fn parse_choice<T: Copy>(
    name: &str,
    value: Option<String>,
    default: &str,
    choices: &[(&str, T)],
) -> (r: Result<T, ConfigError>)
    ensures
        match choice_spec(
            name@,
            opt_text(value),
            default@,
            Seq::new(choices@.len(), |i: int| choices@[i].0@),
            Seq::new(choices@.len(), |i: int| choices@[i].1),
        ) {
            Ok(x) => r matches Ok(y) && y == x,
            Err(m) => r matches Err(e) && e.message@ == m,
        },
{
    let ghost cands = Seq::new(choices@.len(), |i: int| choices@[i].0@);
    let ghost rawv = or_default(opt_text(value), default@);
    let raw = match value {
        Some(s) => s,
        None => default.to_owned(),
    };
    let rv = chars_of(raw.as_str());
    let t = trim_chars(&rv);
    let n = ascii_lower_chars(&t);
    let ns = string_of(&n);
    let mut i: usize = 0;
    while i < choices.len()
        invariant
            i <= choices@.len(),
            cands == Seq::new(choices@.len(), |i: int| choices@[i].0@),
            choice_index(cands.take(i as int), ns@) == -1,
            ns@ == normalized(rawv),
            rawv == or_default(opt_text(value), default@),
        decreases choices.len() - i,
    {
        proof {
            assert(cands.take(i + 1).drop_last() =~= cands.take(i as int));
        }
        if text_eq(choices[i].0, ns.as_str()) {
            proof {
                lemma_choice_index_prefix(cands, i as int, ns@);
            }
            return Ok(choices[i].1);
        }
        i = i + 1;
    }
    proof {
        assert(cands.take(choices@.len() as int) =~= cands);
    }
    let ts = string_of(&t);
    let mut m = concat("unsupported ", name);
    append_str(&mut m, " '");
    append_str(&mut m, ts.as_str());
    append_str(&mut m, "'");
    Err(ConfigError { message: m })
}

proof fn lemma_choice_index_prefix(c: Seq<Seq<char>>, i: int, n: Seq<char>)
    requires
        0 <= i < c.len(),
        choice_index(c.take(i), n) == -1,
        c[i] == n,
    ensures
        choice_index(c, n) == i,
    decreases c.len(),
{
    if i == c.len() - 1 {
        assert(c.drop_last() =~= c.take(i));
    } else {
        assert(c.drop_last().take(i) =~= c.take(i));
        lemma_choice_index_prefix(c.drop_last(), i, n);
    }
}

/// All settings the HTTP transport reads from the environment.
pub struct TransportSettings {
    pub host: Option<String>,
    pub port: Option<String>,
    pub endpoint: Option<String>,
    pub health_endpoint: Option<String>,
    pub metrics_endpoint: Option<String>,
    pub cors_mode: Option<String>,
    pub allowed_origins: Option<String>,
    pub allowed_hosts: Option<String>,
    pub heartbeat_interval: Option<String>,
    pub session_mode: Option<String>,
    pub tls_cert_file: Option<String>,
    pub tls_key_file: Option<String>,
    pub organization_allowlist: Option<String>,
    pub rate_limit_global: Option<String>,
    pub rate_limit_session: Option<String>,
}

/// The mathematical content of `HttpTransportConfig`.
pub struct HttpConfigView {
    pub host: Seq<char>,
    pub port: u16,
    pub endpoint: Seq<char>,
    pub health_endpoint: Seq<char>,
    pub metrics_endpoint: Seq<char>,
    pub cors_mode: CorsMode,
    pub allowed_origins: Seq<Seq<char>>,
    pub allowed_hosts: Seq<Seq<char>>,
    pub heartbeat_interval_secs: Option<u64>,
    pub session_mode: HttpSessionMode,
    pub deployment: ControlsView,
}

impl View for HttpTransportConfig {
    type V = HttpConfigView;

    open spec fn view(&self) -> HttpConfigView {
        HttpConfigView {
            host: self.host@,
            port: self.port,
            endpoint: self.endpoint@,
            health_endpoint: self.health_endpoint@,
            metrics_endpoint: self.metrics_endpoint@,
            cors_mode: self.cors_mode,
            allowed_origins: texts(self.allowed_origins@),
            allowed_hosts: texts(self.allowed_hosts@),
            heartbeat_interval_secs: self.heartbeat_interval_secs,
            session_mode: self.session_mode,
            deployment: self.deployment@,
        }
    }
}

/// The configuration the settings describe, or the first error in the order port,
/// endpoint, health endpoint, metrics endpoint, CORS mode, heartbeat, session mode and
/// deployment controls.
pub open spec fn http_config_spec(s: TransportSettings) -> Result<HttpConfigView, Seq<char>> {
    match port_spec(opt_text(s.port)) {
        Err(m) => Err(m),
        Ok(port) => match endpoint_spec(or_default(opt_text(s.endpoint), "/mcp"@), "MCP_ENDPOINT"@) {
            Err(m) => Err(m),
            Ok(endpoint) => match endpoint_spec(
                or_default(opt_text(s.health_endpoint), "/health"@),
                "MCP_HEALTH_ENDPOINT"@,
            ) {
                Err(m) => Err(m),
                Ok(health) => match endpoint_spec(
                    or_default(opt_text(s.metrics_endpoint), "/metrics"@),
                    "MCP_METRICS_ENDPOINT"@,
                ) {
                    Err(m) => Err(m),
                    Ok(metrics) => match choice_spec(
                        "MCP_CORS_MODE"@,
                        opt_text(s.cors_mode),
                        "strict"@,
                        cors_names(),
                        cors_values(),
                    ) {
                        Err(m) => Err(m),
                        Ok(cors) => match heartbeat_spec(opt_text(s.heartbeat_interval)) {
                            Err(m) => Err(m),
                            Ok(heartbeat) => match choice_spec(
                                "MCP_SESSION_MODE"@,
                                opt_text(s.session_mode),
                                "stateful"@,
                                session_names(),
                                session_values(),
                            ) {
                                Err(m) => Err(m),
                                Ok(session) => match controls_spec(
                                    opt_text(s.tls_cert_file),
                                    opt_text(s.tls_key_file),
                                    opt_text(s.organization_allowlist),
                                    opt_text(s.rate_limit_global),
                                    opt_text(s.rate_limit_session),
                                ) {
                                    Err(m) => Err(m),
                                    Ok(deployment) => Ok(
                                        HttpConfigView {
                                            host: or_default(opt_text(s.host), "127.0.0.1"@),
                                            port,
                                            endpoint,
                                            health_endpoint: health,
                                            metrics_endpoint: metrics,
                                            cors_mode: cors,
                                            allowed_origins: csv_items(
                                                or_default(opt_text(s.allowed_origins), Seq::empty()),
                                            ),
                                            allowed_hosts: csv_items(
                                                or_default(opt_text(s.allowed_hosts), Seq::empty()),
                                            ),
                                            heartbeat_interval_secs: heartbeat,
                                            session_mode: session,
                                            deployment,
                                        },
                                    ),
                                },
                            },
                        },
                    },
                },
            },
        },
    }
}

/// Whether `r` is the outcome that `expected` describes.
pub open spec fn http_outcome(
    r: Result<HttpTransportConfig, ConfigError>,
    expected: Result<HttpConfigView, Seq<char>>,
) -> bool {
    match expected {
        Ok(v) => r matches Ok(c) && c@ == v,
        Err(m) => r matches Err(e) && e.message@ == m,
    }
}

/// Whether `s` holds what `lookup` answers for each setting's environment variable.
pub open spec fn answers<F: Fn(&str) -> Option<String>>(lookup: F, s: TransportSettings) -> bool {
    &&& lookup.ensures(("TRANSPORT_HOST",), s.host)
    &&& lookup.ensures(("TRANSPORT_PORT",), s.port)
    &&& lookup.ensures(("MCP_ENDPOINT",), s.endpoint)
    &&& lookup.ensures(("MCP_HEALTH_ENDPOINT",), s.health_endpoint)
    &&& lookup.ensures(("MCP_METRICS_ENDPOINT",), s.metrics_endpoint)
    &&& lookup.ensures(("MCP_CORS_MODE",), s.cors_mode)
    &&& lookup.ensures(("MCP_ALLOWED_ORIGINS",), s.allowed_origins)
    &&& lookup.ensures(("MCP_ALLOWED_HOSTS",), s.allowed_hosts)
    &&& lookup.ensures(("MCP_HEARTBEAT_INTERVAL",), s.heartbeat_interval)
    &&& lookup.ensures(("MCP_SESSION_MODE",), s.session_mode)
    &&& lookup.ensures(("MCP_TLS_CERT_FILE",), s.tls_cert_file)
    &&& lookup.ensures(("MCP_TLS_KEY_FILE",), s.tls_key_file)
    &&& lookup.ensures(("MCP_ORGANIZATION_ALLOWLIST",), s.organization_allowlist)
    &&& lookup.ensures(("MCP_RATE_LIMIT_GLOBAL",), s.rate_limit_global)
    &&& lookup.ensures(("MCP_RATE_LIMIT_SESSION",), s.rate_limit_session)
}

/// The origins that are allowed when none are configured.
pub open spec fn default_origins() -> Seq<Seq<char>> {
    seq![
        "http://localhost"@,
        "https://localhost"@,
        "http://127.0.0.1"@,
        "https://127.0.0.1"@,
        "http://[::1]"@,
        "https://[::1]"@,
    ]
}

impl HttpTransportConfig {
    /// Builds the configuration from the given settings.
    pub fn from_settings(s: TransportSettings) -> (r: Result<Self, ConfigError>)
        ensures
            http_outcome(r, http_config_spec(s)),
    {
        let ghost sv = s;
        let host = match s.host {
            Some(h) => h,
            None => "127.0.0.1".to_owned(),
        };
        let port = match parse_port(s.port) {
            Ok(p) => p,
            Err(e) => return Err(e),
        };
        let endpoint = match normalize_endpoint(
            match s.endpoint {
                Some(v) => v,
                None => "/mcp".to_owned(),
            },
            "MCP_ENDPOINT",
        ) {
            Ok(v) => v,
            Err(e) => return Err(e),
        };
        let health_endpoint = match normalize_endpoint(
            match s.health_endpoint {
                Some(v) => v,
                None => "/health".to_owned(),
            },
            "MCP_HEALTH_ENDPOINT",
        ) {
            Ok(v) => v,
            Err(e) => return Err(e),
        };
        let metrics_endpoint = match normalize_endpoint(
            match s.metrics_endpoint {
                Some(v) => v,
                None => "/metrics".to_owned(),
            },
            "MCP_METRICS_ENDPOINT",
        ) {
            Ok(v) => v,
            Err(e) => return Err(e),
        };
        let cors_choices = [
            ("", CorsMode::Strict),
            ("strict", CorsMode::Strict),
            ("development", CorsMode::Development),
            ("dev", CorsMode::Development),
            ("disabled", CorsMode::Disabled),
            ("off", CorsMode::Disabled),
            ("none", CorsMode::Disabled),
        ];
        proof {
            assert(Seq::new(cors_choices@.len(), |i: int| cors_choices@[i].0@) =~= cors_names());
            assert(Seq::new(cors_choices@.len(), |i: int| cors_choices@[i].1) =~= cors_values());
        }
        let cors_mode = match parse_choice("MCP_CORS_MODE", s.cors_mode, "strict", &cors_choices) {
            Ok(v) => v,
            Err(e) => return Err(e),
        };
        let allowed_origins = parse_csv(s.allowed_origins);
        let allowed_hosts = parse_csv(s.allowed_hosts);
        let heartbeat_interval_secs = match parse_heartbeat_interval(s.heartbeat_interval) {
            Ok(v) => v,
            Err(e) => return Err(e),
        };
        let session_choices = [
            ("", HttpSessionMode::Stateful),
            ("stateful", HttpSessionMode::Stateful),
            ("stateless", HttpSessionMode::Stateless),
        ];
        proof {
            assert(Seq::new(session_choices@.len(), |i: int| session_choices@[i].0@)
                =~= session_names());
            assert(Seq::new(session_choices@.len(), |i: int| session_choices@[i].1)
                =~= session_values());
        }
        let session_mode = match parse_choice(
            "MCP_SESSION_MODE",
            s.session_mode,
            "stateful",
            &session_choices,
        ) {
            Ok(v) => v,
            Err(e) => return Err(e),
        };
        let deployment = match DeploymentControls::from_values(
            s.tls_cert_file,
            s.tls_key_file,
            s.organization_allowlist,
            s.rate_limit_global,
            s.rate_limit_session,
        ) {
            Ok(d) => d,
            Err(e) => return Err(e),
        };
        Ok(
            HttpTransportConfig {
                host,
                port,
                endpoint,
                health_endpoint,
                metrics_endpoint,
                cors_mode,
                allowed_origins,
                allowed_hosts,
                heartbeat_interval_secs,
                session_mode,
                deployment,
            },
        )
    }

    /// Builds the configuration from an environment lookup; each setting is looked up
    /// once and the result is what `from_settings` makes of the answers.
    pub fn from_lookup<F: Fn(&str) -> Option<String>>(lookup: F) -> (r: Result<Self, ConfigError>)
        requires
            forall|k: &str| #[trigger] lookup.requires((k,)),
        ensures
            exists|s: TransportSettings| #[trigger] answers(lookup, s) && http_outcome(r, http_config_spec(s)),
    {
        let s = TransportSettings {
            host: lookup("TRANSPORT_HOST"),
            port: lookup("TRANSPORT_PORT"),
            endpoint: lookup("MCP_ENDPOINT"),
            health_endpoint: lookup("MCP_HEALTH_ENDPOINT"),
            metrics_endpoint: lookup("MCP_METRICS_ENDPOINT"),
            cors_mode: lookup("MCP_CORS_MODE"),
            allowed_origins: lookup("MCP_ALLOWED_ORIGINS"),
            allowed_hosts: lookup("MCP_ALLOWED_HOSTS"),
            heartbeat_interval: lookup("MCP_HEARTBEAT_INTERVAL"),
            session_mode: lookup("MCP_SESSION_MODE"),
            tls_cert_file: lookup("MCP_TLS_CERT_FILE"),
            tls_key_file: lookup("MCP_TLS_KEY_FILE"),
            organization_allowlist: lookup("MCP_ORGANIZATION_ALLOWLIST"),
            rate_limit_global: lookup("MCP_RATE_LIMIT_GLOBAL"),
            rate_limit_session: lookup("MCP_RATE_LIMIT_SESSION"),
        };
        let ghost g = s;
        let r = Self::from_settings(s);
        assert(answers(lookup, g));
        r
    }

    /// The configured origins, or the local defaults when none are configured.
    pub fn effective_allowed_origins(&self) -> (r: Vec<String>)
        ensures
            texts(r@) == if self@.allowed_origins.len() == 0 {
                default_origins()
            } else {
                self@.allowed_origins
            },
    {
        if self.allowed_origins.len() == 0 {
            let r = vec![
                "http://localhost".to_owned(),
                "https://localhost".to_owned(),
                "http://127.0.0.1".to_owned(),
                "https://127.0.0.1".to_owned(),
                "http://[::1]".to_owned(),
                "https://[::1]".to_owned(),
            ];
            proof {
                assert(texts(r@) =~= default_origins());
            }
            r
        } else {
            let mut r: Vec<String> = Vec::new();
            let mut i: usize = 0;
            while i < self.allowed_origins.len()
                invariant
                    i <= self.allowed_origins@.len(),
                    texts(r@) == texts(self.allowed_origins@).take(i as int),
                decreases self.allowed_origins.len() - i,
            {
                let ghost before = r@;
                r.push(self.allowed_origins[i].clone());
                proof {
                    assert(texts(r@) =~= texts(before).push(self.allowed_origins@[i as int]@));
                    assert(texts(self.allowed_origins@).take(i + 1) =~= texts(
                        self.allowed_origins@,
                    ).take(i as int).push(self.allowed_origins@[i as int]@));
                }
                i = i + 1;
            }
            proof {
                assert(texts(self.allowed_origins@).take(self.allowed_origins@.len() as int)
                    =~= texts(self.allowed_origins@));
            }
            r
        }
    }

    /// The settings of the Streamable HTTP service: sessions and streamed answers in
    /// stateful mode, JSON answers otherwise; the keep-alive interval; the allowed hosts
    /// when some are configured; and the effective allowed origins.
    pub fn streamable_http_settings(&self) -> (r: StreamableHttpSettings)
        ensures
            r.legacy_session_mode == (self.session_mode == HttpSessionMode::Stateful),
            r.json_response == (self.session_mode != HttpSessionMode::Stateful),
            r.sse_keep_alive_secs == self.heartbeat_interval_secs,
            match r.allowed_hosts {
                Some(h) => self@.allowed_hosts.len() > 0 && texts(h@) == self@.allowed_hosts,
                None => self@.allowed_hosts.len() == 0,
            },
            texts(r.allowed_origins@) == if self@.allowed_origins.len() == 0 {
                default_origins()
            } else {
                self@.allowed_origins
            },
    {
        let stateful = self.session_mode.is_stateful();
        let allowed_hosts = if self.allowed_hosts.len() == 0 {
            None
        } else {
            let mut h: Vec<String> = Vec::new();
            let mut i: usize = 0;
            while i < self.allowed_hosts.len()
                invariant
                    i <= self.allowed_hosts@.len(),
                    h@.len() == i,
                    forall|j: int| 0 <= j < i ==> #[trigger] h@[j]@ == self.allowed_hosts@[j]@,
                decreases self.allowed_hosts.len() - i,
            {
                h.push(self.allowed_hosts[i].clone());
                i = i + 1;
            }
            proof {
                assert(texts(h@) =~= texts(self.allowed_hosts@));
            }
            Some(h)
        };
        StreamableHttpSettings {
            legacy_session_mode: stateful,
            json_response: !stateful,
            sse_keep_alive_secs: self.heartbeat_interval_secs,
            allowed_hosts,
            allowed_origins: self.effective_allowed_origins(),
        }
    }

    /// Which cross-origin layer the router gets: none when CORS is disabled, any origin
    /// in development mode, and the effective allowed origins in strict mode.
    pub fn cors_policy(&self) -> (r: CorsPolicy)
        ensures
            match self.cors_mode {
                CorsMode::Disabled => r is Disabled,
                CorsMode::Development => r is AnyOrigin,
                CorsMode::Strict => r matches CorsPolicy::Origins(o) && texts(o@) == (
                if self@.allowed_origins.len() == 0 {
                    default_origins()
                } else {
                    self@.allowed_origins
                }),
            },
    {
        match self.cors_mode {
            CorsMode::Disabled => CorsPolicy::Disabled,
            CorsMode::Development => CorsPolicy::AnyOrigin,
            CorsMode::Strict => CorsPolicy::Origins(self.effective_allowed_origins()),
        }
    }

    /// The health report of this configuration.
    pub fn health_response(&self) -> (r: HealthResponse)
        ensures
            r.status@ == "ok"@,
            r.server@ == "tfmcp"@,
            r.version@ == SERVER_VERSION@,
            r.transport == TransportMode::StreamableHttp,
            r.endpoint@ == self.endpoint@,
            r.metrics_endpoint@ == self.metrics_endpoint@,
            r.session_mode == self.session_mode,
            r.organization_allowlist_enabled == (self@.deployment.organization_allowlist.len()
                > 0),
            r.rate_limit_global == self.deployment.rate_limit_global,
            r.rate_limit_session == self.deployment.rate_limit_session,
            r.tls_enabled == self.deployment.tls is Some,
            r.allowed_hosts_enabled == (self.allowed_hosts@.len() > 0),
            r.origin_validation_enabled,
            r.heartbeat_interval_seconds == self.heartbeat_interval_secs,
    {
        HealthResponse {
            status: "ok",
            server: "tfmcp",
            version: SERVER_VERSION,
            transport: TransportMode::StreamableHttp,
            endpoint: self.endpoint.clone(),
            metrics_endpoint: self.metrics_endpoint.clone(),
            session_mode: self.session_mode,
            organization_allowlist_enabled: self.deployment.organization_allowlist.len() > 0,
            rate_limit_global: self.deployment.rate_limit_global,
            rate_limit_session: self.deployment.rate_limit_session,
            tls_enabled: self.deployment.tls.is_some(),
            allowed_hosts_enabled: self.allowed_hosts.len() > 0,
            origin_validation_enabled: true,
            heartbeat_interval_seconds: self.heartbeat_interval_secs,
        }
    }
}


proof fn lemma_trim_end_slashes(s: Seq<char>)
    ensures
        trim_end_slashes(s).len() <= s.len(),
        trim_end_slashes(s) == s.subrange(0, trim_end_slashes(s).len() as int),
        trim_end_slashes(s).len() > 0 ==> trim_end_slashes(s).last() != '/',
    decreases s.len(),
{
    if s.len() > 0 && s.last() == '/' {
        lemma_trim_end_slashes(s.drop_last());
        let r = trim_end_slashes(s.drop_last());
        assert(s.drop_last().subrange(0, r.len() as int) =~= s.subrange(0, r.len() as int));
    } else {
        assert(s.subrange(0, s.len() as int) =~= s);
    }
}

/// A configured endpoint never ends with a slash, and when it is not empty it starts
/// with one.
pub proof fn law_endpoint_shape(value: Seq<char>, name: Seq<char>)
    requires
        endpoint_spec(value, name) is Ok,
    ensures
        ({
            let p = endpoint_spec(value, name)->Ok_0;
            &&& p.len() > 0 ==> p[0] == '/' && p.last() != '/'
        }),
{
    let t = trim(value);
    lemma_trim_end_slashes(t);
    let p = trim_end_slashes(t);
    if p.len() > 0 {
        assert(p[0] == t.subrange(0, p.len() as int)[0]);
    }
}

/// The transport mode does not depend on letter case or surrounding white space.
pub proof fn law_transport_mode_ignores_case_and_space(a: Seq<char>, b: Seq<char>)
    requires
        normalized(a) == normalized(b),
    ensures
        transport_mode_spec(a) == transport_mode_spec(b),
{
}

/// `MCP_CORS_MODE`, trimmed and in lower case (`strict` when unset): `disabled`, `off`
/// or `none` disable CORS, `development` or `dev` allow any origin, `strict` or the
/// empty text keep the strict policy, and any other spelling is refused.
pub proof fn law_cors_mode_spellings(value: Option<Seq<char>>)
    ensures
        ({
            let n = normalized(or_default(value, "strict"@));
            let r = choice_spec("MCP_CORS_MODE"@, value, "strict"@, cors_names(), cors_values());
            &&& (n == "disabled"@ || n == "off"@ || n == "none"@) ==> r == Ok::<CorsMode, Seq<char>>(
                CorsMode::Disabled,
            )
            &&& (n == "development"@ || n == "dev"@) ==> r == Ok::<CorsMode, Seq<char>>(
                CorsMode::Development,
            )
            &&& (n == ""@ || n == "strict"@) ==> r == Ok::<CorsMode, Seq<char>>(CorsMode::Strict)
            &&& !(n == "disabled"@ || n == "off"@ || n == "none"@ || n == "development"@ || n == "dev"@
                || n == ""@ || n == "strict"@) ==> r is Err
        }),
{
    reveal_strlit("");
    reveal_strlit("strict");
    reveal_strlit("development");
    reveal_strlit("dev");
    reveal_strlit("disabled");
    reveal_strlit("off");
    reveal_strlit("none");
    assert("strict"@.len() != ""@.len());
    assert("strict"@ != ""@);
    assert("development"@.len() != ""@.len());
    assert("development"@ != ""@);
    assert("development"@.len() != "strict"@.len());
    assert("development"@ != "strict"@);
    assert("dev"@.len() != ""@.len());
    assert("dev"@ != ""@);
    assert("dev"@.len() != "strict"@.len());
    assert("dev"@ != "strict"@);
    assert("dev"@.len() != "development"@.len());
    assert("dev"@ != "development"@);
    assert("disabled"@.len() != ""@.len());
    assert("disabled"@ != ""@);
    assert("disabled"@.len() != "strict"@.len());
    assert("disabled"@ != "strict"@);
    assert("disabled"@.len() != "development"@.len());
    assert("disabled"@ != "development"@);
    assert("disabled"@.len() != "dev"@.len());
    assert("disabled"@ != "dev"@);
    assert("off"@.len() != ""@.len());
    assert("off"@ != ""@);
    assert("off"@.len() != "strict"@.len());
    assert("off"@ != "strict"@);
    assert("off"@.len() != "development"@.len());
    assert("off"@ != "development"@);
    assert("off"@[0] != "dev"@[0]);
    assert("off"@ != "dev"@);
    assert("off"@.len() != "disabled"@.len());
    assert("off"@ != "disabled"@);
    assert("none"@.len() != ""@.len());
    assert("none"@ != ""@);
    assert("none"@.len() != "strict"@.len());
    assert("none"@ != "strict"@);
    assert("none"@.len() != "development"@.len());
    assert("none"@ != "development"@);
    assert("none"@.len() != "dev"@.len());
    assert("none"@ != "dev"@);
    assert("none"@.len() != "disabled"@.len());
    assert("none"@ != "disabled"@);
    assert("none"@.len() != "off"@.len());
    assert("none"@ != "off"@);
    reveal_with_fuel(choice_index, 8);
    assert(cors_names().drop_last() =~= seq![""@, "strict"@, "development"@, "dev"@, "disabled"@, "off"@]);
    assert(cors_names().drop_last().drop_last() =~= seq![""@, "strict"@, "development"@, "dev"@, "disabled"@]);
    assert(cors_names().drop_last().drop_last().drop_last() =~= seq![""@, "strict"@, "development"@, "dev"@]);
    assert(cors_names().drop_last().drop_last().drop_last().drop_last() =~= seq![""@, "strict"@, "development"@]);
    assert(cors_names().drop_last().drop_last().drop_last().drop_last().drop_last() =~= seq![""@, "strict"@]);
    assert(cors_names().drop_last().drop_last().drop_last().drop_last().drop_last().drop_last() =~= seq![""@]);
    assert(seq![""@].drop_last() =~= Seq::<Seq<char>>::empty());
}

/// A transport configuration that could be read has the CORS mode its
/// `MCP_CORS_MODE` spells (see `law_cors_mode_spellings`).
pub proof fn law_config_cors_mode(s: TransportSettings)
    requires
        http_config_spec(s) is Ok,
    ensures
        ({
            let n = normalized(or_default(opt_text(s.cors_mode), "strict"@));
            let c = http_config_spec(s)->Ok_0.cors_mode;
            &&& (n == "disabled"@ || n == "off"@ || n == "none"@) ==> c == CorsMode::Disabled
            &&& (n == "development"@ || n == "dev"@) ==> c == CorsMode::Development
            &&& (n == ""@ || n == "strict"@) ==> c == CorsMode::Strict
        }),
{
    law_cors_mode_spellings(opt_text(s.cors_mode));
}

/// `MCP_SESSION_MODE`, trimmed and in lower case (`stateful` when unset): `stateful`
/// or the empty text keep server-side sessions, `stateless` drops them, and any other
/// spelling is refused.
pub proof fn law_session_mode_spellings(value: Option<Seq<char>>)
    ensures
        ({
            let n = normalized(or_default(value, "stateful"@));
            let r = choice_spec("MCP_SESSION_MODE"@, value, "stateful"@, session_names(), session_values());
            &&& (n == ""@ || n == "stateful"@) ==> r == Ok::<HttpSessionMode, Seq<char>>(HttpSessionMode::Stateful)
            &&& n == "stateless"@ ==> r == Ok::<HttpSessionMode, Seq<char>>(HttpSessionMode::Stateless)
            &&& !(n == ""@ || n == "stateful"@ || n == "stateless"@) ==> r is Err
        }),
{
    reveal_strlit("");
    reveal_strlit("stateful");
    reveal_strlit("stateless");
    assert("stateful"@.len() != ""@.len());
    assert("stateless"@.len() != ""@.len());
    assert("stateless"@.len() != "stateful"@.len());
    reveal_with_fuel(choice_index, 4);
    assert(session_names().drop_last() =~= seq![""@, "stateful"@]);
    assert(session_names().drop_last().drop_last() =~= seq![""@]);
    assert(seq![""@].drop_last() =~= Seq::<Seq<char>>::empty());
}

/// `TRANSPORT_MODE`, trimmed and in lower case: `stdio` or the empty text select the
/// stdio transport, `streamable-http` or `http` the HTTP one, and any other spelling
/// is refused.
pub proof fn law_transport_mode_spellings(value: Seq<char>)
    ensures
        ({
            let n = normalized(value);
            &&& (n == ""@ || n == "stdio"@) ==> transport_mode_spec(value) == Ok::<TransportMode, Seq<char>>(
                TransportMode::Stdio,
            )
            &&& (n == "streamable-http"@ || n == "http"@) ==> transport_mode_spec(value) == Ok::<
                TransportMode,
                Seq<char>,
            >(TransportMode::StreamableHttp)
            &&& !(n == ""@ || n == "stdio"@ || n == "streamable-http"@ || n == "http"@) ==> transport_mode_spec(
                value,
            ) is Err
        }),
{
    reveal_strlit("");
    reveal_strlit("stdio");
    reveal_strlit("streamable-http");
    reveal_strlit("http");
    assert("streamable-http"@.len() != ""@.len() && "streamable-http"@.len() != "stdio"@.len());
    assert("http"@.len() != ""@.len() && "http"@.len() != "stdio"@.len());
}

} // verus!
