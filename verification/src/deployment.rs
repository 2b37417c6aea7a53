//! Deployment controls for remote MCP operation: organization allowlist, rate limits
//! and TLS settings.
use crate::text::{
    append_str, concat, csv_items, int_error_text, parse_csv, parse_unsigned, parse_unsigned_chars,
    string_of, text_eq, texts, trim, trimmed_chars, IntParseError,
};
use vstd::prelude::*;

verus! {

/// The failure of reading a configuration value; `message` says which and why.
#[derive(Debug, Clone)]
pub struct ConfigError {
    pub message: String,
}

impl ConfigError {
    /// The human-readable description of the failure.
    pub fn message(&self) -> (r: &str)
        ensures
            r@ == self.message@,
    {
        self.message.as_str()
    }
}

/// An optional text as an optional character sequence.
pub open spec fn opt_text(o: Option<String>) -> Option<Seq<char>> {
    match o {
        Some(s) => Some(s@),
        None => None,
    }
}

/// An optional string slice as an optional character sequence.
pub open spec fn opt_str(o: Option<&str>) -> Option<Seq<char>> {
    match o {
        Some(s) => Some(s@),
        None => None,
    }
}

/// Certificate and key file for serving over TLS.
#[derive(Debug, Clone)]
pub struct TlsConfig {
    pub cert_file: String,
    pub key_file: String,
}

/// Remote deployment limits read from the environment.
#[derive(Debug, Clone)]
pub struct DeploymentControls {
    pub organization_allowlist: Vec<String>,
    pub rate_limit_global: Option<u32>,
    pub rate_limit_session: Option<u32>,
    pub tls: Option<TlsConfig>,
}

/// The mathematical content of `DeploymentControls`.
pub struct ControlsView {
    pub organization_allowlist: Seq<Seq<char>>,
    pub rate_limit_global: Option<u32>,
    pub rate_limit_session: Option<u32>,
    pub tls: Option<(Seq<char>, Seq<char>)>,
}

pub open spec fn tls_view(t: Option<TlsConfig>) -> Option<(Seq<char>, Seq<char>)> {
    match t {
        Some(t) => Some((t.cert_file@, t.key_file@)),
        None => None,
    }
}

impl View for DeploymentControls {
    type V = ControlsView;

    open spec fn view(&self) -> ControlsView {
        ControlsView {
            organization_allowlist: texts(self.organization_allowlist@),
            rate_limit_global: self.rate_limit_global,
            rate_limit_session: self.rate_limit_session,
            tls: tls_view(self.tls),
        }
    }
}

/// The error text for a value that is no valid number.
pub open spec fn invalid_value_text(name: Seq<char>, value: Seq<char>, e: IntParseError) -> Seq<
    char,
> {
    "invalid "@ + name + " '"@ + value + "': "@ + int_error_text(e)
}

/// An optional `u32` setting: absent or blank means unset; otherwise its trimmed text
/// must be a `u32`.
pub open spec fn optional_u32_spec(name: Seq<char>, value: Option<Seq<char>>) -> Result<
    Option<u32>,
    Seq<char>,
> {
    match value {
        None => Ok(None),
        Some(v) => if trim(v).len() == 0 {
            Ok(None)
        } else {
            match parse_unsigned(trim(v), u32::MAX as nat) {
                Ok(n) => Ok(Some(n as u32)),
                Err(e) => Err(invalid_value_text(name, trim(v), e)),
            }
        },
    }
}

/// TLS needs both files or neither.
pub open spec fn tls_spec(cert: Option<Seq<char>>, key: Option<Seq<char>>) -> Result<
    Option<(Seq<char>, Seq<char>)>,
    Seq<char>,
> {
    match (cert, key) {
        (None, None) => Ok(None),
        (Some(c), Some(k)) => Ok(Some((c, k))),
        (Some(_), None) => Err("MCP_TLS_KEY_FILE is required when MCP_TLS_CERT_FILE is set"@),
        (None, Some(_)) => Err("MCP_TLS_CERT_FILE is required when MCP_TLS_KEY_FILE is set"@),
    }
}

/// The controls that the five environment values describe, or the first error in the
/// order TLS, global limit, session limit.
pub open spec fn controls_spec(
    cert: Option<Seq<char>>,
    key: Option<Seq<char>>,
    allowlist: Option<Seq<char>>,
    global: Option<Seq<char>>,
    session: Option<Seq<char>>,
) -> Result<ControlsView, Seq<char>> {
    match tls_spec(cert, key) {
        Err(m) => Err(m),
        Ok(tls) => match optional_u32_spec("MCP_RATE_LIMIT_GLOBAL"@, global) {
            Err(m) => Err(m),
            Ok(g) => match optional_u32_spec("MCP_RATE_LIMIT_SESSION"@, session) {
                Err(m) => Err(m),
                Ok(s) => Ok(
                    ControlsView {
                        organization_allowlist: csv_items(
                            match allowlist {
                                Some(a) => a,
                                None => Seq::empty(),
                            },
                        ),
                        rate_limit_global: g,
                        rate_limit_session: s,
                        tls: tls,
                    },
                ),
            },
        },
    }
}

/// Whether `r` is the outcome that `expected` describes.
pub open spec fn controls_outcome(
    r: Result<DeploymentControls, ConfigError>,
    expected: Result<ControlsView, Seq<char>>,
) -> bool {
    match expected {
        Ok(v) => r matches Ok(c) && c@ == v,
        Err(m) => r matches Err(e) && e.message@ == m,
    }
}

/// Reads an optional `u32` setting named `name`.
pub fn parse_optional_u32(name: &str, value: Option<String>) -> (r: Result<
    Option<u32>,
    ConfigError,
>)
    ensures
        match optional_u32_spec(name@, opt_text(value)) {
            Ok(v) => r == Ok::<Option<u32>, ConfigError>(v),
            Err(m) => r matches Err(e) && e.message@ == m,
        },
{
    match value {
        None => Ok(None),
        Some(v) => {
            let t = trimmed_chars(v.as_str());
            if t.len() == 0 {
                return Ok(None);
            }
            match parse_unsigned_chars(&t, 0xffff_ffffu64) {
                Ok(n) => Ok(Some(n as u32)),
                Err(e) => {
                    let mut m = concat("invalid ", name);
                    append_str(&mut m, " '");
                    let ts = string_of(&t);
                    append_str(&mut m, ts.as_str());
                    append_str(&mut m, "': ");
                    append_str(&mut m, e.message());
                    Err(ConfigError { message: m })
                },
            }
        },
    }
}

/// Pairs the TLS certificate and key file.
pub fn parse_tls_config(cert_file: Option<String>, key_file: Option<String>) -> (r: Result<
    Option<TlsConfig>,
    ConfigError,
>)
    ensures
        match tls_spec(opt_text(cert_file), opt_text(key_file)) {
            Ok(t) => r matches Ok(x) && tls_view(x) == t,
            Err(m) => r matches Err(e) && e.message@ == m,
        },
{
    match (cert_file, key_file) {
        (None, None) => Ok(None),
        (Some(cert_file), Some(key_file)) => Ok(Some(TlsConfig { cert_file, key_file })),
        (Some(_), None) => Err(
            ConfigError {
                message: "MCP_TLS_KEY_FILE is required when MCP_TLS_CERT_FILE is set".to_owned(),
            },
        ),
        (None, Some(_)) => Err(
            ConfigError {
                message: "MCP_TLS_CERT_FILE is required when MCP_TLS_KEY_FILE is set".to_owned(),
            },
        ),
    }
}

impl DeploymentControls {
    /// No allowlist, no limits, no TLS.
    pub fn empty() -> (r: Self)
        ensures
            r@.organization_allowlist.len() == 0,
            r@.rate_limit_global is None,
            r@.rate_limit_session is None,
            r@.tls is None,
    {
        DeploymentControls {
            organization_allowlist: Vec::new(),
            rate_limit_global: None,
            rate_limit_session: None,
            tls: None,
        }
    }

    /// Builds the controls from the values of `MCP_TLS_CERT_FILE`, `MCP_TLS_KEY_FILE`,
    /// `MCP_ORGANIZATION_ALLOWLIST`, `MCP_RATE_LIMIT_GLOBAL` and `MCP_RATE_LIMIT_SESSION`.
    pub fn from_values(
        cert_file: Option<String>,
        key_file: Option<String>,
        allowlist: Option<String>,
        global: Option<String>,
        session: Option<String>,
    ) -> (r: Result<Self, ConfigError>)
        ensures
            controls_outcome(
                r,
                controls_spec(
                    opt_text(cert_file),
                    opt_text(key_file),
                    opt_text(allowlist),
                    opt_text(global),
                    opt_text(session),
                ),
            ),
    {
        let tls = match parse_tls_config(cert_file, key_file) {
            Ok(t) => t,
            Err(e) => return Err(e),
        };
        let organization_allowlist = parse_csv(allowlist);
        let rate_limit_global = match parse_optional_u32("MCP_RATE_LIMIT_GLOBAL", global) {
            Ok(g) => g,
            Err(e) => return Err(e),
        };
        let rate_limit_session = match parse_optional_u32("MCP_RATE_LIMIT_SESSION", session) {
            Ok(s) => s,
            Err(e) => return Err(e),
        };
        Ok(DeploymentControls { organization_allowlist, rate_limit_global, rate_limit_session, tls })
    }

    /// Whether requests for `organization` may proceed: every organization when the
    /// allowlist is empty, else exactly the listed ones.
    pub fn organization_allowed(&self, organization: &str) -> (r: bool)
        ensures
            r == (self@.organization_allowlist.len() == 0 || self@.organization_allowlist.contains(
                organization@,
            )),
    {
        let n = self.organization_allowlist.len();
        if n == 0 {
            return true;
        }
        let mut i: usize = 0;
        while i < n
            invariant
                i <= n == self.organization_allowlist@.len(),
                forall|k: int|
                    0 <= k < i ==> #[trigger] self@.organization_allowlist[k] != organization@,
            decreases n - i,
        {
            if text_eq(self.organization_allowlist[i].as_str(), organization) {
                assert(self@.organization_allowlist[i as int] == organization@);
                return true;
            }
            i = i + 1;
        }
        false
    }

    /// Builds the controls from an environment lookup: each of the five settings is
    /// looked up once, and the result is what `from_values` makes of the answers.
    pub fn from_lookup<F: Fn(&str) -> Option<String>>(lookup: F) -> (r: Result<Self, ConfigError>)
        requires
            forall|k: &str| #[trigger] lookup.requires((k,)),
        ensures
            exists|c: Option<String>, k: Option<String>, a: Option<String>, g: Option<String>, s: Option<String>|
                {
                    &&& #[trigger] lookup.ensures(("MCP_TLS_CERT_FILE",), c)
                    &&& #[trigger] lookup.ensures(("MCP_TLS_KEY_FILE",), k)
                    &&& #[trigger] lookup.ensures(("MCP_ORGANIZATION_ALLOWLIST",), a)
                    &&& #[trigger] lookup.ensures(("MCP_RATE_LIMIT_GLOBAL",), g)
                    &&& #[trigger] lookup.ensures(("MCP_RATE_LIMIT_SESSION",), s)
                    &&& controls_outcome(
                        r,
                        controls_spec(opt_text(c), opt_text(k), opt_text(a), opt_text(g), opt_text(s)),
                    )
                },
    {
        let c = lookup("MCP_TLS_CERT_FILE");
        let k = lookup("MCP_TLS_KEY_FILE");
        let a = lookup("MCP_ORGANIZATION_ALLOWLIST");
        let g = lookup("MCP_RATE_LIMIT_GLOBAL");
        let s = lookup("MCP_RATE_LIMIT_SESSION");
        Self::from_values(c, k, a, g, s)
    }
}

/// `std::time::Instant`, carried through as an opaque value: nothing is claimed of
/// what it holds.
#[verifier::external_type_specification]
#[verifier::external_body]
pub struct ExInstant(std::time::Instant);

/// The current instant of the monotonic clock (`Instant::now`).
#[verifier::external_body]
fn instant_now() -> std::time::Instant {
    std::time::Instant::now()
}

/// The time passed since `origin` (`Instant::elapsed`); it depends on the clock.
#[verifier::external_body]
fn elapsed_since(origin: &std::time::Instant) -> std::time::Duration {
    origin.elapsed()
}

/// The whole nanoseconds of a duration (`Duration::as_nanos`).
#[verifier::external_body]
fn duration_nanos(d: &std::time::Duration) -> u128 {
    d.as_nanos()
}

/// Length of one rate-limit window, in nanoseconds (sixty seconds).
pub const RATE_LIMIT_WINDOW_NANOS: i128 = 60_000_000_000;

/// Most sessions whose counters are kept at once.
pub const MAX_TRACKED_SESSIONS: usize = 4096;

/// A request counter for the window that started at `window_started` (nanoseconds on
/// the limiter's clock).
#[derive(Debug, Clone, Copy, PartialEq, Eq, Structural)]
pub struct WindowCounter {
    pub window_started: i128,
    pub count: u32,
}

/// Which limit refused a request.
#[derive(Debug, Clone, Copy, PartialEq, Eq, Structural)]
pub enum RateLimitError {
    Global,
    Session,
}

impl RateLimitError {
    /// The body of the HTTP 429 answer for this refusal.
    pub fn status_message(self) -> (r: &'static str)
        ensures
            r@ == match self {
                RateLimitError::Global => "global MCP rate limit exceeded"@,
                RateLimitError::Session => "session MCP rate limit exceeded"@,
            },
    {
        match self {
            RateLimitError::Global => "global MCP rate limit exceeded",
            RateLimitError::Session => "session MCP rate limit exceeded",
        }
    }
}

/// Whether the window of `c` is over at time `now`.
pub open spec fn window_over(c: WindowCounter, now: i128) -> bool {
    now - c.window_started >= RATE_LIMIT_WINDOW_NANOS
}

/// One request against a counter with `limit` per window: a limit of zero admits
/// everything and leaves the counter alone; otherwise an elapsed window restarts at
/// `now`, and the request is admitted while the count is below the limit.
pub open spec fn counter_step(c: WindowCounter, limit: u32, now: i128) -> (WindowCounter, bool) {
    if limit == 0 {
        (c, true)
    } else {
        let fresh = if window_over(c, now) {
            WindowCounter { window_started: now, count: 0 }
        } else {
            c
        };
        if fresh.count >= limit {
            (fresh, false)
        } else {
            (WindowCounter { window_started: fresh.window_started, count: (fresh.count + 1) as u32 }, true)
        }
    }
}

/// Whether the window of `c` is over at time `now`.
pub fn window_over_at(c: WindowCounter, now: i128) -> (r: bool)
    ensures
        r == window_over(c, now),
{
    match now.checked_sub(c.window_started) {
        Some(d) => d >= RATE_LIMIT_WINDOW_NANOS,
        None => c.window_started < now,
    }
}

/// Counts one request; `Err(())` when the limit is reached.
pub fn increment_counter(counter: &mut WindowCounter, limit: u32, now: i128) -> (r: Result<(), ()>)
    ensures
        (*final(counter), r is Ok) == counter_step(*old(counter), limit, now),
{
    if limit == 0 {
        return Ok(());
    }
    if window_over_at(*counter, now) {
        counter.window_started = now;
        counter.count = 0;
    }
    if counter.count >= limit {
        return Err(());
    }
    counter.count = counter.count + 1;
    Ok(())
}

/// Tracked sessions: their ids and counters.
pub type SessionsView = Seq<(Seq<char>, WindowCounter)>;

pub open spec fn keys_distinct(s: SessionsView) -> bool {
    forall|i: int, j: int| 0 <= i < s.len() && 0 <= j < s.len() && i != j ==> #[trigger] s[i].0 != #[trigger] s[j].0
}

/// The sessions whose window is still open at `now`, in their order.
pub open spec fn retain_fresh(s: SessionsView, now: i128) -> SessionsView
    decreases s.len(),
{
    if s.len() == 0 {
        s
    } else {
        let kept = retain_fresh(s.drop_last(), now);
        if window_over(s.last().1, now) {
            kept
        } else {
            kept.push(s.last())
        }
    }
}

/// The position of `key` in `s`, or -1.
pub open spec fn key_index(s: SessionsView, key: Seq<char>) -> int
    decreases s.len(),
{
    if s.len() == 0 {
        -1
    } else if s.last().0 == key {
        s.len() - 1
    } else {
        key_index(s.drop_last(), key)
    }
}

/// A session's request: a limit of zero admits it and leaves the table alone;
/// otherwise expired sessions are dropped first, a new session is refused when the
/// table is full, and else its counter (new ones start at `now`) takes the request and
/// is stored.
pub open spec fn session_step(s: SessionsView, key: Seq<char>, limit: u32, now: i128) -> (
    SessionsView,
    bool,
) {
    if limit == 0 {
        (s, true)
    } else {
        session_step_limited(s, key, limit, now)
    }
}

/// A session's request under a positive limit.
pub open spec fn session_step_limited(s: SessionsView, key: Seq<char>, limit: u32, now: i128) -> (
    SessionsView,
    bool,
) {
    let f = retain_fresh(s, now);
    let i = key_index(f, key);
    if i < 0 && f.len() >= MAX_TRACKED_SESSIONS {
        (f, false)
    } else {
        let c = if i >= 0 {
            f[i].1
        } else {
            WindowCounter { window_started: now, count: 0 }
        };
        let (c2, ok) = counter_step(c, limit, now);
        (
            if i >= 0 {
                f.update(i, (key, c2))
            } else {
                f.push((key, c2))
            },
            ok,
        )
    }
}

/// The outcome of a request at `now`: the global counter is asked first; the session
/// counter only when the global one admitted, a session limit is set and the request
/// names a session.
pub open spec fn check_spec(
    global_limit: Option<u32>,
    session_limit: Option<u32>,
    global: WindowCounter,
    sessions: SessionsView,
    now: i128,
    session_id: Option<Seq<char>>,
) -> (WindowCounter, SessionsView, Result<(), RateLimitError>) {
    let (g, gok) = match global_limit {
        Some(l) => counter_step(global, l, now),
        None => (global, true),
    };
    if !gok {
        (g, sessions, Err(RateLimitError::Global))
    } else {
        match (session_limit, session_id) {
            (Some(l), Some(id)) => {
                let (s2, ok) = session_step(sessions, id, l, now);
                (g, s2, if ok { Ok(()) } else { Err(RateLimitError::Session) })
            },
            _ => (g, sessions, Ok(())),
        }
    }
}

proof fn lemma_retain_fresh(s: SessionsView, now: i128)
    requires
        keys_distinct(s),
    ensures
        keys_distinct(retain_fresh(s, now)),
        retain_fresh(s, now).len() <= s.len(),
        forall|k: int|
            0 <= k < retain_fresh(s, now).len() ==> s.contains(#[trigger] retain_fresh(s, now)[k]),
        forall|k: int|
            0 <= k < retain_fresh(s, now).len() ==> !window_over(
                #[trigger] retain_fresh(s, now)[k].1,
                now,
            ),
    decreases s.len(),
{
    if s.len() > 0 {
        let p = s.drop_last();
        assert(keys_distinct(p)) by {
            assert forall|i: int, j: int| 0 <= i < p.len() && 0 <= j < p.len() && i != j implies #[trigger] p[i].0
                != #[trigger] p[j].0 by {
                assert(p[i] == s[i] && p[j] == s[j]);
            }
        }
        lemma_retain_fresh(p, now);
        let kept = retain_fresh(p, now);
        assert forall|k: int| 0 <= k < kept.len() implies s.contains(#[trigger] kept[k]) by {
            let w = choose|w: int| 0 <= w < p.len() && p[w] == kept[k];
            assert(s[w] == kept[k]);
        }
        if !window_over(s.last().1, now) {
            let r = kept.push(s.last());
            assert forall|i: int, j: int| 0 <= i < r.len() && 0 <= j < r.len() && i != j implies #[trigger] r[i].0
                != #[trigger] r[j].0 by {
                if i < kept.len() && j < kept.len() {
                    assert(r[i] == kept[i] && r[j] == kept[j]);
                } else if i < kept.len() {
                    let w = choose|w: int| 0 <= w < p.len() && p[w] == kept[i];
                    assert(s[w] == kept[i]);
                    assert(s[s.len() - 1] == s.last());
                } else if j < kept.len() {
                    let w = choose|w: int| 0 <= w < p.len() && p[w] == kept[j];
                    assert(s[w] == kept[j]);
                    assert(s[s.len() - 1] == s.last());
                }
            }
            assert forall|k: int| 0 <= k < r.len() implies s.contains(#[trigger] r[k]) by {
                if k < kept.len() {
                    assert(r[k] == kept[k]);
                } else {
                    assert(s[s.len() - 1] == r[k]);
                }
            }
        }
    }
}

proof fn lemma_key_index(s: SessionsView, key: Seq<char>)
    ensures
        -1 <= key_index(s, key) < s.len(),
        key_index(s, key) >= 0 ==> s[key_index(s, key)].0 == key,
        key_index(s, key) < 0 ==> forall|k: int| 0 <= k < s.len() ==> #[trigger] s[k].0 != key,
    decreases s.len(),
{
    if s.len() > 0 {
        lemma_key_index(s.drop_last(), key);
        if s.last().0 != key {
            assert forall|k: int| 0 <= k < s.len() - 1 implies #[trigger] s[k] == s.drop_last()[k] by {}
        }
    }
}

proof fn lemma_key_index_unique(s: SessionsView, key: Seq<char>, k: int)
    requires
        keys_distinct(s),
        0 <= k < s.len(),
        s[k].0 == key,
    ensures
        key_index(s, key) == k,
{
    lemma_key_index(s, key);
}

/// A rate limiter with an optional global limit and an optional per-session limit,
/// each counted per sixty-second window.
pub struct RateLimiter {
    global_limit: Option<u32>,
    session_limit: Option<u32>,
    origin: std::time::Instant,
    last_reading: i128,
    global: WindowCounter,
    sessions: Vec<(String, WindowCounter)>,
}

impl RateLimiter {
    /// The tracked sessions, by id.
    pub closed spec fn sessions_view(&self) -> SessionsView {
        Seq::new(self.sessions@.len(), |i: int| (self.sessions@[i].0@, self.sessions@[i].1))
    }

    pub closed spec fn spec_global_limit(&self) -> Option<u32> {
        self.global_limit
    }

    pub closed spec fn spec_session_limit(&self) -> Option<u32> {
        self.session_limit
    }

    pub closed spec fn global_counter(&self) -> WindowCounter {
        self.global
    }

    /// The latest time at which `check` counted a request (zero before the first).
    pub closed spec fn last_reading(&self) -> i128 {
        self.last_reading
    }

    /// Session ids are distinct, at most `MAX_TRACKED_SESSIONS` are kept, and the
    /// latest reading is not negative.
    #[verifier::type_invariant]
    spec fn inv(self) -> bool {
        &&& keys_distinct(self.sessions_view())
        &&& self.sessions@.len() <= MAX_TRACKED_SESSIONS
        &&& self.last_reading >= 0
    }

    /// A limiter with the limits of `controls`, no requests counted yet.
    pub fn new(controls: &DeploymentControls) -> (r: Self)
        ensures
            r.spec_global_limit() == controls.rate_limit_global,
            r.spec_session_limit() == controls.rate_limit_session,
            r.global_counter() == (WindowCounter { window_started: 0, count: 0 }),
            r.sessions_view().len() == 0,
            r.last_reading() == 0,
            (r.global_counter(), r.sessions_view(), r.last_reading()) == fresh_view(),
    {
        let origin = instant_now();
        RateLimiter {
            global_limit: controls.rate_limit_global,
            session_limit: controls.rate_limit_session,
            origin,
            last_reading: 0,
            global: WindowCounter { window_started: 0, count: 0 },
            sessions: Vec::new(),
        }
    }

    /// Nanoseconds since the limiter was made, on the monotonic clock.
    pub fn clock(&self) -> (r: i128)
        ensures
            r >= 0,
    {
        let d = elapsed_since(&self.origin);
        let n = duration_nanos(&d);
        if n > 0x7fff_ffff_ffff_ffff_ffff_ffff_ffff_ffffu128 {
            0x7fff_ffff_ffff_ffff_ffff_ffff_ffff_ffffi128
        } else {
            n as i128
        }
    }

    /// Counts a request at time `now` and says whether a limit refuses it.
    pub fn check_at(&mut self, now: i128, session_id: Option<&str>) -> (r: Result<(), RateLimitError>)
        ensures
            (final(self).global_counter(), final(self).sessions_view(), r) == check_spec(
                old(self).spec_global_limit(),
                old(self).spec_session_limit(),
                old(self).global_counter(),
                old(self).sessions_view(),
                now,
                opt_str(session_id),
            ),
            final(self).spec_global_limit() == old(self).spec_global_limit(),
            final(self).spec_session_limit() == old(self).spec_session_limit(),
            final(self).last_reading() == old(self).last_reading(),
            final(self).sessions_view().len() <= MAX_TRACKED_SESSIONS,
    {
        proof {
            use_type_invariant(&*self);
        }
        if let Some(limit) = self.global_limit {
            let mut g = self.global;
            let res = increment_counter(&mut g, limit, now);
            self.global = g;
            if res.is_err() {
                return Err(RateLimitError::Global);
            }
        }
        if let (Some(limit), Some(id)) = (self.session_limit, session_id) {
            proof {
                law_session_table_stays_bounded(self.sessions_view(), id@, limit, now);
            }
            let ok = self.session_request(id, limit, now);
            if !ok {
                return Err(RateLimitError::Session);
            }
        }
        Ok(())
    }

    /// Counts a request at the current time and says whether a limit refuses it: the
    /// time is read on the limiter's clock, is never earlier than the latest reading,
    /// becomes the latest reading, and the outcome is that of `check_at` at that time.
    pub fn check(&mut self, session_id: Option<&str>) -> (r: Result<(), RateLimitError>)
        ensures
            final(self).sessions_view().len() <= MAX_TRACKED_SESSIONS,
            final(self).last_reading() >= 0,
            final(self).last_reading() >= old(self).last_reading(),
            (final(self).global_counter(), final(self).sessions_view(), r) == check_spec(
                old(self).spec_global_limit(),
                old(self).spec_session_limit(),
                old(self).global_counter(),
                old(self).sessions_view(),
                final(self).last_reading(),
                opt_str(session_id),
            ),
            final(self).spec_global_limit() == old(self).spec_global_limit(),
            final(self).spec_session_limit() == old(self).spec_session_limit(),
    {
        proof {
            use_type_invariant(&*self);
        }
        let reading = self.clock();
        let now = if reading < self.last_reading {
            self.last_reading
        } else {
            reading
        };
        self.last_reading = now;
        let r = self.check_at(now, session_id);
        assert((self.global_counter(), self.sessions_view(), r) == check_spec(
            old(self).spec_global_limit(),
            old(self).spec_session_limit(),
            old(self).global_counter(),
            old(self).sessions_view(),
            now,
            opt_str(session_id),
        ));
        r
    }

    fn session_request(&mut self, id: &str, limit: u32, now: i128) -> (ok: bool)
        ensures
            (final(self).sessions_view(), ok) == session_step(old(self).sessions_view(), id@, limit, now),
            final(self).global == old(self).global,
            final(self).last_reading == old(self).last_reading,
            final(self).global_limit == old(self).global_limit,
            final(self).session_limit == old(self).session_limit,
    {
        proof {
            use_type_invariant(&*self);
            lemma_retain_fresh(self.sessions_view(), now);
        }
        if limit == 0 {
            return true;
        }
        let ghost s0 = self.sessions_view();
        let mut old_sessions: Vec<(String, WindowCounter)> = Vec::new();
        std::mem::swap(&mut old_sessions, &mut self.sessions);
        let mut kept: Vec<(String, WindowCounter)> = Vec::new();
        let mut i: usize = 0;
        while i < old_sessions.len()
            invariant
                i <= old_sessions@.len(),
                s0 == Seq::new(old_sessions@.len(), |k: int| (old_sessions@[k].0@, old_sessions@[k].1)),
                Seq::new(kept@.len(), |k: int| (kept@[k].0@, kept@[k].1)) == retain_fresh(
                    s0.take(i as int),
                    now,
                ),
            decreases old_sessions.len() - i,
        {
            proof {
                assert(s0.take(i + 1).drop_last() =~= s0.take(i as int));
                assert(s0.take(i + 1).last() == s0[i as int]);
            }
            let c = old_sessions[i].1;
            if !window_over_at(c, now) {
                let ghost before = kept@;
                let name = old_sessions[i].0.clone();
                kept.push((name, c));
                proof {
                    assert(Seq::new(kept@.len(), |k: int| (kept@[k].0@, kept@[k].1)) =~= Seq::new(
                        before.len(),
                        |k: int| (before[k].0@, before[k].1),
                    ).push(s0[i as int]));
                }
            }
            i = i + 1;
        }
        proof {
            assert(s0.take(old_sessions.len() as int) =~= s0);
        }
        let ghost f = retain_fresh(s0, now);
        proof {
            lemma_key_index(f, id@);
        }
        let mut found: usize = kept.len();
        let mut j: usize = 0;
        while j < kept.len()
            invariant
                j <= kept@.len() == f.len(),
                f == Seq::new(kept@.len(), |k: int| (kept@[k].0@, kept@[k].1)),
                found == kept@.len() || (found < kept@.len() && f[found as int].0 == id@),
                found == kept@.len() ==> forall|k: int| 0 <= k < j ==> #[trigger] f[k].0 != id@,
            decreases kept.len() - j,
        {
            if found == kept.len() && text_eq(kept[j].0.as_str(), id) {
                found = j;
            }
            proof {
                assert(f[j as int].0 == kept@[j as int].0@);
            }
            j = j + 1;
        }
        proof {
            if found < kept.len() {
                lemma_key_index_unique(f, id@, found as int);
            }
        }
        if found == kept.len() && kept.len() >= MAX_TRACKED_SESSIONS {
            self.sessions = kept;
            return false;
        }
        let mut c = if found < kept.len() {
            kept[found].1
        } else {
            WindowCounter { window_started: now, count: 0 }
        };
        let res = increment_counter(&mut c, limit, now);
        let ghost before = kept@;
        if found < kept.len() {
            kept.set(found, (id.to_owned(), c));
            proof {
                assert(Seq::new(kept@.len(), |k: int| (kept@[k].0@, kept@[k].1)) =~= f.update(
                    found as int,
                    (id@, c),
                ));
            }
        } else {
            kept.push((id.to_owned(), c));
            proof {
                assert(Seq::new(kept@.len(), |k: int| (kept@[k].0@, kept@[k].1)) =~= f.push(
                    (id@, c),
                ));
            }
        }
        proof {
            let v = Seq::new(kept@.len(), |k: int| (kept@[k].0@, kept@[k].1));
            assert(keys_distinct(v)) by {
                assert forall|a: int, b: int| 0 <= a < v.len() && 0 <= b < v.len() && a != b implies #[trigger] v[a].0
                    != #[trigger] v[b].0 by {
                    if a < f.len() && a != found {
                        assert(v[a] == f[a]);
                    }
                    if b < f.len() && b != found {
                        assert(v[b] == f[b]);
                    }
                }
            }
        }
        self.sessions = kept;
        res.is_ok()
    }

    /// Stores `counter` for `session_id`, replacing an earlier one; a new session is
    /// refused (`false`) when `MAX_TRACKED_SESSIONS` are already kept.
    pub fn track_session(&mut self, session_id: &str, counter: WindowCounter) -> (r: bool)
        ensures
            r == (key_index(old(self).sessions_view(), session_id@) >= 0 || old(
                self,
            ).sessions_view().len() < MAX_TRACKED_SESSIONS),
            r ==> key_index(final(self).sessions_view(), session_id@) >= 0
                && final(self).sessions_view()[key_index(final(self).sessions_view(), session_id@)].1
                == counter,
            !r ==> final(self).sessions_view() == old(self).sessions_view(),
            r ==> final(self).sessions_view() == if key_index(old(self).sessions_view(), session_id@) >= 0 {
                old(self).sessions_view().update(
                    key_index(old(self).sessions_view(), session_id@),
                    (session_id@, counter),
                )
            } else {
                old(self).sessions_view().push((session_id@, counter))
            },
            final(self).spec_global_limit() == old(self).spec_global_limit(),
            final(self).spec_session_limit() == old(self).spec_session_limit(),
            final(self).global_counter() == old(self).global_counter(),
            final(self).last_reading() == old(self).last_reading(),
    {
        proof {
            use_type_invariant(&*self);
        }
        let ghost f = self.sessions_view();
        proof {
            lemma_key_index(f, session_id@);
        }
        let mut j: usize = 0;
        while j < self.sessions.len()
            invariant
                j <= self.sessions@.len(),
                f == self.sessions_view(),
                f == old(self).sessions_view(),
                keys_distinct(f),
                self.sessions@.len() <= MAX_TRACKED_SESSIONS,
                self.last_reading >= 0,
                self.last_reading == old(self).last_reading,
                self.global_limit == old(self).global_limit,
                self.session_limit == old(self).session_limit,
                self.global == old(self).global,
                forall|k: int| 0 <= k < j ==> #[trigger] f[k].0 != session_id@,
            decreases self.sessions.len() - j,
        {
            if text_eq(self.sessions[j].0.as_str(), session_id) {
                proof {
                    assert(f[j as int].0 == self.sessions@[j as int].0@);
                    lemma_key_index_unique(f, session_id@, j as int);
                }
                let mut sessions: Vec<(String, WindowCounter)> = Vec::new();
        std::mem::swap(&mut sessions, &mut self.sessions);
                sessions.set(j, (session_id.to_owned(), counter));
                proof {
                    let v = Seq::new(sessions@.len(), |k: int| (sessions@[k].0@, sessions@[k].1));
                    assert(v =~= f.update(j as int, (session_id@, counter)));
                    assert(keys_distinct(v)) by {
                        assert forall|a: int, b: int| 0 <= a < v.len() && 0 <= b < v.len() && a != b implies #[trigger] v[a].0
                            != #[trigger] v[b].0 by {
                            if a != j {
                                assert(v[a] == f[a]);
                            }
                            if b != j {
                                assert(v[b] == f[b]);
                            }
                        }
                    }
                    lemma_key_index_unique(v, session_id@, j as int);
                }
                self.sessions = sessions;
                return true;
            }
            proof {
                assert(f[j as int].0 == self.sessions@[j as int].0@);
            }
            j = j + 1;
        }
        if self.sessions.len() >= MAX_TRACKED_SESSIONS {
            return false;
        }
        let mut sessions: Vec<(String, WindowCounter)> = Vec::new();
        std::mem::swap(&mut sessions, &mut self.sessions);
        sessions.push((session_id.to_owned(), counter));
        proof {
            let v = Seq::new(sessions@.len(), |k: int| (sessions@[k].0@, sessions@[k].1));
            assert(v =~= f.push((session_id@, counter)));
            assert(keys_distinct(v)) by {
                assert forall|a: int, b: int| 0 <= a < v.len() && 0 <= b < v.len() && a != b implies #[trigger] v[a].0
                    != #[trigger] v[b].0 by {
                    if a < f.len() {
                        assert(v[a] == f[a]);
                    }
                    if b < f.len() {
                        assert(v[b] == f[b]);
                    }
                }
            }
            lemma_key_index_unique(v, session_id@, f.len() as int);
        }
        self.sessions = sessions;
        true
    }

    /// Whether a counter is kept for `session_id`.
    pub fn is_tracking(&self, session_id: &str) -> (r: bool)
        ensures
            r == (key_index(self.sessions_view(), session_id@) >= 0),
    {
        proof {
            use_type_invariant(self);
        }
        let ghost f = self.sessions_view();
        proof {
            lemma_key_index(f, session_id@);
        }
        let mut j: usize = 0;
        while j < self.sessions.len()
            invariant
                j <= self.sessions@.len(),
                f == self.sessions_view(),
                keys_distinct(f),
                forall|k: int| 0 <= k < j ==> #[trigger] f[k].0 != session_id@,
            decreases self.sessions.len() - j,
        {
            if text_eq(self.sessions[j].0.as_str(), session_id) {
                proof {
                    assert(f[j as int].0 == self.sessions@[j as int].0@);
                    lemma_key_index_unique(f, session_id@, j as int);
                }
                return true;
            }
            proof {
                assert(f[j as int].0 == self.sessions@[j as int].0@);
            }
            j = j + 1;
        }
        false
    }
}


/// The counter after a run of requests at `times`, and how many were admitted.
pub open spec fn run_counter(c: WindowCounter, limit: u32, times: Seq<i128>) -> (WindowCounter, nat)
    decreases times.len(),
{
    if times.len() == 0 {
        (c, 0)
    } else {
        let (c1, ok) = counter_step(c, limit, times[0]);
        let (c2, n) = run_counter(c1, limit, times.drop_first());
        (c2, n + if ok { 1nat } else { 0nat })
    }
}

/// Within one window a counter with a positive limit admits at most as many requests
/// as the limit leaves: a run of requests that all fall inside the counter's window
/// admits no more than `limit - count`.
pub proof fn law_window_admits_at_most_limit(c: WindowCounter, limit: u32, times: Seq<i128>)
    requires
        limit > 0,
        c.count <= limit,
        forall|i: int| 0 <= i < times.len() ==> !window_over(c, #[trigger] times[i]),
    ensures
        run_counter(c, limit, times).1 <= limit - c.count,
        run_counter(c, limit, times).0.window_started == c.window_started,
    decreases times.len(),
{
    if times.len() > 0 {
        let (c1, ok) = counter_step(c, limit, times[0]);
        assert(!window_over(c, times[0]));
        assert forall|i: int| 0 <= i < times.drop_first().len() implies !window_over(
            c1,
            #[trigger] times.drop_first()[i],
        ) by {
            assert(times.drop_first()[i] == times[i + 1]);
        }
        law_window_admits_at_most_limit(c1, limit, times.drop_first());
    }
}

/// A limit of zero admits every request and leaves the counter as it was.
pub proof fn law_zero_limit_admits_all(c: WindowCounter, now: i128)
    ensures
        counter_step(c, 0, now) == (c, true),
{
}

/// After a session's request the table keeps distinct ids, at most
/// `MAX_TRACKED_SESSIONS` of them, and, under a positive limit, no session whose window
/// is over.
pub proof fn law_session_table_stays_bounded(s: SessionsView, key: Seq<char>, limit: u32, now: i128)
    requires
        keys_distinct(s),
        s.len() <= MAX_TRACKED_SESSIONS,
    ensures
        keys_distinct(session_step(s, key, limit, now).0),
        session_step(s, key, limit, now).0.len() <= MAX_TRACKED_SESSIONS,
        limit > 0 ==> forall|k: int|
            0 <= k < session_step(s, key, limit, now).0.len() ==> !window_over(
                #[trigger] session_step(s, key, limit, now).0[k].1,
                now,
            ),
{
    if limit == 0 {
        return;
    }
    lemma_retain_fresh(s, now);
    let f = retain_fresh(s, now);
    lemma_key_index(f, key);
    let i = key_index(f, key);
    let r = session_step(s, key, limit, now).0;
    if !(i < 0 && f.len() >= MAX_TRACKED_SESSIONS) {
        let c = if i >= 0 {
            f[i].1
        } else {
            WindowCounter { window_started: now, count: 0 }
        };
        let (c2, ok) = counter_step(c, limit, now);
        assert(!window_over(c, now));
        assert(!window_over(c2, now));
        assert forall|a: int, b: int| 0 <= a < r.len() && 0 <= b < r.len() && a != b implies #[trigger] r[a].0
            != #[trigger] r[b].0 by {
            if a < f.len() && a != i {
                assert(r[a] == f[a]);
            }
            if b < f.len() && b != i {
                assert(r[b] == f[b]);
            }
        }
        assert forall|k: int| 0 <= k < r.len() implies !window_over(#[trigger] r[k].1, now) by {
            if k < f.len() && k != i {
                assert(r[k] == f[k]);
            }
        }
    }
}


/// The limiter after a run of requests, each at a time and with an optional session
/// id, and the outcome of each request in order.
pub open spec fn run_checks(
    global_limit: Option<u32>,
    session_limit: Option<u32>,
    global: WindowCounter,
    sessions: SessionsView,
    events: Seq<(i128, Option<Seq<char>>)>,
) -> (WindowCounter, SessionsView, Seq<Result<(), RateLimitError>>)
    decreases events.len(),
{
    if events.len() == 0 {
        (global, sessions, Seq::empty())
    } else {
        let (g, s, rs) = run_checks(global_limit, session_limit, global, sessions, events.drop_last());
        let (g2, s2, r) = check_spec(global_limit, session_limit, g, s, events.last().0, events.last().1);
        (g2, s2, rs.push(r))
    }
}

/// A fresh limiter with a global limit `n > 0` and no session limit admits the first
/// `n` requests made within the first window and refuses every later one in that
/// window, whatever session they name; a refused request uses up nothing.
pub proof fn law_global_limit_within_window(n: u32, events: Seq<(i128, Option<Seq<char>>)>)
    requires
        n > 0,
        forall|i: int| 0 <= i < events.len() ==> #[trigger] events[i].0 < RATE_LIMIT_WINDOW_NANOS,
    ensures
        ({
            let (g, _s, rs) = run_checks(
                Some(n),
                None,
                WindowCounter { window_started: 0, count: 0 },
                Seq::empty(),
                events,
            );
            &&& rs.len() == events.len()
            &&& forall|i: int|
                0 <= i < rs.len() ==> #[trigger] rs[i] == if i < n {
                    Ok::<(), RateLimitError>(())
                } else {
                    Err(RateLimitError::Global)
                }
            &&& g == WindowCounter {
                window_started: 0,
                count: if events.len() < n { events.len() as u32 } else { n },
            }
        }),
    decreases events.len(),
{
    if events.len() > 0 {
        let p = events.drop_last();
        assert forall|i: int| 0 <= i < p.len() implies #[trigger] p[i].0 < RATE_LIMIT_WINDOW_NANOS by {
            assert(p[i] == events[i]);
        }
        law_global_limit_within_window(n, p);
        assert(events.last() == events[events.len() - 1]);
    }
}

/// With no positive limit, global or per session, every request is admitted and the
/// limiter's counters stay as they were.
pub proof fn law_zero_limits_admit_everything(
    global_limit: Option<u32>,
    session_limit: Option<u32>,
    global: WindowCounter,
    sessions: SessionsView,
    now: i128,
    session_id: Option<Seq<char>>,
)
    requires
        global_limit is None || global_limit == Some(0u32),
        session_limit is None || session_limit == Some(0u32),
    ensures
        check_spec(global_limit, session_limit, global, sessions, now, session_id) == (
            global,
            sessions,
            Ok::<(), RateLimitError>(()),
        ),
{
}

/// When `MAX_TRACKED_SESSIONS` sessions whose windows are still open are tracked, a
/// request that the global limit admits and that names a session not among them is
/// refused by the session limit, and that session stays untracked.
pub proof fn law_full_table_refuses_new_session(
    global_limit: Option<u32>,
    limit: u32,
    global: WindowCounter,
    sessions: SessionsView,
    now: i128,
    id: Seq<char>,
)
    requires
        limit > 0,
        sessions.len() == MAX_TRACKED_SESSIONS,
        forall|k: int| 0 <= k < sessions.len() ==> !window_over(#[trigger] sessions[k].1, now),
        forall|k: int| 0 <= k < sessions.len() ==> #[trigger] sessions[k].0 != id,
        match global_limit {
            Some(l) => counter_step(global, l, now).1,
            None => true,
        },
    ensures
        check_spec(global_limit, Some(limit), global, sessions, now, Some(id)).2 == Err::<
            (),
            RateLimitError,
        >(RateLimitError::Session),
        check_spec(global_limit, Some(limit), global, sessions, now, Some(id)).1 == sessions,
        key_index(check_spec(global_limit, Some(limit), global, sessions, now, Some(id)).1, id) < 0,
{
    lemma_retain_fresh_keeps_fresh(sessions, now);
    lemma_key_index(sessions, id);
}

/// A table whose sessions are all still open at `now` is kept whole.
proof fn lemma_retain_fresh_keeps_fresh(s: SessionsView, now: i128)
    requires
        forall|k: int| 0 <= k < s.len() ==> !window_over(#[trigger] s[k].1, now),
    ensures
        retain_fresh(s, now) == s,
    decreases s.len(),
{
    if s.len() > 0 {
        let p = s.drop_last();
        assert forall|k: int| 0 <= k < p.len() implies !window_over(#[trigger] p[k].1, now) by {
            assert(p[k] == s[k]);
        }
        lemma_retain_fresh_keeps_fresh(p, now);
        assert(s.last() == s[s.len() - 1]);
        assert(p.push(s.last()) =~= s);
    }
}

/// How many of `events` name session `x`.
pub open spec fn session_calls(events: Seq<(i128, Option<Seq<char>>)>, x: Seq<char>) -> nat
    decreases events.len(),
{
    if events.len() == 0 {
        0
    } else {
        session_calls(events.drop_last(), x) + if events.last().1 == Some(x) {
            1nat
        } else {
            0nat
        }
    }
}

/// The position of the first of `events` that names session `x`, or -1.
pub open spec fn first_call(events: Seq<(i128, Option<Seq<char>>)>, x: Seq<char>) -> int
    decreases events.len(),
{
    if events.len() == 0 {
        -1
    } else {
        let f = first_call(events.drop_last(), x);
        if f >= 0 {
            f
        } else if events.last().1 == Some(x) {
            events.len() - 1
        } else {
            -1
        }
    }
}

/// How many different sessions `events` name.
pub open spec fn distinct_sessions(events: Seq<(i128, Option<Seq<char>>)>) -> nat
    decreases events.len(),
{
    if events.len() == 0 {
        0
    } else {
        distinct_sessions(events.drop_last()) + match events.last().1 {
            Some(x) => if first_call(events.drop_last(), x) < 0 {
                1nat
            } else {
                0nat
            },
            None => 0nat,
        }
    }
}

/// What a per-session limit of `n` answers the request `events[i]`: a request without
/// a session passes; one with a session passes while that session has made fewer than
/// `n` earlier requests.
pub open spec fn session_outcome(events: Seq<(i128, Option<Seq<char>>)>, i: int, n: u32) -> Result<
    (),
    RateLimitError,
> {
    match events[i].1 {
        None => Ok(()),
        Some(x) => if session_calls(events.take(i), x) < n {
            Ok(())
        } else {
            Err(RateLimitError::Session)
        },
    }
}

spec fn capped(c: nat, n: u32) -> u32 {
    if c < n {
        c as u32
    } else {
        n
    }
}

/// The session table after `events` under a per-session limit `n`: each tracked
/// session's window started at its first request and counts its requests up to `n`;
/// a session that made a request is tracked unless its window is over by the last one.
spec fn table_tracks(events: Seq<(i128, Option<Seq<char>>)>, s: SessionsView, n: u32) -> bool {
    &&& keys_distinct(s)
    &&& s.len() <= distinct_sessions(events)
    &&& forall|q: int|
        0 <= q < s.len() ==> first_call(events, (#[trigger] s[q]).0) >= 0 && s[q].1 == WindowCounter {
            window_started: events[first_call(events, s[q].0)].0,
            count: capped(session_calls(events, s[q].0), n),
        }
    &&& forall|j: int|
        0 <= j < events.len() && (#[trigger] events[j]).1 is Some ==> key_index(s, events[j].1->0) >= 0
            || events.last().0 - events[first_call(events, events[j].1->0)].0 >= RATE_LIMIT_WINDOW_NANOS
}

proof fn lemma_first_call(events: Seq<(i128, Option<Seq<char>>)>, x: Seq<char>)
    ensures
        -1 <= first_call(events, x) < events.len(),
        first_call(events, x) >= 0 ==> events[first_call(events, x)].1 == Some(x),
        first_call(events, x) < 0 ==> session_calls(events, x) == 0,
        forall|j: int| 0 <= j < events.len() && (#[trigger] events[j]).1 == Some(x) ==> first_call(events, x) >= 0
            && first_call(events, x) <= j,
    decreases events.len(),
{
    if events.len() > 0 {
        let p = events.drop_last();
        lemma_first_call(p, x);
        assert forall|j: int| 0 <= j < events.len() && (#[trigger] events[j]).1 == Some(x) implies first_call(events, x) >= 0
            && first_call(events, x) <= j by {
            if j < p.len() {
                assert(p[j] == events[j]);
            }
        }
        if first_call(p, x) >= 0 {
            assert(p[first_call(p, x)] == events[first_call(p, x)]);
        }
    }
}

proof fn lemma_retain_fresh_keeps(s: SessionsView, now: i128, q: int)
    requires
        0 <= q < s.len(),
        !window_over(s[q].1, now),
    ensures
        exists|k: int| 0 <= k < retain_fresh(s, now).len() && retain_fresh(s, now)[k] == s[q],
    decreases s.len(),
{
    let p = s.drop_last();
    if q < s.len() - 1 {
        assert(p[q] == s[q]);
        lemma_retain_fresh_keeps(p, now, q);
        let k = choose|k: int| 0 <= k < retain_fresh(p, now).len() && retain_fresh(p, now)[k] == p[q];
        if !window_over(s.last().1, now) {
            assert(retain_fresh(s, now) == retain_fresh(p, now).push(s.last()));
            assert(retain_fresh(s, now)[k] == retain_fresh(p, now)[k]);
        } else {
            assert(retain_fresh(s, now) == retain_fresh(p, now));
        }
        assert(retain_fresh(s, now)[k] == s[q]);
    } else {
        let kept = retain_fresh(p, now);
        assert(s[q] == s.last());
        assert(retain_fresh(s, now) == kept.push(s.last()));
        assert(retain_fresh(s, now)[kept.len() as int] == s[q]);
    }
}

proof fn lemma_key_index_found(s: SessionsView, key: Seq<char>, k: int)
    requires
        0 <= k < s.len(),
        s[k].0 == key,
    ensures
        key_index(s, key) >= 0,
{
    lemma_key_index(s, key);
}

/// One more request keeps the table as `table_tracks` describes it, with the outcome
/// `session_outcome` gives.
proof fn lemma_session_step(
    n: u32,
    events: Seq<(i128, Option<Seq<char>>)>,
    g: WindowCounter,
    s: SessionsView,
)
    requires
        n > 0,
        events.len() > 0,
        table_tracks(events.drop_last(), s, n),
        events.len() > 1 ==> events[events.len() - 2].0 <= events.last().0,
        distinct_sessions(events) < MAX_TRACKED_SESSIONS,
        forall|i: int|
            0 <= i < events.len() - 1 && (#[trigger] events[i]).1 is Some && events[i].1 == events.last().1
                ==> events.last().0 - events[i].0 < RATE_LIMIT_WINDOW_NANOS,
    ensures
        ({
            let (g2, s2, r) = check_spec(None, Some(n), g, s, events.last().0, events.last().1);
            &&& g2 == g
            &&& table_tracks(events, s2, n)
            &&& r == session_outcome(events, events.len() - 1, n)
        }),
{
    let p = events.drop_last();
    let last = events.len() - 1;
    let t = events.last().0;
    assert(events[last] == events.last());
    assert(events.take(last) =~= p);
    assert forall|k: int| 0 <= k < p.len() implies #[trigger] p[k] == events[k] by {}
    if p.len() > 0 {
        assert(p.last() == events[last - 1]);
    }
    match events.last().1 {
        None => {
            assert forall|y: Seq<char>| #[trigger] first_call(events, y) == first_call(p, y) && session_calls(events, y) == session_calls(p, y) by {}
            let (g2, s2, r) = check_spec(None, Some(n), g, s, t, None);
            assert forall|j: int| 0 <= j < events.len() && (#[trigger] events[j]).1 is Some implies key_index(s, events[j].1->0) >= 0
                || events.last().0 - events[first_call(events, events[j].1->0)].0 >= RATE_LIMIT_WINDOW_NANOS by {
                assert(j < last);
                assert(p[j] == events[j]);
                lemma_first_call(p, events[j].1->0);
            }
            assert forall|q: int|
                0 <= q < s.len() implies first_call(events, (#[trigger] s[q]).0) >= 0 && s[q].1 == WindowCounter {
                    window_started: events[first_call(events, s[q].0)].0,
                    count: capped(session_calls(events, s[q].0), n),
                } by {
                lemma_first_call(p, s[q].0);
                assert(first_call(events, s[q].0) == first_call(p, s[q].0));
            }
            assert(distinct_sessions(events) == distinct_sessions(p));
            assert(table_tracks(events, s2, n));
            assert(r == session_outcome(events, last, n));
        },
        Some(x) => {
            lemma_first_call(p, x);
            lemma_retain_fresh(s, t);
            law_session_table_stays_bounded(s, x, n, t);
            let f = retain_fresh(s, t);
            lemma_key_index(f, x);
            let (s2, ok) = session_step(s, x, n, t);
            assert forall|y: Seq<char>| y != x implies #[trigger] first_call(events, y) == first_call(p, y) && session_calls(events, y) == session_calls(p, y) by {}
            assert(session_calls(events, x) == session_calls(p, x) + 1);
            if first_call(p, x) >= 0 {
                let fi = first_call(p, x);
                assert(first_call(events, x) == fi);
                assert(events[fi] == p[fi]);
                assert(t - events[fi].0 < RATE_LIMIT_WINDOW_NANOS);
                assert(key_index(s, x) >= 0);
                lemma_key_index(s, x);
                let q = key_index(s, x);
                assert(s[q].1.window_started == p[fi].0);
                assert(!window_over(s[q].1, t));
                lemma_retain_fresh_keeps(s, t, q);
                let k = choose|k: int| 0 <= k < f.len() && f[k] == s[q];
                lemma_key_index_unique(f, x, k);
                assert(key_index(f, x) == k);
            } else {
                assert forall|q: int| 0 <= q < s.len() implies #[trigger] s[q].0 != x by {
                    assert(first_call(p, s[q].0) >= 0);
                }
                assert forall|k: int| 0 <= k < f.len() implies #[trigger] f[k].0 != x by {
                    assert(s.contains(f[k]));
                }
                assert(key_index(f, x) < 0);
                assert(distinct_sessions(events) == distinct_sessions(p) + 1);
                assert(f.len() < MAX_TRACKED_SESSIONS);
            }
            assert forall|q: int| 0 <= q < s2.len() implies first_call(events, (#[trigger] s2[q]).0) >= 0 && s2[q].1 == WindowCounter {
                window_started: events[first_call(events, s2[q].0)].0,
                count: capped(session_calls(events, s2[q].0), n),
            } by {
                if s2[q].0 != x {
                    assert(s2[q] == f[q]);
                    assert(s.contains(f[q]));
                    let w = choose|w: int| 0 <= w < s.len() && s[w] == f[q];
                    lemma_first_call(p, s[w].0);
                    assert(first_call(p, s[w].0) >= 0);
                    assert(events[first_call(p, s[w].0)] == p[first_call(p, s[w].0)]);
                } else {
                    lemma_first_call(events, x);
                }
            }
            assert forall|j: int| 0 <= j < events.len() && (#[trigger] events[j]).1 is Some implies key_index(s2, events[j].1->0) >= 0
                || events.last().0 - events[first_call(events, events[j].1->0)].0 >= RATE_LIMIT_WINDOW_NANOS by {
                let y = events[j].1->0;
                if y == x {
                    let k = key_index(f, x);
                    if k >= 0 {
                        lemma_key_index_found(s2, x, k);
                    } else {
                        lemma_key_index_found(s2, x, f.len() as int);
                    }
                } else {
                    assert(j < last);
                    assert(p[j] == events[j]);
                    lemma_first_call(p, y);
                    let fy = first_call(p, y);
                    assert(events[fy] == p[fy]);
                    if key_index(s, y) >= 0 {
                        lemma_key_index(s, y);
                        let q = key_index(s, y);
                        if !window_over(s[q].1, t) {
                            lemma_retain_fresh_keeps(s, t, q);
                            let k = choose|k: int| 0 <= k < f.len() && f[k] == s[q];
                            assert(s2[k] == f[k]);
                            lemma_key_index_found(s2, y, k);
                        }
                    }
                }
            }
            assert(keys_distinct(s2));
            assert(s2.len() <= distinct_sessions(events));
            assert(table_tracks(events, s2, n));
            assert(ok == (session_calls(p, x) < n));
        },
    }
}

/// A fresh limiter with a per-session limit `n > 0` and no global limit, fed requests
/// in time order from fewer than `MAX_TRACKED_SESSIONS` sessions, each of whose
/// requests fall within one window of its first: a request without a session always
/// passes, and a session's request passes exactly while that session has made fewer
/// than `n` earlier requests, whatever the other sessions do.
pub proof fn law_session_limit_per_session(n: u32, events: Seq<(i128, Option<Seq<char>>)>)
    requires
        n > 0,
        forall|i: int, j: int| 0 <= i <= j < events.len() ==> #[trigger] events[i].0 <= #[trigger] events[j].0,
        distinct_sessions(events) < MAX_TRACKED_SESSIONS,
        forall|i: int, j: int|
            0 <= i < j < events.len() && (#[trigger] events[i]).1 is Some && (#[trigger] events[j]).1
                == events[i].1 ==> events[j].0 - events[i].0 < RATE_LIMIT_WINDOW_NANOS,
    ensures
        ({
            let (_g, _s, rs) = run_checks(
                None,
                Some(n),
                WindowCounter { window_started: 0, count: 0 },
                Seq::empty(),
                events,
            );
            &&& rs.len() == events.len()
            &&& forall|i: int| 0 <= i < rs.len() ==> #[trigger] rs[i] == session_outcome(events, i, n)
        }),
{
    lemma_session_run(n, events);
}

proof fn lemma_session_run(n: u32, events: Seq<(i128, Option<Seq<char>>)>)
    requires
        n > 0,
        forall|i: int, j: int| 0 <= i <= j < events.len() ==> #[trigger] events[i].0 <= #[trigger] events[j].0,
        distinct_sessions(events) < MAX_TRACKED_SESSIONS,
        forall|i: int, j: int|
            0 <= i < j < events.len() && (#[trigger] events[i]).1 is Some && (#[trigger] events[j]).1
                == events[i].1 ==> events[j].0 - events[i].0 < RATE_LIMIT_WINDOW_NANOS,
    ensures
        ({
            let (g, s, rs) = run_checks(
                None,
                Some(n),
                WindowCounter { window_started: 0, count: 0 },
                Seq::empty(),
                events,
            );
            &&& g == WindowCounter { window_started: 0, count: 0 }
            &&& table_tracks(events, s, n)
            &&& rs.len() == events.len()
            &&& forall|i: int| 0 <= i < rs.len() ==> #[trigger] rs[i] == session_outcome(events, i, n)
        }),
    decreases events.len(),
{
    if events.len() == 0 {
        return;
    }
    let p = events.drop_last();
    assert forall|k: int| 0 <= k < p.len() implies #[trigger] p[k] == events[k] by {}
    assert(distinct_sessions(p) <= distinct_sessions(events));
    lemma_session_run(n, p);
    let (g, s, rs) = run_checks(None, Some(n), WindowCounter { window_started: 0, count: 0 }, Seq::empty(), p);
    let last = events.len() - 1;
    assert(events[last] == events.last());
    if events.len() > 1 {
        assert(events[last - 1].0 <= events[last].0);
    }
    assert forall|i: int|
        0 <= i < events.len() - 1 && (#[trigger] events[i]).1 is Some && events[i].1 == events.last().1
            implies events.last().0 - events[i].0 < RATE_LIMIT_WINDOW_NANOS by {
        assert(events[last].1 == events[i].1);
    }
    lemma_session_step(n, events, g, s);
    let (g2, s2, rs2) = run_checks(None, Some(n), WindowCounter { window_started: 0, count: 0 }, Seq::empty(), events);
    assert forall|i: int| 0 <= i < rs2.len() implies #[trigger] rs2[i] == session_outcome(events, i, n) by {
        if i < p.len() {
            assert(rs2[i] == rs[i]);
            assert(p.take(i) =~= events.take(i));
        }
    }
}

/// What the limiter shows: its global counter, its session table and its latest
/// reading.
pub type LimiterView = (WindowCounter, SessionsView, i128);

/// One call of `check` as the limiter's views show it: the reading after the call is no
/// earlier than the one before, and the counters and outcome are those of `check_spec`
/// at that reading.
pub open spec fn check_step(
    global_limit: Option<u32>,
    session_limit: Option<u32>,
    before: LimiterView,
    session_id: Option<Seq<char>>,
    after: LimiterView,
    r: Result<(), RateLimitError>,
) -> bool {
    after.2 >= before.2 && (after.0, after.1, r) == check_spec(
        global_limit,
        session_limit,
        before.0,
        before.1,
        after.2,
        session_id,
    )
}

/// A run of `check` calls: `states[i]` before the call with `ids[i]`, `states[i + 1]`
/// after it, and `rs[i]` its outcome.
pub open spec fn check_trace(
    global_limit: Option<u32>,
    session_limit: Option<u32>,
    states: Seq<LimiterView>,
    ids: Seq<Option<Seq<char>>>,
    rs: Seq<Result<(), RateLimitError>>,
) -> bool {
    &&& states.len() == ids.len() + 1
    &&& rs.len() == ids.len()
    &&& forall|i: int|
        0 <= i < ids.len() ==> check_step(global_limit, session_limit, #[trigger] states[i], ids[i], states[i + 1], rs[i])
}

/// The calls of a run as timed requests: each at the reading it was counted at.
pub open spec fn trace_events(states: Seq<LimiterView>, ids: Seq<Option<Seq<char>>>) -> Seq<
    (i128, Option<Seq<char>>),
> {
    Seq::new(ids.len(), |i: int| (states[i + 1].2, ids[i]))
}

/// The limiter fresh from `new`.
pub open spec fn fresh_view() -> LimiterView {
    (WindowCounter { window_started: 0, count: 0 }, Seq::empty(), 0)
}

/// A run of `check` calls is `run_checks` over its readings, and the readings never go
/// back.
proof fn lemma_trace_is_run(
    global_limit: Option<u32>,
    session_limit: Option<u32>,
    states: Seq<LimiterView>,
    ids: Seq<Option<Seq<char>>>,
    rs: Seq<Result<(), RateLimitError>>,
)
    requires
        check_trace(global_limit, session_limit, states, ids, rs),
    ensures
        run_checks(global_limit, session_limit, states[0].0, states[0].1, trace_events(states, ids)) == (
            states.last().0,
            states.last().1,
            rs,
        ),
        forall|i: int, j: int| 0 <= i <= j < states.len() ==> #[trigger] states[i].2 <= #[trigger] states[j].2,
    decreases ids.len(),
{
    let k: int = ids.len() as int;
    if k == 0 {
        assert(rs =~= Seq::<Result<(), RateLimitError>>::empty());
        assert(trace_events(states, ids) =~= Seq::<(i128, Option<Seq<char>>)>::empty());
    } else {
        let ps = states.drop_last();
        let pi = ids.drop_last();
        let pr = rs.drop_last();
        assert forall|i: int| 0 <= i < pi.len() implies check_step(global_limit, session_limit, #[trigger] ps[i], pi[i], ps[i + 1], pr[i]) by {
            assert(check_step(global_limit, session_limit, states[i], ids[i], states[i + 1], rs[i]));
        }
        lemma_trace_is_run(global_limit, session_limit, ps, pi, pr);
        let ev = trace_events(states, ids);
        assert(ev.drop_last() =~= trace_events(ps, pi));
        assert(check_step(global_limit, session_limit, states[k - 1], ids[k - 1], states[k], rs[k - 1]));
        assert(ps.last() == states[k - 1]);
        assert(ev.last() == (states[k].2, ids[k - 1]));
        assert(states.last() == states[k]);
        assert(pr.push(rs[k - 1]) =~= rs);
        assert(ps[0] == states[0]);
        assert forall|i: int, j: int| 0 <= i <= j < states.len() implies #[trigger] states[i].2 <= #[trigger] states[j].2 by {
            if j == k && i < k {
                assert(ps[i].2 <= ps[k - 1].2);
            } else if j < k {
                assert(ps[i].2 <= ps[j].2);
            }
        }
    }
}

/// Calls of `check` on a fresh limiter with a global limit `n > 0` and no session
/// limit, all counted before its first window ends: the first `n` pass and every later
/// one is refused by the global limit, whatever session they name.
pub proof fn law_checks_global_limit_within_window(
    n: u32,
    states: Seq<LimiterView>,
    ids: Seq<Option<Seq<char>>>,
    rs: Seq<Result<(), RateLimitError>>,
)
    requires
        n > 0,
        check_trace(Some(n), None, states, ids, rs),
        states[0] == fresh_view(),
        states.last().2 < RATE_LIMIT_WINDOW_NANOS,
    ensures
        forall|i: int| 0 <= i < rs.len() ==> #[trigger] rs[i] == if i < n {
            Ok::<(), RateLimitError>(())
        } else {
            Err(RateLimitError::Global)
        },
{
    lemma_trace_is_run(Some(n), None, states, ids, rs);
    let ev = trace_events(states, ids);
    assert forall|i: int| 0 <= i < ev.len() implies #[trigger] ev[i].0 < RATE_LIMIT_WINDOW_NANOS by {
        assert(states[i + 1].2 <= states[states.len() - 1].2);
    }
    law_global_limit_within_window(n, ev);
}

/// Calls of `check` on a fresh limiter with a per-session limit `n > 0` and no global
/// limit, naming fewer than `MAX_TRACKED_SESSIONS` sessions, each of whose calls are
/// counted within one window of its first: a call without a session passes, and a
/// session's call passes exactly while that session has made fewer than `n` earlier
/// calls, whatever the other sessions do.
pub proof fn law_checks_session_limit_per_session(
    n: u32,
    states: Seq<LimiterView>,
    ids: Seq<Option<Seq<char>>>,
    rs: Seq<Result<(), RateLimitError>>,
)
    requires
        n > 0,
        check_trace(None, Some(n), states, ids, rs),
        states[0] == fresh_view(),
        distinct_sessions(trace_events(states, ids)) < MAX_TRACKED_SESSIONS,
        forall|i: int, j: int|
            0 <= i < j < ids.len() && (#[trigger] ids[i]) is Some && #[trigger] ids[j] == ids[i]
                ==> states[j + 1].2 - states[i + 1].2 < RATE_LIMIT_WINDOW_NANOS,
    ensures
        forall|i: int| 0 <= i < rs.len() ==> #[trigger] rs[i] == session_outcome(trace_events(states, ids), i, n),
{
    lemma_trace_is_run(None, Some(n), states, ids, rs);
    let ev = trace_events(states, ids);
    assert forall|i: int, j: int| 0 <= i <= j < ev.len() implies #[trigger] ev[i].0 <= #[trigger] ev[j].0 by {
        assert(states[i + 1].2 <= states[j + 1].2);
    }
    assert forall|i: int, j: int|
        0 <= i < j < ev.len() && (#[trigger] ev[i]).1 is Some && (#[trigger] ev[j]).1 == ev[i].1 implies ev[j].0
            - ev[i].0 < RATE_LIMIT_WINDOW_NANOS by {
        assert(ids[i] == ev[i].1 && ids[j] == ev[j].1);
    }
    law_session_limit_per_session(n, ev);
}

} // verus!
