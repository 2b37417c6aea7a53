//! Errors of the MCP layer, and checked helpers around the regex compiler and HTTP
//! status codes.
use crate::text::{chars_of, concat, decimal, decimal_string, string_of, sub_chars};
use vstd::prelude::*;

verus! {

/// `regex::Regex`, a compiled pattern carried through as an opaque value: nothing is
/// claimed of what it holds.
#[verifier::external_type_specification]
#[verifier::external_body]
pub struct ExRegex(regex::Regex);

/// What can go wrong in an MCP operation.
#[derive(Debug, Clone, PartialEq, Eq)]
pub enum McpError {
    JsonParseError(String),
    TransportError(String),
    InvalidToolConfig(String),
    TerraformError(String),
    RegistryError(String),
    SecurityError(String),
    ResourceNotFound(String),
    InternalError(String),
}

/// The text an `McpError` shows.
pub open spec fn mcp_error_text(e: McpError) -> Seq<char> {
    match e {
        McpError::JsonParseError(s) => "JSON parsing error: "@ + s@,
        McpError::TransportError(s) => "Transport error: "@ + s@,
        McpError::InvalidToolConfig(s) => "Invalid tool configuration: "@ + s@,
        McpError::TerraformError(s) => "Terraform operation failed: "@ + s@,
        McpError::RegistryError(s) => "Registry operation failed: "@ + s@,
        McpError::SecurityError(s) => "Security policy violation: "@ + s@,
        McpError::ResourceNotFound(s) => "Resource not found: "@ + s@,
        McpError::InternalError(s) => "Internal error: "@ + s@,
    }
}

impl McpError {
    /// The human-readable text of the error.
    pub fn message(&self) -> (r: String)
        ensures
            r@ == mcp_error_text(*self),
    {
        match self {
            McpError::JsonParseError(s) => concat("JSON parsing error: ", s.as_str()),
            McpError::TransportError(s) => concat("Transport error: ", s.as_str()),
            McpError::InvalidToolConfig(s) => concat("Invalid tool configuration: ", s.as_str()),
            McpError::TerraformError(s) => concat("Terraform operation failed: ", s.as_str()),
            McpError::RegistryError(s) => concat("Registry operation failed: ", s.as_str()),
            McpError::SecurityError(s) => concat("Security policy violation: ", s.as_str()),
            McpError::ResourceNotFound(s) => concat("Resource not found: ", s.as_str()),
            McpError::InternalError(s) => concat("Internal error: ", s.as_str()),
        }
    }
}

/// How many bytes the UTF-8 form of `c` takes.
pub open spec fn utf8_width(c: char) -> nat {
    vstd::utf8::encode_scalar(c as u32).len()
}

/// How many leading characters of `s` fit, whole, in `limit` bytes of UTF-8.
pub open spec fn chars_within(s: Seq<char>, limit: nat) -> nat
    decreases s.len(),
{
    if s.len() == 0 {
        0
    } else if utf8_width(s[0]) > limit {
        0
    } else {
        1 + chars_within(s.drop_first(), (limit - utf8_width(s[0])) as nat)
    }
}

/// The part of a JSON text that a parse error shows: the whole text when its UTF-8
/// form has at most 100 bytes; otherwise the leading characters that fit in 100 bytes,
/// followed by `...`.
pub open spec fn json_excerpt(s: Seq<char>) -> Seq<char> {
    if vstd::utf8::encode_utf8(s).len() > 100 {
        s.take(chars_within(s, 100) as int) + "..."@
    } else {
        s
    }
}

/// The message of a JSON text that failed to parse with `detail`.
pub open spec fn json_parse_error_text(detail: Seq<char>, json: Seq<char>) -> Seq<char> {
    "Failed to parse JSON: "@ + detail + " - Content: "@ + json_excerpt(json)
}

fn utf8_width_of(c: char) -> (r: usize)
    ensures
        r == utf8_width(c),
        1 <= r <= 4,
{
    proof {
        vstd::utf8::char_is_scalar(c);
    }
    let u = c as u32;
    if u <= 0x7f {
        1
    } else if u <= 0x7ff {
        2
    } else if u <= 0xffff {
        3
    } else {
        4
    }
}

proof fn lemma_chars_within_skip(s: Seq<char>, i: int, limit: nat)
    requires
        0 <= i < s.len(),
    ensures
        chars_within(s.skip(i), limit) == if utf8_width(s[i]) > limit {
            0
        } else {
            1 + chars_within(s.skip(i + 1), (limit - utf8_width(s[i])) as nat)
        },
{
    assert(s.skip(i).drop_first() =~= s.skip(i + 1));
    assert(s.skip(i)[0] == s[i]);
}

/// All characters of `s` fit in `limit` bytes exactly when its UTF-8 form does.
proof fn lemma_chars_within_all(s: Seq<char>, limit: nat)
    ensures
        chars_within(s, limit) <= s.len(),
        (chars_within(s, limit) == s.len()) == (vstd::utf8::encode_utf8(s).len() <= limit),
    decreases s.len(),
{
    if s.len() > 0 {
        if utf8_width(s[0]) <= limit {
            lemma_chars_within_all(s.drop_first(), (limit - utf8_width(s[0])) as nat);
        }
    }
}

/// The part of `json` that a parse error shows.
pub fn json_excerpt_of(json: &str) -> (r: String)
    ensures
        r@ == json_excerpt(json@),
{
    let v = chars_of(json);
    let mut used: usize = 0;
    let mut i: usize = 0;
    let mut fits = true;
    proof {
        assert(json@.skip(0) =~= json@);
    }
    while fits && i < v.len()
        invariant
            v@ == json@,
            i <= v@.len(),
            used <= 100,
            chars_within(json@, 100) == i + chars_within(json@.skip(i as int), (100 - used) as nat),
            !fits ==> i < v@.len() && utf8_width(json@[i as int]) > 100 - used,
        decreases (v.len() - i) * 2 + if fits { 1int } else { 0int },
    {
        let w = utf8_width_of(v[i]);
        proof {
            lemma_chars_within_skip(json@, i as int, (100 - used) as nat);
        }
        if used + w > 100 {
            fits = false;
        } else {
            used = used + w;
            i = i + 1;
        }
    }
    proof {
        if fits {
            assert(json@.skip(i as int).len() == 0);
        } else {
            lemma_chars_within_skip(json@, i as int, (100 - used) as nat);
        }
        assert(chars_within(json@, 100) == i);
        lemma_chars_within_all(json@, 100);
    }
    if i == v.len() {
        proof {
            assert(json@.take(i as int) =~= json@);
        }
        return string_of(&v);
    }
    let head = string_of(&sub_chars(&v, 0, i));
    proof {
        assert(json@.subrange(0, i as int) =~= json@.take(i as int));
    }
    concat(head.as_str(), "...")
}

/// The error for a JSON text that the parser refused with `detail`.
pub fn json_parse_error(detail: &str, json: &str) -> (r: McpError)
    ensures
        r matches McpError::JsonParseError(m) && m@ == json_parse_error_text(detail@, json@),
{
    let a = concat("Failed to parse JSON: ", detail);
    let b = concat(a.as_str(), " - Content: ");
    let c = json_excerpt_of(json);
    McpError::JsonParseError(concat(b.as_str(), c.as_str()))
}

/// Whether `regex::Regex::new` accepts `pattern`.
pub uninterp spec fn regex_compiles(pattern: Seq<char>) -> bool;

/// The `Display` text of the error `regex::Regex::new` gives for `pattern`.
pub uninterp spec fn regex_error_detail(pattern: Seq<char>) -> Seq<char>;

/// `regex::Regex::new`: it succeeds exactly on the patterns the crate accepts, which
/// `regex_compiles` names; a refusal comes with the error's `Display` text, which
/// depends on the pattern alone (the builder's limits are the fixed defaults) and which
/// `regex_error_detail` names. Nothing is claimed of the compiled value.
#[verifier::external_body]
fn regex_new(pattern: &str) -> (r: Result<regex::Regex, String>)
    ensures
        r is Ok <==> regex_compiles(pattern@),
        r matches Err(d) ==> d@ == regex_error_detail(pattern@),
{
    regex::Regex::new(pattern).map_err(|e| e.to_string())
}

/// The start of the message for a pattern the compiler refused.
pub open spec fn regex_error_prefix(pattern: Seq<char>) -> Seq<char> {
    "Invalid regex pattern '"@ + pattern + "': "@
}

/// The error for `pattern`, which the compiler refused with `detail`.
pub fn regex_compile_error(pattern: &str, detail: &str) -> (r: McpError)
    ensures
        r matches McpError::InvalidToolConfig(m) && m@ == regex_error_prefix(pattern@) + detail@,
{
    let head = concat("Invalid regex pattern '", pattern);
    let head = concat(head.as_str(), "': ");
    McpError::InvalidToolConfig(concat(head.as_str(), detail))
}

/// Compiles `pattern`, or says why it is no valid regular expression.
pub fn safe_regex_compile(pattern: &str) -> (r: Result<regex::Regex, McpError>)
    ensures
        r is Ok <==> regex_compiles(pattern@),
        r matches Err(e) ==> (e matches McpError::InvalidToolConfig(m)
            && m@ == regex_error_prefix(pattern@) + regex_error_detail(pattern@)),
{
    match regex_new(pattern) {
        Ok(re) => Ok(re),
        Err(detail) => {
            Err(regex_compile_error(pattern, detail.as_str()))
        },
    }
}

/// The standard reason phrase `http::StatusCode` gives the status `code`.
pub uninterp spec fn canonical_reason(code: u16) -> Option<Seq<char>>;

/// `http::StatusCode::canonical_reason` of the valid status `code`; its result is
/// named by `canonical_reason`.
#[verifier::external_body]
pub(crate) fn status_reason(code: u16) -> (r: Option<&'static str>)
    requires
        100 <= code <= 999,
    ensures
        match r {
            Some(s) => canonical_reason(code) == Some(s@),
            None => canonical_reason(code) is None,
        },
{
    match reqwest::StatusCode::from_u16(code) {
        Ok(status) => status.canonical_reason(),
        Err(_) => None,
    }
}

/// The text of a status: its reason phrase, or `HTTP <code>` when it has none.
pub open spec fn status_text(code: u16, reason: Option<Seq<char>>) -> Seq<char> {
    match reason {
        Some(s) => s,
        None => "HTTP "@ + decimal(code as nat),
    }
}

/// The text of status `code`, given its reason phrase if it has one.
pub fn status_text_from_reason(code: u16, reason: Option<&str>) -> (r: String)
    ensures
        r@ == status_text(
            code,
            match reason {
                Some(s) => Some(s@),
                None => None,
            },
        ),
{
    match reason {
        Some(s) => s.to_owned(),
        None => concat("HTTP ", decimal_string(code as u64).as_str()),
    }
}

/// The text of the valid status `code`.
pub fn safe_status_text(code: u16) -> (r: String)
    requires
        100 <= code <= 999,
    ensures
        r@ == status_text(code, canonical_reason(code)),
{
    let reason = status_reason(code);
    status_text_from_reason(code, reason)
}

} // verus!
