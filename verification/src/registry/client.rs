//! What the registry client asks for, and what it makes of each answer.
//!
//! The requests themselves are sent by the caller; these functions plan them and
//! decide on their results.
use crate::errors::{canonical_reason, status_reason};
use crate::json::{get_array, get_str, json_as_array, json_as_str, json_get, JsonMember, JsonValue};
use crate::registry::decode::{
    extract_docs_from_array, extract_modules_from_array, extract_providers_from_array,
    doc_json_fn, doc_views, module_json_fn, module_views, provider_json_fn, provider_views,
    str_or, u64_or_zero, bool_or_false, value_str, value_str_or, string_texts,
    fallback_module_versions, module_versions_from_fallback_json, DocIdResult, DocIdView,
    ModuleInfo, ModuleInfoView, ProviderInfo, ProviderInfoView,
};
use crate::registry::error::{RegistryError, RegistryErrorView};
use crate::text::{decimal, decimal_string, join_all, joined, trim, trimmed_chars};
use vstd::prelude::*;

verus! {

/// Two texts as a pair of character sequences.
pub open spec fn pair_texts(p: Seq<(String, String)>) -> Seq<(Seq<char>, Seq<char>)> {
    Seq::new(p.len(), |i: int| (p[i].0@, p[i].1@))
}

fn text_pair(a: &str, b: &str) -> (r: (String, String))
    ensures
        r.0@ == a@,
        r.1@ == b@,
{
    (a.to_owned(), b.to_owned())
}

/// The result of a lookup as plain values.
pub open spec fn result_view<T: View>(r: Result<T, RegistryError>) -> Result<T::V, RegistryErrorView> {
    match r {
        Ok(v) => Ok(v@),
        Err(e) => Err(e@),
    }
}

/// A lookup whose "404 Not Found" answer means that what was looked up does not exist.
#[derive(Debug, Clone)]
pub enum RegistryNotFound {
    Provider { provider: String, namespace: String, label: String },
    Module { module: String, provider: String, namespace: String, label: String },
}

/// The warning for a lookup that found nothing.
pub open spec fn not_found_message(n: RegistryNotFound) -> Seq<char> {
    match n {
        RegistryNotFound::Provider { provider, namespace, label } => label@ + " not found: "@
            + namespace@ + "/"@ + provider@,
        RegistryNotFound::Module { module, provider, namespace, label } => label@
            + " not found: "@ + namespace@ + "/"@ + module@ + "/"@ + provider@,
    }
}

/// The error for a lookup that found nothing.
pub open spec fn not_found_error(n: RegistryNotFound) -> RegistryErrorView {
    match n {
        RegistryNotFound::Provider { provider, namespace, .. } => RegistryErrorView::ProviderNotFound {
            provider: provider@,
            namespace: namespace@,
        },
        RegistryNotFound::Module { module, provider, namespace, .. } => RegistryErrorView::ModuleNotFound {
            module: module@,
            provider: provider@,
            namespace: namespace@,
        },
    }
}

impl RegistryNotFound {
    /// The warning to report.
    pub fn warn_message(&self) -> (r: String)
        ensures
            r@ == not_found_message(*self),
    {
        let r = match self {
            RegistryNotFound::Provider { provider, namespace, label } => join_all(
                &vec![label.as_str(), " not found: ", namespace.as_str(), "/", provider.as_str()],
            ),
            RegistryNotFound::Module { module, provider, namespace, label } => join_all(
                &vec![
                    label.as_str(),
                    " not found: ",
                    namespace.as_str(),
                    "/",
                    module.as_str(),
                    "/",
                    provider.as_str(),
                ],
            ),
        };
        proof {
            reveal_with_fuel(joined, 8);
        }
        r
    }

    /// The error to answer with.
    pub fn error(&self) -> (r: RegistryError)
        ensures
            r@ == not_found_error(*self),
    {
        match self {
            RegistryNotFound::Provider { provider, namespace, .. } => RegistryError::ProviderNotFound {
                provider: provider.clone(),
                namespace: namespace.clone(),
            },
            RegistryNotFound::Module { module, provider, namespace, .. } => RegistryError::ModuleNotFound {
                module: module.clone(),
                provider: provider.clone(),
                namespace: namespace.clone(),
            },
        }
    }
}

/// What a registry search looks for.
#[derive(Debug, Clone, Copy, PartialEq, Eq, Structural)]
pub enum RegistrySearchKind {
    Provider,
    Module,
}

impl RegistrySearchKind {
    /// The search endpoint under `base_url`.
    pub fn url(&self, base_url: &str) -> (r: String)
        ensures
            r@ == base_url@ + match *self {
                RegistrySearchKind::Provider => "/v1/providers"@,
                RegistrySearchKind::Module => "/v1/modules/search"@,
            },
    {
        let r = match self {
            RegistrySearchKind::Provider => join_all(&vec![base_url, "/v1/providers"]),
            RegistrySearchKind::Module => join_all(&vec![base_url, "/v1/modules/search"]),
        };
        proof {
            reveal_with_fuel(joined, 3);
        }
        r
    }

    /// The name of the search in messages.
    pub fn label(&self) -> (r: &'static str)
        ensures
            r@ == match *self {
                RegistrySearchKind::Provider => "provider search"@,
                RegistrySearchKind::Module => "module search"@,
            },
    {
        match self {
            RegistrySearchKind::Provider => "provider search",
            RegistrySearchKind::Module => "module search",
        }
    }

    /// The query parameters of a search for `query`.
    pub fn params(&self, query: &str) -> (r: Vec<(String, String)>)
        ensures
            pair_texts(r@) == match *self {
                RegistrySearchKind::Provider => seq![("q"@, query@)],
                RegistrySearchKind::Module => seq![("q"@, query@), ("limit"@, "20"@)],
            },
    {
        let r = match self {
            RegistrySearchKind::Provider => vec![text_pair("q", query)],
            RegistrySearchKind::Module => vec![text_pair("q", query), text_pair("limit", "20")],
        };
        proof {
            assert(pair_texts(r@) =~= match *self {
                RegistrySearchKind::Provider => seq![("q"@, query@)],
                RegistrySearchKind::Module => seq![("q"@, query@), ("limit"@, "20"@)],
            });
        }
        r
    }
}

/// A per-provider endpoint.
#[derive(Debug, Clone, Copy, PartialEq, Eq, Structural)]
pub enum ProviderEndpoint {
    Info,
    Versions,
}

impl ProviderEndpoint {
    /// The endpoint of `namespace/provider_name` under `base_url`.
    pub fn url(&self, base_url: &str, namespace: &str, provider_name: &str) -> (r: String)
        ensures
            r@ == base_url@ + "/v1/providers/"@ + namespace@ + "/"@ + provider_name@ + match *self {
                ProviderEndpoint::Info => Seq::<char>::empty(),
                ProviderEndpoint::Versions => "/versions"@,
            },
    {
        let r = match self {
            ProviderEndpoint::Info => join_all(
                &vec![base_url, "/v1/providers/", namespace, "/", provider_name],
            ),
            ProviderEndpoint::Versions => join_all(
                &vec![base_url, "/v1/providers/", namespace, "/", provider_name, "/versions"],
            ),
        };
        proof {
            reveal_with_fuel(joined, 7);
            assert(base_url@ + "/v1/providers/"@ + namespace@ + "/"@ + provider_name@
                + Seq::<char>::empty() =~= base_url@ + "/v1/providers/"@ + namespace@ + "/"@
                + provider_name@);
        }
        r
    }

    /// The name of the endpoint in messages.
    pub fn label(&self) -> (r: &'static str)
        ensures
            r@ == match *self {
                ProviderEndpoint::Info => "provider info"@,
                ProviderEndpoint::Versions => "provider versions"@,
            },
    {
        match self {
            ProviderEndpoint::Info => "provider info",
            ProviderEndpoint::Versions => "provider versions",
        }
    }

    /// How many characters of an answer are shown in diagnostics.
    pub fn preview_chars(&self) -> (r: usize)
        ensures
            r == match *self {
                ProviderEndpoint::Info => 1000usize,
                ProviderEndpoint::Versions => 500usize,
            },
    {
        match self {
            ProviderEndpoint::Info => 1000,
            ProviderEndpoint::Versions => 500,
        }
    }

    /// What is reported missing when the endpoint answers "404 Not Found".
    pub fn not_found_label(&self) -> (r: &'static str)
        ensures
            r@ == match *self {
                ProviderEndpoint::Info => "Provider"@,
                ProviderEndpoint::Versions => "Provider versions"@,
            },
    {
        match self {
            ProviderEndpoint::Info => "Provider",
            ProviderEndpoint::Versions => "Provider versions",
        }
    }

    /// The lookup this endpoint makes for `namespace/provider_name`.
    pub fn not_found(&self, provider_name: &str, namespace: &str) -> (r: RegistryNotFound)
        ensures
            r matches RegistryNotFound::Provider { provider, namespace: ns, label } && provider@
                == provider_name@ && ns@ == namespace@ && label@ == match *self {
                ProviderEndpoint::Info => "Provider"@,
                ProviderEndpoint::Versions => "Provider versions"@,
            },
    {
        RegistryNotFound::Provider {
            provider: provider_name.to_owned(),
            namespace: namespace.to_owned(),
            label: self.not_found_label().to_owned(),
        }
    }
}

/// How `http::StatusCode` shows itself: the code, a space, and its reason phrase.
pub open spec fn status_display(code: u16, reason: Option<Seq<char>>) -> Seq<char> {
    decimal(code as nat) + " "@ + match reason {
        Some(r) => r,
        None => "<unknown status code>"@,
    }
}

/// Whether a status reports success.
pub open spec fn is_success(code: u16) -> bool {
    200 <= code < 300
}

/// What an answer with status `code` means before its body is read: the lookup's own
/// error on "404 Not Found", rate limiting on "429 Too Many Requests", an HTTP error
/// on any other failure, and otherwise that the body is to be read.
pub open spec fn status_outcome(
    code: u16,
    not_found: Option<RegistryNotFound>,
    reason: Option<Seq<char>>,
) -> Result<(), RegistryErrorView> {
    if code == 404 && not_found is Some {
        Err(not_found_error(not_found.unwrap()))
    } else if code == 429 {
        Err(RegistryErrorView::RateLimited)
    } else if !is_success(code) {
        Err(RegistryErrorView::HttpError("HTTP "@ + status_display(code, reason)))
    } else {
        Ok(())
    }
}

fn status_display_exec(code: u16) -> (r: String)
    requires
        100 <= code <= 999,
    ensures
        r@ == status_display(code, canonical_reason(code)),
{
    let digits = decimal_string(code as u64);
    let reason = match status_reason(code) {
        Some(s) => s,
        None => "<unknown status code>",
    };
    let r = join_all(&vec![digits.as_str(), " ", reason]);
    proof {
        reveal_with_fuel(joined, 4);
    }
    r
}

/// Decides on the status of a JSON answer.
pub fn check_response_status(code: u16, not_found: Option<RegistryNotFound>) -> (r: Result<
    (),
    RegistryError,
>)
    requires
        100 <= code <= 999,
    ensures
        result_view(r) == status_outcome(code, not_found, canonical_reason(code)),
{
    if code == 404 && not_found.is_some() {
        return match not_found {
            Some(n) => Err(n.error()),
            None => Ok(()),
        };
    }
    if code == 429 {
        return Err(RegistryError::RateLimited);
    }
    if !(200 <= code && code < 300) {
        let shown = status_display_exec(code);
        let text = join_all(&vec!["HTTP ", shown.as_str()]);
        proof {
            reveal_with_fuel(joined, 3);
        }
        return Err(RegistryError::HttpError(text));
    }
    Ok(())
}

/// The error for an answer whose body is not JSON; `detail` says why.
pub fn invalid_json_error(detail: &str) -> (r: RegistryError)
    ensures
        r@ == RegistryErrorView::JsonError("Invalid JSON response: "@ + detail@),
{
    let text = join_all(&vec!["Invalid JSON response: ", detail]);
    proof {
        reveal_with_fuel(joined, 3);
    }
    RegistryError::JsonError(text)
}

/// A provider search answer of the expected shape.
#[derive(Debug)]
pub struct RegistrySearchResponse {
    pub providers: Vec<ProviderInfo>,
    pub meta: Vec<JsonMember>,
    pub data: Option<Vec<ProviderInfo>>,
}

/// A module search answer of the expected shape.
#[derive(Debug)]
pub struct ModuleSearchResponse {
    pub modules: Vec<ModuleInfo>,
}

/// The providers a search answer lists: `providers`, or `data` when `providers` is
/// empty and `data` is there.
pub open spec fn provider_search_items(r: RegistrySearchResponse) -> Seq<ProviderInfoView> {
    if r.providers@.len() == 0 && r.data is Some {
        provider_views(r.data.unwrap()@)
    } else {
        provider_views(r.providers@)
    }
}

/// The texts of the error for an answer that could not be read.
pub open spec fn parse_failure(label: Seq<char>, detail: Seq<char>) -> RegistryErrorView {
    RegistryErrorView::JsonError("Failed to parse "@ + label + ": "@ + detail)
}

/// The result of a provider search for `query`: the typed reading when the answer
/// had the expected shape, else the providers under `providers`; an empty list is
/// no result.
pub open spec fn provider_search_result(
    typed: Result<RegistrySearchResponse, String>,
    json: JsonValue,
    query: Seq<char>,
) -> Result<Seq<ProviderInfoView>, RegistryErrorView> {
    match typed {
        Ok(resp) => if provider_search_items(resp).len() == 0 {
            Err(RegistryErrorView::NoSearchResults { query })
        } else {
            Ok(provider_search_items(resp))
        },
        Err(e) => {
            let fallback = match json_as_array(json_get(json, "providers"@)) {
                Some(a) => a.filter_map(provider_json_fn()),
                None => Seq::empty(),
            };
            if fallback.len() > 0 {
                Ok(fallback)
            } else {
                Err(parse_failure("search response"@, e@))
            }
        },
    }
}

fn search_items_of(resp: RegistrySearchResponse) -> (r: Vec<ProviderInfo>)
    ensures
        provider_views(r@) == provider_search_items(resp),
{
    let RegistrySearchResponse { providers, meta: _, data } = resp;
    if providers.len() == 0 {
        match data {
            Some(d) => d,
            None => providers,
        }
    } else {
        providers
    }
}

fn parse_failure_error(label: &str, detail: &str) -> (r: RegistryError)
    ensures
        r@ == parse_failure(label@, detail@),
{
    let text = join_all(&vec!["Failed to parse ", label, ": ", detail]);
    proof {
        reveal_with_fuel(joined, 5);
    }
    RegistryError::JsonError(text)
}

/// Decides on a provider search answer.
pub fn provider_search_outcome(
    typed: Result<RegistrySearchResponse, String>,
    json: &JsonValue,
    query: &str,
) -> (r: Result<Vec<ProviderInfo>, RegistryError>)
    ensures
        match r {
            Ok(v) => provider_search_result(typed, *json, query@) == Ok::<
                Seq<ProviderInfoView>,
                RegistryErrorView,
            >(provider_views(v@)),
            Err(e) => provider_search_result(typed, *json, query@) == Err::<
                Seq<ProviderInfoView>,
                RegistryErrorView,
            >(e@),
        },
{
    match typed {
        Ok(resp) => {
            let items = search_items_of(resp);
            if items.len() == 0 {
                Err(RegistryError::NoSearchResults { query: query.to_owned() })
            } else {
                Ok(items)
            }
        },
        Err(e) => {
            let fallback = match get_array(json, "providers") {
                Some(a) => extract_providers_from_array(a),
                None => Vec::new(),
            };
            if fallback.len() > 0 {
                Ok(fallback)
            } else {
                Err(parse_failure_error("search response", e.as_str()))
            }
        },
    }
}

/// The result of a module search for `query`, in the same way as for providers.
pub open spec fn module_search_result(
    typed: Result<ModuleSearchResponse, String>,
    json: JsonValue,
    query: Seq<char>,
) -> Result<Seq<ModuleInfoView>, RegistryErrorView> {
    match typed {
        Ok(resp) => if resp.modules@.len() == 0 {
            Err(RegistryErrorView::NoSearchResults { query })
        } else {
            Ok(module_views(resp.modules@))
        },
        Err(e) => {
            let fallback = match json_as_array(json_get(json, "modules"@)) {
                Some(a) => a.filter_map(module_json_fn()),
                None => Seq::empty(),
            };
            if fallback.len() > 0 {
                Ok(fallback)
            } else {
                Err(parse_failure("module search response"@, e@))
            }
        },
    }
}

/// Decides on a module search answer.
pub fn module_search_outcome(
    typed: Result<ModuleSearchResponse, String>,
    json: &JsonValue,
    query: &str,
) -> (r: Result<Vec<ModuleInfo>, RegistryError>)
    ensures
        match r {
            Ok(v) => module_search_result(typed, *json, query@) == Ok::<
                Seq<ModuleInfoView>,
                RegistryErrorView,
            >(module_views(v@)),
            Err(e) => module_search_result(typed, *json, query@) == Err::<
                Seq<ModuleInfoView>,
                RegistryErrorView,
            >(e@),
        },
{
    match typed {
        Ok(resp) => {
            let items = resp.modules;
            if items.len() == 0 {
                Err(RegistryError::NoSearchResults { query: query.to_owned() })
            } else {
                Ok(items)
            }
        },
        Err(e) => {
            let fallback = match get_array(json, "modules") {
                Some(a) => extract_modules_from_array(a),
                None => Vec::new(),
            };
            if fallback.len() > 0 {
                Ok(fallback)
            } else {
                Err(parse_failure_error("module search response", e.as_str()))
            }
        },
    }
}

/// One entry of the `data` list of a provider versions answer.
#[derive(Debug)]
pub struct VersionInfo {
    pub version: String,
    pub published_at: Option<String>,
    pub protocols: Option<Vec<String>>,
}

/// A provider versions answer of the expected shape.
#[derive(Debug)]
pub struct ProviderVersions {
    pub versions: Vec<String>,
    pub data: Option<Vec<VersionInfo>>,
}

/// The version of a `versions` entry: the entry itself when it is a string, its
/// `version` member when it is an object.
pub open spec fn listed_version(v: JsonValue) -> Option<Seq<char>> {
    match v {
        JsonValue::String(s) => Some(s@),
        JsonValue::Object(_) => json_as_str(json_get(v, "version"@)),
        _ => None,
    }
}

pub open spec fn listed_version_fn() -> spec_fn(JsonValue) -> Option<Seq<char>> {
    |v: JsonValue| listed_version(v)
}

/// The versions of a `versions` list, which the registry gives either as strings
/// or as objects with a `version` member.
pub fn versions_from_values(raw: &Vec<JsonValue>) -> (r: Vec<String>)
    ensures
        string_texts(r@) == raw@.filter_map(listed_version_fn()),
{
    let mut r: Vec<String> = Vec::new();
    let mut i: usize = 0;
    while i < raw.len()
        invariant
            i <= raw@.len(),
            string_texts(r@) == raw@.take(i as int).filter_map(listed_version_fn()),
        decreases raw.len() - i,
    {
        proof {
            raw@.lemma_filter_map_take_succ(listed_version_fn(), i as int);
        }
        let ghost before = r@;
        let found: Option<String> = match &raw[i] {
            JsonValue::String(s) => Some(s.clone()),
            JsonValue::Object(_) => match get_str(&raw[i], "version") {
                Some(v) => Some(v.to_owned()),
                None => None,
            },
            _ => None,
        };
        match found {
            Some(v) => {
                r.push(v);
                proof {
                    assert(string_texts(r@) =~= string_texts(before) + seq![r@.last()@]);
                }
            },
            None => {},
        }
        i = i + 1;
    }
    proof {
        assert(raw@.take(raw@.len() as int) =~= raw@);
    }
    r
}

/// The latest of the listed versions of `namespace/provider`: the last one.
pub open spec fn latest_of(versions: Seq<Seq<char>>, provider: Seq<char>, namespace: Seq<char>) -> Result<Seq<char>, RegistryErrorView> {
    if versions.len() == 0 {
        Err(RegistryErrorView::NoVersionsAvailable { provider, namespace })
    } else {
        Ok(versions.last())
    }
}

/// The latest version of a provider among `versions`, which the registry lists
/// oldest first.
pub fn provider_latest_version(versions: Vec<String>, provider_name: &str, namespace: &str) -> (r:
    Result<String, RegistryError>)
    ensures
        match r {
            Ok(v) => latest_of(string_texts(versions@), provider_name@, namespace@) == Ok::<
                Seq<char>,
                RegistryErrorView,
            >(v@),
            Err(e) => latest_of(string_texts(versions@), provider_name@, namespace@) == Err::<
                Seq<char>,
                RegistryErrorView,
            >(e@),
        },
{
    let n = versions.len();
    if n == 0 {
        return Err(
            RegistryError::NoVersionsAvailable {
                provider: provider_name.to_owned(),
                namespace: namespace.to_owned(),
            },
        );
    }
    Ok(versions[n - 1].clone())
}

/// The non-empty versions of the `data` entries.
pub open spec fn data_versions(data: Seq<VersionInfo>) -> Seq<Seq<char>>
    decreases data.len(),
{
    if data.len() == 0 {
        Seq::empty()
    } else if data.last().version@.len() == 0 {
        data_versions(data.drop_last())
    } else {
        data_versions(data.drop_last()).push(data.last().version@)
    }
}

/// The versions a typed versions answer lists: `versions`, or the versions of `data`
/// when `versions` is empty.
pub open spec fn typed_versions(v: ProviderVersions) -> Seq<Seq<char>> {
    if v.versions@.len() == 0 && v.data is Some {
        data_versions(v.data.unwrap()@)
    } else {
        string_texts(v.versions@)
    }
}

/// The latest version a versions answer gives: from the typed reading when the
/// answer had the expected shape, else the first string of its `versions` list.
pub open spec fn latest_version_result(
    typed: Result<ProviderVersions, String>,
    json: JsonValue,
    provider: Seq<char>,
    namespace: Seq<char>,
) -> Result<Seq<char>, RegistryErrorView> {
    match typed {
        Ok(v) => latest_of(typed_versions(v), provider, namespace),
        Err(e) => match json_as_array(json_get(json, "versions"@)) {
            Some(a) if a.len() > 0 && a[0] is String => Ok(json_as_str(Some(a[0])).unwrap()),
            _ => Err(RegistryErrorView::JsonError("Failed to parse versions: "@ + e@)),
        },
    }
}

fn versions_of_data(data: &Vec<VersionInfo>) -> (r: Vec<String>)
    ensures
        string_texts(r@) == data_versions(data@),
{
    let mut r: Vec<String> = Vec::new();
    let mut i: usize = 0;
    while i < data.len()
        invariant
            i <= data@.len(),
            string_texts(r@) == data_versions(data@.take(i as int)),
        decreases data.len() - i,
    {
        proof {
            assert(data@.take(i + 1).drop_last() =~= data@.take(i as int));
        }
        if !data[i].version.as_str().is_empty() {
            let ghost before = r@;
            r.push(data[i].version.clone());
            proof {
                assert(string_texts(r@) =~= string_texts(before).push(data@[i as int].version@));
            }
        }
        i = i + 1;
    }
    proof {
        assert(data@.take(data@.len() as int) =~= data@);
    }
    r
}

/// Decides on a provider versions answer.
pub fn latest_provider_version_outcome(
    typed: Result<ProviderVersions, String>,
    json: &JsonValue,
    provider_name: &str,
    namespace: &str,
) -> (r: Result<String, RegistryError>)
    ensures
        match r {
            Ok(v) => latest_version_result(typed, *json, provider_name@, namespace@) == Ok::<
                Seq<char>,
                RegistryErrorView,
            >(v@),
            Err(e) => latest_version_result(typed, *json, provider_name@, namespace@) == Err::<
                Seq<char>,
                RegistryErrorView,
            >(e@),
        },
{
    match typed {
        Ok(v) => {
            let versions = if v.versions.len() == 0 && v.data.is_some() {
                match &v.data {
                    Some(d) => versions_of_data(d),
                    None => Vec::new(),
                }
            } else {
                v.versions
            };
            provider_latest_version(versions, provider_name, namespace)
        },
        Err(e) => {
            if let Some(a) = get_array(json, "versions") {
                if a.len() > 0 {
                    if let Some(first) = a[0].as_str() {
                        return Ok(first.to_owned());
                    }
                }
            }
            let text = join_all(&vec!["Failed to parse versions: ", e.as_str()]);
            proof {
                reveal_with_fuel(joined, 3);
            }
            Err(RegistryError::JsonError(text))
        },
    }
}

/// One version of a module in a module versions answer.
#[derive(Debug)]
pub struct ModuleVersionDetail {
    pub version: String,
}

/// One module of a module versions answer.
#[derive(Debug)]
pub struct ModuleVersionInfo {
    pub source: String,
    pub versions: Vec<ModuleVersionDetail>,
}

/// A module versions answer of the expected shape.
#[derive(Debug)]
pub struct ModuleVersionsResponse {
    pub modules: Vec<ModuleVersionInfo>,
}

/// The non-empty versions of one module entry.
pub open spec fn detail_versions(d: Seq<ModuleVersionDetail>) -> Seq<Seq<char>>
    decreases d.len(),
{
    if d.len() == 0 {
        Seq::empty()
    } else if d.last().version@.len() == 0 {
        detail_versions(d.drop_last())
    } else {
        detail_versions(d.drop_last()).push(d.last().version@)
    }
}

/// The non-empty versions of all module entries, in order.
pub open spec fn response_versions(m: Seq<ModuleVersionInfo>) -> Seq<Seq<char>>
    decreases m.len(),
{
    if m.len() == 0 {
        Seq::empty()
    } else {
        response_versions(m.drop_last()) + detail_versions(m.last().versions@)
    }
}

fn push_detail_versions(out: &mut Vec<String>, d: &Vec<ModuleVersionDetail>)
    ensures
        string_texts(final(out)@) == string_texts(old(out)@) + detail_versions(d@),
{
    let ghost start = out@;
    let mut i: usize = 0;
    proof {
        assert(string_texts(start) + detail_versions(d@.take(0)) =~= string_texts(start));
    }
    while i < d.len()
        invariant
            i <= d@.len(),
            string_texts(out@) == string_texts(start) + detail_versions(d@.take(i as int)),
        decreases d.len() - i,
    {
        proof {
            assert(d@.take(i + 1).drop_last() =~= d@.take(i as int));
        }
        if !d[i].version.as_str().is_empty() {
            let ghost before = out@;
            out.push(d[i].version.clone());
            proof {
                assert(string_texts(out@) =~= string_texts(before).push(d@[i as int].version@));
            }
        }
        i = i + 1;
    }
    proof {
        assert(d@.take(d@.len() as int) =~= d@);
    }
}

/// All non-empty versions of a typed module versions answer.
pub fn module_versions_from_response(response: &ModuleVersionsResponse) -> (r: Vec<String>)
    ensures
        string_texts(r@) == response_versions(response.modules@),
{
    let mut out: Vec<String> = Vec::new();
    let mut i: usize = 0;
    while i < response.modules.len()
        invariant
            i <= response.modules@.len(),
            string_texts(out@) == response_versions(response.modules@.take(i as int)),
        decreases response.modules.len() - i,
    {
        proof {
            assert(response.modules@.take(i + 1).drop_last() =~= response.modules@.take(i as int));
        }
        push_detail_versions(&mut out, &response.modules[i].versions);
        i = i + 1;
    }
    proof {
        assert(response.modules@.take(response.modules@.len() as int) =~= response.modules@);
    }
    out
}

/// The `namespace/name/provider` path of a module.
pub open spec fn module_triple(namespace: Seq<char>, name: Seq<char>, provider: Seq<char>) -> Seq<char> {
    namespace + "/"@ + name + "/"@ + provider
}

fn module_triple_exec(namespace: &str, name: &str, provider: &str) -> (r: String)
    ensures
        r@ == module_triple(namespace@, name@, provider@),
{
    let r = join_all(&vec![namespace, "/", name, "/", provider]);
    proof {
        reveal_with_fuel(joined, 6);
    }
    r
}

/// The versions of a module answer: those of the typed reading when there are any,
/// else those the answer lists under `modules[*].versions[*].version`.
pub open spec fn module_versions_result(
    typed: Result<ModuleVersionsResponse, String>,
    json: JsonValue,
    namespace: Seq<char>,
    name: Seq<char>,
    provider: Seq<char>,
) -> Result<Seq<Seq<char>>, RegistryErrorView> {
    if typed is Ok && response_versions(typed.unwrap().modules@).len() > 0 {
        Ok(response_versions(typed.unwrap().modules@))
    } else {
        match fallback_module_versions(json) {
            Some(v) => Ok(v),
            None => Err(
                RegistryErrorView::NoModuleVersionsAvailable {
                    module: module_triple(namespace, name, provider),
                },
            ),
        }
    }
}

/// Decides on a module versions answer.
pub fn module_versions_outcome(
    typed: Result<ModuleVersionsResponse, String>,
    json: &JsonValue,
    namespace: &str,
    name: &str,
    provider: &str,
) -> (r: Result<Vec<String>, RegistryError>)
    ensures
        match r {
            Ok(v) => module_versions_result(typed, *json, namespace@, name@, provider@) == Ok::<
                Seq<Seq<char>>,
                RegistryErrorView,
            >(string_texts(v@)),
            Err(e) => module_versions_result(typed, *json, namespace@, name@, provider@) == Err::<
                Seq<Seq<char>>,
                RegistryErrorView,
            >(e@),
        },
{
    if let Ok(resp) = &typed {
        let versions = module_versions_from_response(resp);
        if versions.len() > 0 {
            return Ok(versions);
        }
    }
    match module_versions_from_fallback_json(json) {
        Some(v) => Ok(v),
        None => Err(
            RegistryError::NoModuleVersionsAvailable {
                module: module_triple_exec(namespace, name, provider),
            },
        ),
    }
}

/// Details of a module; the shapes of its root and submodules are the caller's.
#[derive(Debug)]
pub struct ModuleDetails<Root, Submodule> {
    pub id: String,
    pub namespace: String,
    pub name: String,
    pub provider: String,
    pub version: String,
    pub description: String,
    pub source: String,
    pub published_at: String,
    pub downloads: u64,
    pub verified: bool,
    pub root: Option<Root>,
    pub submodules: Vec<Submodule>,
    pub versions: Vec<String>,
    pub extra: Vec<JsonMember>,
}

/// What the fallback reading of module details holds: what can be read of the
/// answer, with the requested path where it says nothing, and no root, submodules,
/// versions or other members.
pub open spec fn is_module_details_fallback<R, S>(
    d: ModuleDetails<R, S>,
    json: JsonValue,
    namespace: Seq<char>,
    name: Seq<char>,
    provider: Seq<char>,
) -> bool {
    &&& d.id@ == str_or(json, "id"@, Seq::empty())
    &&& d.namespace@ == str_or(json, "namespace"@, namespace)
    &&& d.name@ == str_or(json, "name"@, name)
    &&& d.provider@ == str_or(json, "provider"@, provider)
    &&& d.version@ == str_or(json, "version"@, Seq::empty())
    &&& d.description@ == str_or(json, "description"@, Seq::empty())
    &&& d.source@ == str_or(json, "source"@, Seq::empty())
    &&& d.published_at@ == str_or(json, "published_at"@, Seq::empty())
    &&& d.downloads == u64_or_zero(json, "downloads"@)
    &&& d.verified == bool_or_false(json, "verified"@)
    &&& d.root is None
    &&& d.submodules@.len() == 0
    &&& d.versions@.len() == 0
    &&& d.extra@.len() == 0
}

/// Reads module details out of an answer of unrecognised shape.
pub fn module_details_fallback<R, S>(
    json: &JsonValue,
    namespace: &str,
    name: &str,
    provider: &str,
) -> (r: ModuleDetails<R, S>)
    ensures
        is_module_details_fallback(r, *json, namespace@, name@, provider@),
{
    ModuleDetails {
        id: value_str(json, "id"),
        namespace: value_str_or(json, "namespace", namespace),
        name: value_str_or(json, "name", name),
        provider: value_str_or(json, "provider", provider),
        version: value_str(json, "version"),
        description: value_str(json, "description"),
        source: value_str(json, "source"),
        published_at: value_str(json, "published_at"),
        downloads: match crate::json::get_u64(json, "downloads") {
            Some(n) => n,
            None => 0,
        },
        verified: match crate::json::get_bool(json, "verified") {
            Some(b) => b,
            None => false,
        },
        root: None,
        submodules: Vec::new(),
        versions: Vec::new(),
        extra: Vec::new(),
    }
}

/// The details of a module details answer: the typed reading when the answer had the
/// expected shape, else the fallback reading.
pub fn module_details_outcome<R, S>(
    typed: Result<ModuleDetails<R, S>, String>,
    json: &JsonValue,
    namespace: &str,
    name: &str,
    provider: &str,
) -> (r: ModuleDetails<R, S>)
    ensures
        match typed {
            Ok(d) => r == d,
            Err(_) => is_module_details_fallback(r, *json, namespace@, name@, provider@),
        },
{
    match typed {
        Ok(d) => d,
        Err(_) => module_details_fallback(json, namespace, name, provider),
    }
}

/// The lookup of a module's details, or of its versions.
pub fn module_not_found(name: &str, provider: &str, namespace: &str, versions: bool) -> (r:
    RegistryNotFound)
    ensures
        r matches RegistryNotFound::Module { module, provider: p, namespace: ns, label } && module@
            == name@ && p@ == provider@ && ns@ == namespace@ && label@ == if versions {
            "Module versions"@
        } else {
            "Module"@
        },
{
    RegistryNotFound::Module {
        module: name.to_owned(),
        provider: provider.to_owned(),
        namespace: namespace.to_owned(),
        label: if versions {
            "Module versions".to_owned()
        } else {
            "Module".to_owned()
        },
    }
}

/// The endpoint of a module's details, of one version of it when `version` is given.
pub fn module_details_url(
    base_url: &str,
    namespace: &str,
    name: &str,
    provider: &str,
    version: Option<&str>,
) -> (r: String)
    ensures
        r@ == base_url@ + "/v1/modules/"@ + module_triple(namespace@, name@, provider@) + match version {
            Some(v) => "/"@ + v@,
            None => Seq::<char>::empty(),
        },
{
    let r = match version {
        Some(v) => join_all(&vec![base_url, "/v1/modules/", namespace, "/", name, "/", provider, "/", v]),
        None => join_all(&vec![base_url, "/v1/modules/", namespace, "/", name, "/", provider]),
    };
    proof {
        reveal_with_fuel(joined, 10);
        assert(base_url@ + "/v1/modules/"@ + module_triple(namespace@, name@, provider@)
            + Seq::<char>::empty() =~= base_url@ + "/v1/modules/"@ + module_triple(namespace@, name@, provider@));
    }
    r
}

/// The endpoint of a module's versions.
pub fn module_versions_url(base_url: &str, namespace: &str, name: &str, provider: &str) -> (r: String)
    ensures
        r@ == base_url@ + "/v1/modules/"@ + module_triple(namespace@, name@, provider@) + "/versions"@,
{
    let r = join_all(&vec![base_url, "/v1/modules/", namespace, "/", name, "/", provider, "/versions"]);
    proof {
        reveal_with_fuel(joined, 9);
    }
    r
}

/// The latest version of a module as its details give it; none when they give an
/// empty one, and the version list is to be asked for.
pub fn latest_module_version_from_details(version: String) -> (r: Option<String>)
    ensures
        match r {
            Some(v) => v == version && version@.len() > 0,
            None => version@.len() == 0,
        },
{
    if version.as_str().is_empty() {
        None
    } else {
        Some(version)
    }
}

/// The first of a module's listed versions.
pub fn first_module_version(versions: Vec<String>, namespace: &str, name: &str, provider: &str) -> (r:
    Result<String, RegistryError>)
    ensures
        match r {
            Ok(v) => versions@.len() > 0 && v@ == versions@[0]@,
            Err(e) => versions@.len() == 0 && e@ == RegistryErrorView::NoModuleVersionsAvailable {
                module: module_triple(namespace@, name@, provider@),
            },
        },
{
    if versions.len() == 0 {
        Err(
            RegistryError::NoModuleVersionsAvailable {
                module: module_triple_exec(namespace, name, provider),
            },
        )
    } else {
        Ok(versions[0].clone())
    }
}

/// How many requests a documentation search makes at most: four endpoints, each
/// asked with four ways of passing the filter.
pub const DOCS_SEARCH_ATTEMPTS: usize = 16;

/// The endpoint of request `attempt` of a documentation search.
pub open spec fn docs_search_url_spec(base: Seq<char>, namespace: Seq<char>, provider: Seq<char>, attempt: int) -> Seq<char> {
    let p = attempt / 4;
    if p == 0 {
        base + "/v1/providers/"@ + namespace + "/"@ + provider + "/docs"@
    } else if p == 1 {
        base + "/v2/providers/"@ + namespace + "/"@ + provider + "/docs"@
    } else if p == 2 {
        base + "/providers/"@ + namespace + "/"@ + provider + "/docs"@
    } else {
        base + "/docs/providers/"@ + namespace + "/"@ + provider
    }
}

/// The query parameters of request `attempt` of a documentation search.
pub open spec fn docs_search_params_spec(slug: Seq<char>, data_type: Seq<char>, attempt: int) -> Seq<
    (Seq<char>, Seq<char>),
> {
    let k = attempt % 4;
    if k == 0 {
        seq![("category"@, data_type), ("slug"@, slug)]
    } else if k == 1 {
        seq![("type"@, data_type), ("slug"@, slug)]
    } else if k == 2 {
        seq![("filter[category]"@, data_type), ("filter[slug]"@, slug)]
    } else {
        seq![("q"@, slug), ("category"@, data_type)]
    }
}

/// The endpoint of request `attempt` of a documentation search.
pub fn docs_search_url(base_url: &str, namespace: &str, provider_name: &str, attempt: usize) -> (r:
    String)
    requires
        attempt < DOCS_SEARCH_ATTEMPTS,
    ensures
        r@ == docs_search_url_spec(base_url@, namespace@, provider_name@, attempt as int),
{
    let p = attempt / 4;
    let r = if p == 0 {
        join_all(&vec![base_url, "/v1/providers/", namespace, "/", provider_name, "/docs"])
    } else if p == 1 {
        join_all(&vec![base_url, "/v2/providers/", namespace, "/", provider_name, "/docs"])
    } else if p == 2 {
        join_all(&vec![base_url, "/providers/", namespace, "/", provider_name, "/docs"])
    } else {
        join_all(&vec![base_url, "/docs/providers/", namespace, "/", provider_name])
    };
    proof {
        reveal_with_fuel(joined, 7);
    }
    r
}

/// The query parameters of request `attempt` of a documentation search.
pub fn docs_search_params(service_slug: &str, data_type: &str, attempt: usize) -> (r: Vec<
    (String, String),
>)
    requires
        attempt < DOCS_SEARCH_ATTEMPTS,
    ensures
        pair_texts(r@) == docs_search_params_spec(service_slug@, data_type@, attempt as int),
{
    let k = attempt % 4;
    let r = if k == 0 {
        vec![text_pair("category", data_type), text_pair("slug", service_slug)]
    } else if k == 1 {
        vec![text_pair("type", data_type), text_pair("slug", service_slug)]
    } else if k == 2 {
        vec![text_pair("filter[category]", data_type), text_pair("filter[slug]", service_slug)]
    } else {
        vec![text_pair("q", service_slug), text_pair("category", data_type)]
    };
    proof {
        assert(pair_texts(r@) =~= docs_search_params_spec(service_slug@, data_type@, attempt as int));
    }
    r
}

/// What to do once the status of a documentation search request is known.
#[derive(Debug)]
pub enum DocsStatusStep {
    /// Read and decode the body.
    ReadBody,
    /// Stop the search with this error.
    Failed(RegistryError),
    /// Go on with request number `n`.
    Next(usize),
    /// Every request was made: the search found nothing.
    Exhausted,
}

/// Decides on the status of request `attempt` of a documentation search: rate
/// limiting stops the search, a success has its body read, and any other status
/// moves on to the next request.
pub fn docs_status_step(attempt: usize, status: u16) -> (r: DocsStatusStep)
    requires
        attempt < DOCS_SEARCH_ATTEMPTS,
    ensures
        match r {
            DocsStatusStep::Failed(e) => status == 429 && e@ == RegistryErrorView::RateLimited,
            DocsStatusStep::ReadBody => status != 429 && is_success(status),
            DocsStatusStep::Next(n) => status != 429 && !is_success(status) && n == attempt + 1
                && n < DOCS_SEARCH_ATTEMPTS,
            DocsStatusStep::Exhausted => status != 429 && !is_success(status) && attempt + 1
                == DOCS_SEARCH_ATTEMPTS,
        },
{
    if status == 429 {
        DocsStatusStep::Failed(RegistryError::RateLimited)
    } else if 200 <= status && status < 300 {
        DocsStatusStep::ReadBody
    } else if attempt + 1 < DOCS_SEARCH_ATTEMPTS {
        DocsStatusStep::Next(attempt + 1)
    } else {
        DocsStatusStep::Exhausted
    }
}

/// A documentation answer of the expected shape.
#[derive(Debug)]
pub struct ProviderDocsResponse {
    pub data: Vec<DocIdResult>,
    pub docs: Option<Vec<DocIdResult>>,
    pub documentation: Option<Vec<DocIdResult>>,
}

/// The body of a successful documentation search answer.
#[derive(Debug)]
pub enum DocsBody {
    /// The body is no JSON.
    Unparsable,
    /// The body as JSON, and its typed reading (`Err` when it has another shape).
    Parsed { typed: Result<ProviderDocsResponse, String>, json: JsonValue },
}

/// The entries a typed answer holds: `data`, or when it is empty `docs`, or when that
/// is missing `documentation`.
pub open spec fn typed_docs(r: ProviderDocsResponse) -> Seq<DocIdView> {
    if r.data@.len() == 0 {
        if r.docs is Some {
            doc_views(r.docs.unwrap()@)
        } else if r.documentation is Some {
            doc_views(r.documentation.unwrap()@)
        } else {
            doc_views(r.data@)
        }
    } else {
        doc_views(r.data@)
    }
}

/// The entries of an array member of an answer.
pub open spec fn docs_under(json: JsonValue, key: Seq<char>) -> Seq<DocIdView> {
    match json_as_array(json_get(json, key)) {
        Some(a) => a.filter_map(doc_json_fn()),
        None => Seq::empty(),
    }
}

/// The entries an answer of another shape holds: those under `data`, else those
/// under `docs`, else those of the answer itself when it is an array.
pub open spec fn fallback_docs(json: JsonValue) -> Seq<DocIdView> {
    if docs_under(json, "data"@).len() > 0 {
        docs_under(json, "data"@)
    } else if docs_under(json, "docs"@).len() > 0 {
        docs_under(json, "docs"@)
    } else {
        match json {
            JsonValue::Array(a) => a@.filter_map(doc_json_fn()),
            _ => Seq::empty(),
        }
    }
}

/// The entries a documentation answer yields.
pub open spec fn found_docs(body: DocsBody) -> Seq<DocIdView> {
    match body {
        DocsBody::Unparsable => Seq::empty(),
        DocsBody::Parsed { typed, json } => match typed {
            Ok(r) => typed_docs(r),
            Err(_) => fallback_docs(json),
        },
    }
}

/// What to do once the body of a documentation search answer is decoded.
#[derive(Debug)]
pub enum DocsBodyStep {
    /// The search found these entries.
    Found(Vec<DocIdResult>),
    /// Go on with request number `n`.
    Next(usize),
    /// Every request was made: the search found nothing.
    Exhausted,
}

fn typed_docs_exec(r: ProviderDocsResponse) -> (out: Vec<DocIdResult>)
    ensures
        doc_views(out@) == typed_docs(r),
{
    let ProviderDocsResponse { data, docs, documentation } = r;
    if data.len() == 0 {
        match docs {
            Some(d) => d,
            None => match documentation {
                Some(d) => d,
                None => data,
            },
        }
    } else {
        data
    }
}

fn fallback_docs_exec(json: &JsonValue) -> (out: Vec<DocIdResult>)
    ensures
        doc_views(out@) == fallback_docs(*json),
{
    if let Some(a) = get_array(json, "data") {
        let docs = extract_docs_from_array(a);
        if docs.len() > 0 {
            return docs;
        }
    }
    if let Some(a) = get_array(json, "docs") {
        let docs = extract_docs_from_array(a);
        if docs.len() > 0 {
            return docs;
        }
    }
    match json.as_array() {
        Some(a) => extract_docs_from_array(a),
        None => Vec::new(),
    }
}

/// Decides on the decoded body of request `attempt`: entries found end the search,
/// none move on to the next request.
pub fn docs_body_step(attempt: usize, body: DocsBody) -> (r: DocsBodyStep)
    requires
        attempt < DOCS_SEARCH_ATTEMPTS,
    ensures
        match r {
            DocsBodyStep::Found(v) => doc_views(v@) == found_docs(body) && v@.len() > 0,
            DocsBodyStep::Next(n) => found_docs(body).len() == 0 && n == attempt + 1 && n
                < DOCS_SEARCH_ATTEMPTS,
            DocsBodyStep::Exhausted => found_docs(body).len() == 0 && attempt + 1
                == DOCS_SEARCH_ATTEMPTS,
        },
        (match body {
            DocsBody::Parsed { typed: Ok(t), .. } => t.data@.len() > 0 ==> (r matches DocsBodyStep::Found(v)
                && same_entries(doc_views(v@), t.data@)),
            _ => true,
        }),
{
    proof {
        law_typed_docs_answer(body);
    }
    let ghost b = body;
    let docs = match body {
        DocsBody::Unparsable => Vec::new(),
        DocsBody::Parsed { typed, json } => match typed {
            Ok(r) => typed_docs_exec(r),
            Err(_) => fallback_docs_exec(&json),
        },
    };
    if docs.len() > 0 {
        DocsBodyStep::Found(docs)
    } else if attempt + 1 < DOCS_SEARCH_ATTEMPTS {
        DocsBodyStep::Next(attempt + 1)
    } else {
        DocsBodyStep::Exhausted
    }
}

/// How many endpoints a documentation content lookup tries.
pub const DOC_CONTENT_ATTEMPTS: usize = 4;

/// The endpoint of request `attempt` of a documentation content lookup.
pub open spec fn doc_content_url_spec(base: Seq<char>, doc_id: Seq<char>, attempt: int) -> Seq<char> {
    if attempt == 0 {
        base + "/v1/docs/"@ + doc_id
    } else if attempt == 1 {
        base + "/v2/docs/"@ + doc_id
    } else if attempt == 2 {
        base + "/docs/"@ + doc_id
    } else {
        base + "/documentation/"@ + doc_id
    }
}

/// The endpoint of request `attempt` of a documentation content lookup.
pub fn doc_content_url(base_url: &str, doc_id: &str, attempt: usize) -> (r: String)
    requires
        attempt < DOC_CONTENT_ATTEMPTS,
    ensures
        r@ == doc_content_url_spec(base_url@, doc_id@, attempt as int),
{
    let middle = if attempt == 0 {
        "/v1/docs/"
    } else if attempt == 1 {
        "/v2/docs/"
    } else if attempt == 2 {
        "/docs/"
    } else {
        "/documentation/"
    };
    let r = join_all(&vec![base_url, middle, doc_id]);
    proof {
        reveal_with_fuel(joined, 4);
    }
    r
}

/// What to do during a documentation content lookup.
#[derive(Debug)]
pub enum ContentStep {
    /// Read the body.
    ReadBody,
    /// The lookup found this content.
    Found(String),
    /// Go on with request number `n`.
    Next(usize),
    /// Stop the lookup with this error.
    Failed(RegistryError),
}

fn content_exhausted(doc_id: &str) -> (r: RegistryError)
    ensures
        r@ == (RegistryErrorView::DocumentationNotFound { doc_id: doc_id@ }),
{
    RegistryError::DocumentationNotFound { doc_id: doc_id.to_owned() }
}

/// Decides on the status of request `attempt` of a content lookup: rate limiting
/// stops it, a success has its body read, any other status moves on; after the last
/// endpoint the documentation is reported missing.
pub fn doc_content_status_step(attempt: usize, status: u16, doc_id: &str) -> (r: ContentStep)
    requires
        attempt < DOC_CONTENT_ATTEMPTS,
    ensures
        match r {
            ContentStep::Failed(e) => if status == 429 {
                e@ == RegistryErrorView::RateLimited
            } else {
                !is_success(status) && attempt + 1 == DOC_CONTENT_ATTEMPTS && e@
                    == (RegistryErrorView::DocumentationNotFound { doc_id: doc_id@ })
            },
            ContentStep::ReadBody => status != 429 && is_success(status),
            ContentStep::Next(n) => status != 429 && !is_success(status) && n == attempt + 1 && n
                < DOC_CONTENT_ATTEMPTS,
            ContentStep::Found(_) => false,
        },
{
    if status == 429 {
        ContentStep::Failed(RegistryError::RateLimited)
    } else if 200 <= status && status < 300 {
        ContentStep::ReadBody
    } else if attempt + 1 < DOC_CONTENT_ATTEMPTS {
        ContentStep::Next(attempt + 1)
    } else {
        ContentStep::Failed(content_exhausted(doc_id))
    }
}

/// Decides on the body of request `attempt` of a content lookup: content that is not
/// only white space is the answer, else the lookup moves on.
pub fn doc_content_body_step(attempt: usize, content: String, doc_id: &str) -> (r: ContentStep)
    requires
        attempt < DOC_CONTENT_ATTEMPTS,
    ensures
        match r {
            ContentStep::Found(c) => c == content && trim(content@).len() > 0,
            ContentStep::Next(n) => trim(content@).len() == 0 && n == attempt + 1 && n
                < DOC_CONTENT_ATTEMPTS,
            ContentStep::Failed(e) => trim(content@).len() == 0 && attempt + 1
                == DOC_CONTENT_ATTEMPTS && e@ == (RegistryErrorView::DocumentationNotFound {
                doc_id: doc_id@,
            }),
            ContentStep::ReadBody => false,
        },
{
    let t = trimmed_chars(content.as_str());
    if t.len() > 0 {
        ContentStep::Found(content)
    } else if attempt + 1 < DOC_CONTENT_ATTEMPTS {
        ContentStep::Next(attempt + 1)
    } else {
        ContentStep::Failed(content_exhausted(doc_id))
    }
}

/// "429 Too Many Requests" is reported as rate limiting whatever was looked up, and a
/// success always has its body read.
pub proof fn law_status_decisions(code: u16, not_found: Option<RegistryNotFound>, reason: Option<Seq<char>>)
    ensures
        code == 429 ==> status_outcome(code, not_found, reason) == Err::<(), RegistryErrorView>(
            RegistryErrorView::RateLimited,
        ),
        is_success(code) ==> status_outcome(code, not_found, reason) is Ok,
        !is_success(code) ==> status_outcome(code, not_found, reason) is Err,
{
}

/// A search that succeeds returns at least one item; one that finds nothing reports
/// that no result was found or that the answer could not be read.
pub proof fn law_search_success_is_never_empty(
    typed_providers: Result<RegistrySearchResponse, String>,
    typed_modules: Result<ModuleSearchResponse, String>,
    json: JsonValue,
    query: Seq<char>,
)
    ensures
        provider_search_result(typed_providers, json, query) matches Ok(v) ==> v.len() > 0,
        module_search_result(typed_modules, json, query) matches Ok(v) ==> v.len() > 0,
{
}

/// The latest version of a provider whose answer lists versions is the last one
/// listed.
pub proof fn law_latest_version_is_last_listed(
    typed: ProviderVersions,
    json: JsonValue,
    provider: Seq<char>,
    namespace: Seq<char>,
)
    requires
        typed_versions(typed).len() > 0,
    ensures
        latest_version_result(Ok(typed), json, provider, namespace) == Ok::<
            Seq<char>,
            RegistryErrorView,
        >(typed_versions(typed).last()),
{
}

/// Whether `m` are the text members `members`, in that order.
pub open spec fn is_text_members(m: Seq<JsonMember>, members: Seq<(Seq<char>, Seq<char>)>) -> bool {
    m.len() == members.len() && forall|i: int|
        0 <= i < m.len() ==> #[trigger] m[i].key@ == members[i].0 && (m[i].value matches JsonValue::String(t) && t@ == members[i].1)
}

/// Whether `v` is an object whose members are the texts `members`, in that order.
pub open spec fn is_text_object(v: JsonValue, members: Seq<(Seq<char>, Seq<char>)>) -> bool {
    v matches JsonValue::Object(m) && is_text_members(m@, members)
}

/// The members of one `get_provider_docs` entry: the document's id, title, description
/// and category, then its content, or under `content_error` why it could not be read.
pub open spec fn doc_entry_members(d: DocIdView, content: Result<Seq<char>, Seq<char>>) -> Seq<
    (Seq<char>, Seq<char>),
> {
    seq![
        ("id"@, d.id),
        ("title"@, d.title),
        ("description"@, d.description),
        ("category"@, d.category),
        match content {
            Ok(c) => ("content"@, c),
            Err(e) => ("content_error"@, e),
        },
    ]
}

fn text_member(key: &str, value: &str) -> (r: JsonMember)
    ensures
        r.key@ == key@,
        r.value matches JsonValue::String(t) && t@ == value@,
{
    JsonMember { key: key.to_owned(), value: JsonValue::String(value.to_owned()) }
}

/// One entry of the `get_provider_docs` answer for `doc`, whose content was read, or
/// could not be read for the reason given.
pub fn provider_doc_entry(doc: &DocIdResult, content: Result<String, String>) -> (r: JsonValue)
    ensures
        is_text_object(
            r,
            doc_entry_members(
                doc@,
                match content {
                    Ok(c) => Ok(c@),
                    Err(e) => Err(e@),
                },
            ),
        ),
{
    let last = match &content {
        Ok(c) => text_member("content", c.as_str()),
        Err(e) => text_member("content_error", e.as_str()),
    };
    let m = vec![
        text_member("id", doc.id.as_str()),
        text_member("title", doc.title.as_str()),
        text_member("description", doc.description.as_str()),
        text_member("category", doc.category.as_str()),
        last,
    ];
    JsonValue::Object(m)
}

/// The `get_provider_docs` answer: the entries, the namespace the documents were found
/// in, and the provider, service and type asked for.
pub fn provider_docs_answer(
    entries: Vec<JsonValue>,
    namespace: &str,
    provider: &str,
    service: &str,
    data_type: &str,
) -> (r: JsonValue)
    ensures
        r matches JsonValue::Object(m) && m@.len() == 5 && m@[0].key@ == "documentation"@ && (m@[0].value matches JsonValue::Array(a)
            && a@ == entries@) && is_text_members(
            m@.drop_first(),
            seq![("namespace"@, namespace@), ("provider"@, provider@), ("service"@, service@), ("type"@, data_type@)],
        ),
{
    let m = vec![
        JsonMember { key: "documentation".to_owned(), value: JsonValue::Array(entries) },
        text_member("namespace", namespace),
        text_member("provider", provider),
        text_member("service", service),
        text_member("type", data_type),
    ];
    proof {
        let rest = m@.drop_first();
        assert(rest[0] == m@[1] && rest[1] == m@[2] && rest[2] == m@[3] && rest[3] == m@[4]);
    }
    JsonValue::Object(m)
}

/// Whether `found` are the entries `s`, all of them and in order.
pub open spec fn same_entries(found: Seq<DocIdView>, s: Seq<DocIdResult>) -> bool {
    found.len() == s.len() && forall|i: int| 0 <= i < s.len() ==> #[trigger] found[i] == s[i]@
}

/// A typed documentation answer yields its `data` entries when there are any, all of
/// them and in order; when `data` is empty it yields the `docs` entries if present,
/// else the `documentation` entries if present, else none.
pub proof fn law_typed_docs_answer(body: DocsBody)
    ensures
        (match body {
            DocsBody::Parsed { typed: Ok(r), .. } => if r.data@.len() > 0 {
                same_entries(found_docs(body), r.data@)
            } else if r.docs is Some {
                same_entries(found_docs(body), r.docs.unwrap()@)
            } else if r.documentation is Some {
                same_entries(found_docs(body), r.documentation.unwrap()@)
            } else {
                found_docs(body).len() == 0
            },
            DocsBody::Unparsable => found_docs(body).len() == 0,
            _ => true,
        }),
{
}

} // verus!
