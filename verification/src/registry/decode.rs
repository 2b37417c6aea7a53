//! Reading registry items out of a parsed JSON response, the way the registry
//! client falls back to when a response does not have the expected shape.
use crate::json::{
    get_array, get_bool, get_str, get_u64, json_as_array, json_as_bool, json_as_str,
    json_as_u64, json_get, JsonMember, JsonValue,
};
use vstd::prelude::*;

verus! {

/// The text under `key`, or `fallback` when that member is missing or no string.
pub open spec fn str_or(v: JsonValue, key: Seq<char>, fallback: Seq<char>) -> Seq<char> {
    match json_as_str(json_get(v, key)) {
        Some(s) => s,
        None => fallback,
    }
}

/// The non-negative integer under `key`, or 0.
pub open spec fn u64_or_zero(v: JsonValue, key: Seq<char>) -> u64 {
    match json_as_u64(json_get(v, key)) {
        Some(n) => n,
        None => 0,
    }
}

/// The boolean under `key`, or `false`.
pub open spec fn bool_or_false(v: JsonValue, key: Seq<char>) -> bool {
    match json_as_bool(json_get(v, key)) {
        Some(b) => b,
        None => false,
    }
}

/// An optional string as an optional text.
pub open spec fn opt_view(o: Option<String>) -> Option<Seq<char>> {
    match o {
        Some(s) => Some(s@),
        None => None,
    }
}

/// The text under `key`, or the empty text.
pub fn value_str(value: &JsonValue, key: &str) -> (r: String)
    ensures
        r@ == str_or(*value, key@, Seq::empty()),
{
    match get_str(value, key) {
        Some(s) => s.to_owned(),
        None => String::new(),
    }
}

/// The text under `key`, or `fallback`.
pub fn value_str_or(value: &JsonValue, key: &str, fallback: &str) -> (r: String)
    ensures
        r@ == str_or(*value, key@, fallback@),
{
    match get_str(value, key) {
        Some(s) => s.to_owned(),
        None => fallback.to_owned(),
    }
}

/// The text under `key`, if there is one.
pub fn value_opt_str(value: &JsonValue, key: &str) -> (r: Option<String>)
    ensures
        opt_view(r) == json_as_str(json_get(*value, key@)),
{
    match get_str(value, key) {
        Some(s) => Some(s.to_owned()),
        None => None,
    }
}

fn value_u64_or_zero(value: &JsonValue, key: &str) -> (r: u64)
    ensures
        r == u64_or_zero(*value, key@),
{
    match get_u64(value, key) {
        Some(n) => n,
        None => 0,
    }
}

fn value_bool_or_false(value: &JsonValue, key: &str) -> (r: bool)
    ensures
        r == bool_or_false(*value, key@),
{
    match get_bool(value, key) {
        Some(b) => b,
        None => false,
    }
}

/// A provider as the registry describes it; `extra` keeps the members the other
/// fields do not name.
#[derive(Debug)]
pub struct ProviderInfo {
    pub name: String,
    pub namespace: String,
    pub version: String,
    pub description: String,
    pub downloads: u64,
    pub published_at: String,
    pub id: String,
    pub source: Option<String>,
    pub tag: Option<String>,
    pub logo_url: Option<String>,
    pub owner: Option<String>,
    pub tier: Option<String>,
    pub verified: Option<bool>,
    pub trusted: Option<bool>,
    pub extra: Vec<JsonMember>,
}

/// The content of a `ProviderInfo`.
pub struct ProviderInfoView {
    pub name: Seq<char>,
    pub namespace: Seq<char>,
    pub version: Seq<char>,
    pub description: Seq<char>,
    pub downloads: u64,
    pub published_at: Seq<char>,
    pub id: Seq<char>,
    pub source: Option<Seq<char>>,
    pub tag: Option<Seq<char>>,
    pub logo_url: Option<Seq<char>>,
    pub owner: Option<Seq<char>>,
    pub tier: Option<Seq<char>>,
    pub verified: Option<bool>,
    pub trusted: Option<bool>,
    pub extra: Seq<JsonMember>,
}

impl View for ProviderInfo {
    type V = ProviderInfoView;

    open spec fn view(&self) -> ProviderInfoView {
        ProviderInfoView {
            name: self.name@,
            namespace: self.namespace@,
            version: self.version@,
            description: self.description@,
            downloads: self.downloads,
            published_at: self.published_at@,
            id: self.id@,
            source: opt_view(self.source),
            tag: opt_view(self.tag),
            logo_url: opt_view(self.logo_url),
            owner: opt_view(self.owner),
            tier: opt_view(self.tier),
            verified: self.verified,
            trusted: self.trusted,
            extra: self.extra@,
        }
    }
}

/// A provider with the given name, namespace, description, downloads and version,
/// and nothing else.
pub open spec fn provider_basic(
    name: Seq<char>,
    namespace: Seq<char>,
    description: Seq<char>,
    downloads: u64,
    version: Seq<char>,
) -> ProviderInfoView {
    ProviderInfoView {
        name,
        namespace,
        version,
        description,
        downloads,
        published_at: Seq::empty(),
        id: Seq::empty(),
        source: None,
        tag: None,
        logo_url: None,
        owner: None,
        tier: None,
        verified: None,
        trusted: None,
        extra: Seq::empty(),
    }
}

/// The provider a JSON entry describes, if it has a name.
pub open spec fn provider_json(p: JsonValue) -> Option<ProviderInfoView> {
    match json_as_str(json_get(p, "name"@)) {
        Some(name) => Some(
            provider_basic(
                name,
                str_or(p, "namespace"@, Seq::empty()),
                str_or(p, "description"@, Seq::empty()),
                u64_or_zero(p, "downloads"@),
                str_or(p, "version"@, Seq::empty()),
            ),
        ),
        None => None,
    }
}

pub open spec fn provider_json_fn() -> spec_fn(JsonValue) -> Option<ProviderInfoView> {
    |p: JsonValue| provider_json(p)
}

pub open spec fn provider_views(s: Seq<ProviderInfo>) -> Seq<ProviderInfoView> {
    Seq::new(s.len(), |i: int| s[i]@)
}

fn provider_basic_exec(
    name: String,
    namespace: String,
    description: String,
    downloads: u64,
    version: String,
) -> (r: ProviderInfo)
    ensures
        r@ == provider_basic(name@, namespace@, description@, downloads, version@),
{
    ProviderInfo {
        name,
        namespace,
        version,
        description,
        downloads,
        published_at: String::new(),
        id: String::new(),
        source: None,
        tag: None,
        logo_url: None,
        owner: None,
        tier: None,
        verified: None,
        trusted: None,
        extra: Vec::new(),
    }
}

/// Reads a provider out of a JSON entry; an entry without a name gives none.
pub fn provider_info_from_value(provider: &JsonValue) -> (r: Option<ProviderInfo>)
    ensures
        match r {
            Some(info) => provider_json(*provider) == Some(info@),
            None => provider_json(*provider) is None,
        },
{
    match get_str(provider, "name") {
        Some(name) => Some(
            provider_basic_exec(
                name.to_owned(),
                value_str(provider, "namespace"),
                value_str(provider, "description"),
                value_u64_or_zero(provider, "downloads"),
                value_str(provider, "version"),
            ),
        ),
        None => None,
    }
}

/// The providers of a JSON array, in order, skipping entries without a name.
pub fn extract_providers_from_array(values: &Vec<JsonValue>) -> (r: Vec<ProviderInfo>)
    ensures
        provider_views(r@) == values@.filter_map(provider_json_fn()),
{
    let mut r: Vec<ProviderInfo> = Vec::new();
    let mut i: usize = 0;
    while i < values.len()
        invariant
            i <= values@.len(),
            provider_views(r@) == values@.take(i as int).filter_map(provider_json_fn()),
        decreases values.len() - i,
    {
        proof {
            values@.lemma_filter_map_take_succ(provider_json_fn(), i as int);
        }
        let ghost before = r@;
        match provider_info_from_value(&values[i]) {
            Some(info) => {
                r.push(info);
                proof {
                    assert(provider_views(r@) =~= provider_views(before) + seq![r@.last()@]);
                }
            },
            None => {},
        }
        i = i + 1;
    }
    proof {
        assert(values@.take(values@.len() as int) =~= values@);
    }
    r
}

/// The provider built from a response whose shape was not recognised: what can be
/// read of it, with the requested name and namespace where it says nothing.
pub open spec fn provider_fallback(json: JsonValue, provider_name: Seq<char>, namespace: Seq<char>) -> ProviderInfoView {
    provider_basic(
        str_or(json, "name"@, provider_name),
        str_or(json, "namespace"@, namespace),
        str_or(json, "description"@, Seq::empty()),
        u64_or_zero(json, "downloads"@),
        Seq::empty(),
    )
}

/// Reads a provider out of a response of unrecognised shape.
pub fn provider_info_fallback(json: &JsonValue, provider_name: &str, namespace: &str) -> (r:
    ProviderInfo)
    ensures
        r@ == provider_fallback(*json, provider_name@, namespace@),
{
    provider_basic_exec(
        value_str_or(json, "name", provider_name),
        value_str_or(json, "namespace", namespace),
        value_str(json, "description"),
        value_u64_or_zero(json, "downloads"),
        String::new(),
    )
}

/// The provider of a provider-info response: the typed reading when the response
/// had the expected shape (`typed` is `Ok`), else what the fallback reads.
pub fn parse_provider_info_json(
    typed: Result<ProviderInfo, String>,
    json: &JsonValue,
    provider_name: &str,
    namespace: &str,
) -> (r: ProviderInfo)
    ensures
        match typed {
            Ok(info) => r == info,
            Err(_) => r@ == provider_fallback(*json, provider_name@, namespace@),
        },
{
    match typed {
        Ok(info) => info,
        Err(_) => provider_info_fallback(json, provider_name, namespace),
    }
}

/// A documentation entry of a provider.
#[derive(Debug)]
pub struct DocIdResult {
    pub id: String,
    pub title: String,
    pub description: String,
    pub category: String,
    pub slug: Option<String>,
    pub path: Option<String>,
    pub subcategory: Option<String>,
    pub extra: Vec<JsonMember>,
}

/// The content of a `DocIdResult`.
pub struct DocIdView {
    pub id: Seq<char>,
    pub title: Seq<char>,
    pub description: Seq<char>,
    pub category: Seq<char>,
    pub slug: Option<Seq<char>>,
    pub path: Option<Seq<char>>,
    pub subcategory: Option<Seq<char>>,
    pub extra: Seq<JsonMember>,
}

impl View for DocIdResult {
    type V = DocIdView;

    open spec fn view(&self) -> DocIdView {
        DocIdView {
            id: self.id@,
            title: self.title@,
            description: self.description@,
            category: self.category@,
            slug: opt_view(self.slug),
            path: opt_view(self.path),
            subcategory: opt_view(self.subcategory),
            extra: self.extra@,
        }
    }
}

/// The documentation entry a JSON entry describes, if it has an id or a title.
pub open spec fn doc_json(d: JsonValue) -> Option<DocIdView> {
    let id = str_or(d, "id"@, Seq::empty());
    let title = str_or(d, "title"@, Seq::empty());
    if id.len() > 0 || title.len() > 0 {
        Some(
            DocIdView {
                id,
                title,
                description: str_or(d, "description"@, Seq::empty()),
                category: str_or(d, "category"@, Seq::empty()),
                slug: json_as_str(json_get(d, "slug"@)),
                path: json_as_str(json_get(d, "path"@)),
                subcategory: json_as_str(json_get(d, "subcategory"@)),
                extra: Seq::empty(),
            },
        )
    } else {
        None
    }
}

pub open spec fn doc_json_fn() -> spec_fn(JsonValue) -> Option<DocIdView> {
    |d: JsonValue| doc_json(d)
}

pub open spec fn doc_views(s: Seq<DocIdResult>) -> Seq<DocIdView> {
    Seq::new(s.len(), |i: int| s[i]@)
}

/// Reads a documentation entry; one with neither id nor title gives none.
pub fn doc_id_from_value(doc: &JsonValue) -> (r: Option<DocIdResult>)
    ensures
        match r {
            Some(d) => doc_json(*doc) == Some(d@),
            None => doc_json(*doc) is None,
        },
{
    let result = DocIdResult {
        id: value_str(doc, "id"),
        title: value_str(doc, "title"),
        description: value_str(doc, "description"),
        category: value_str(doc, "category"),
        slug: value_opt_str(doc, "slug"),
        path: value_opt_str(doc, "path"),
        subcategory: value_opt_str(doc, "subcategory"),
        extra: Vec::new(),
    };
    if !result.id.as_str().is_empty() || !result.title.as_str().is_empty() {
        Some(result)
    } else {
        None
    }
}

/// The documentation entries of a JSON array, in order.
pub fn extract_docs_from_array(values: &Vec<JsonValue>) -> (r: Vec<DocIdResult>)
    ensures
        doc_views(r@) == values@.filter_map(doc_json_fn()),
{
    let mut r: Vec<DocIdResult> = Vec::new();
    let mut i: usize = 0;
    while i < values.len()
        invariant
            i <= values@.len(),
            doc_views(r@) == values@.take(i as int).filter_map(doc_json_fn()),
        decreases values.len() - i,
    {
        proof {
            values@.lemma_filter_map_take_succ(doc_json_fn(), i as int);
        }
        let ghost before = r@;
        match doc_id_from_value(&values[i]) {
            Some(d) => {
                r.push(d);
                proof {
                    assert(doc_views(r@) =~= doc_views(before) + seq![r@.last()@]);
                }
            },
            None => {},
        }
        i = i + 1;
    }
    proof {
        assert(values@.take(values@.len() as int) =~= values@);
    }
    r
}

/// A module as the registry lists it.
#[derive(Debug)]
pub struct ModuleInfo {
    pub id: String,
    pub namespace: String,
    pub name: String,
    pub provider: String,
    pub version: String,
    pub description: String,
    pub source: String,
    pub published_at: String,
    pub downloads: u64,
    pub verified: bool,
    pub owner: String,
    pub extra: Vec<JsonMember>,
}

/// The content of a `ModuleInfo`.
pub struct ModuleInfoView {
    pub id: Seq<char>,
    pub namespace: Seq<char>,
    pub name: Seq<char>,
    pub provider: Seq<char>,
    pub version: Seq<char>,
    pub description: Seq<char>,
    pub source: Seq<char>,
    pub published_at: Seq<char>,
    pub downloads: u64,
    pub verified: bool,
    pub owner: Seq<char>,
    pub extra: Seq<JsonMember>,
}

impl View for ModuleInfo {
    type V = ModuleInfoView;

    open spec fn view(&self) -> ModuleInfoView {
        ModuleInfoView {
            id: self.id@,
            namespace: self.namespace@,
            name: self.name@,
            provider: self.provider@,
            version: self.version@,
            description: self.description@,
            source: self.source@,
            published_at: self.published_at@,
            downloads: self.downloads,
            verified: self.verified,
            owner: self.owner@,
            extra: self.extra@,
        }
    }
}

/// The module a JSON entry describes, if it has a non-empty id.
pub open spec fn module_json(m: JsonValue) -> Option<ModuleInfoView> {
    let id = str_or(m, "id"@, Seq::empty());
    if id.len() > 0 {
        Some(
            ModuleInfoView {
                id,
                namespace: str_or(m, "namespace"@, Seq::empty()),
                name: str_or(m, "name"@, Seq::empty()),
                provider: str_or(m, "provider"@, Seq::empty()),
                version: str_or(m, "version"@, Seq::empty()),
                description: str_or(m, "description"@, Seq::empty()),
                source: str_or(m, "source"@, Seq::empty()),
                published_at: str_or(m, "published_at"@, Seq::empty()),
                downloads: u64_or_zero(m, "downloads"@),
                verified: bool_or_false(m, "verified"@),
                owner: str_or(m, "owner"@, Seq::empty()),
                extra: Seq::empty(),
            },
        )
    } else {
        None
    }
}

pub open spec fn module_json_fn() -> spec_fn(JsonValue) -> Option<ModuleInfoView> {
    |m: JsonValue| module_json(m)
}

pub open spec fn module_views(s: Seq<ModuleInfo>) -> Seq<ModuleInfoView> {
    Seq::new(s.len(), |i: int| s[i]@)
}

/// Reads a module out of a JSON entry; one without an id gives none.
pub fn module_info_from_value(module: &JsonValue) -> (r: Option<ModuleInfo>)
    ensures
        match r {
            Some(m) => module_json(*module) == Some(m@),
            None => module_json(*module) is None,
        },
{
    let id = value_str(module, "id");
    if id.as_str().is_empty() {
        return None;
    }
    Some(
        ModuleInfo {
            id,
            namespace: value_str(module, "namespace"),
            name: value_str(module, "name"),
            provider: value_str(module, "provider"),
            version: value_str(module, "version"),
            description: value_str(module, "description"),
            source: value_str(module, "source"),
            published_at: value_str(module, "published_at"),
            downloads: value_u64_or_zero(module, "downloads"),
            verified: value_bool_or_false(module, "verified"),
            owner: value_str(module, "owner"),
            extra: Vec::new(),
        },
    )
}

/// The modules of a JSON array, in order.
pub fn extract_modules_from_array(values: &Vec<JsonValue>) -> (r: Vec<ModuleInfo>)
    ensures
        module_views(r@) == values@.filter_map(module_json_fn()),
{
    let mut r: Vec<ModuleInfo> = Vec::new();
    let mut i: usize = 0;
    while i < values.len()
        invariant
            i <= values@.len(),
            module_views(r@) == values@.take(i as int).filter_map(module_json_fn()),
        decreases values.len() - i,
    {
        proof {
            values@.lemma_filter_map_take_succ(module_json_fn(), i as int);
        }
        let ghost before = r@;
        match module_info_from_value(&values[i]) {
            Some(m) => {
                r.push(m);
                proof {
                    assert(module_views(r@) =~= module_views(before) + seq![r@.last()@]);
                }
            },
            None => {},
        }
        i = i + 1;
    }
    proof {
        assert(values@.take(values@.len() as int) =~= values@);
    }
    r
}

/// The version text of a version entry.
pub open spec fn version_text(v: JsonValue) -> Option<Seq<char>> {
    json_as_str(json_get(v, "version"@))
}

pub open spec fn version_text_fn() -> spec_fn(JsonValue) -> Option<Seq<char>> {
    |v: JsonValue| version_text(v)
}

/// The version texts a module entry lists.
pub open spec fn module_version_texts(m: JsonValue) -> Seq<Seq<char>> {
    match json_as_array(json_get(m, "versions"@)) {
        Some(vs) => vs.filter_map(version_text_fn()),
        None => Seq::empty(),
    }
}

/// The version texts all module entries list, in order.
pub open spec fn all_module_versions(mods: Seq<JsonValue>) -> Seq<Seq<char>>
    decreases mods.len(),
{
    if mods.len() == 0 {
        Seq::empty()
    } else {
        all_module_versions(mods.drop_last()) + module_version_texts(mods.last())
    }
}

/// The versions a module-versions response lists, if it lists any.
pub open spec fn fallback_module_versions(json: JsonValue) -> Option<Seq<Seq<char>>> {
    match json_as_array(json_get(json, "modules"@)) {
        Some(mods) => if all_module_versions(mods).len() > 0 {
            Some(all_module_versions(mods))
        } else {
            None
        },
        None => None,
    }
}

pub open spec fn string_texts(s: Seq<String>) -> Seq<Seq<char>> {
    Seq::new(s.len(), |i: int| s[i]@)
}

fn push_version_texts(out: &mut Vec<String>, versions: &Vec<JsonValue>)
    ensures
        string_texts(final(out)@) == string_texts(old(out)@) + versions@.filter_map(
            version_text_fn(),
        ),
{
    let ghost start = out@;
    let mut i: usize = 0;
    while i < versions.len()
        invariant
            i <= versions@.len(),
            string_texts(out@) == string_texts(start) + versions@.take(i as int).filter_map(
                version_text_fn(),
            ),
        decreases versions.len() - i,
    {
        proof {
            versions@.lemma_filter_map_take_succ(version_text_fn(), i as int);
        }
        let ghost before = out@;
        match get_str(&versions[i], "version") {
            Some(v) => {
                out.push(v.to_owned());
                proof {
                    assert(string_texts(out@) =~= string_texts(before) + seq![out@.last()@]);
                }
            },
            None => {},
        }
        i = i + 1;
    }
    proof {
        assert(versions@.take(versions@.len() as int) =~= versions@);
    }
}

/// The versions listed under `modules[*].versions[*].version`, if there are any.
pub fn module_versions_from_fallback_json(json: &JsonValue) -> (r: Option<Vec<String>>)
    ensures
        match r {
            Some(v) => fallback_module_versions(*json) == Some(string_texts(v@)),
            None => fallback_module_versions(*json) is None,
        },
{
    let modules = match get_array(json, "modules") {
        Some(m) => m,
        None => return None,
    };
    let mut out: Vec<String> = Vec::new();
    let mut i: usize = 0;
    while i < modules.len()
        invariant
            i <= modules@.len(),
            string_texts(out@) == all_module_versions(modules@.take(i as int)),
        decreases modules.len() - i,
    {
        proof {
            assert(modules@.take(i + 1).drop_last() =~= modules@.take(i as int));
        }
        match get_array(&modules[i], "versions") {
            Some(vs) => push_version_texts(&mut out, vs),
            None => {
                proof {
                    assert(string_texts(out@) =~= string_texts(out@) + Seq::<Seq<char>>::empty());
                }
            },
        }
        i = i + 1;
    }
    proof {
        assert(modules@.take(modules@.len() as int) =~= modules@);
    }
    if out.len() > 0 {
        Some(out)
    } else {
        None
    }
}

} // verus!
