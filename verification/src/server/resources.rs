//! The resources the server offers, how a resource address is resolved, and the
//! text of a provider documentation resource.
use crate::json::{json_as_array, member_get, members_get, JsonValue};
use crate::registry::decode::{str_or, value_str_or, ProviderInfo};
use crate::text::{
    decimal, decimal_string, ends_with, has_prefix, has_suffix, join_all, joined, split_on,
    lemma_split_on_concat, lemma_split_on_without_sep,
    split_text, starts_with, strip_leading, strip_trailing, text_eq, texts, trim_end_matches,
    trim_start_matches,
};
use vstd::prelude::*;

verus! {

/// A resource the server lists.
#[derive(Debug, Clone, Copy)]
pub struct ResourceEntry {
    pub uri: &'static str,
    pub name: &'static str,
    pub description: &'static str,
    pub mime_type: &'static str,
}

/// A resource template the server lists.
#[derive(Debug, Clone, Copy)]
pub struct ResourceTemplateEntry {
    pub uri_template: &'static str,
    pub name: &'static str,
    pub description: &'static str,
}

pub open spec fn entry_view(e: ResourceEntry) -> (Seq<char>, Seq<char>, Seq<char>, Seq<char>) {
    (e.uri@, e.name@, e.description@, e.mime_type@)
}

/// The listed resources: guides under both address schemes, and best practices.
pub open spec fn resource_listing() -> Seq<(Seq<char>, Seq<char>, Seq<char>, Seq<char>)> {
    seq![
        ("terraform://style-guide"@, "Terraform Style Guide"@, "Best practices for HCL formatting and code style"@, "text/markdown"@),
        ("/terraform/style-guide"@, "Terraform Style Guide"@, "HashiCorp-compatible Terraform style guide resource alias"@, "text/markdown"@),
        ("terraform://module-development"@, "Module Development Guide"@, "Guide for developing reusable Terraform modules"@, "text/markdown"@),
        ("/terraform/module-development"@, "Module Development Guide"@, "HashiCorp-compatible module development resource alias"@, "text/markdown"@),
        ("terraform://best-practices"@, "Terraform Best Practices"@, "Security and operational best practices"@, "text/markdown"@),
    ]
}

/// The resources the server lists.
pub fn terraform_resources() -> (r: Vec<ResourceEntry>)
    ensures
        r@.len() == resource_listing().len(),
        forall|i: int| 0 <= i < r@.len() ==> #[trigger] entry_view(r@[i]) == resource_listing()[i],
{
    let r = vec![
        ResourceEntry {
            uri: "terraform://style-guide",
            name: "Terraform Style Guide",
            description: "Best practices for HCL formatting and code style",
            mime_type: "text/markdown",
        },
        ResourceEntry {
            uri: "/terraform/style-guide",
            name: "Terraform Style Guide",
            description: "HashiCorp-compatible Terraform style guide resource alias",
            mime_type: "text/markdown",
        },
        ResourceEntry {
            uri: "terraform://module-development",
            name: "Module Development Guide",
            description: "Guide for developing reusable Terraform modules",
            mime_type: "text/markdown",
        },
        ResourceEntry {
            uri: "/terraform/module-development",
            name: "Module Development Guide",
            description: "HashiCorp-compatible module development resource alias",
            mime_type: "text/markdown",
        },
        ResourceEntry {
            uri: "terraform://best-practices",
            name: "Terraform Best Practices",
            description: "Security and operational best practices",
            mime_type: "text/markdown",
        },
    ];
    r
}

/// The resource templates the server lists: provider documentation under both
/// address schemes.
pub fn terraform_resource_templates() -> (r: Vec<ResourceTemplateEntry>)
    ensures
        r@.len() == 2,
        r@[0].uri_template@ == "terraform://providers/{namespace}/{name}/{version}/docs"@,
        r@[0].name@ == "Provider Documentation"@,
        r@[0].description@ == "Fetch documentation for a specific Terraform provider version"@,
        r@[1].uri_template@ == "/terraform/providers/{namespace}/name/{name}/version/{version}"@,
        r@[1].name@ == "Provider Documentation"@,
        r@[1].description@ == "HashiCorp-compatible provider documentation resource template"@,
{
    vec![
        ResourceTemplateEntry {
            uri_template: "terraform://providers/{namespace}/{name}/{version}/docs",
            name: "Provider Documentation",
            description: "Fetch documentation for a specific Terraform provider version",
        },
        ResourceTemplateEntry {
            uri_template: "/terraform/providers/{namespace}/name/{name}/version/{version}",
            name: "Provider Documentation",
            description: "HashiCorp-compatible provider documentation resource template",
        },
    ]
}

/// The `namespace/name/version` path a provider documentation address names, under
/// either address scheme.
pub open spec fn provider_path_of(uri: Seq<char>) -> Option<Seq<char>> {
    if has_prefix(uri, "terraform://providers/"@) && has_suffix(uri, "/docs"@) {
        Some(strip_trailing(strip_leading(uri, "terraform://providers/"@), "/docs"@))
    } else if has_prefix(uri, "/terraform/providers/"@) {
        let parts = split_on(strip_leading(uri, "/terraform/providers/"@), '/');
        if parts.len() == 5 && parts[1] == "name"@ && parts[3] == "version"@ {
            Some(parts[0] + "/"@ + parts[2] + "/"@ + parts[4])
        } else {
            None
        }
    } else {
        None
    }
}

/// What a resource address asks for.
#[derive(Debug)]
pub enum ResourceRequest {
    /// The documentation of a provider.
    ProviderDocs { namespace: String, name: String },
    StyleGuide,
    ModuleDevelopment,
    BestPractices,
    /// No resource has this address.
    Unknown,
}

/// The content of a `ResourceRequest`.
pub enum ResourceRequestView {
    ProviderDocs { namespace: Seq<char>, name: Seq<char> },
    StyleGuide,
    ModuleDevelopment,
    BestPractices,
    Unknown,
}

pub open spec fn request_view(r: ResourceRequest) -> ResourceRequestView {
    match r {
        ResourceRequest::ProviderDocs { namespace, name } => ResourceRequestView::ProviderDocs {
            namespace: namespace@,
            name: name@,
        },
        ResourceRequest::StyleGuide => ResourceRequestView::StyleGuide,
        ResourceRequest::ModuleDevelopment => ResourceRequestView::ModuleDevelopment,
        ResourceRequest::BestPractices => ResourceRequestView::BestPractices,
        ResourceRequest::Unknown => ResourceRequestView::Unknown,
    }
}

/// The fixed resource an address names.
pub open spec fn static_resource(uri: Seq<char>) -> ResourceRequestView {
    if uri == "terraform://style-guide"@ || uri == "/terraform/style-guide"@ {
        ResourceRequestView::StyleGuide
    } else if uri == "terraform://module-development"@ || uri == "/terraform/module-development"@ {
        ResourceRequestView::ModuleDevelopment
    } else if uri == "terraform://best-practices"@ {
        ResourceRequestView::BestPractices
    } else {
        ResourceRequestView::Unknown
    }
}

/// What an address asks for: provider documentation when it names a provider path of
/// three parts, else one of the fixed resources, else nothing known.
pub open spec fn resource_of(uri: Seq<char>) -> ResourceRequestView {
    match provider_path_of(uri) {
        Some(path) => if split_on(path, '/').len() == 3 {
            ResourceRequestView::ProviderDocs {
                namespace: split_on(path, '/')[0],
                name: split_on(path, '/')[1],
            }
        } else {
            static_resource(uri)
        },
        None => static_resource(uri),
    }
}

fn provider_path(uri: &str) -> (r: Option<String>)
    ensures
        match r {
            Some(p) => provider_path_of(uri@) == Some(p@),
            None => provider_path_of(uri@) is None,
        },
{
    if starts_with(uri, "terraform://providers/") && ends_with(uri, "/docs") {
        let rest = trim_start_matches(uri, "terraform://providers/");
        return Some(trim_end_matches(rest.as_str(), "/docs"));
    }
    if starts_with(uri, "/terraform/providers/") {
        let path = trim_start_matches(uri, "/terraform/providers/");
        let parts = split_text(path.as_str(), '/');
        proof {
            assert(texts(parts@).len() == parts@.len());
        }
        if parts.len() == 5 && text_eq(parts[1].as_str(), "name") && text_eq(
            parts[3].as_str(),
            "version",
        ) {
            proof {
                assert(texts(parts@)[0] == parts@[0]@);
                assert(texts(parts@)[2] == parts@[2]@);
                assert(texts(parts@)[4] == parts@[4]@);
            }
            let joined_path = join_all(
                &vec![parts[0].as_str(), "/", parts[2].as_str(), "/", parts[4].as_str()],
            );
            proof {
                reveal_with_fuel(joined, 6);
            }
            return Some(joined_path);
        }
        proof {
            if parts@.len() == 5 {
                assert(texts(parts@)[1] == parts@[1]@);
                assert(texts(parts@)[3] == parts@[3]@);
            }
        }
        return None;
    }
    None
}

fn static_request(uri: &str) -> (r: ResourceRequest)
    ensures
        request_view(r) == static_resource(uri@),
{
    if text_eq(uri, "terraform://style-guide") || text_eq(uri, "/terraform/style-guide") {
        ResourceRequest::StyleGuide
    } else if text_eq(uri, "terraform://module-development") || text_eq(
        uri,
        "/terraform/module-development",
    ) {
        ResourceRequest::ModuleDevelopment
    } else if text_eq(uri, "terraform://best-practices") {
        ResourceRequest::BestPractices
    } else {
        ResourceRequest::Unknown
    }
}

/// Resolves a resource address.
pub fn resolve_resource(uri: &str) -> (r: ResourceRequest)
    ensures
        request_view(r) == resource_of(uri@),
{
    match provider_path(uri) {
        Some(path) => {
            let parts = split_text(path.as_str(), '/');
            if parts.len() == 3 {
                proof {
                    assert(texts(parts@)[0] == parts@[0]@);
                    assert(texts(parts@)[1] == parts@[1]@);
                }
                ResourceRequest::ProviderDocs {
                    namespace: parts[0].clone(),
                    name: parts[1].clone(),
                }
            } else {
                proof {
                    assert(texts(parts@).len() == parts@.len());
                }
                static_request(uri)
            }
        },
        None => static_request(uri),
    }
}

/// The line a documentation entry gets: its category (`other` when missing) and its
/// title (`?` when missing).
pub open spec fn doc_line(d: JsonValue) -> Seq<char> {
    "- **["@ + str_or(d, "category"@, "other"@) + "]** "@ + str_or(d, "title"@, "?"@)
}

/// The lines of the entries, separated by line breaks.
pub open spec fn doc_lines(docs: Seq<JsonValue>) -> Seq<char>
    decreases docs.len(),
{
    if docs.len() == 0 {
        Seq::empty()
    } else if docs.len() == 1 {
        doc_line(docs[0])
    } else {
        doc_lines(docs.drop_last()) + "\n"@ + doc_line(docs.last())
    }
}

/// The documentation entries a provider's other members list under `docs`.
pub open spec fn provider_docs_list(info: ProviderInfo) -> Seq<JsonValue> {
    match json_as_array(members_get(info.extra@, "docs"@)) {
        Some(a) => a,
        None => Seq::empty(),
    }
}

/// The text of the documentation resource of provider `info` in `namespace`.
pub open spec fn provider_docs_text(info: ProviderInfo, namespace: Seq<char>) -> Seq<char> {
    let docs = provider_docs_list(info);
    "# "@ + info.name@ + " ("@ + namespace + "/"@ + info.name@ + ")\n\nVersion: "@ + info.version@
        + "\n"@ + info.description@ + "\n\n## Available Documentation ("@ + decimal(docs.len())
        + " items)\n\n"@ + doc_lines(docs)
}

fn doc_line_exec(d: &JsonValue) -> (r: String)
    ensures
        r@ == doc_line(*d),
{
    let category = value_str_or(d, "category", "other");
    let title = value_str_or(d, "title", "?");
    let r = join_all(&vec!["- **[", category.as_str(), "]** ", title.as_str()]);
    proof {
        reveal_with_fuel(joined, 5);
    }
    r
}

fn doc_lines_exec(docs: &Vec<JsonValue>) -> (r: String)
    ensures
        r@ == doc_lines(docs@),
{
    let mut r = String::new();
    let mut i: usize = 0;
    while i < docs.len()
        invariant
            i <= docs@.len(),
            r@ == doc_lines(docs@.take(i as int)),
        decreases docs.len() - i,
    {
        proof {
            assert(docs@.take(i + 1).drop_last() =~= docs@.take(i as int));
            assert(docs@.take(i + 1).last() == docs@[i as int]);
            if i == 0 {
                assert(docs@.take(1)[0] == docs@[0]);
            }
        }
        let line = doc_line_exec(&docs[i]);
        if i > 0 {
            crate::text::append_str(&mut r, "\n");
        }
        crate::text::append_str(&mut r, line.as_str());
        i = i + 1;
    }
    proof {
        assert(docs@.take(docs@.len() as int) =~= docs@);
    }
    r
}

/// The documentation resource of a provider: its name, namespace, version and
/// description, and a line for each documentation entry it lists.
pub fn provider_docs_content(info: &ProviderInfo, namespace: &str) -> (r: String)
    ensures
        r@ == provider_docs_text(*info, namespace@),
{
    let empty: Vec<JsonValue> = Vec::new();
    let docs: &Vec<JsonValue> = match member_get(&info.extra, "docs") {
        Some(v) => match v.as_array() {
            Some(a) => a,
            None => &empty,
        },
        None => &empty,
    };
    let count = decimal_string(docs.len() as u64);
    let lines = doc_lines_exec(docs);
    let r = join_all(
        &vec![
            "# ",
            info.name.as_str(),
            " (",
            namespace,
            "/",
            info.name.as_str(),
            ")\n\nVersion: ",
            info.version.as_str(),
            "\n",
            info.description.as_str(),
            "\n\n## Available Documentation (",
            count.as_str(),
            " items)\n\n",
            lines.as_str(),
        ],
    );
    proof {
        reveal_with_fuel(joined, 15);
    }
    r
}

/// The error text for a provider resource whose provider could not be looked up.
pub fn provider_not_found_text(error: &str) -> (r: String)
    ensures
        r@ == "Provider not found: "@ + error@,
{
    let r = join_all(&vec!["Provider not found: ", error]);
    proof {
        reveal_with_fuel(joined, 3);
    }
    r
}

/// The error text for an address no resource has.
pub fn unknown_resource_text(uri: &str) -> (r: String)
    ensures
        r@ == "Unknown resource: "@ + uri@,
{
    let r = join_all(&vec!["Unknown resource: ", uri]);
    proof {
        reveal_with_fuel(joined, 3);
    }
    r
}

/// The address of a provider's documentation in the server's own scheme.
pub open spec fn native_docs_address(namespace: Seq<char>, name: Seq<char>, version: Seq<char>) -> Seq<char> {
    "terraform://providers/"@ + namespace + "/"@ + name + "/"@ + version + "/docs"@
}

/// The address of a provider's documentation in the HashiCorp-compatible scheme.
pub open spec fn compatible_docs_address(namespace: Seq<char>, name: Seq<char>, version: Seq<char>) -> Seq<char> {
    "/terraform/providers/"@ + namespace + "/name/"@ + name + "/version/"@ + version
}

proof fn lemma_strip_leading_once(s: Seq<char>, p: Seq<char>, rest: Seq<char>)
    requires
        p.len() > 0,
        s == p + rest,
        !has_prefix(rest, p),
    ensures
        has_prefix(s, p),
        strip_leading(s, p) == rest,
{
    assert(s.take(p.len() as int) =~= p);
    assert(s.skip(p.len() as int) =~= rest);
    reveal_with_fuel(strip_leading, 2);
}

proof fn lemma_strip_trailing_once(s: Seq<char>, p: Seq<char>, rest: Seq<char>)
    requires
        p.len() > 0,
        s == rest + p,
        !has_suffix(rest, p),
    ensures
        has_suffix(s, p),
        strip_trailing(s, p) == rest,
{
    assert(s.skip(s.len() - p.len()) =~= p);
    assert(s.take(s.len() - p.len()) =~= rest);
    reveal_with_fuel(strip_trailing, 2);
}

proof fn lemma_three_parts(a: Seq<char>, b: Seq<char>, c: Seq<char>)
    requires
        !a.contains('/'),
        !b.contains('/'),
        !c.contains('/'),
    ensures
        split_on(a + "/"@ + b + "/"@ + c, '/') == seq![a, b, c],
{
    reveal_strlit("/");
    assert("/"@ =~= seq!['/']);
    let bc = b + seq!['/'] + c;
    assert(a + "/"@ + b + "/"@ + c =~= a + seq!['/'] + bc);
    lemma_split_on_concat(a, bc, '/');
    lemma_split_on_concat(b, c, '/');
    lemma_split_on_without_sep(a, '/');
    lemma_split_on_without_sep(b, '/');
    lemma_split_on_without_sep(c, '/');
    assert(split_on(a + "/"@ + b + "/"@ + c, '/') =~= seq![a, b, c]);
}

/// The documentation of a provider has two addresses, the server's own and the
/// HashiCorp-compatible one, and both resolve to that provider's documentation (for
/// parts without slashes, a non-empty name, and a version other than `docs`).
pub proof fn law_provider_docs_addresses_agree(namespace: Seq<char>, name: Seq<char>, version: Seq<char>)
    requires
        !namespace.contains('/'),
        !name.contains('/'),
        !version.contains('/'),
        name.len() > 0,
        version != "docs"@,
    ensures
        resource_of(native_docs_address(namespace, name, version)) == (ResourceRequestView::ProviderDocs {
            namespace,
            name,
        }),
        resource_of(compatible_docs_address(namespace, name, version)) == (ResourceRequestView::ProviderDocs {
            namespace,
            name,
        }),
{
    reveal_strlit("terraform://providers/");
    reveal_strlit("/terraform/providers/");
    reveal_strlit("/docs");
    reveal_strlit("/name/");
    reveal_strlit("/version/");
    reveal_strlit("/");
    reveal_strlit("name");
    reveal_strlit("version");
    reveal_strlit("docs");
    let q = "terraform://providers/"@;
    let p = "/terraform/providers/"@;
    let d = "/docs"@;
    // the server's own scheme
    let path = namespace + "/"@ + name + "/"@ + version;
    let r1 = path + d;
    let u = native_docs_address(namespace, name, version);
    assert(u =~= q + r1);
    assert(!has_prefix(r1, q)) by {
        if has_prefix(r1, q) {
            assert(r1.take(22) == q);
            if namespace.len() >= 11 {
                assert(r1[10] == namespace[10]);
                assert(q[10] == '/');
                assert(r1.take(22)[10] == r1[10]);
            } else if namespace.len() <= 9 {
                let k = namespace.len() as int;
                assert(r1[k] == '/');
                assert(r1.take(22)[k] == r1[k]);
            } else {
                assert(r1[11] == name[0]);
                assert(r1.take(22)[11] == r1[11]);
                assert(q[11] == '/');
            }
        }
    }
    lemma_strip_leading_once(u, q, r1);
    assert(!has_suffix(path, d)) by {
        if has_suffix(path, d) {
            let l = path.len() as int;
            let v = version.len() as int;
            assert(path.skip(l - 5) == d);
            if v >= 5 {
                assert(path[l - 5] == version[v - 5]);
                assert(path.skip(l - 5)[0] == path[l - 5]);
            } else if v == 4 {
                assert(version =~= path.skip(l - 5).skip(1));
                assert(d.skip(1) =~= "docs"@);
            } else {
                assert(path[l - v - 1] == '/');
                assert(path.skip(l - 5)[4 - v] == path[l - v - 1]);
            }
        }
    }
    lemma_strip_trailing_once(r1, d, path);
    assert(has_suffix(u, d)) by {
        assert(u.skip(u.len() - 5) =~= d);
    }
    lemma_three_parts(namespace, name, version);
    // the HashiCorp-compatible scheme
    let rest = namespace + "/name/"@ + name + "/version/"@ + version;
    let w = compatible_docs_address(namespace, name, version);
    assert(w =~= p + rest);
    assert(!has_prefix(w, q)) by {
        if has_prefix(w, q) {
            assert(w.take(22)[0] == w[0]);
        }
    }
    assert(!has_prefix(rest, p)) by {
        if has_prefix(rest, p) {
            assert(rest.take(21)[0] == rest[0]);
            assert(rest.take(21)[1] == rest[1]);
            if namespace.len() > 0 {
                assert(rest[0] == namespace[0]);
            } else {
                assert(rest[1] == 'n');
            }
        }
    }
    lemma_strip_leading_once(w, p, rest);
    let tail = "version"@ + seq!['/'] + version;
    let mid = name + seq!['/'] + tail;
    let upper = "name"@ + seq!['/'] + mid;
    assert(rest =~= namespace + seq!['/'] + upper);
    lemma_split_on_concat(namespace, upper, '/');
    lemma_split_on_concat("name"@, mid, '/');
    lemma_split_on_concat(name, tail, '/');
    lemma_split_on_concat("version"@, version, '/');
    lemma_split_on_without_sep(namespace, '/');
    lemma_split_on_without_sep(name, '/');
    lemma_split_on_without_sep(version, '/');
    lemma_split_on_without_sep("name"@, '/');
    lemma_split_on_without_sep("version"@, '/');
    assert(split_on(rest, '/') =~= seq![namespace, "name"@, name, "version"@, version]);
    assert(provider_path_of(w) == Some(path));
}

} // verus!
