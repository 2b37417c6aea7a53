use tfmcp::json::{JsonMember, JsonNumber, JsonValue};
use tfmcp::registry::batch::{BatchFetcher, ProviderBatchKind};
use tfmcp::registry::client::{
    check_response_status, doc_content_body_step, doc_content_status_step, docs_body_step,
    docs_search_params, docs_search_url, docs_status_step, first_module_version,
    latest_provider_version_outcome, module_details_outcome, module_details_url,
    module_not_found, module_search_outcome, module_versions_outcome, provider_latest_version,
    provider_search_outcome, versions_from_values, ContentStep, DocsBody, DocsBodyStep,
    DocsStatusStep, ModuleDetails, ModuleSearchResponse, ModuleVersionDetail,
    ModuleVersionInfo, ModuleVersionsResponse, ProviderEndpoint, ProviderVersions,
    RegistryNotFound, RegistrySearchKind, RegistrySearchResponse, VersionInfo,
    DOCS_SEARCH_ATTEMPTS,
};
use tfmcp::registry::decode::{
    extract_providers_from_array, module_versions_from_fallback_json, parse_provider_info_json,
    provider_info_from_value, value_opt_str, value_str, value_str_or,
};
use tfmcp::registry::error::{FallbackError, RegistryError};
use tfmcp::registry::fallback::{
    docs_lookup_step, namespace_kind_label, provider_lookup_step, provider_not_found_anywhere,
    LookupStep, NamespaceAttemptKind, RegistryClientWithFallback,
};
use tfmcp::registry::policy::{
    filter_policies, parse_policy_item, policy_details_from_body, policy_details_url,
    policy_not_found_message, policy_search_url,
};

fn s(text: &str) -> JsonValue {
    JsonValue::String(text.to_string())
}

fn n(value: u64) -> JsonValue {
    JsonValue::Number(JsonNumber::PosInt(value))
}

fn obj(members: Vec<(&str, JsonValue)>) -> JsonValue {
    JsonValue::Object(
        members
            .into_iter()
            .map(|(key, value)| JsonMember { key: key.to_string(), value })
            .collect(),
    )
}

#[test]
fn test_parse_policy_item() {
    let item = obj(vec![
        ("type", s("policy-libraries")),
        ("id", s("140")),
        (
            "attributes",
            obj(vec![
                ("name", s("CIS-Policy-Set-for-AWS")),
                ("namespace", s("hashicorp")),
                ("full-name", s("hashicorp/CIS-Policy-Set-for-AWS")),
                ("title", s("CIS Policies for AWS")),
                ("source", s("https://github.com/hashicorp/policy-library")),
                ("downloads", n(1000)),
                ("verified", JsonValue::Bool(true)),
            ]),
        ),
    ]);

    let info = parse_policy_item(&item).expect("should parse");
    assert_eq!(info.name, "CIS-Policy-Set-for-AWS");
    assert_eq!(info.namespace, "hashicorp");
    assert_eq!(info.downloads, 1000);
    assert!(info.verified);
}

#[test]
fn policy_description_repeats_title_and_needs_attributes() {
    let item = obj(vec![("id", s("7")), ("attributes", obj(vec![("title", s("T"))]))]);
    let info = parse_policy_item(&item).unwrap();
    assert_eq!(info.id, "7");
    assert_eq!(info.description, "T");
    assert_eq!(info.name, "");
    assert!(!info.verified);
    assert!(parse_policy_item(&obj(vec![("id", s("7"))])).is_none());
}

fn policy(name: &str, title: &str) -> JsonValue {
    obj(vec![("attributes", obj(vec![("name", s(name)), ("title", s(title))]))])
}

#[test]
fn policy_search_filters_by_query_in_any_case() {
    let data = vec![policy("AWS-CIS", "cis for aws"), policy("azure", "Azure set")];
    let found = filter_policies(&data, "aws");
    assert_eq!(found.len(), 1);
    assert_eq!(found[0].name, "AWS-CIS");
    let found = filter_policies(&data, "AZURE");
    assert_eq!(found.len(), 1);
    assert_eq!(found[0].name, "azure");
}

#[test]
fn policy_search_without_match_returns_everything() {
    let data = vec![policy("a", "b"), policy("c", "d")];
    assert_eq!(filter_policies(&data, "zzz").len(), 2);
    assert!(filter_policies(&Vec::new(), "zzz").is_empty());
}

#[test]
fn policy_urls_and_errors() {
    assert_eq!(
        policy_search_url(None),
        "https://registry.terraform.io/v2/policies?page[size]=20"
    );
    assert_eq!(
        policy_search_url(Some("aws")),
        "https://registry.terraform.io/v2/policies?page[size]=20&filter[provider]=aws"
    );
    assert_eq!(
        policy_details_url("hashicorp", "cis"),
        "https://registry.terraform.io/v2/policies/hashicorp/cis"
    );
    assert_eq!(
        policy_not_found_message("hashicorp", "cis", 404),
        "Policy not found: hashicorp/cis (HTTP 404 Not Found)"
    );
    assert_eq!(
        policy_details_from_body(&obj(vec![]), "a", "b"),
        Err("Invalid response: missing 'data' field".to_string())
    );
    assert_eq!(
        policy_details_from_body(&obj(vec![("data", obj(vec![]))]), "a", "b"),
        Err("Failed to parse policy details for a/b".to_string())
    );
}

#[test]
fn test_batch_fetcher_creation() {
    let fetcher = BatchFetcher::new("client", 3);
    assert_eq!(fetcher.max_concurrent, 3);
}

#[test]
fn test_batch_fetcher_max_concurrent_limits() {
    let fetcher = BatchFetcher::new("client", 20);
    assert_eq!(fetcher.max_concurrent, 10);

    let fetcher = BatchFetcher::new("client", 0);
    assert_eq!(fetcher.max_concurrent, 1);

    let fetcher = BatchFetcher::new("client", 5);
    assert_eq!(fetcher.max_concurrent, 5);
}

#[test]
fn batch_chunks_cover_all_items_in_order() {
    let fetcher = BatchFetcher::new((), 3);
    assert_eq!(fetcher.chunk_ranges(7), vec![(0, 3), (3, 6), (6, 7)]);
    assert_eq!(fetcher.chunk_ranges(6), vec![(0, 3), (3, 6)]);
    assert!(fetcher.chunk_ranges(0).is_empty());
    assert_eq!(ProviderBatchKind::Info.chunk_label(), "Chunk");
    assert_eq!(ProviderBatchKind::Version.chunk_label(), "Version chunk");
    assert!(ProviderBatchKind::Info.include_chunk_size_and_duration());
    assert!(!ProviderBatchKind::Version.include_chunk_size_and_duration());
}

#[test]
fn test_fallback_client_creation() {
    let client = RegistryClientWithFallback::new(());
    assert_eq!(client.fallback_namespaces.len(), 3);
}

#[test]
fn namespace_attempts_try_the_asked_namespace_first() {
    let client = RegistryClientWithFallback::new(());
    let attempts = client.namespace_attempts(Some("terraform-providers"));
    let names: Vec<_> = attempts.iter().map(|a| (a.namespace.as_str(), a.kind)).collect();
    assert_eq!(
        names,
        vec![
            ("terraform-providers", NamespaceAttemptKind::Specified),
            ("hashicorp", NamespaceAttemptKind::Fallback),
            ("community", NamespaceAttemptKind::Fallback),
        ]
    );
    let attempts = client.namespace_attempts(None);
    assert_eq!(attempts.len(), 3);
    assert_eq!(attempts[0].namespace, "hashicorp");
    assert_eq!(namespace_kind_label(NamespaceAttemptKind::Specified), "specified");
    assert_eq!(client.docs_default_namespace(None), "hashicorp");
    assert_eq!(client.docs_default_namespace(Some("x")), "x");
}

#[test]
fn fallback_lookup_steps() {
    let client = RegistryClientWithFallback::new(());
    let attempts = client.namespace_attempts(Some("acme"));
    let step = provider_lookup_step(
        &attempts[0],
        Err::<String, _>(RegistryError::ProviderNotFound {
            provider: "p".into(),
            namespace: "acme".into(),
        }),
    );
    assert!(matches!(step, LookupStep::TryNext));
    let step = provider_lookup_step(&attempts[1], Ok::<_, RegistryError>("1.0".to_string()));
    assert!(matches!(step, LookupStep::Found(ref v, ref ns) if v == "1.0" && ns == "hashicorp"));
    let step = provider_lookup_step(&attempts[1], Err::<String, _>(RegistryError::RateLimited));
    assert!(matches!(
        step,
        LookupStep::Stop(FallbackError::RegistryError(RegistryError::RateLimited))
    ));
    assert!(matches!(docs_lookup_step(&attempts[0], Ok(Vec::new())), LookupStep::TryNext));
    let err = provider_not_found_anywhere("aws", &attempts);
    assert_eq!(
        err.message(),
        "Provider 'aws' not found in any namespace. Searched: [\"acme\", \"hashicorp\", \"terraform-providers\", \"community\"]"
    );
}

#[test]
fn registry_error_messages() {
    assert_eq!(RegistryError::HttpError("x".into()).message(), "HTTP request failed: x");
    assert_eq!(
        RegistryError::NoSearchResults { query: "q".into() }.message(),
        "Search returned no results for query 'q'. Try using broader search terms or check spelling."
    );
    assert_eq!(
        FallbackError::RegistryError(RegistryError::JsonError("bad".into())).message(),
        "Registry error: JSON parsing failed: bad"
    );
    assert_eq!(
        RegistryError::ProviderNotFound { provider: "p".into(), namespace: "n".into() }.message(),
        "Provider 'p' not found in namespace 'n'. Try using a different namespace or let the system auto-fallback to common namespaces (hashicorp, terraform-providers, community)."
    );
}

#[test]
fn endpoints_and_kinds() {
    let base = "https://registry.terraform.io";
    assert_eq!(RegistrySearchKind::Provider.url(base), "https://registry.terraform.io/v1/providers");
    assert_eq!(RegistrySearchKind::Module.url(base), "https://registry.terraform.io/v1/modules/search");
    assert_eq!(RegistrySearchKind::Module.label(), "module search");
    assert_eq!(
        RegistrySearchKind::Module.params("vpc"),
        vec![("q".to_string(), "vpc".to_string()), ("limit".to_string(), "20".to_string())]
    );
    assert_eq!(
        ProviderEndpoint::Versions.url(base, "hashicorp", "aws"),
        "https://registry.terraform.io/v1/providers/hashicorp/aws/versions"
    );
    assert_eq!(ProviderEndpoint::Info.preview_chars(), 1000);
    assert_eq!(ProviderEndpoint::Versions.not_found_label(), "Provider versions");
    assert_eq!(
        module_details_url(base, "ns", "vpc", "aws", Some("1.0.0")),
        "https://registry.terraform.io/v1/modules/ns/vpc/aws/1.0.0"
    );
}

#[test]
fn response_status_decisions() {
    let not_found = ProviderEndpoint::Info.not_found("aws", "hashicorp");
    assert_eq!(not_found.warn_message(), "Provider not found: hashicorp/aws");
    assert_eq!(
        check_response_status(404, Some(not_found.clone())),
        Err(RegistryError::ProviderNotFound { provider: "aws".into(), namespace: "hashicorp".into() })
    );
    assert_eq!(
        check_response_status(404, None),
        Err(RegistryError::HttpError("HTTP 404 Not Found".into()))
    );
    assert_eq!(check_response_status(429, Some(not_found)), Err(RegistryError::RateLimited));
    assert_eq!(check_response_status(204, None), Ok(()));
    let module = module_not_found("vpc", "aws", "ns", true);
    assert_eq!(module.warn_message(), "Module versions not found: ns/vpc/aws");
    assert!(matches!(module, RegistryNotFound::Module { .. }));
}

fn provider_json(name: &str) -> JsonValue {
    obj(vec![("name", s(name)), ("namespace", s("hashicorp")), ("downloads", n(5))])
}

#[test]
fn provider_search_prefers_typed_reading_then_fallback() {
    let typed = RegistrySearchResponse { providers: Vec::new(), meta: Vec::new(), data: None };
    let json = obj(vec![]);
    assert_eq!(
        provider_search_outcome(Ok(typed), &json, "aws").unwrap_err(),
        RegistryError::NoSearchResults { query: "aws".into() }
    );
    let json = obj(vec![("providers", JsonValue::Array(vec![provider_json("aws"), obj(vec![])]))]);
    let found = provider_search_outcome(Err("bad shape".into()), &json, "aws").unwrap();
    assert_eq!(found.len(), 1);
    assert_eq!(found[0].name, "aws");
    assert_eq!(found[0].downloads, 5);
    assert_eq!(
        provider_search_outcome(Err("bad shape".into()), &obj(vec![]), "aws").unwrap_err(),
        RegistryError::JsonError("Failed to parse search response: bad shape".into())
    );
    let json = obj(vec![("modules", JsonValue::Array(vec![obj(vec![("id", s("a/b/c"))])]))]);
    let modules = module_search_outcome(Err("x".into()), &json, "vpc").unwrap();
    assert_eq!(modules[0].id, "a/b/c");
    assert!(module_search_outcome(Ok(ModuleSearchResponse { modules: Vec::new() }), &json, "vpc").is_err());
}

#[test]
fn provider_values_and_fallback() {
    let p = provider_json("aws");
    assert_eq!(value_str(&p, "namespace"), "hashicorp");
    assert_eq!(value_str(&p, "missing"), "");
    assert_eq!(value_str_or(&p, "missing", "dflt"), "dflt");
    assert_eq!(value_opt_str(&p, "name"), Some("aws".to_string()));
    assert!(provider_info_from_value(&obj(vec![("namespace", s("x"))])).is_none());
    let info = parse_provider_info_json(Err("x".into()), &obj(vec![]), "aws", "hashicorp");
    assert_eq!(info.name, "aws");
    assert_eq!(info.namespace, "hashicorp");
    assert_eq!(extract_providers_from_array(&vec![provider_json("a"), provider_json("b")]).len(), 2);
}

#[test]
fn latest_versions() {
    assert_eq!(
        provider_latest_version(vec!["1.0".into(), "2.0".into()], "aws", "hashicorp"),
        Ok("2.0".to_string())
    );
    assert_eq!(
        provider_latest_version(Vec::new(), "aws", "hashicorp"),
        Err(RegistryError::NoVersionsAvailable { provider: "aws".into(), namespace: "hashicorp".into() })
    );
    let typed = ProviderVersions {
        versions: Vec::new(),
        data: Some(vec![
            VersionInfo { version: "1.1".into(), published_at: None, protocols: None },
            VersionInfo { version: "".into(), published_at: None, protocols: None },
        ]),
    };
    assert_eq!(latest_provider_version_outcome(Ok(typed), &obj(vec![]), "a", "b"), Ok("1.1".to_string()));
    let json = obj(vec![("versions", JsonValue::Array(vec![s("0.9"), s("1.0")]))]);
    assert_eq!(latest_provider_version_outcome(Err("e".into()), &json, "a", "b"), Ok("0.9".to_string()));
    assert_eq!(
        latest_provider_version_outcome(Err("e".into()), &obj(vec![]), "a", "b"),
        Err(RegistryError::JsonError("Failed to parse versions: e".into()))
    );
    let raw = vec![s("1.0"), obj(vec![("version", s("2.0"))]), n(3)];
    assert_eq!(versions_from_values(&raw), vec!["1.0".to_string(), "2.0".to_string()]);
}

#[test]
fn module_versions_and_details() {
    let typed = ModuleVersionsResponse {
        modules: vec![ModuleVersionInfo {
            source: "s".into(),
            versions: vec![ModuleVersionDetail { version: "1.0".into() }, ModuleVersionDetail { version: "".into() }],
        }],
    };
    assert_eq!(module_versions_outcome(Ok(typed), &obj(vec![]), "ns", "vpc", "aws"), Ok(vec!["1.0".to_string()]));
    let json = obj(vec![(
        "modules",
        JsonValue::Array(vec![obj(vec![("versions", JsonValue::Array(vec![obj(vec![("version", s("3.0"))])]))])]),
    )]);
    assert_eq!(module_versions_from_fallback_json(&json), Some(vec!["3.0".to_string()]));
    assert_eq!(
        module_versions_outcome(Err("e".into()), &obj(vec![]), "ns", "vpc", "aws"),
        Err(RegistryError::NoModuleVersionsAvailable { module: "ns/vpc/aws".into() })
    );
    let details: ModuleDetails<(), ()> =
        module_details_outcome(Err("e".into()), &obj(vec![("version", s("2.1"))]), "ns", "vpc", "aws");
    assert_eq!(details.version, "2.1");
    assert_eq!(details.name, "vpc");
    assert_eq!(first_module_version(vec!["9".into()], "ns", "vpc", "aws"), Ok("9".to_string()));
}

#[test]
fn docs_search_walks_every_endpoint_in_order() {
    assert_eq!(DOCS_SEARCH_ATTEMPTS, 16);
    let base = "https://r";
    assert_eq!(docs_search_url(base, "hashicorp", "aws", 0), "https://r/v1/providers/hashicorp/aws/docs");
    assert_eq!(docs_search_url(base, "hashicorp", "aws", 5), "https://r/v2/providers/hashicorp/aws/docs");
    assert_eq!(docs_search_url(base, "hashicorp", "aws", 15), "https://r/docs/providers/hashicorp/aws");
    assert_eq!(
        docs_search_params("s3", "resources", 2),
        vec![
            ("filter[category]".to_string(), "resources".to_string()),
            ("filter[slug]".to_string(), "s3".to_string())
        ]
    );
    assert!(matches!(docs_status_step(0, 429), DocsStatusStep::Failed(RegistryError::RateLimited)));
    assert!(matches!(docs_status_step(3, 404), DocsStatusStep::Next(4)));
    assert!(matches!(docs_status_step(15, 500), DocsStatusStep::Exhausted));
    assert!(matches!(docs_status_step(1, 200), DocsStatusStep::ReadBody));
    assert!(matches!(docs_body_step(1, DocsBody::Unparsable), DocsBodyStep::Next(2)));
    let json = JsonValue::Array(vec![obj(vec![("id", s("1")), ("title", s("Bucket"))])]);
    match docs_body_step(4, DocsBody::Parsed { typed: Err("x".into()), json }) {
        DocsBodyStep::Found(docs) => {
            assert_eq!(docs.len(), 1);
            assert_eq!(docs[0].title, "Bucket");
        }
        other => panic!("unexpected step: {other:?}"),
    }
}

#[test]
fn doc_content_lookup_steps() {
    assert!(matches!(doc_content_status_step(0, 429, "d"), ContentStep::Failed(RegistryError::RateLimited)));
    assert!(matches!(doc_content_status_step(0, 404, "d"), ContentStep::Next(1)));
    assert!(matches!(
        doc_content_status_step(3, 404, "d"),
        ContentStep::Failed(RegistryError::DocumentationNotFound { .. })
    ));
    assert!(matches!(doc_content_body_step(1, "  \n".into(), "d"), ContentStep::Next(2)));
    assert!(matches!(doc_content_body_step(1, " text ".into(), "d"), ContentStep::Found(ref c) if c == " text "));
}

fn text_of(v: &JsonValue) -> Option<&str> {
    match v {
        JsonValue::String(s) => Some(s.as_str()),
        _ => None,
    }
}

fn object_texts(v: &JsonValue) -> Vec<(String, String)> {
    match v {
        JsonValue::Object(m) => m
            .iter()
            .map(|member| (member.key.clone(), text_of(&member.value).unwrap_or("<not text>").to_string()))
            .collect(),
        _ => Vec::new(),
    }
}

fn sample_doc() -> tfmcp::registry::decode::DocIdResult {
    tfmcp::registry::decode::DocIdResult {
        id: "123".to_string(),
        title: "aws_instance".to_string(),
        description: "An EC2 instance".to_string(),
        category: "resources".to_string(),
        slug: None,
        path: None,
        subcategory: None,
        extra: Vec::new(),
    }
}

#[test]
fn provider_doc_entry_carries_content() {
    let entry = tfmcp::registry::client::provider_doc_entry(&sample_doc(), Ok("# aws_instance".to_string()));
    assert_eq!(
        object_texts(&entry),
        vec![
            ("id".to_string(), "123".to_string()),
            ("title".to_string(), "aws_instance".to_string()),
            ("description".to_string(), "An EC2 instance".to_string()),
            ("category".to_string(), "resources".to_string()),
            ("content".to_string(), "# aws_instance".to_string()),
        ]
    );
}

#[test]
fn provider_doc_entry_reports_content_error() {
    let entry = tfmcp::registry::client::provider_doc_entry(&sample_doc(), Err("timed out".to_string()));
    let texts = object_texts(&entry);
    assert_eq!(texts[4], ("content_error".to_string(), "timed out".to_string()));
}

#[test]
fn provider_docs_answer_lists_entries_and_request() {
    let entry = tfmcp::registry::client::provider_doc_entry(&sample_doc(), Ok("body".to_string()));
    let answer = tfmcp::registry::client::provider_docs_answer(vec![entry], "hashicorp", "aws", "ec2", "resources");
    match &answer {
        JsonValue::Object(m) => {
            assert_eq!(m.len(), 5);
            assert_eq!(m[0].key, "documentation");
            assert!(matches!(&m[0].value, JsonValue::Array(a) if a.len() == 1));
            let rest: Vec<(String, String)> =
                m[1..].iter().map(|x| (x.key.clone(), text_of(&x.value).unwrap().to_string())).collect();
            assert_eq!(
                rest,
                vec![
                    ("namespace".to_string(), "hashicorp".to_string()),
                    ("provider".to_string(), "aws".to_string()),
                    ("service".to_string(), "ec2".to_string()),
                    ("type".to_string(), "resources".to_string()),
                ]
            );
        }
        _ => panic!("not an object"),
    }
}
