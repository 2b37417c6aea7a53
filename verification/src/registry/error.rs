//! Errors of registry lookups.
use crate::text::{join_all, joined, texts};
use vstd::prelude::*;

verus! {

/// Why a registry lookup failed.
#[derive(Debug, Clone, PartialEq, Eq)]
pub enum RegistryError {
    HttpError(String),
    JsonError(String),
    ProviderNotFound { provider: String, namespace: String },
    ModuleNotFound { module: String, provider: String, namespace: String },
    ServiceNotFound { service: String, provider: String, namespace: String },
    DocumentationNotFound { doc_id: String },
    InvalidResponse,
    RateLimited,
    NoSearchResults { query: String },
    NoVersionsAvailable { provider: String, namespace: String },
    NoModuleVersionsAvailable { module: String },
}

/// The content of a `RegistryError`.
pub enum RegistryErrorView {
    HttpError(Seq<char>),
    JsonError(Seq<char>),
    ProviderNotFound { provider: Seq<char>, namespace: Seq<char> },
    ModuleNotFound { module: Seq<char>, provider: Seq<char>, namespace: Seq<char> },
    ServiceNotFound { service: Seq<char>, provider: Seq<char>, namespace: Seq<char> },
    DocumentationNotFound { doc_id: Seq<char> },
    InvalidResponse,
    RateLimited,
    NoSearchResults { query: Seq<char> },
    NoVersionsAvailable { provider: Seq<char>, namespace: Seq<char> },
    NoModuleVersionsAvailable { module: Seq<char> },
}

impl View for RegistryError {
    type V = RegistryErrorView;

    open spec fn view(&self) -> RegistryErrorView {
        match *self {
            RegistryError::HttpError(s) => RegistryErrorView::HttpError(s@),
            RegistryError::JsonError(s) => RegistryErrorView::JsonError(s@),
            RegistryError::ProviderNotFound { provider, namespace } => RegistryErrorView::ProviderNotFound {
                provider: provider@,
                namespace: namespace@,
            },
            RegistryError::ModuleNotFound { module, provider, namespace } => RegistryErrorView::ModuleNotFound {
                module: module@,
                provider: provider@,
                namespace: namespace@,
            },
            RegistryError::ServiceNotFound { service, provider, namespace } => RegistryErrorView::ServiceNotFound {
                service: service@,
                provider: provider@,
                namespace: namespace@,
            },
            RegistryError::DocumentationNotFound { doc_id } => RegistryErrorView::DocumentationNotFound {
                doc_id: doc_id@,
            },
            RegistryError::InvalidResponse => RegistryErrorView::InvalidResponse,
            RegistryError::RateLimited => RegistryErrorView::RateLimited,
            RegistryError::NoSearchResults { query } => RegistryErrorView::NoSearchResults {
                query: query@,
            },
            RegistryError::NoVersionsAvailable { provider, namespace } => RegistryErrorView::NoVersionsAvailable {
                provider: provider@,
                namespace: namespace@,
            },
            RegistryError::NoModuleVersionsAvailable { module } => RegistryErrorView::NoModuleVersionsAvailable {
                module: module@,
            },
        }
    }
}

/// The text a `RegistryError` shows.
pub open spec fn registry_error_text(e: RegistryError) -> Seq<char> {
    match e {
        RegistryError::HttpError(s) => "HTTP request failed: "@ + s@,
        RegistryError::JsonError(s) => "JSON parsing failed: "@ + s@,
        RegistryError::ProviderNotFound { provider, namespace } => "Provider '"@ + provider@
            + "' not found in namespace '"@ + namespace@
            + "'. Try using a different namespace or let the system auto-fallback to common namespaces (hashicorp, terraform-providers, community)."@,
        RegistryError::ModuleNotFound { module, provider, namespace } => "Module '"@ + module@
            + "' not found for provider '"@ + provider@ + "' in namespace '"@ + namespace@
            + "'. Check the module name spelling or search for available modules."@,
        RegistryError::ServiceNotFound { service, provider, namespace } => "Service '"@ + service@
            + "' not found for provider '"@ + provider@ + "' in namespace '"@ + namespace@
            + "'. Check the service name spelling or browse available services first."@,
        RegistryError::DocumentationNotFound { doc_id } => "Documentation not found for '"@
            + doc_id@
            + "'. The documentation may have been moved or the ID may be incorrect."@,
        RegistryError::InvalidResponse => "Invalid response format from Terraform Registry API. This may indicate a temporary service issue or API changes."@,
        RegistryError::RateLimited => "Rate limit exceeded. Please wait before making additional requests. The Terraform Registry has usage limits to ensure fair access."@,
        RegistryError::NoSearchResults { query } => "Search returned no results for query '"@
            + query@ + "'. Try using broader search terms or check spelling."@,
        RegistryError::NoVersionsAvailable { provider, namespace } => "Provider '"@ + provider@
            + "' exists but has no available versions in namespace '"@ + namespace@
            + "'. This may indicate a deprecated or invalid provider."@,
        RegistryError::NoModuleVersionsAvailable { module } => "Module '"@ + module@
            + "' exists but has no available versions. This may indicate a deprecated or invalid module."@,
    }
}

impl RegistryError {
    /// The human-readable text of the error.
    pub fn message(&self) -> (r: String)
        ensures
            r@ == registry_error_text(*self),
    {
        let r = match self {
            RegistryError::HttpError(s) => join_all(&vec!["HTTP request failed: ", s.as_str()]),
            RegistryError::JsonError(s) => join_all(&vec!["JSON parsing failed: ", s.as_str()]),
            RegistryError::ProviderNotFound { provider, namespace } => join_all(
                &vec![
                    "Provider '",
                    provider.as_str(),
                    "' not found in namespace '",
                    namespace.as_str(),
                    "'. Try using a different namespace or let the system auto-fallback to common namespaces (hashicorp, terraform-providers, community).",
                ],
            ),
            RegistryError::ModuleNotFound { module, provider, namespace } => join_all(
                &vec![
                    "Module '",
                    module.as_str(),
                    "' not found for provider '",
                    provider.as_str(),
                    "' in namespace '",
                    namespace.as_str(),
                    "'. Check the module name spelling or search for available modules.",
                ],
            ),
            RegistryError::ServiceNotFound { service, provider, namespace } => join_all(
                &vec![
                    "Service '",
                    service.as_str(),
                    "' not found for provider '",
                    provider.as_str(),
                    "' in namespace '",
                    namespace.as_str(),
                    "'. Check the service name spelling or browse available services first.",
                ],
            ),
            RegistryError::DocumentationNotFound { doc_id } => join_all(
                &vec![
                    "Documentation not found for '",
                    doc_id.as_str(),
                    "'. The documentation may have been moved or the ID may be incorrect.",
                ],
            ),
            RegistryError::InvalidResponse => "Invalid response format from Terraform Registry API. This may indicate a temporary service issue or API changes.".to_owned(),
            RegistryError::RateLimited => "Rate limit exceeded. Please wait before making additional requests. The Terraform Registry has usage limits to ensure fair access.".to_owned(),
            RegistryError::NoSearchResults { query } => join_all(
                &vec![
                    "Search returned no results for query '",
                    query.as_str(),
                    "'. Try using broader search terms or check spelling.",
                ],
            ),
            RegistryError::NoVersionsAvailable { provider, namespace } => join_all(
                &vec![
                    "Provider '",
                    provider.as_str(),
                    "' exists but has no available versions in namespace '",
                    namespace.as_str(),
                    "'. This may indicate a deprecated or invalid provider.",
                ],
            ),
            RegistryError::NoModuleVersionsAvailable { module } => join_all(
                &vec![
                    "Module '",
                    module.as_str(),
                    "' exists but has no available versions. This may indicate a deprecated or invalid module.",
                ],
            ),
        };
        proof {
            reveal_with_fuel(joined, 8);
        }
        r
    }
}

/// How `{:?}` shows a list of strings.
pub uninterp spec fn debug_list_text(items: Seq<Seq<char>>) -> Seq<char>;

/// The `Debug` text of a list of strings (`format!("{:?}", items)`), named by
/// `debug_list_text`.
#[verifier::external_body]
fn debug_string_list(items: &Vec<String>) -> (r: String)
    ensures
        r@ == debug_list_text(texts(items@)),
{
    format!("{:?}", items)
}

/// Why a lookup that falls back over namespaces failed.
#[derive(Debug)]
pub enum FallbackError {
    ProviderNotFoundAnywhere { provider: String, namespaces: Vec<String> },
    RegistryError(RegistryError),
}

/// The text a `FallbackError` shows.
pub open spec fn fallback_error_text(e: FallbackError) -> Seq<char> {
    match e {
        FallbackError::ProviderNotFoundAnywhere { provider, namespaces } => "Provider '"@
            + provider@ + "' not found in any namespace. Searched: "@ + debug_list_text(
            texts(namespaces@),
        ),
        FallbackError::RegistryError(inner) => "Registry error: "@ + registry_error_text(inner),
    }
}

impl FallbackError {
    /// The human-readable text of the error.
    pub fn message(&self) -> (r: String)
        ensures
            r@ == fallback_error_text(*self),
    {
        match self {
            FallbackError::ProviderNotFoundAnywhere { provider, namespaces } => {
                let listed = debug_string_list(namespaces);
                let r = join_all(
                    &vec![
                        "Provider '",
                        provider.as_str(),
                        "' not found in any namespace. Searched: ",
                        listed.as_str(),
                    ],
                );
                proof {
                    reveal_with_fuel(joined, 5);
                }
                r
            },
            FallbackError::RegistryError(inner) => {
                let text = inner.message();
                let r = join_all(&vec!["Registry error: ", text.as_str()]);
                proof {
                    reveal_with_fuel(joined, 3);
                }
                r
            },
        }
    }
}

} // verus!
