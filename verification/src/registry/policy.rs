//! Policy libraries of the public Terraform Registry: reading entries, choosing the
//! ones a text query matches, and the requests and errors of the policy API.
use crate::json::{get_array, json_as_array, json_get, JsonValue};
use crate::registry::client::{is_success, status_display};
use crate::registry::decode::{bool_or_false, str_or, u64_or_zero, value_str};
use crate::errors::{canonical_reason, status_reason};
use crate::text::{decimal_string, join_all, joined, lowercase, to_lowercase};
use vstd::prelude::*;

verus! {

/// The registry the policy API is served from.
pub const REGISTRY_BASE: &'static str = "https://registry.terraform.io";

/// A policy library entry.
#[derive(Debug, Clone, PartialEq, Eq)]
pub struct PolicyInfo {
    pub id: String,
    pub name: String,
    pub namespace: String,
    pub full_name: String,
    pub title: String,
    pub description: String,
    pub source: String,
    pub downloads: u64,
    pub verified: bool,
}

/// The content of a `PolicyInfo`.
pub struct PolicyView {
    pub id: Seq<char>,
    pub name: Seq<char>,
    pub namespace: Seq<char>,
    pub full_name: Seq<char>,
    pub title: Seq<char>,
    pub description: Seq<char>,
    pub source: Seq<char>,
    pub downloads: u64,
    pub verified: bool,
}

impl View for PolicyInfo {
    type V = PolicyView;

    open spec fn view(&self) -> PolicyView {
        PolicyView {
            id: self.id@,
            name: self.name@,
            namespace: self.namespace@,
            full_name: self.full_name@,
            title: self.title@,
            description: self.description@,
            source: self.source@,
            downloads: self.downloads,
            verified: self.verified,
        }
    }
}

/// The entry a JSON item describes, if it has `attributes`; the description repeats
/// the title.
pub open spec fn policy_json(item: JsonValue) -> Option<PolicyView> {
    match json_get(item, "attributes"@) {
        Some(attrs) => Some(
            PolicyView {
                id: str_or(item, "id"@, Seq::empty()),
                name: str_or(attrs, "name"@, Seq::empty()),
                namespace: str_or(attrs, "namespace"@, Seq::empty()),
                full_name: str_or(attrs, "full-name"@, Seq::empty()),
                title: str_or(attrs, "title"@, Seq::empty()),
                description: str_or(attrs, "title"@, Seq::empty()),
                source: str_or(attrs, "source"@, Seq::empty()),
                downloads: u64_or_zero(attrs, "downloads"@),
                verified: bool_or_false(attrs, "verified"@),
            },
        ),
        None => None,
    }
}

/// Reads a policy library entry; an item without `attributes` gives none.
pub fn parse_policy_item(item: &JsonValue) -> (r: Option<PolicyInfo>)
    ensures
        match r {
            Some(p) => policy_json(*item) == Some(p@),
            None => policy_json(*item) is None,
        },
{
    let attrs = match item.get("attributes") {
        Some(a) => a,
        None => return None,
    };
    Some(
        PolicyInfo {
            id: value_str(item, "id"),
            name: value_str(attrs, "name"),
            namespace: value_str(attrs, "namespace"),
            full_name: value_str(attrs, "full-name"),
            title: value_str(attrs, "title"),
            description: value_str(attrs, "title"),
            source: value_str(attrs, "source"),
            downloads: match crate::json::get_u64(attrs, "downloads") {
                Some(n) => n,
                None => 0,
            },
            verified: match crate::json::get_bool(attrs, "verified") {
                Some(b) => b,
                None => false,
            },
        },
    )
}

/// Whether `needle` occurs in `hay`.
pub open spec fn has_infix(hay: Seq<char>, needle: Seq<char>) -> bool {
    exists|i: int| 0 <= i <= hay.len() - needle.len() && #[trigger] hay.subrange(i, i + needle.len()) == needle
}

/// Whether `needle` occurs in `hay`.
pub fn contains_text(hay: &str, needle: &str) -> (r: bool)
    ensures
        r == has_infix(hay@, needle@),
{
    let h = crate::text::chars_of(hay);
    let n = crate::text::chars_of(needle);
    if n.len() > h.len() {
        return false;
    }
    let last = h.len() - n.len();
    let mut i: usize = 0;
    while i <= last
        invariant
            last == h@.len() - n@.len(),
            h@.len() <= usize::MAX,
            h@ == hay@,
            n@ == needle@,
            n@.len() <= h@.len(),
            i <= h@.len() - n@.len() + 1,
            forall|k: int| 0 <= k < i ==> #[trigger] h@.subrange(k, k + n@.len()) != n@,
        decreases h.len() - i,
    {
        let mut j: usize = 0;
        let mut same = true;
        while j < n.len()
            invariant
                h@ == hay@,
                n@ == needle@,
                i <= last,
                last == h@.len() - n@.len(),
                n@.len() <= h@.len(),
                h@.len() <= usize::MAX,
                j <= n@.len(),
                same == (forall|m: int| 0 <= m < j ==> h@[i + m] == n@[m]),
            decreases n.len() - j,
        {
            if h[i + j] != n[j] {
                same = false;
            }
            j = j + 1;
        }
        if same {
            proof {
                assert(h@.subrange(i as int, i + n@.len()) =~= n@);
            }
            return true;
        }
        proof {
            let m = choose|m: int| 0 <= m < n@.len() && h@[i + m] != n@[m];
            assert(h@.subrange(i as int, i + n@.len())[m] != n@[m]);
        }
        i = i + 1;
    }
    proof {
        assert forall|k: int| 0 <= k <= hay@.len() - needle@.len() implies #[trigger] hay@.subrange(
            k,
            k + needle@.len(),
        ) != needle@ by {
            assert(k < i);
        }
    }
    false
}

/// Whether an entry matches the lower-cased query `q`: by name, title, namespace or
/// full name, compared in lower case.
pub open spec fn policy_matches(p: PolicyView, q: Seq<char>) -> bool {
    has_infix(lowercase(p.name), q) || has_infix(lowercase(p.title), q) || has_infix(
        lowercase(p.namespace),
        q,
    ) || has_infix(lowercase(p.full_name), q)
}

/// The entries of `data` that can be read, in order.
pub open spec fn parsed_policies(data: Seq<JsonValue>) -> Seq<PolicyView>
    decreases data.len(),
{
    if data.len() == 0 {
        Seq::empty()
    } else {
        match policy_json(data.last()) {
            Some(p) => parsed_policies(data.drop_last()).push(p),
            None => parsed_policies(data.drop_last()),
        }
    }
}

/// The entries of `data` that can be read and match `q`, in order.
pub open spec fn matching_policies(data: Seq<JsonValue>, q: Seq<char>) -> Seq<PolicyView>
    decreases data.len(),
{
    if data.len() == 0 {
        Seq::empty()
    } else {
        match policy_json(data.last()) {
            Some(p) => if policy_matches(p, q) {
                matching_policies(data.drop_last(), q).push(p)
            } else {
                matching_policies(data.drop_last(), q)
            },
            None => matching_policies(data.drop_last(), q),
        }
    }
}

/// The result of a policy search for `query` over the entries `data`: those matching
/// the query, or all of them when none match (the query may name a provider).
pub open spec fn policy_search_spec(data: Seq<JsonValue>, query: Seq<char>) -> Seq<PolicyView> {
    let m = matching_policies(data, lowercase(query));
    if m.len() == 0 && data.len() > 0 {
        parsed_policies(data)
    } else {
        m
    }
}

pub open spec fn policy_views(s: Seq<PolicyInfo>) -> Seq<PolicyView> {
    Seq::new(s.len(), |i: int| s[i]@)
}

fn matches_query(p: &PolicyInfo, q: &str) -> (r: bool)
    ensures
        r == policy_matches(p@, q@),
{
    let name = to_lowercase(p.name.as_str());
    let title = to_lowercase(p.title.as_str());
    let namespace = to_lowercase(p.namespace.as_str());
    let full_name = to_lowercase(p.full_name.as_str());
    contains_text(name.as_str(), q) || contains_text(title.as_str(), q) || contains_text(
        namespace.as_str(),
        q,
    ) || contains_text(full_name.as_str(), q)
}

fn copy_policy(p: &PolicyInfo) -> (r: PolicyInfo)
    ensures
        r@ == p@,
{
    PolicyInfo {
        id: p.id.clone(),
        name: p.name.clone(),
        namespace: p.namespace.clone(),
        full_name: p.full_name.clone(),
        title: p.title.clone(),
        description: p.description.clone(),
        source: p.source.clone(),
        downloads: p.downloads,
        verified: p.verified,
    }
}

/// Chooses among the entries `data` those a search for `query` returns.
pub fn filter_policies(data: &Vec<JsonValue>, query: &str) -> (r: Vec<PolicyInfo>)
    ensures
        policy_views(r@) == policy_search_spec(data@, query@),
{
    let q = to_lowercase(query);
    let mut all: Vec<PolicyInfo> = Vec::new();
    let mut results: Vec<PolicyInfo> = Vec::new();
    let mut i: usize = 0;
    while i < data.len()
        invariant
            i <= data@.len(),
            q@ == lowercase(query@),
            policy_views(all@) == parsed_policies(data@.take(i as int)),
            policy_views(results@) == matching_policies(data@.take(i as int), q@),
        decreases data.len() - i,
    {
        proof {
            assert(data@.take(i + 1).drop_last() =~= data@.take(i as int));
            assert(data@.take(i + 1).last() == data@[i as int]);
        }
        match parse_policy_item(&data[i]) {
            Some(p) => {
                let ghost before_all = all@;
                let ghost before_results = results@;
                if matches_query(&p, q.as_str()) {
                    results.push(copy_policy(&p));
                    proof {
                        assert(policy_views(results@) =~= policy_views(before_results).push(p@));
                    }
                }
                all.push(p);
                proof {
                    assert(policy_views(all@) =~= policy_views(before_all).push(p@));
                }
            },
            None => {},
        }
        i = i + 1;
    }
    proof {
        assert(data@.take(data@.len() as int) =~= data@);
    }
    if results.len() == 0 && data.len() > 0 {
        all
    } else {
        results
    }
}

/// The entries a successful search answer returns for `query`: those of its `data`
/// list, chosen as `filter_policies` does.
pub fn policies_from_search_body(body: &JsonValue, query: &str) -> (r: Vec<PolicyInfo>)
    ensures
        policy_views(r@) == policy_search_spec(
            match json_as_array(json_get(*body, "data"@)) {
                Some(a) => a,
                None => Seq::empty(),
            },
            query@,
        ),
{
    match get_array(body, "data") {
        Some(a) => filter_policies(a, query),
        None => {
            let empty: Vec<JsonValue> = Vec::new();
            filter_policies(&empty, query)
        },
    }
}

/// The search endpoint, with the provider filter when one is given.
pub fn policy_search_url(provider_filter: Option<&str>) -> (r: String)
    ensures
        r@ == REGISTRY_BASE@ + "/v2/policies?page[size]=20"@ + match provider_filter {
            Some(p) => "&filter[provider]="@ + p@,
            None => Seq::<char>::empty(),
        },
{
    let r = match provider_filter {
        Some(p) => join_all(&vec![REGISTRY_BASE, "/v2/policies?page[size]=20", "&filter[provider]=", p]),
        None => join_all(&vec![REGISTRY_BASE, "/v2/policies?page[size]=20"]),
    };
    proof {
        reveal_with_fuel(joined, 5);
        assert(REGISTRY_BASE@ + "/v2/policies?page[size]=20"@ + Seq::<char>::empty() =~= REGISTRY_BASE@
            + "/v2/policies?page[size]=20"@);
    }
    r
}

/// The endpoint of one policy library.
pub fn policy_details_url(namespace: &str, name: &str) -> (r: String)
    ensures
        r@ == REGISTRY_BASE@ + "/v2/policies/"@ + namespace@ + "/"@ + name@,
{
    let r = join_all(&vec![REGISTRY_BASE, "/v2/policies/", namespace, "/", name]);
    proof {
        reveal_with_fuel(joined, 6);
    }
    r
}

/// The error for a policy library the registry does not serve.
pub fn policy_not_found_message(namespace: &str, name: &str, status: u16) -> (r: String)
    requires
        100 <= status <= 999,
    ensures
        r@ == "Policy not found: "@ + namespace@ + "/"@ + name@ + " (HTTP "@ + status_display(
            status,
            canonical_reason(status),
        ) + ")"@,
{
    let digits = decimal_string(status as u64);
    let reason = match status_reason(status) {
        Some(s) => s,
        None => "<unknown status code>",
    };
    let r = join_all(
        &vec!["Policy not found: ", namespace, "/", name, " (HTTP ", digits.as_str(), " ", reason, ")"],
    );
    proof {
        reveal_with_fuel(joined, 10);
    }
    r
}

/// The entry of a details answer: its `data` member read as an entry.
pub fn policy_details_from_body(body: &JsonValue, namespace: &str, name: &str) -> (r: Result<
    PolicyInfo,
    String,
>)
    ensures
        match json_get(*body, "data"@) {
            None => r matches Err(m) && m@ == "Invalid response: missing 'data' field"@,
            Some(item) => match policy_json(item) {
                Some(p) => r matches Ok(info) && info@ == p,
                None => r matches Err(m) && m@ == "Failed to parse policy details for "@
                    + namespace@ + "/"@ + name@,
            },
        },
{
    let item = match body.get("data") {
        Some(d) => d,
        None => return Err("Invalid response: missing 'data' field".to_owned()),
    };
    match parse_policy_item(item) {
        Some(p) => Ok(p),
        None => {
            let m = join_all(&vec!["Failed to parse policy details for ", namespace, "/", name]);
            proof {
                reveal_with_fuel(joined, 5);
            }
            Err(m)
        },
    }
}

proof fn lemma_matching_policies(data: Seq<JsonValue>, q: Seq<char>)
    ensures
        forall|i: int|
            0 <= i < matching_policies(data, q).len() ==> policy_matches(
                #[trigger] matching_policies(data, q)[i],
                q,
            ),
        matching_policies(data, q).len() <= parsed_policies(data).len(),
    decreases data.len(),
{
    if data.len() > 0 {
        lemma_matching_policies(data.drop_last(), q);
        let prev = matching_policies(data.drop_last(), q);
        let m = matching_policies(data, q);
        assert forall|i: int| 0 <= i < m.len() implies policy_matches(#[trigger] m[i], q) by {
            if i < prev.len() {
                assert(m[i] == prev[i]);
            }
        }
    }
}

/// A policy search returns only entries that match the query, unless none does: then
/// it returns every entry it could read.
pub proof fn law_policy_search_matches_or_all(data: Seq<JsonValue>, query: Seq<char>)
    ensures
        policy_search_spec(data, query) == parsed_policies(data) || forall|i: int|
            0 <= i < policy_search_spec(data, query).len() ==> policy_matches(
                #[trigger] policy_search_spec(data, query)[i],
                lowercase(query),
            ),
        matching_policies(data, lowercase(query)).len() == 0 && data.len() > 0 ==> policy_search_spec(
            data,
            query,
        ) == parsed_policies(data),
{
    lemma_matching_policies(data, lowercase(query));
}

proof fn lemma_matching_keeps(data: Seq<JsonValue>, q: Seq<char>, p: PolicyView)
    requires
        parsed_policies(data).contains(p),
        policy_matches(p, q),
    ensures
        matching_policies(data, q).contains(p),
    decreases data.len(),
{
    let prev = parsed_policies(data.drop_last());
    match policy_json(data.last()) {
        Some(x) => {
            if x == p {
                let m = matching_policies(data, q);
                assert(m[m.len() - 1] == p);
            } else {
                let w = choose|w: int| 0 <= w < parsed_policies(data).len() && parsed_policies(data)[w] == p;
                assert(w < prev.len());
                assert(prev[w] == p);
                lemma_matching_keeps(data.drop_last(), q, p);
                let m0 = matching_policies(data.drop_last(), q);
                let v = choose|v: int| 0 <= v < m0.len() && m0[v] == p;
                if policy_matches(x, q) {
                    assert(matching_policies(data, q)[v] == p);
                }
            }
        },
        None => {
            lemma_matching_keeps(data.drop_last(), q, p);
        },
    }
}

/// A policy search for `query` returns every readable entry whose name, title,
/// namespace or full name contains the query (both compared in lower case); and when
/// such an entry exists, every entry it returns contains the query in one of those
/// fields.
pub proof fn law_policy_search_by_fields(data: Seq<JsonValue>, query: Seq<char>, p: PolicyView)
    requires
        parsed_policies(data).contains(p),
        has_infix(lowercase(p.name), lowercase(query)) || has_infix(lowercase(p.title), lowercase(query))
            || has_infix(lowercase(p.namespace), lowercase(query)) || has_infix(
            lowercase(p.full_name),
            lowercase(query),
        ),
    ensures
        policy_search_spec(data, query).contains(p),
        forall|j: int|
            0 <= j < policy_search_spec(data, query).len() ==> {
                let e = #[trigger] policy_search_spec(data, query)[j];
                has_infix(lowercase(e.name), lowercase(query)) || has_infix(lowercase(e.title), lowercase(query))
                    || has_infix(lowercase(e.namespace), lowercase(query)) || has_infix(
                    lowercase(e.full_name),
                    lowercase(query),
                )
            },
{
    let q = lowercase(query);
    lemma_matching_keeps(data, q, p);
    lemma_matching_policies(data, q);
    let m = matching_policies(data, q);
    assert(m.len() > 0);
    assert forall|j: int| 0 <= j < m.len() implies policy_matches(#[trigger] m[j], q) by {}
}

} // verus!
