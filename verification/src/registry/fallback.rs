//! Looking a provider up in the namespace asked for, then in the common ones.
use crate::registry::decode::{doc_views, string_texts, DocIdResult};
use crate::registry::error::{FallbackError, RegistryError, RegistryErrorView};
use crate::text::text_eq;
use vstd::prelude::*;

verus! {

/// Whether a namespace was asked for or is one of the common ones.
#[derive(Debug, Clone, Copy, PartialEq, Eq, Structural)]
pub enum NamespaceAttemptKind {
    Specified,
    Fallback,
}

/// One namespace to look in.
#[derive(Debug)]
pub struct NamespaceAttempt {
    pub namespace: String,
    pub kind: NamespaceAttemptKind,
}

/// The word for a kind of namespace in messages.
pub fn namespace_kind_label(kind: NamespaceAttemptKind) -> (r: &'static str)
    ensures
        r@ == match kind {
            NamespaceAttemptKind::Specified => "specified"@,
            NamespaceAttemptKind::Fallback => "fallback"@,
        },
{
    match kind {
        NamespaceAttemptKind::Specified => "specified",
        NamespaceAttemptKind::Fallback => "fallback",
    }
}

/// The common namespaces tried, in order, skipping the one asked for.
pub open spec fn fallback_entries(fallbacks: Seq<Seq<char>>, asked: Option<Seq<char>>) -> Seq<
    (Seq<char>, NamespaceAttemptKind),
>
    decreases fallbacks.len(),
{
    if fallbacks.len() == 0 {
        Seq::empty()
    } else {
        let rest = fallback_entries(fallbacks.drop_last(), asked);
        if asked == Some(fallbacks.last()) {
            rest
        } else {
            rest.push((fallbacks.last(), NamespaceAttemptKind::Fallback))
        }
    }
}

/// The namespaces a lookup tries, in order: the one asked for, then the common ones.
pub open spec fn attempts_spec(fallbacks: Seq<Seq<char>>, asked: Option<Seq<char>>) -> Seq<
    (Seq<char>, NamespaceAttemptKind),
> {
    match asked {
        Some(n) => seq![(n, NamespaceAttemptKind::Specified)] + fallback_entries(fallbacks, asked),
        None => fallback_entries(fallbacks, asked),
    }
}

pub open spec fn attempt_views(a: Seq<NamespaceAttempt>) -> Seq<(Seq<char>, NamespaceAttemptKind)> {
    Seq::new(a.len(), |i: int| (a[i].namespace@, a[i].kind))
}

/// The common namespaces a client falls back to.
pub open spec fn default_fallbacks() -> Seq<Seq<char>> {
    seq!["hashicorp"@, "terraform-providers"@, "community"@]
}

/// A registry client that falls back over namespaces; the client itself is the
/// caller's.
#[derive(Debug)]
pub struct RegistryClientWithFallback<C> {
    pub primary: C,
    pub fallback_namespaces: Vec<String>,
}

impl<C> RegistryClientWithFallback<C> {
    /// A client falling back to `hashicorp`, `terraform-providers` and `community`.
    pub fn new(primary: C) -> (r: Self)
        ensures
            r.primary == primary,
            string_texts(r.fallback_namespaces@) == default_fallbacks(),
    {
        let r = RegistryClientWithFallback {
            primary,
            fallback_namespaces: vec![
                "hashicorp".to_owned(),
                "terraform-providers".to_owned(),
                "community".to_owned(),
            ],
        };
        proof {
            assert(string_texts(r.fallback_namespaces@) =~= default_fallbacks());
        }
        r
    }

    /// The namespaces to try for a provider: `namespace` if given, then each common
    /// namespace that is not it.
    pub fn namespace_attempts(&self, namespace: Option<&str>) -> (r: Vec<NamespaceAttempt>)
        ensures
            attempt_views(r@) == attempts_spec(
                string_texts(self.fallback_namespaces@),
                match namespace {
                    Some(n) => Some(n@),
                    None => None,
                },
            ),
    {
        let ghost asked: Option<Seq<char>> = match namespace {
            Some(n) => Some(n@),
            None => None,
        };
        let ghost fallbacks = string_texts(self.fallback_namespaces@);
        let mut r: Vec<NamespaceAttempt> = Vec::new();
        if let Some(ns) = namespace {
            r.push(NamespaceAttempt { namespace: ns.to_owned(), kind: NamespaceAttemptKind::Specified });
        }
        let ghost head = attempt_views(r@);
        proof {
            assert(head =~= match asked {
                Some(n) => seq![(n, NamespaceAttemptKind::Specified)],
                None => Seq::empty(),
            });
        }
        let mut i: usize = 0;
        while i < self.fallback_namespaces.len()
            invariant
                i <= self.fallback_namespaces@.len(),
                fallbacks == string_texts(self.fallback_namespaces@),
                asked == match namespace {
                    Some(n) => Some(n@),
                    None => None::<Seq<char>>,
                },
                attempt_views(r@) == head + fallback_entries(fallbacks.take(i as int), asked),
            decreases self.fallback_namespaces.len() - i,
        {
            proof {
                assert(fallbacks.take(i + 1).drop_last() =~= fallbacks.take(i as int));
                assert(fallbacks.take(i + 1).last() == self.fallback_namespaces@[i as int]@);
            }
            let skip = match namespace {
                Some(ns) => text_eq(ns, self.fallback_namespaces[i].as_str()),
                None => false,
            };
            if !skip {
                let ghost before = attempt_views(r@);
                r.push(
                    NamespaceAttempt {
                        namespace: self.fallback_namespaces[i].clone(),
                        kind: NamespaceAttemptKind::Fallback,
                    },
                );
                proof {
                    assert(attempt_views(r@) =~= before.push(
                        (self.fallback_namespaces@[i as int]@, NamespaceAttemptKind::Fallback),
                    ));
                }
            }
            i = i + 1;
        }
        proof {
            assert(fallbacks.take(self.fallback_namespaces@.len() as int) =~= fallbacks);
            match asked {
                Some(n) => {
                    assert(attempt_views(r@) =~= attempts_spec(fallbacks, asked));
                },
                None => {
                    assert(attempt_views(r@) =~= attempts_spec(fallbacks, asked));
                },
            }
        }
        r
    }

    /// The namespace a documentation search that found nothing reports: the one asked
    /// for, else the first common one.
    pub fn docs_default_namespace(&self, namespace: Option<&str>) -> (r: String)
        requires
            namespace is Some || self.fallback_namespaces@.len() > 0,
        ensures
            r@ == match namespace {
                Some(n) => n@,
                None => self.fallback_namespaces@[0]@,
            },
    {
        match namespace {
            Some(n) => n.to_owned(),
            None => self.fallback_namespaces[0].clone(),
        }
    }
}

/// What to do with the answer from one namespace.
#[derive(Debug)]
pub enum LookupStep<T> {
    /// The lookup succeeded in this namespace.
    Found(T, String),
    /// Try the next namespace.
    TryNext,
    /// Stop with this error.
    Stop(FallbackError),
}

/// Decides on the answer of a provider lookup in `attempt`'s namespace: a provider
/// that is not there moves on, any other error stops the lookup.
pub fn provider_lookup_step<T>(attempt: &NamespaceAttempt, result: Result<T, RegistryError>) -> (r:
    LookupStep<T>)
    ensures
        match result {
            Ok(v) => r matches LookupStep::Found(w, ns) && w == v && ns@ == attempt.namespace@,
            Err(e) => if e is ProviderNotFound {
                r is TryNext
            } else {
                r matches LookupStep::Stop(FallbackError::RegistryError(inner)) && inner == e
            },
        },
{
    match result {
        Ok(v) => LookupStep::Found(v, attempt.namespace.clone()),
        Err(e) => match e {
            RegistryError::ProviderNotFound { .. } => LookupStep::TryNext,
            other => LookupStep::Stop(FallbackError::RegistryError(other)),
        },
    }
}

/// Decides on the answer of a documentation search in `attempt`'s namespace: found
/// entries end it, none move on, an error stops it.
pub fn docs_lookup_step(attempt: &NamespaceAttempt, result: Result<Vec<DocIdResult>, RegistryError>) -> (r:
    LookupStep<Vec<DocIdResult>>)
    ensures
        match result {
            Ok(v) => if v@.len() > 0 {
                r matches LookupStep::Found(w, ns) && w == v && ns@ == attempt.namespace@
            } else {
                r is TryNext
            },
            Err(e) => r matches LookupStep::Stop(FallbackError::RegistryError(inner)) && inner == e,
        },
{
    match result {
        Ok(v) => if v.len() > 0 {
            LookupStep::Found(v, attempt.namespace.clone())
        } else {
            LookupStep::TryNext
        },
        Err(e) => LookupStep::Stop(FallbackError::RegistryError(e)),
    }
}

/// The error when no namespace had the provider; it lists the namespaces searched.
pub fn provider_not_found_anywhere(provider: &str, attempts: &Vec<NamespaceAttempt>) -> (r:
    FallbackError)
    ensures
        r matches FallbackError::ProviderNotFoundAnywhere { provider: p, namespaces } && p@
            == provider@ && string_texts(namespaces@) == Seq::new(
            attempts@.len(),
            |i: int| attempts@[i].namespace@,
        ),
{
    let mut namespaces: Vec<String> = Vec::new();
    let mut i: usize = 0;
    while i < attempts.len()
        invariant
            i <= attempts@.len(),
            namespaces@.len() == i,
            forall|j: int| 0 <= j < i ==> #[trigger] namespaces@[j]@ == attempts@[j].namespace@,
        decreases attempts.len() - i,
    {
        namespaces.push(attempts[i].namespace.clone());
        i = i + 1;
    }
    proof {
        assert(string_texts(namespaces@) =~= Seq::new(
            attempts@.len(),
            |i: int| attempts@[i].namespace@,
        ));
    }
    FallbackError::ProviderNotFoundAnywhere { provider: provider.to_owned(), namespaces }
}

proof fn lemma_fallback_entries(fallbacks: Seq<Seq<char>>, asked: Option<Seq<char>>)
    ensures
        fallback_entries(fallbacks, asked).len() <= fallbacks.len(),
        forall|i: int|
            0 <= i < fallback_entries(fallbacks, asked).len() ==> Some(
                #[trigger] fallback_entries(fallbacks, asked)[i].0,
            ) != asked && fallback_entries(fallbacks, asked)[i].1 == NamespaceAttemptKind::Fallback
                && fallbacks.contains(fallback_entries(fallbacks, asked)[i].0),
        forall|j: int|
            0 <= j < fallbacks.len() && Some(#[trigger] fallbacks[j]) != asked ==> fallback_entries(
                fallbacks,
                asked,
            ).contains((fallbacks[j], NamespaceAttemptKind::Fallback)),
    decreases fallbacks.len(),
{
    if fallbacks.len() > 0 {
        let p = fallbacks.drop_last();
        lemma_fallback_entries(p, asked);
        let rest = fallback_entries(p, asked);
        let all = fallback_entries(fallbacks, asked);
        assert forall|i: int| 0 <= i < all.len() implies Some(#[trigger] all[i].0) != asked
            && all[i].1 == NamespaceAttemptKind::Fallback && fallbacks.contains(all[i].0) by {
            if i < rest.len() {
                assert(all[i] == rest[i]);
                let k = choose|k: int| 0 <= k < p.len() && p[k] == rest[i].0;
                assert(fallbacks[k] == p[k]);
            } else {
                assert(fallbacks[fallbacks.len() - 1] == fallbacks.last());
            }
        }
        assert forall|j: int| 0 <= j < fallbacks.len() && Some(#[trigger] fallbacks[j]) != asked
            implies all.contains((fallbacks[j], NamespaceAttemptKind::Fallback)) by {
            if j < p.len() {
                assert(p[j] == fallbacks[j]);
                let k = choose|k: int| 0 <= k < rest.len() && rest[k] == (p[j], NamespaceAttemptKind::Fallback);
                assert(all[k] == rest[k]);
            } else {
                assert(all[all.len() - 1] == (fallbacks[j], NamespaceAttemptKind::Fallback));
            }
        }
    }
}

/// A namespace that was asked for is tried first, and never again after that.
pub proof fn law_asked_namespace_tried_first_and_once(fallbacks: Seq<Seq<char>>, namespace: Seq<char>)
    ensures
        attempts_spec(fallbacks, Some(namespace))[0] == (namespace, NamespaceAttemptKind::Specified),
        forall|i: int|
            1 <= i < attempts_spec(fallbacks, Some(namespace)).len() ==> (#[trigger] attempts_spec(
                fallbacks,
                Some(namespace),
            )[i]).0 != namespace,
{
    lemma_fallback_entries(fallbacks, Some(namespace));
    let a = attempts_spec(fallbacks, Some(namespace));
    let rest = fallback_entries(fallbacks, Some(namespace));
    assert forall|i: int| 1 <= i < a.len() implies (#[trigger] a[i]).0 != namespace by {
        assert(a[i] == rest[i - 1]);
    }
}

/// Every common namespace other than the one asked for is tried, as a fallback, and
/// nothing else is: a lookup makes at most one attempt more than there are common
/// namespaces.
pub proof fn law_every_fallback_tried(fallbacks: Seq<Seq<char>>, asked: Option<Seq<char>>)
    ensures
        forall|j: int|
            0 <= j < fallbacks.len() && Some(#[trigger] fallbacks[j]) != asked ==> attempts_spec(
                fallbacks,
                asked,
            ).contains((fallbacks[j], NamespaceAttemptKind::Fallback)),
        attempts_spec(fallbacks, asked).len() <= fallbacks.len() + 1,
        forall|i: int|
            0 <= i < attempts_spec(fallbacks, asked).len() && (#[trigger] attempts_spec(
                fallbacks,
                asked,
            )[i]).1 == NamespaceAttemptKind::Fallback ==> fallbacks.contains(
                attempts_spec(fallbacks, asked)[i].0,
            ),
{
    lemma_fallback_entries(fallbacks, asked);
    let a = attempts_spec(fallbacks, asked);
    let rest = fallback_entries(fallbacks, asked);
    match asked {
        Some(n) => {
            assert forall|j: int| 0 <= j < fallbacks.len() && Some(#[trigger] fallbacks[j]) != asked
                implies a.contains((fallbacks[j], NamespaceAttemptKind::Fallback)) by {
                let k = choose|k: int| 0 <= k < rest.len() && rest[k] == (fallbacks[j], NamespaceAttemptKind::Fallback);
                assert(a[k + 1] == rest[k]);
            }
            assert forall|i: int| 0 <= i < a.len() && (#[trigger] a[i]).1 == NamespaceAttemptKind::Fallback
                implies fallbacks.contains(a[i].0) by {
                if i > 0 {
                    assert(a[i] == rest[i - 1]);
                }
            }
        },
        None => {},
    }
}

} // verus!
