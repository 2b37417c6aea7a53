//! What a provider can do, grouped by the category of its documentation entries.
use crate::json::{member_get, members_get, json_as_array, JsonValue};
use crate::registry::decode::{str_or, value_str_or, ProviderInfo};
use crate::text::{text_eq, texts};
use vstd::prelude::*;

verus! {

/// The most titles a category lists.
pub const MAX_LISTED_TITLES: usize = 20;

/// The documentation entries of one category.
#[derive(Debug)]
pub struct DocCategory {
    pub category: String,
    pub titles: Vec<String>,
}

/// The category of an entry (`other` when it has none).
pub open spec fn doc_category(d: JsonValue) -> Seq<char> {
    str_or(d, "category"@, "other"@)
}

/// The title of an entry (`unknown` when it has none).
pub open spec fn doc_title(d: JsonValue) -> Seq<char> {
    str_or(d, "title"@, "unknown"@)
}

/// The position of category `c` among the groups, or -1.
pub open spec fn category_index(groups: Seq<(Seq<char>, Seq<Seq<char>>)>, c: Seq<char>) -> int
    decreases groups.len(),
{
    if groups.len() == 0 {
        -1
    } else if groups.last().0 == c {
        groups.len() - 1
    } else {
        category_index(groups.drop_last(), c)
    }
}

/// The entries grouped by category, categories in the order they first appear, the
/// titles of each in the order of the entries.
pub open spec fn categories_of(docs: Seq<JsonValue>) -> Seq<(Seq<char>, Seq<Seq<char>>)>
    decreases docs.len(),
{
    if docs.len() == 0 {
        Seq::empty()
    } else {
        let prev = categories_of(docs.drop_last());
        let c = doc_category(docs.last());
        let t = doc_title(docs.last());
        let i = category_index(prev, c);
        if i >= 0 {
            prev.update(i, (c, prev[i].1.push(t)))
        } else {
            prev.push((c, seq![t]))
        }
    }
}

pub open spec fn group_views(g: Seq<DocCategory>) -> Seq<(Seq<char>, Seq<Seq<char>>)> {
    Seq::new(g.len(), |i: int| (g[i].category@, texts(g[i].titles@)))
}

proof fn lemma_category_index(groups: Seq<(Seq<char>, Seq<Seq<char>>)>, c: Seq<char>)
    ensures
        -1 <= category_index(groups, c) < groups.len(),
        category_index(groups, c) >= 0 ==> groups[category_index(groups, c)].0 == c,
        category_index(groups, c) < 0 ==> forall|i: int| 0 <= i < groups.len() ==> #[trigger] groups[i].0 != c,
    decreases groups.len(),
{
    if groups.len() > 0 && groups.last().0 != c {
        lemma_category_index(groups.drop_last(), c);
        if category_index(groups, c) < 0 {
            assert forall|i: int| 0 <= i < groups.len() implies #[trigger] groups[i].0 != c by {
                if i < groups.len() - 1 {
                    assert(groups[i] == groups.drop_last()[i]);
                }
            }
        }
    }
}

fn find_category(groups: &Vec<DocCategory>, c: &str) -> (r: Option<usize>)
    ensures
        match r {
            Some(i) => category_index(group_views(groups@), c@) == i,
            None => category_index(group_views(groups@), c@) == -1,
        },
{
    let ghost g = group_views(groups@);
    let mut i: usize = groups.len();
    proof {
        assert(g.take(i as int) =~= g);
    }
    while i > 0
        invariant
            i <= groups@.len(),
            g == group_views(groups@),
            category_index(g, c@) == category_index(g.take(i as int), c@),
        decreases i,
    {
        proof {
            assert(g.take(i as int).drop_last() =~= g.take(i - 1));
            assert(g.take(i as int).last() == g[i - 1]);
        }
        if text_eq(groups[i - 1].category.as_str(), c) {
            return Some(i - 1);
        }
        i = i - 1;
    }
    None
}

/// Groups documentation entries by category.
pub fn categorize_docs(docs: &Vec<JsonValue>) -> (r: Vec<DocCategory>)
    ensures
        group_views(r@) == categories_of(docs@),
{
    let mut groups: Vec<DocCategory> = Vec::new();
    let mut k: usize = 0;
    while k < docs.len()
        invariant
            k <= docs@.len(),
            group_views(groups@) == categories_of(docs@.take(k as int)),
        decreases docs.len() - k,
    {
        proof {
            assert(docs@.take(k + 1).drop_last() =~= docs@.take(k as int));
            assert(docs@.take(k + 1).last() == docs@[k as int]);
        }
        let category = value_str_or(&docs[k], "category", "other");
        let title = value_str_or(&docs[k], "title", "unknown");
        let ghost before = group_views(groups@);
        proof {
            lemma_category_index(before, category@);
        }
        match find_category(&groups, category.as_str()) {
            Some(i) => {
                let mut entry = groups.remove(i);
                let ghost t = title@;
                entry.titles.push(title);
                groups.insert(i, entry);
                proof {
                    assert(texts(groups@[i as int].titles@) =~= before[i as int].1.push(t));
                    assert(group_views(groups@) =~= before.update(
                        i as int,
                        (category@, before[i as int].1.push(t)),
                    ));
                }
            },
            None => {
                let ghost t = title@;
                let ghost c = category@;
                groups.push(DocCategory { category, titles: vec![title] });
                proof {
                    assert(texts(groups@.last().titles@) =~= seq![t]);
                    assert(group_views(groups@) =~= before.push((c, seq![t])));
                }
            },
        }
        k = k + 1;
    }
    proof {
        assert(docs@.take(docs@.len() as int) =~= docs@);
    }
    groups
}

/// The titles a category lists: its first `MAX_LISTED_TITLES`.
pub fn listed_titles(titles: &Vec<String>) -> (r: Vec<String>)
    ensures
        texts(r@) == texts(titles@).take(
            if titles@.len() < MAX_LISTED_TITLES {
                titles@.len() as int
            } else {
                MAX_LISTED_TITLES as int
            },
        ),
{
    let n = if titles.len() < MAX_LISTED_TITLES {
        titles.len()
    } else {
        MAX_LISTED_TITLES
    };
    let mut r: Vec<String> = Vec::new();
    let mut i: usize = 0;
    while i < n
        invariant
            n <= titles@.len(),
            i <= n,
            r@.len() == i,
            forall|j: int| 0 <= j < i ==> #[trigger] r@[j]@ == titles@[j]@,
        decreases n - i,
    {
        r.push(titles[i].clone());
        i = i + 1;
    }
    proof {
        assert(texts(r@) =~= texts(titles@).take(n as int));
    }
    r
}

/// The documentation entries a provider lists under `docs`.
pub open spec fn provider_docs(info: ProviderInfo) -> Seq<JsonValue> {
    match json_as_array(members_get(info.extra@, "docs"@)) {
        Some(a) => a,
        None => Seq::empty(),
    }
}

/// A provider's documentation grouped by category, and how many entries there are.
pub fn provider_capabilities(info: &ProviderInfo) -> (r: (Vec<DocCategory>, usize))
    ensures
        group_views(r.0@) == categories_of(provider_docs(*info)),
        r.1 == provider_docs(*info).len(),
{
    match member_get(&info.extra, "docs") {
        Some(v) => match v.as_array() {
            Some(a) => (categorize_docs(a), a.len()),
            None => (Vec::new(), 0),
        },
        None => (Vec::new(), 0),
    }
}

/// How many titles the groups hold together.
pub open spec fn total_titles(groups: Seq<(Seq<char>, Seq<Seq<char>>)>) -> int
    decreases groups.len(),
{
    if groups.len() == 0 {
        0
    } else {
        total_titles(groups.drop_last()) + groups.last().1.len()
    }
}

proof fn lemma_total_update(groups: Seq<(Seq<char>, Seq<Seq<char>>)>, i: int, g: (Seq<char>, Seq<Seq<char>>))
    requires
        0 <= i < groups.len(),
    ensures
        total_titles(groups.update(i, g)) == total_titles(groups) - groups[i].1.len() + g.1.len(),
    decreases groups.len(),
{
    let u = groups.update(i, g);
    if i == groups.len() - 1 {
        assert(u.drop_last() =~= groups.drop_last());
    } else {
        lemma_total_update(groups.drop_last(), i, g);
        assert(u.drop_last() =~= groups.drop_last().update(i, g));
    }
}

proof fn lemma_categories_distinct(docs: Seq<JsonValue>)
    ensures
        forall|i: int, j: int|
            0 <= i < j < categories_of(docs).len() ==> (#[trigger] categories_of(docs)[i]).0
                != (#[trigger] categories_of(docs)[j]).0,
        forall|i: int| 0 <= i < categories_of(docs).len() ==> (#[trigger] categories_of(docs)[i]).1.len() > 0,
        total_titles(categories_of(docs)) == docs.len(),
    decreases docs.len(),
{
    if docs.len() > 0 {
        let d = docs.drop_last();
        lemma_categories_distinct(d);
        let prev = categories_of(d);
        let c = doc_category(docs.last());
        let t = doc_title(docs.last());
        lemma_category_index(prev, c);
        let idx = category_index(prev, c);
        let now = categories_of(docs);
        if idx >= 0 {
            lemma_total_update(prev, idx, (c, prev[idx].1.push(t)));
            assert forall|i: int, j: int| 0 <= i < j < now.len() implies (#[trigger] now[i]).0
                != (#[trigger] now[j]).0 by {
                assert(now[i].0 == prev[i].0);
                assert(now[j].0 == prev[j].0);
            }
        } else {
            assert(now.drop_last() =~= prev);
            assert forall|i: int, j: int| 0 <= i < j < now.len() implies (#[trigger] now[i]).0
                != (#[trigger] now[j]).0 by {
                if j < now.len() - 1 {
                    assert(now[i] == prev[i]);
                    assert(now[j] == prev[j]);
                } else {
                    assert(now[i] == prev[i]);
                }
            }
            assert forall|i: int| 0 <= i < now.len() implies (#[trigger] now[i]).1.len() > 0 by {
                if i < now.len() - 1 {
                    assert(now[i] == prev[i]);
                }
            }
        }
    }
}

/// Grouping by category loses no entry and repeats no category: every category
/// appears once, with at least one title, and the groups hold as many titles as
/// there are entries.
pub proof fn law_categories_account_for_every_doc(docs: Seq<JsonValue>)
    ensures
        total_titles(categories_of(docs)) == docs.len(),
        forall|i: int, j: int|
            0 <= i < j < categories_of(docs).len() ==> (#[trigger] categories_of(docs)[i]).0
                != (#[trigger] categories_of(docs)[j]).0,
        forall|i: int| 0 <= i < categories_of(docs).len() ==> (#[trigger] categories_of(docs)[i]).1.len() > 0,
{
    lemma_categories_distinct(docs);
}

} // verus!
