//! Lightweight in-process metrics with OTel-compatible names and attributes.
//!
//! Each metric keeps how often it was recorded, the sum and the largest of the recorded
//! amounts. Amounts are integers in the metric's base measure: nanoseconds for
//! durations (unit `s`), bytes for sizes (unit `By`), one per event otherwise.
use crate::text::{chars_of, decimal, decimal_string, text_eq};
use vstd::prelude::*;

verus! {

/// What identifies a metric series.
#[derive(Debug)]
pub struct MetricKey {
    pub name: String,
    pub unit: String,
    pub description: String,
    pub attributes: Vec<(String, String)>,
}

/// The running totals of a series.
#[derive(Debug, Clone, Copy, PartialEq, Eq, Structural)]
pub struct MetricTally {
    pub count: u64,
    pub sum: u128,
    pub max: u64,
}

/// The content of a metric key.
pub struct KeyView {
    pub name: Seq<char>,
    pub unit: Seq<char>,
    pub description: Seq<char>,
    pub attributes: Seq<(Seq<char>, Seq<char>)>,
}

pub open spec fn attribute_texts(a: Seq<(String, String)>) -> Seq<(Seq<char>, Seq<char>)> {
    Seq::new(a.len(), |i: int| (a[i].0@, a[i].1@))
}

pub open spec fn key_view(k: MetricKey) -> KeyView {
    KeyView {
        name: k.name@,
        unit: k.unit@,
        description: k.description@,
        attributes: attribute_texts(k.attributes@),
    }
}

/// The order of texts: by code point, a proper prefix first (the order of `String`).
pub open spec fn text_lt(a: Seq<char>, b: Seq<char>) -> bool
    decreases a.len(),
{
    if a.len() == 0 {
        b.len() > 0
    } else if b.len() == 0 {
        false
    } else if a[0] != b[0] {
        (a[0] as u32) < (b[0] as u32)
    } else {
        text_lt(a.drop_first(), b.drop_first())
    }
}

/// The order of attribute pairs: by name, then by value.
pub open spec fn pair_lt(a: (Seq<char>, Seq<char>), b: (Seq<char>, Seq<char>)) -> bool {
    text_lt(a.0, b.0) || (a.0 == b.0 && text_lt(a.1, b.1))
}

/// The order of attribute lists: pair by pair, a proper prefix first.
pub open spec fn attrs_lt(a: Seq<(Seq<char>, Seq<char>)>, b: Seq<(Seq<char>, Seq<char>)>) -> bool
    decreases a.len(),
{
    if a.len() == 0 {
        b.len() > 0
    } else if b.len() == 0 {
        false
    } else if a[0] != b[0] {
        pair_lt(a[0], b[0])
    } else {
        attrs_lt(a.drop_first(), b.drop_first())
    }
}

/// The order of metric keys: by name, unit, description, then attributes.
pub open spec fn key_lt(a: KeyView, b: KeyView) -> bool {
    if a.name != b.name {
        text_lt(a.name, b.name)
    } else if a.unit != b.unit {
        text_lt(a.unit, b.unit)
    } else if a.description != b.description {
        text_lt(a.description, b.description)
    } else {
        attrs_lt(a.attributes, b.attributes)
    }
}

proof fn lemma_seq_first_rest<A>(a: Seq<A>, b: Seq<A>)
    requires
        a.len() > 0,
        b.len() > 0,
        a[0] == b[0],
        a.drop_first() == b.drop_first(),
    ensures
        a == b,
{
    assert(a =~= seq![a[0]] + a.drop_first());
    assert(b =~= seq![b[0]] + b.drop_first());
}

proof fn lemma_text_lt_order(a: Seq<char>, b: Seq<char>, c: Seq<char>)
    ensures
        !text_lt(a, a),
        text_lt(a, b) && text_lt(b, c) ==> text_lt(a, c),
        a != b ==> text_lt(a, b) || text_lt(b, a),
    decreases a.len(),
{
    if a.len() > 0 && b.len() > 0 && c.len() > 0 {
        lemma_text_lt_order(a.drop_first(), b.drop_first(), c.drop_first());
    }
    if a.len() > 0 {
        lemma_text_lt_order(a.drop_first(), a.drop_first(), a.drop_first());
    }
    if a.len() == 0 && b.len() == 0 {
        assert(a =~= b);
    }
    if a.len() > 0 && b.len() > 0 {
        vstd::utf8::char_u32_cast(a[0], a[0] as u32);
        vstd::utf8::char_u32_cast(b[0], b[0] as u32);
        lemma_text_lt_order(a.drop_first(), b.drop_first(), b.drop_first());
        if a[0] == b[0] && a.drop_first() == b.drop_first() {
            lemma_seq_first_rest(a, b);
        }
    }
}

proof fn lemma_pair_lt_order(
    a: (Seq<char>, Seq<char>),
    b: (Seq<char>, Seq<char>),
    c: (Seq<char>, Seq<char>),
)
    ensures
        !pair_lt(a, a),
        pair_lt(a, b) && pair_lt(b, c) ==> pair_lt(a, c),
        a != b ==> pair_lt(a, b) || pair_lt(b, a),
{
    lemma_text_lt_order(a.0, b.0, c.0);
    lemma_text_lt_order(a.1, b.1, c.1);
    lemma_text_lt_order(b.0, a.0, c.0);
    lemma_text_lt_order(a.0, c.0, b.0);
    lemma_text_lt_order(b.0, b.0, b.0);
}

proof fn lemma_attrs_lt_order(
    a: Seq<(Seq<char>, Seq<char>)>,
    b: Seq<(Seq<char>, Seq<char>)>,
    c: Seq<(Seq<char>, Seq<char>)>,
)
    ensures
        !attrs_lt(a, a),
        attrs_lt(a, b) && attrs_lt(b, c) ==> attrs_lt(a, c),
        a != b ==> attrs_lt(a, b) || attrs_lt(b, a),
    decreases a.len(),
{
    if a.len() > 0 && b.len() > 0 && c.len() > 0 {
        lemma_attrs_lt_order(a.drop_first(), b.drop_first(), c.drop_first());
        lemma_pair_lt_order(a[0], b[0], c[0]);
    }
    if a.len() > 0 {
        lemma_attrs_lt_order(a.drop_first(), a.drop_first(), a.drop_first());
        lemma_pair_lt_order(a[0], a[0], a[0]);
    }
    if a.len() == 0 && b.len() == 0 {
        assert(a =~= b);
    }
    if a.len() > 0 && b.len() > 0 {
        lemma_attrs_lt_order(a.drop_first(), b.drop_first(), b.drop_first());
        lemma_pair_lt_order(a[0], b[0], b[0]);
        if a[0] == b[0] && a.drop_first() == b.drop_first() {
            lemma_seq_first_rest(a, b);
        }
    }
}

/// Keys are strictly ordered: no key is below itself, the order is transitive, and of
/// two different keys one is below the other.
pub proof fn lemma_key_lt_order(a: KeyView, b: KeyView, c: KeyView)
    ensures
        !key_lt(a, a),
        key_lt(a, b) && key_lt(b, c) ==> key_lt(a, c),
        a != b ==> key_lt(a, b) || key_lt(b, a),
{
    lemma_text_lt_order(a.name, b.name, c.name);
    lemma_text_lt_order(a.unit, b.unit, c.unit);
    lemma_text_lt_order(a.description, b.description, c.description);
    lemma_attrs_lt_order(a.attributes, b.attributes, c.attributes);
    lemma_text_lt_order(b.name, a.name, a.name);
    lemma_text_lt_order(b.unit, a.unit, a.unit);
    lemma_text_lt_order(b.description, a.description, a.description);
    lemma_attrs_lt_order(b.attributes, a.attributes, a.attributes);
}

/// The position of the series `k` in `s`, or -1.
pub open spec fn series_index(s: Seq<(KeyView, MetricTally)>, k: KeyView) -> int
    decreases s.len(),
{
    if s.len() == 0 {
        -1
    } else if s.last().0 == k {
        s.len() - 1
    } else {
        series_index(s.drop_last(), k)
    }
}

/// Whether the series of `s` stand in strictly increasing key order.
pub open spec fn keys_sorted(s: Seq<(KeyView, MetricTally)>) -> bool {
    forall|i: int, j: int| 0 <= i < j < s.len() ==> key_lt(#[trigger] s[i].0, #[trigger] s[j].0)
}

/// The totals of each series of `s`, by key.
pub open spec fn series_map(s: Seq<(KeyView, MetricTally)>) -> Map<KeyView, MetricTally> {
    Map::new(|k: KeyView| series_index(s, k) >= 0, |k: KeyView| s[series_index(s, k)].1)
}

/// The totals of series `k` in `m`; zero for a series not recorded yet.
pub open spec fn tally_of(m: Map<KeyView, MetricTally>, k: KeyView) -> MetricTally {
    if m.contains_key(k) {
        m[k]
    } else {
        zero_tally()
    }
}

/// The tally a series starts from.
pub open spec fn zero_tally() -> MetricTally {
    MetricTally { count: 0, sum: 0, max: 0 }
}

/// The totals after one more amount `v`.
pub open spec fn tally_add(t: MetricTally, v: u64) -> MetricTally {
    MetricTally {
        count: if t.count == u64::MAX { 0 } else { (t.count + 1) as u64 },
        sum: if t.sum + v > u128::MAX { (t.sum + v - u128::MAX - 1) as u128 } else { (t.sum + v) as u128 },
        max: if v > t.max { v } else { t.max },
    }
}

/// Recording `v` for series `k`: the series adds it, starting from zero when new; every
/// other series stays as it was.
pub open spec fn record_map(m: Map<KeyView, MetricTally>, k: KeyView, v: u64) -> Map<
    KeyView,
    MetricTally,
> {
    m.insert(k, tally_add(tally_of(m, k), v))
}

/// Recording a list of amounts in order.
pub open spec fn record_all(m: Map<KeyView, MetricTally>, recs: Seq<(KeyView, u64)>) -> Map<
    KeyView,
    MetricTally,
>
    decreases recs.len(),
{
    if recs.len() == 0 {
        m
    } else {
        record_map(record_all(m, recs.drop_last()), recs.last().0, recs.last().1)
    }
}

proof fn lemma_series_index_bounds(s: Seq<(KeyView, MetricTally)>, k: KeyView)
    ensures
        -1 <= series_index(s, k) < s.len(),
        series_index(s, k) >= 0 ==> s[series_index(s, k)].0 == k,
        forall|i: int| series_index(s, k) < i < s.len() ==> #[trigger] s[i].0 != k,
    decreases s.len(),
{
    if s.len() > 0 && s.last().0 != k {
        lemma_series_index_bounds(s.drop_last(), k);
        assert forall|i: int| series_index(s, k) < i < s.len() implies #[trigger] s[i].0 != k by {
            if i < s.len() - 1 {
                assert(s[i] == s.drop_last()[i]);
            }
        }
    }
}

/// In a sorted list a key stands at one place only.
proof fn lemma_series_index_at(s: Seq<(KeyView, MetricTally)>, q: int)
    requires
        keys_sorted(s),
        0 <= q < s.len(),
    ensures
        series_index(s, s[q].0) == q,
{
    lemma_series_index_bounds(s, s[q].0);
    let i = series_index(s, s[q].0);
    if i != q {
        lemma_key_lt_order(s[q].0, s[q].0, s[q].0);
        assert(key_lt(s[q].0, s[i].0));
    }
}

/// The map of a sorted list: key `s[q].0` holds `s[q].1`, and a key that no entry has
/// is absent.
proof fn lemma_series_map(s: Seq<(KeyView, MetricTally)>)
    requires
        keys_sorted(s),
    ensures
        forall|q: int| 0 <= q < s.len() ==> #[trigger] series_map(s).contains_key(s[q].0) && series_map(s)[s[q].0] == s[q].1,
        forall|k: KeyView| #[trigger] series_map(s).contains_key(k) ==> exists|q: int| 0 <= q < s.len() && s[q].0 == k,
{
    assert forall|q: int| 0 <= q < s.len() implies #[trigger] series_map(s).contains_key(s[q].0) && series_map(s)[s[q].0] == s[q].1 by {
        lemma_series_index_at(s, q);
    }
    assert forall|k: KeyView| #[trigger] series_map(s).contains_key(k) implies exists|q: int| 0 <= q < s.len() && s[q].0 == k by {
        lemma_series_index_bounds(s, k);
    }
}

pub open spec fn bool_text(b: bool) -> Seq<char> {
    if b {
        "true"@
    } else {
        "false"@
    }
}

/// The attributes of an HTTP request series.
pub open spec fn http_attributes(method: Seq<char>, route: Seq<char>, status: u16) -> Seq<
    (Seq<char>, Seq<char>),
> {
    seq![
        ("http.request.method"@, method),
        ("http.response.status_code"@, decimal(status as nat)),
        ("http.route"@, route),
    ]
}

/// The amounts an HTTP request records.
pub open spec fn http_records(
    method: Seq<char>,
    route: Seq<char>,
    status: u16,
    duration_nanos: u64,
    request_size: Option<u64>,
    response_size: Option<u64>,
) -> Seq<(KeyView, u64)> {
    let a = http_attributes(method, route, status);
    let d = seq![
        (
            KeyView {
                name: "http.server.request.duration"@,
                unit: "s"@,
                description: "HTTP server request duration"@,
                attributes: a,
            },
            duration_nanos,
        ),
    ];
    let with_request = match request_size {
        Some(n) => d.push(
            (
                KeyView {
                    name: "http.server.request.body.size"@,
                    unit: "By"@,
                    description: "HTTP server request body size"@,
                    attributes: a,
                },
                n,
            ),
        ),
        None => d,
    };
    match response_size {
        Some(n) => with_request.push(
            (
                KeyView {
                    name: "http.server.response.body.size"@,
                    unit: "By"@,
                    description: "HTTP server response body size"@,
                    attributes: a,
                },
                n,
            ),
        ),
        None => with_request,
    }
}

/// The attributes of a tool call series.
pub open spec fn tool_attributes(tool_name: Seq<char>, success: bool) -> Seq<(Seq<char>, Seq<char>)> {
    seq![("mcp.tool.name"@, tool_name), ("mcp.tool.success"@, bool_text(success))]
}

/// The amounts a tool call records: its count, its duration and, when it failed, an
/// error.
pub open spec fn tool_records(tool_name: Seq<char>, success: bool, duration_nanos: u64) -> Seq<
    (KeyView, u64),
> {
    let a = tool_attributes(tool_name, success);
    let base = seq![
        (
            KeyView {
                name: "mcp.server.tool.call.count"@,
                unit: "{call}"@,
                description: "MCP tool call count"@,
                attributes: a,
            },
            1u64,
        ),
        (
            KeyView {
                name: "mcp.server.tool.call.duration"@,
                unit: "s"@,
                description: "MCP tool call duration"@,
                attributes: a,
            },
            duration_nanos,
        ),
    ];
    if success {
        base
    } else {
        base.push(
            (
                KeyView {
                    name: "mcp.server.tool.call.errors"@,
                    unit: "{error}"@,
                    description: "MCP tool call error count"@,
                    attributes: a,
                },
                1u64,
            ),
        )
    }
}

/// All recorded series.
pub struct MetricsStore {
    values: Vec<(MetricKey, MetricTally)>,
}

fn attributes_eq(a: &Vec<(String, String)>, b: &Vec<(String, String)>) -> (r: bool)
    ensures
        r == (attribute_texts(a@) == attribute_texts(b@)),
{
    if a.len() != b.len() {
        proof {
            assert(attribute_texts(a@).len() != attribute_texts(b@).len());
        }
        return false;
    }
    let mut i: usize = 0;
    while i < a.len()
        invariant
            i <= a@.len() == b@.len(),
            forall|k: int| 0 <= k < i ==> #[trigger] attribute_texts(a@)[k] == attribute_texts(b@)[k],
        decreases a.len() - i,
    {
        if !text_eq(a[i].0.as_str(), b[i].0.as_str()) || !text_eq(a[i].1.as_str(), b[i].1.as_str()) {
            proof {
                assert(attribute_texts(a@)[i as int] != attribute_texts(b@)[i as int]);
            }
            return false;
        }
        i = i + 1;
    }
    proof {
        assert(attribute_texts(a@) =~= attribute_texts(b@));
    }
    true
}

fn key_eq(a: &MetricKey, b: &MetricKey) -> (r: bool)
    ensures
        r == (key_view(*a) == key_view(*b)),
{
    text_eq(a.name.as_str(), b.name.as_str()) && text_eq(a.unit.as_str(), b.unit.as_str())
        && text_eq(a.description.as_str(), b.description.as_str()) && attributes_eq(
        &a.attributes,
        &b.attributes,
    )
}

fn tally_add_exec(t: MetricTally, v: u64) -> (r: MetricTally)
    ensures
        r == tally_add(t, v),
{
    let count = if t.count == u64::MAX { 0 } else { t.count + 1 };
    let sum = if t.sum > u128::MAX - (v as u128) {
        t.sum - (u128::MAX - (v as u128)) - 1
    } else {
        t.sum + (v as u128)
    };
    MetricTally { count, sum, max: if v > t.max { v } else { t.max } }
}

proof fn lemma_text_lt_skip(a: Seq<char>, b: Seq<char>, i: int)
    requires
        0 <= i < a.len(),
        i < b.len(),
        a[i] == b[i],
    ensures
        text_lt(a.skip(i), b.skip(i)) == text_lt(a.skip(i + 1), b.skip(i + 1)),
{
    assert(a.skip(i).drop_first() =~= a.skip(i + 1));
    assert(b.skip(i).drop_first() =~= b.skip(i + 1));
}

/// Whether `a` comes before `b` in the order of texts.
fn text_less(a: &str, b: &str) -> (r: bool)
    ensures
        r == text_lt(a@, b@),
{
    let av = chars_of(a);
    let bv = chars_of(b);
    let mut i: usize = 0;
    proof {
        assert(a@.skip(0) =~= a@);
        assert(b@.skip(0) =~= b@);
    }
    while i < av.len() && i < bv.len() && av[i] == bv[i]
        invariant
            av@ == a@,
            bv@ == b@,
            i <= av@.len(),
            i <= bv@.len(),
            text_lt(a@, b@) == text_lt(a@.skip(i as int), b@.skip(i as int)),
        decreases av.len() - i,
    {
        proof {
            lemma_text_lt_skip(a@, b@, i as int);
        }
        i = i + 1;
    }
    if i == av.len() {
        i < bv.len()
    } else if i == bv.len() {
        false
    } else {
        proof {
            assert(a@.skip(i as int)[0] == a@[i as int]);
            assert(b@.skip(i as int)[0] == b@[i as int]);
        }
        (av[i] as u32) < (bv[i] as u32)
    }
}

fn pair_less(a: &(String, String), b: &(String, String)) -> (r: bool)
    ensures
        r == pair_lt((a.0@, a.1@), (b.0@, b.1@)),
{
    text_less(a.0.as_str(), b.0.as_str()) || (text_eq(a.0.as_str(), b.0.as_str()) && text_less(
        a.1.as_str(),
        b.1.as_str(),
    ))
}

proof fn lemma_attrs_lt_skip(a: Seq<(Seq<char>, Seq<char>)>, b: Seq<(Seq<char>, Seq<char>)>, i: int)
    requires
        0 <= i < a.len(),
        i < b.len(),
        a[i] == b[i],
    ensures
        attrs_lt(a.skip(i), b.skip(i)) == attrs_lt(a.skip(i + 1), b.skip(i + 1)),
{
    assert(a.skip(i).drop_first() =~= a.skip(i + 1));
    assert(b.skip(i).drop_first() =~= b.skip(i + 1));
}

/// Whether the attribute list `a` comes before `b`.
fn attrs_less(a: &Vec<(String, String)>, b: &Vec<(String, String)>) -> (r: bool)
    ensures
        r == attrs_lt(attribute_texts(a@), attribute_texts(b@)),
{
    let ghost x = attribute_texts(a@);
    let ghost y = attribute_texts(b@);
    let mut i: usize = 0;
    proof {
        assert(x.skip(0) =~= x);
        assert(y.skip(0) =~= y);
    }
    while i < a.len() && i < b.len() && text_eq(a[i].0.as_str(), b[i].0.as_str()) && text_eq(
        a[i].1.as_str(),
        b[i].1.as_str(),
    )
        invariant
            x == attribute_texts(a@),
            y == attribute_texts(b@),
            i <= a@.len(),
            i <= b@.len(),
            attrs_lt(x, y) == attrs_lt(x.skip(i as int), y.skip(i as int)),
        decreases a.len() - i,
    {
        proof {
            assert(x[i as int] == y[i as int]);
            lemma_attrs_lt_skip(x, y, i as int);
        }
        i = i + 1;
    }
    if i == a.len() {
        proof {
            assert(x.skip(i as int).len() == 0);
        }
        i < b.len()
    } else if i == b.len() {
        false
    } else {
        proof {
            assert(x.skip(i as int)[0] == x[i as int]);
            assert(y.skip(i as int)[0] == y[i as int]);
            assert(x[i as int] != y[i as int]);
        }
        pair_less(&a[i], &b[i])
    }
}

/// Whether key `a` comes before key `b`.
fn key_less(a: &MetricKey, b: &MetricKey) -> (r: bool)
    ensures
        r == key_lt(key_view(*a), key_view(*b)),
{
    if !text_eq(a.name.as_str(), b.name.as_str()) {
        text_less(a.name.as_str(), b.name.as_str())
    } else if !text_eq(a.unit.as_str(), b.unit.as_str()) {
        text_less(a.unit.as_str(), b.unit.as_str())
    } else if !text_eq(a.description.as_str(), b.description.as_str()) {
        text_less(a.description.as_str(), b.description.as_str())
    } else {
        attrs_less(&a.attributes, &b.attributes)
    }
}

impl MetricsStore {
    /// The series and their totals, in key order.
    pub closed spec fn series(&self) -> Seq<(KeyView, MetricTally)> {
        Seq::new(self.values@.len(), |i: int| (key_view(self.values@[i].0), self.values@[i].1))
    }

    /// The totals of every recorded series, by key.
    pub closed spec fn tallies(&self) -> Map<KeyView, MetricTally> {
        series_map(self.series())
    }

    /// The series stand in strictly increasing key order.
    #[verifier::type_invariant]
    spec fn inv(self) -> bool {
        keys_sorted(self.series())
    }

    /// A store with no series.
    pub fn new() -> (r: Self)
        ensures
            r.tallies() == Map::<KeyView, MetricTally>::empty(),
    {
        let r = MetricsStore { values: Vec::new() };
        proof {
            assert(r.tallies() =~= Map::<KeyView, MetricTally>::empty());
        }
        r
    }

    /// How many series there are.
    pub fn len(&self) -> (r: usize)
        ensures
            r == self.tallies().len(),
    {
        proof {
            use_type_invariant(self);
            lemma_series_map_len(self.series());
        }
        self.values.len()
    }

    /// Forgets every series.
    pub fn clear(&mut self)
        ensures
            final(self).tallies() == Map::<KeyView, MetricTally>::empty(),
    {
        self.values = Vec::new();
        proof {
            assert(self.tallies() =~= Map::<KeyView, MetricTally>::empty());
        }
    }

    /// Adds `value` to the series `key`, keeping the series in key order.
    pub fn record(&mut self, key: MetricKey, value: u64)
        ensures
            final(self).tallies() == record_map(old(self).tallies(), key_view(key), value),
    {
        proof {
            use_type_invariant(&*self);
        }
        let ghost s = self.series();
        let ghost k = key_view(key);
        let mut values: Vec<(MetricKey, MetricTally)> = Vec::new();
        std::mem::swap(&mut values, &mut self.values);
        let mut j: usize = 0;
        while j < values.len() && key_less(&values[j].0, &key)
            invariant
                j <= values@.len(),
                s == Seq::new(values@.len(), |i: int| (key_view(values@[i].0), values@[i].1)),
                keys_sorted(s),
                k == key_view(key),
                forall|q: int| 0 <= q < j ==> key_lt(#[trigger] s[q].0, k),
            decreases values.len() - j,
        {
            j = j + 1;
        }
        if j < values.len() && key_eq(&values[j].0, &key) {
            let t = tally_add_exec(values[j].1, value);
            proof {
                lemma_series_map(s);
                assert(series_map(s).contains_key(s[j as int].0));
                lemma_record_update(s, j as int, k, t);
            }
            values.set(j, (key, t));
            proof {
                assert(Seq::new(values@.len(), |i: int| (key_view(values@[i].0), values@[i].1)) =~= s.update(j as int, (k, t)));
            }
            self.values = values;
        } else {
            let t = tally_add_exec(MetricTally { count: 0, sum: 0, max: 0 }, value);
            proof {
                lemma_record_insert(s, j as int, k, t);
            }
            values.insert(j, (key, t));
            proof {
                assert(Seq::new(values@.len(), |i: int| (key_view(values@[i].0), values@[i].1)) =~= s.insert(j as int, (k, t)));
            }
            self.values = values;
        }
    }
}

proof fn lemma_series_index_same_keys(
    a: Seq<(KeyView, MetricTally)>,
    b: Seq<(KeyView, MetricTally)>,
    k: KeyView,
)
    requires
        a.len() == b.len(),
        forall|i: int| 0 <= i < a.len() ==> #[trigger] a[i].0 == b[i].0,
    ensures
        series_index(a, k) == series_index(b, k),
    decreases a.len(),
{
    if a.len() > 0 {
        assert forall|i: int| 0 <= i < a.drop_last().len() implies #[trigger] a.drop_last()[i].0
            == b.drop_last()[i].0 by {
            assert(a.drop_last()[i] == a[i] && b.drop_last()[i] == b[i]);
        }
        lemma_series_index_same_keys(a.drop_last(), b.drop_last(), k);
    }
}

proof fn lemma_record_update(s: Seq<(KeyView, MetricTally)>, j: int, k: KeyView, t: MetricTally)
    requires
        keys_sorted(s),
        0 <= j < s.len(),
        s[j].0 == k,
    ensures
        keys_sorted(s.update(j, (k, t))),
        series_map(s.update(j, (k, t))) == series_map(s).insert(k, t),
{
    let r = s.update(j, (k, t));
    assert(keys_sorted(r)) by {
        assert forall|a: int, b: int| 0 <= a < b < r.len() implies key_lt(#[trigger] r[a].0, #[trigger] r[b].0) by {
            assert(r[a].0 == s[a].0 && r[b].0 == s[b].0);
        }
    }
    let m = series_map(s).insert(k, t);
    assert forall|k2: KeyView| #[trigger] series_map(r).contains_key(k2) == m.contains_key(k2)
        && (m.contains_key(k2) ==> series_map(r)[k2] == m[k2]) by {
        lemma_series_index_same_keys(r, s, k2);
        lemma_series_index_bounds(s, k2);
        lemma_series_index_at(s, j);
    }
    assert(series_map(r) =~= m);
}

/// Where key `k2` stands after inserting a new key at `j`.
proof fn lemma_series_index_insert(
    s: Seq<(KeyView, MetricTally)>,
    j: int,
    e: (KeyView, MetricTally),
    k2: KeyView,
)
    requires
        keys_sorted(s),
        keys_sorted(s.insert(j, e)),
        0 <= j <= s.len(),
        k2 != e.0,
    ensures
        series_index(s.insert(j, e), k2) == ({
            let i = series_index(s, k2);
            if i < 0 {
                -1
            } else if i < j {
                i
            } else {
                i + 1
            }
        }),
{
    let r = s.insert(j, e);
    s.insert_ensures(j, e);
    lemma_series_index_bounds(s, k2);
    lemma_series_index_bounds(r, k2);
    let i = series_index(s, k2);
    if i >= 0 {
        if i < j {
            assert(r[i] == s[i]);
            lemma_series_index_at(r, i);
        } else {
            assert(r[i + 1] == s[i]);
            lemma_series_index_at(r, i + 1);
        }
    } else {
        let x = series_index(r, k2);
        if x >= 0 {
            if x < j {
                assert(r[x] == s[x]);
            } else if x > j {
                assert(r[x] == s[x - 1]);
            }
            lemma_series_index_at(s, if x < j { x } else { x - 1 });
        }
    }
}

proof fn lemma_record_insert(s: Seq<(KeyView, MetricTally)>, j: int, k: KeyView, t: MetricTally)
    requires
        keys_sorted(s),
        0 <= j <= s.len(),
        forall|q: int| 0 <= q < j ==> key_lt(#[trigger] s[q].0, k),
        j < s.len() ==> !key_lt(s[j].0, k) && s[j].0 != k,
    ensures
        keys_sorted(s.insert(j, (k, t))),
        series_map(s.insert(j, (k, t))) == series_map(s).insert(k, t),
        !series_map(s).contains_key(k),
{
    lemma_key_lt_order(k, k, k);
    lemma_series_index_bounds(s, k);
    if j < s.len() {
        lemma_key_lt_order(k, s[j].0, s[j].0);
        assert(key_lt(k, s[j].0));
    }
    assert forall|q: int| j < q < s.len() implies key_lt(k, #[trigger] s[q].0) by {
        assert(key_lt(s[j].0, s[q].0));
        lemma_key_lt_order(k, s[j].0, s[q].0);
    }
    let r = s.insert(j, (k, t));
    s.insert_ensures(j, (k, t));
    assert(keys_sorted(r)) by {
        assert forall|a: int, b: int| 0 <= a < b < r.len() implies key_lt(#[trigger] r[a].0, #[trigger] r[b].0) by {
            if a < j && b < j {
                assert(r[a] == s[a] && r[b] == s[b]);
            } else if a < j && b == j {
                assert(r[a] == s[a]);
            } else if a < j {
                assert(r[a] == s[a] && r[b] == s[b - 1]);
                lemma_key_lt_order(s[a].0, k, s[b - 1].0);
            } else if a == j {
                assert(r[b] == s[b - 1]);
            } else {
                assert(r[a] == s[a - 1] && r[b] == s[b - 1]);
            }
        }
    }
    let m = series_map(s).insert(k, t);
    assert forall|k2: KeyView| #[trigger] series_map(r).contains_key(k2) == m.contains_key(k2)
        && (m.contains_key(k2) ==> series_map(r)[k2] == m[k2]) by {
        if k2 == k {
            lemma_series_index_at(r, j);
        } else {
            lemma_series_index_insert(s, j, (k, t), k2);
            lemma_series_index_bounds(s, k2);
        }
    }
    assert(series_map(r) =~= m);
}

/// A sorted list has as many entries as its map has keys.
proof fn lemma_series_map_len(s: Seq<(KeyView, MetricTally)>)
    requires
        keys_sorted(s),
    ensures
        series_map(s).dom().finite(),
        series_map(s).len() == s.len(),
    decreases s.len(),
{
    lemma_series_map(s);
    if s.len() == 0 {
        assert(series_map(s).dom() =~= Set::<KeyView>::empty());
    } else {
        let p = s.drop_last();
        assert(keys_sorted(p)) by {
            assert forall|i: int, j: int| 0 <= i < j < p.len() implies key_lt(#[trigger] p[i].0, #[trigger] p[j].0) by {
                assert(p[i] == s[i] && p[j] == s[j]);
            }
        }
        lemma_series_map_len(p);
        lemma_series_map(p);
        let last = s[s.len() - 1];
        assert forall|q: int| 0 <= q < p.len() implies #[trigger] p[q].0 != last.0 by {
            assert(p[q] == s[q]);
            lemma_key_lt_order(last.0, last.0, last.0);
        }
        assert(!series_map(p).contains_key(last.0));
        assert(series_map(s).dom() =~= series_map(p).dom().insert(last.0)) by {
            assert forall|k: KeyView| series_map(s).dom().contains(k) implies series_map(p).dom().contains(k) || k == last.0 by {
                let q = choose|q: int| 0 <= q < s.len() && s[q].0 == k;
                if q < p.len() {
                    assert(p[q] == s[q]);
                    assert(series_map(p).contains_key(p[q].0));
                }
            }
            assert forall|k: KeyView| series_map(p).dom().contains(k) implies series_map(s).dom().contains(k) by {
                let q = choose|q: int| 0 <= q < p.len() && p[q].0 == k;
                assert(p[q] == s[q]);
                assert(series_map(s).contains_key(s[q].0));
            }
            assert(series_map(s).contains_key(s[s.len() - 1].0));
        }
    }
}

/// One series as a caller reads it.
#[derive(Debug)]
pub struct MetricSnapshot {
    pub name: String,
    pub description: String,
    pub unit: String,
    pub attributes: Vec<(String, String)>,
    pub count: u64,
    pub sum: u128,
    pub max: u64,
}

/// The series a snapshot entry describes.
pub open spec fn snapshot_view(m: MetricSnapshot) -> (KeyView, MetricTally) {
    (
        KeyView {
            name: m.name@,
            unit: m.unit@,
            description: m.description@,
            attributes: attribute_texts(m.attributes@),
        },
        MetricTally { count: m.count, sum: m.sum, max: m.max },
    )
}

/// The series a snapshot lists, in its order.
pub open spec fn snapshot_series(r: Seq<MetricSnapshot>) -> Seq<(KeyView, MetricTally)> {
    Seq::new(r.len(), |i: int| snapshot_view(r[i]))
}

fn copy_attributes(a: &Vec<(String, String)>) -> (r: Vec<(String, String)>)
    ensures
        attribute_texts(r@) == attribute_texts(a@),
{
    let mut r: Vec<(String, String)> = Vec::new();
    let mut i: usize = 0;
    while i < a.len()
        invariant
            i <= a@.len(),
            r@.len() == i,
            forall|j: int| 0 <= j < i ==> #[trigger] r@[j].0@ == a@[j].0@ && r@[j].1@ == a@[j].1@,
        decreases a.len() - i,
    {
        r.push((a[i].0.clone(), a[i].1.clone()));
        i = i + 1;
    }
    proof {
        assert(attribute_texts(r@) =~= attribute_texts(a@));
    }
    r
}

/// Every series with its totals, ordered by name, unit, description and attributes,
/// each key once.
pub fn snapshot(store: &MetricsStore) -> (r: Vec<MetricSnapshot>)
    ensures
        keys_sorted(snapshot_series(r@)),
        series_map(snapshot_series(r@)) == store.tallies(),
{
    proof {
        use_type_invariant(store);
    }
    let mut r: Vec<MetricSnapshot> = Vec::new();
    let n = store.values.len();
    let mut i: usize = 0;
    while i < n
        invariant
            n == store.series().len(),
            i <= n,
            r@.len() == i,
            forall|j: int| 0 <= j < i ==> #[trigger] snapshot_view(r@[j]) == store.series()[j],
        decreases n - i,
    {
        let key = &store.values[i].0;
        let tally = store.values[i].1;
        r.push(
            MetricSnapshot {
                name: key.name.clone(),
                description: key.description.clone(),
                unit: key.unit.clone(),
                attributes: copy_attributes(&key.attributes),
                count: tally.count,
                sum: tally.sum,
                max: tally.max,
            },
        );
        proof {
            assert(snapshot_view(r@[i as int]) == store.series()[i as int]);
        }
        i = i + 1;
    }
    proof {
        assert(snapshot_series(r@) =~= store.series());
    }
    r
}

/// Recording the first `n + 1` amounts is recording the first `n`, then the next one.
proof fn lemma_record_all_step(m: Map<KeyView, MetricTally>, recs: Seq<(KeyView, u64)>, n: int)
    requires
        0 <= n < recs.len(),
    ensures
        record_all(m, recs.take(n + 1)) == record_map(record_all(m, recs.take(n)), recs[n].0, recs[n].1),
{
    assert(recs.take(n + 1).drop_last() =~= recs.take(n));
}

proof fn lemma_record_none(m: Map<KeyView, MetricTally>, recs: Seq<(KeyView, u64)>)
    ensures
        record_all(m, recs.take(0)) == m,
{
    assert(recs.take(0) =~= Seq::<(KeyView, u64)>::empty());
}

fn attr(k: &str, v: String) -> (r: (String, String))
    ensures
        r.0@ == k@,
        r.1@ == v@,
{
    (k.to_owned(), v)
}

fn metric_key(name: &str, unit: &str, description: &str, attributes: Vec<(String, String)>) -> (r:
    MetricKey)
    ensures
        key_view(r) == (KeyView {
            name: name@,
            unit: unit@,
            description: description@,
            attributes: attribute_texts(attributes@),
        }),
{
    MetricKey {
        name: name.to_owned(),
        unit: unit.to_owned(),
        description: description.to_owned(),
        attributes,
    }
}

fn http_attribute_list(method: &str, route: &str, status: u16) -> (r: Vec<(String, String)>)
    ensures
        attribute_texts(r@) == http_attributes(method@, route@, status),
{
    let r = vec![
        attr("http.request.method", method.to_owned()),
        attr("http.response.status_code", decimal_string(status as u64)),
        attr("http.route", route.to_owned()),
    ];
    proof {
        assert(attribute_texts(r@) =~= http_attributes(method@, route@, status));
    }
    r
}

fn tool_attribute_list(tool_name: &str, success: bool) -> (r: Vec<(String, String)>)
    ensures
        attribute_texts(r@) == tool_attributes(tool_name@, success),
{
    let r = vec![
        attr("mcp.tool.name", tool_name.to_owned()),
        attr(
            "mcp.tool.success",
            if success {
                "true".to_owned()
            } else {
                "false".to_owned()
            },
        ),
    ];
    proof {
        assert(attribute_texts(r@) =~= tool_attributes(tool_name@, success));
    }
    r
}

/// Records an HTTP request: its duration, and the body sizes that are known.
pub fn record_http_request(
    store: &mut MetricsStore,
    method: &str,
    route: &str,
    status: u16,
    duration_nanos: u64,
    request_size: Option<u64>,
    response_size: Option<u64>,
)
    ensures
        final(store).tallies() == record_all(
            old(store).tallies(),
            http_records(method@, route@, status, duration_nanos, request_size, response_size),
        ),
{
    let ghost recs = http_records(method@, route@, status, duration_nanos, request_size, response_size);
    let ghost s0 = store.tallies();
    proof {
        lemma_record_none(s0, recs);
    }
    store.record(
        metric_key(
            "http.server.request.duration",
            "s",
            "HTTP server request duration",
            http_attribute_list(method, route, status),
        ),
        duration_nanos,
    );
    proof {
        lemma_record_all_step(s0, recs, 0);
    }
    let ghost mut n: int = 1;
    if let Some(size) = request_size {
        store.record(
            metric_key(
                "http.server.request.body.size",
                "By",
                "HTTP server request body size",
                http_attribute_list(method, route, status),
            ),
            size,
        );
        proof {
            lemma_record_all_step(s0, recs, 1);
            n = 2;
        }
    }
    assert(record_all(s0, recs.take(n)) == store.tallies());
    if let Some(size) = response_size {
        store.record(
            metric_key(
                "http.server.response.body.size",
                "By",
                "HTTP server response body size",
                http_attribute_list(method, route, status),
            ),
            size,
        );
        proof {
            lemma_record_all_step(s0, recs, n);
            n = n + 1;
        }
    }
    proof {
        assert(recs.take(n) =~= recs);
    }
}

/// Records a tool call: its count and duration, and an error when it failed.
pub fn record_tool_call(store: &mut MetricsStore, tool_name: &str, success: bool, duration_nanos: u64)
    ensures
        final(store).tallies() == record_all(
            old(store).tallies(),
            tool_records(tool_name@, success, duration_nanos),
        ),
{
    let ghost recs = tool_records(tool_name@, success, duration_nanos);
    let ghost s0 = store.tallies();
    proof {
        lemma_record_none(s0, recs);
    }
    store.record(
        metric_key(
            "mcp.server.tool.call.count",
            "{call}",
            "MCP tool call count",
            tool_attribute_list(tool_name, success),
        ),
        1,
    );
    proof {
        lemma_record_all_step(s0, recs, 0);
    }
    store.record(
        metric_key(
            "mcp.server.tool.call.duration",
            "s",
            "MCP tool call duration",
            tool_attribute_list(tool_name, success),
        ),
        duration_nanos,
    );
    proof {
        lemma_record_all_step(s0, recs, 1);
    }
    if !success {
        store.record(
            metric_key(
                "mcp.server.tool.call.errors",
                "{error}",
                "MCP tool call error count",
                tool_attribute_list(tool_name, success),
            ),
            1,
        );
        proof {
            lemma_record_all_step(s0, recs, 2);
            assert(recs.take(3) =~= recs);
        }
    } else {
        proof {
            assert(recs.take(2) =~= recs);
        }
    }
}

/// Forgets every recorded series.
pub fn reset_for_tests(store: &mut MetricsStore)
    ensures
        final(store).tallies() == Map::<KeyView, MetricTally>::empty(),
{
    store.clear();
}

/// The key of a tool's series `name` (with its unit and description).
pub open spec fn tool_key(tool_name: Seq<char>, success: bool, which: nat) -> KeyView {
    let a = tool_attributes(tool_name, success);
    if which == 0 {
        KeyView {
            name: "mcp.server.tool.call.count"@,
            unit: "{call}"@,
            description: "MCP tool call count"@,
            attributes: a,
        }
    } else if which == 1 {
        KeyView {
            name: "mcp.server.tool.call.duration"@,
            unit: "s"@,
            description: "MCP tool call duration"@,
            attributes: a,
        }
    } else {
        KeyView {
            name: "mcp.server.tool.call.errors"@,
            unit: "{error}"@,
            description: "MCP tool call error count"@,
            attributes: a,
        }
    }
}

/// The key of an HTTP request's series: its duration (0), request body size (1) or
/// response body size (2).
pub open spec fn http_key(method: Seq<char>, route: Seq<char>, status: u16, which: nat) -> KeyView {
    let a = http_attributes(method, route, status);
    if which == 0 {
        KeyView {
            name: "http.server.request.duration"@,
            unit: "s"@,
            description: "HTTP server request duration"@,
            attributes: a,
        }
    } else if which == 1 {
        KeyView {
            name: "http.server.request.body.size"@,
            unit: "By"@,
            description: "HTTP server request body size"@,
            attributes: a,
        }
    } else {
        KeyView {
            name: "http.server.response.body.size"@,
            unit: "By"@,
            description: "HTTP server response body size"@,
            attributes: a,
        }
    }
}

/// Recording `v` for `k` adds it to the series `k` (created from zero if missing) and
/// leaves every other series as it was.
pub proof fn law_record_updates_only_its_series(m: Map<KeyView, MetricTally>, k: KeyView, v: u64)
    ensures
        record_map(m, k, v).contains_key(k),
        record_map(m, k, v)[k] == tally_add(tally_of(m, k), v),
        forall|k2: KeyView|
            k2 != k ==> (#[trigger] record_map(m, k, v).contains_key(k2) == m.contains_key(k2)
                && tally_of(record_map(m, k, v), k2) == tally_of(m, k2)),
{
}

/// A tool call adds one to its count series and its duration to its duration series,
/// adds one to its error series exactly when it failed, and leaves every other series
/// as it was.
pub proof fn law_tool_call_effect(
    m: Map<KeyView, MetricTally>,
    tool_name: Seq<char>,
    success: bool,
    duration_nanos: u64,
)
    ensures
        record_all(m, tool_records(tool_name, success, duration_nanos)) == ({
            let c = tool_key(tool_name, success, 0);
            let d = tool_key(tool_name, success, 1);
            let e = tool_key(tool_name, success, 2);
            let m1 = m.insert(c, tally_add(tally_of(m, c), 1)).insert(
                d,
                tally_add(tally_of(m, d), duration_nanos),
            );
            if success {
                m1
            } else {
                m1.insert(e, tally_add(tally_of(m, e), 1))
            }
        }),
{
    let recs = tool_records(tool_name, success, duration_nanos);
    let c = tool_key(tool_name, success, 0);
    let d = tool_key(tool_name, success, 1);
    let e = tool_key(tool_name, success, 2);
    reveal_strlit("mcp.server.tool.call.count");
    reveal_strlit("mcp.server.tool.call.duration");
    reveal_strlit("mcp.server.tool.call.errors");
    assert(c.name[21] != d.name[21] && c.name[21] != e.name[21] && d.name[21] != e.name[21]);
    assert(recs[0].0 == c && recs[1].0 == d);
    lemma_record_none(m, recs);
    lemma_record_all_step(m, recs, 0);
    lemma_record_all_step(m, recs, 1);
    let m0 = m.insert(c, tally_add(tally_of(m, c), 1));
    assert(tally_of(m0, d) == tally_of(m, d));
    if success {
        assert(recs.take(2) =~= recs);
    } else {
        lemma_record_all_step(m, recs, 2);
        assert(recs.take(3) =~= recs);
        let m1 = m0.insert(d, tally_add(tally_of(m, d), duration_nanos));
        assert(tally_of(m1, e) == tally_of(m, e));
    }
}

/// An HTTP request adds its duration to its duration series and each known body size to
/// that size's series, and leaves every other series as it was.
pub proof fn law_http_request_effect(
    m: Map<KeyView, MetricTally>,
    method: Seq<char>,
    route: Seq<char>,
    status: u16,
    duration_nanos: u64,
    request_size: Option<u64>,
    response_size: Option<u64>,
)
    ensures
        record_all(m, http_records(method, route, status, duration_nanos, request_size, response_size))
            == ({
            let d = http_key(method, route, status, 0);
            let q = http_key(method, route, status, 1);
            let p = http_key(method, route, status, 2);
            let m1 = m.insert(d, tally_add(tally_of(m, d), duration_nanos));
            let m2 = match request_size {
                Some(n) => m1.insert(q, tally_add(tally_of(m, q), n)),
                None => m1,
            };
            match response_size {
                Some(n) => m2.insert(p, tally_add(tally_of(m, p), n)),
                None => m2,
            }
        }),
{
    let recs = http_records(method, route, status, duration_nanos, request_size, response_size);
    let d = http_key(method, route, status, 0);
    let q = http_key(method, route, status, 1);
    let p = http_key(method, route, status, 2);
    reveal_strlit("http.server.request.duration");
    reveal_strlit("http.server.request.body.size");
    reveal_strlit("http.server.response.body.size");
    assert(d.name[20] != q.name[20] && d.name[14] != p.name[14] && q.name[14] != p.name[14]);
    let m1 = m.insert(d, tally_add(tally_of(m, d), duration_nanos));
    assert(tally_of(m1, q) == tally_of(m, q));
    assert(tally_of(m1, p) == tally_of(m, p));
    lemma_record_none(m, recs);
    lemma_record_all_step(m, recs, 0);
    assert(recs[0].0 == d);
    let m2 = match request_size {
        Some(n) => m1.insert(q, tally_add(tally_of(m, q), n)),
        None => m1,
    };
    let k: int = if request_size is Some { 2 } else { 1 };
    if request_size is Some {
        assert(recs[1].0 == q);
        lemma_record_all_step(m, recs, 1);
    }
    assert(record_all(m, recs.take(k)) == m2);
    assert(tally_of(m2, p) == tally_of(m, p));
    if response_size is Some {
        assert(recs[k].0 == p);
        lemma_record_all_step(m, recs, k);
        assert(recs.take(k + 1) =~= recs);
    } else {
        assert(recs.take(k) =~= recs);
    }
}

/// The sum of the amounts `vs`.
pub open spec fn amounts_sum(vs: Seq<u64>) -> nat
    decreases vs.len(),
{
    if vs.len() == 0 {
        0
    } else {
        amounts_sum(vs.drop_last()) + vs.last() as nat
    }
}

/// The largest of the amounts `vs`, or zero.
pub open spec fn amounts_max(vs: Seq<u64>) -> u64
    decreases vs.len(),
{
    if vs.len() == 0 {
        0
    } else if vs.last() > amounts_max(vs.drop_last()) {
        vs.last()
    } else {
        amounts_max(vs.drop_last())
    }
}

/// The records of the amounts `vs`, all under key `k`.
pub open spec fn records_under(k: KeyView, vs: Seq<u64>) -> Seq<(KeyView, u64)> {
    Seq::new(vs.len(), |i: int| (k, vs[i]))
}

/// Recording the amounts `v_1, ..., v_n` (n >= 1) under one key into a store without
/// series leaves exactly that one series, with count `n`, sum `v_1 + ... + v_n` and max
/// the largest of zero and the amounts.
pub proof fn law_records_under_one_key(k: KeyView, vs: Seq<u64>)
    requires
        vs.len() <= u64::MAX,
        amounts_sum(vs) <= u128::MAX,
    ensures
        vs.len() == 0 ==> record_all(Map::empty(), records_under(k, vs)) == Map::<KeyView, MetricTally>::empty(),
        vs.len() > 0 ==> record_all(Map::empty(), records_under(k, vs)).dom() == set![k],
        vs.len() > 0 ==> record_all(Map::empty(), records_under(k, vs))[k] == (MetricTally {
            count: vs.len() as u64,
            sum: amounts_sum(vs) as u128,
            max: amounts_max(vs),
        }),
    decreases vs.len(),
{
    if vs.len() > 0 {
        let p = vs.drop_last();
        assert(records_under(k, vs).drop_last() =~= records_under(k, p));
        assert(records_under(k, vs).last() == (k, vs.last()));
        law_records_under_one_key(k, p);
        let m = record_all(Map::empty(), records_under(k, p));
        if p.len() == 0 {
            assert(m == Map::<KeyView, MetricTally>::empty());
        } else {
            assert(m.contains_key(k));
        }
        let r = record_all(Map::empty(), records_under(k, vs));
        assert(r == record_map(m, k, vs.last()));
        assert(r.dom() =~= set![k]);
        let t = tally_of(m, k);
        assert(t == (MetricTally { count: p.len() as u64, sum: amounts_sum(p) as u128, max: amounts_max(p) }));
        assert(amounts_sum(vs) == amounts_sum(p) + vs.last());
        assert(r[k] == tally_add(t, vs.last()));
    }
}

} // verus!
