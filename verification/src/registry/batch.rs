//! Planning batches of registry lookups that run a bounded number at a time.
use vstd::prelude::*;

verus! {

/// The fewest and the most lookups a batch runs at once.
pub const MIN_CONCURRENT: usize = 1;

pub const MAX_CONCURRENT: usize = 10;

/// `n` clamped into `[MIN_CONCURRENT, MAX_CONCURRENT]`.
pub open spec fn clamp_concurrency(n: usize) -> usize {
    if n < MIN_CONCURRENT {
        MIN_CONCURRENT
    } else if n > MAX_CONCURRENT {
        MAX_CONCURRENT
    } else {
        n
    }
}

/// Runs registry lookups in chunks of at most `max_concurrent`; the client is the
/// caller's.
#[derive(Debug)]
pub struct BatchFetcher<C> {
    pub client: C,
    pub max_concurrent: usize,
}

/// The range of chunk `k` of `total` items cut in chunks of `size`.
pub open spec fn chunk_spec(total: int, size: int, k: int) -> (int, int) {
    (k * size, if (k + 1) * size < total {
        (k + 1) * size
    } else {
        total
    })
}

/// How many chunks of `size` cover `total` items.
pub open spec fn chunk_count(total: int, size: int) -> int {
    (total + size - 1) / size
}

pub open spec fn range_views(r: Seq<(usize, usize)>) -> Seq<(int, int)> {
    Seq::new(r.len(), |i: int| (r[i].0 as int, r[i].1 as int))
}

impl<C> BatchFetcher<C> {
    /// A fetcher running at most `max_concurrent` lookups at once, kept between one
    /// and ten.
    pub fn new(client: C, max_concurrent: usize) -> (r: Self)
        ensures
            r.max_concurrent == clamp_concurrency(max_concurrent),
            r.client == client,
    {
        let n = if max_concurrent < MIN_CONCURRENT {
            MIN_CONCURRENT
        } else if max_concurrent > MAX_CONCURRENT {
            MAX_CONCURRENT
        } else {
            max_concurrent
        };
        BatchFetcher { client, max_concurrent: n }
    }

    /// The client the lookups go through.
    pub fn client(&self) -> (r: &C)
        ensures
            *r == self.client,
    {
        &self.client
    }

    /// The chunks, as index ranges, in which `total` lookups are run: in order, each of
    /// `max_concurrent` lookups but the last.
    pub fn chunk_ranges(&self, total: usize) -> (r: Vec<(usize, usize)>)
        requires
            self.max_concurrent > 0,
        ensures
            r@.len() == chunk_count(total as int, self.max_concurrent as int),
            forall|k: int|
                0 <= k < r@.len() ==> #[trigger] range_views(r@)[k] == chunk_spec(
                    total as int,
                    self.max_concurrent as int,
                    k,
                ),
    {
        let size = self.max_concurrent;
        let mut r: Vec<(usize, usize)> = Vec::new();
        let mut start: usize = 0;
        proof {
            lemma_chunk_count_start(total as int, size as int);
            assert(r@.len() * size == 0) by (nonlinear_arith)
                requires
                    r@.len() == 0,
            ;
        }
        while start < total
            invariant
                size == self.max_concurrent,
                size > 0,
                start <= total,
                start < total ==> start == r@.len() * size,
                start < total ==> r@.len() < chunk_count(total as int, size as int),
                start == total ==> r@.len() == chunk_count(total as int, size as int),
                forall|k: int|
                    0 <= k < r@.len() ==> #[trigger] range_views(r@)[k] == chunk_spec(
                        total as int,
                        size as int,
                        k,
                    ),
            decreases total - start,
        {
            let end = if total - start > size {
                start + size
            } else {
                total
            };
            let ghost k = r@.len() as int;
            proof {
                assert((k + 1) * size == k * size + size) by (nonlinear_arith);
            }
            let ghost before = r@;
            r.push((start, end));
            proof {
                assert(range_views(r@)[k] == chunk_spec(total as int, size as int, k));
                assert forall|j: int| 0 <= j < r@.len() implies #[trigger] range_views(r@)[j]
                    == chunk_spec(total as int, size as int, j) by {
                    if j < k {
                        assert(range_views(r@)[j] == range_views(before)[j]);
                    }
                }
                lemma_chunk_count_step(total as int, size as int, k, end as int);
            }
            start = end;
        }
        r
    }
}

proof fn lemma_chunk_count_step(total: int, size: int, k: int, end: int)
    requires
        size > 0,
        0 <= k,
        k * size < total,
        end == if (k + 1) * size < total {
            (k + 1) * size
        } else {
            total
        },
        (k + 1) * size == k * size + size,
    ensures
        end < total ==> k + 1 < chunk_count(total, size) && end == (k + 1) * size,
        end == total ==> k + 1 == chunk_count(total, size),
{
    let c = chunk_count(total, size);
    if end < total {
        assert((k + 1) * size < total);
        assert(k + 1 < (total + size - 1) / size) by (nonlinear_arith)
            requires
                (k + 1) * size < total,
                size > 0,
                0 <= k,
        {
            assert((k + 2) * size <= total + size - 1) by (nonlinear_arith)
                requires
                    (k + 1) * size < total,
                    size > 0,
            ;
        }
    } else {
        assert(k + 1 == (total + size - 1) / size) by (nonlinear_arith)
            requires
                k * size < total,
                total <= (k + 1) * size,
                size > 0,
                0 <= k,
        {
            assert(k * size + size >= total);
            assert((k + 1) * size <= total + size - 1);
            assert(total + size - 1 < (k + 2) * size);
        }
    }
}

/// Cutting `total` lookups into chunks covers every index once, in order, each chunk
/// non-empty and no larger than the chunk size.
pub proof fn law_chunks_cover_in_order(total: nat, size: nat)
    requires
        size > 0,
    ensures
        total == 0 ==> chunk_count(total as int, size as int) == 0,
        total > 0 ==> chunk_spec(total as int, size as int, 0).0 == 0 && chunk_spec(
            total as int,
            size as int,
            chunk_count(total as int, size as int) - 1,
        ).1 == total,
        forall|k: int|
            0 <= k < chunk_count(total as int, size as int) ==> {
                let c = #[trigger] chunk_spec(total as int, size as int, k);
                &&& c.0 < c.1
                &&& c.1 - c.0 <= size
                &&& k + 1 < chunk_count(total as int, size as int) ==> c.1 == chunk_spec(
                    total as int,
                    size as int,
                    k + 1,
                ).0
            },
{
    let t = total as int;
    let s = size as int;
    let n = chunk_count(t, s);
    if total == 0 {
        assert((s - 1) / s == 0) by (nonlinear_arith)
            requires
                s > 0,
        ;
    } else {
        assert(0 * s == 0);
        assert((n - 1) * s < t && t <= n * s) by (nonlinear_arith)
            requires
                n == (t + s - 1) / s,
                s > 0,
                t > 0,
        ;
    }
    assert forall|k: int| 0 <= k < n implies {
        let c = #[trigger] chunk_spec(t, s, k);
        &&& c.0 < c.1
        &&& c.1 - c.0 <= s
        &&& k + 1 < n ==> c.1 == chunk_spec(t, s, k + 1).0
    } by {
        lemma_chunk_bounds(t, s, n, k);
    }
}

proof fn lemma_chunk_bounds(t: int, s: int, n: int, k: int)
    requires
        s > 0,
        n == (t + s - 1) / s,
        0 <= k < n,
    ensures
        k * s < t,
        (k + 1) * s == k * s + s,
        k + 1 < n ==> (k + 1) * s < t,
{
    assert(n * s <= t + s - 1) by (nonlinear_arith)
        requires
            n == (t + s - 1) / s,
            s > 0,
    ;
    assert((k + 1) * s <= n * s) by (nonlinear_arith)
        requires
            k + 1 <= n,
            s > 0,
    ;
    assert((k + 1) * s == k * s + s) by (nonlinear_arith);
    if k + 1 < n {
        assert((k + 2) * s <= n * s) by (nonlinear_arith)
            requires
                k + 2 <= n,
                s > 0,
        ;
        assert((k + 2) * s == (k + 1) * s + s) by (nonlinear_arith);
    }
}

proof fn lemma_chunk_count_start(total: int, size: int)
    requires
        size > 0,
        total >= 0,
    ensures
        0 < total ==> 0 < chunk_count(total, size),
        0 == total ==> chunk_count(total, size) == 0,
{
    if total > 0 {
        assert((total + size - 1) / size >= 1) by (nonlinear_arith)
            requires
                total > 0,
                size > 0,
        ;
    } else {
        assert((size - 1) / size == 0) by (nonlinear_arith)
            requires
                size > 0,
        ;
    }
}

/// What a batch fetches for each provider.
#[derive(Debug, Clone, Copy, PartialEq, Eq, Structural)]
pub enum ProviderBatchKind {
    Info,
    Version,
}

impl ProviderBatchKind {
    /// How progress reports name a chunk.
    pub fn chunk_label(&self) -> (r: &'static str)
        ensures
            r@ == match *self {
                ProviderBatchKind::Info => "Chunk"@,
                ProviderBatchKind::Version => "Version chunk"@,
            },
    {
        match self {
            ProviderBatchKind::Info => "Chunk",
            ProviderBatchKind::Version => "Version chunk",
        }
    }

    /// Whether progress reports give chunk sizes and durations.
    pub fn include_chunk_size_and_duration(&self) -> (r: bool)
        ensures
            r == (*self == ProviderBatchKind::Info),
    {
        match self {
            ProviderBatchKind::Info => true,
            ProviderBatchKind::Version => false,
        }
    }
}

} // verus!
