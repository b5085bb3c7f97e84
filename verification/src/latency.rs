//! Per-sample latency and the rank statistics taken over a window of latencies.

use vstd::prelude::*;
use vstd::relations::sorted_by;
use vstd::relations::total_ordering;
use vstd::seq_lib::group_to_multiset_ensures;
use vstd::seq_lib::lemma_sorted_unique;

verus! {

/// Delay of a sample stamped `timestamp_ns` as seen at `now_ns`, both in
/// nanoseconds since the Unix epoch. A sample stamped in the future (clock
/// skew) has delay zero.
pub open spec fn latency_ns(now_ns: u64, timestamp_ns: u64) -> u64 {
    if now_ns >= timestamp_ns {
        (now_ns - timestamp_ns) as u64
    } else {
        0
    }
}

/// The delays of a run of timestamps, in the order of the timestamps.
pub open spec fn latencies(timestamps: Seq<u64>, now_ns: u64) -> Seq<u64> {
    Seq::new(timestamps.len(), |i: int| latency_ns(now_ns, timestamps[i]))
}

/// The order by which latencies are ranked.
pub open spec fn at_most() -> spec_fn(u64, u64) -> bool {
    |a: u64, b: u64| a <= b
}

/// Whether no element of `s` is followed by a smaller one.
pub open spec fn non_decreasing(s: Seq<u64>) -> bool {
    forall|i: int, j: int| 0 <= i < j < s.len() ==> s[i] <= s[j]
}

/// The values of `s` arranged in ascending order.
pub open spec fn ascending(s: Seq<u64>) -> Seq<u64> {
    s.sort_by(at_most())
}

/// Rank of the median in a window of `n` values: `floor(n / 2)`.
pub open spec fn median_rank(n: nat) -> nat {
    n / 2
}

/// Rank of the 99th percentile in a window of `n` values:
/// `min(floor(n * 99 / 100), n - 1)`, and zero for an empty window.
pub open spec fn p99_rank(n: nat) -> nat {
    if n == 0 {
        0
    } else if n * 99 / 100 <= n - 1 {
        n * 99 / 100
    } else {
        (n - 1) as nat
    }
}

/// `at_most` is a total order, which is what ranking by it relies on.
pub proof fn lemma_at_most_total()
    ensures
        total_ordering(at_most()),
{
}

/// `ascending(s)` is a non-decreasing rearrangement of `s`.
pub proof fn lemma_ascending_is_sorted_rearrangement(s: Seq<u64>)
    ensures
        non_decreasing(ascending(s)),
        ascending(s).to_multiset() =~= s.to_multiset(),
        ascending(s).len() == s.len(),
{
    broadcast use group_to_multiset_ensures;

    lemma_at_most_total();
    s.lemma_sort_by_ensures(at_most());
    let t = ascending(s);
    assert forall|i: int, j: int| 0 <= i < j < t.len() implies t[i] <= t[j] by {
        assert(at_most()(t[i], t[j]));
    }
    assert(t.len() == s.len()) by {
        t.to_multiset_ensures();
        s.to_multiset_ensures();
    }
}

/// Any non-decreasing rearrangement of `s` is `ascending(s)`: the ranked
/// values do not depend on how the sorting is done.
pub proof fn lemma_ascending_unique(s: Seq<u64>, t: Seq<u64>)
    requires
        non_decreasing(t),
        t.to_multiset() =~= s.to_multiset(),
    ensures
        ascending(s) == t,
{
    lemma_at_most_total();
    s.lemma_sort_by_ensures(at_most());
    assert(sorted_by(t, at_most()));
    lemma_sorted_unique(ascending(s), t, at_most());
}

/// Delay of a sample stamped `timestamp_ns` as seen at `now_ns`.
pub fn latency_of(now_ns: u64, timestamp_ns: u64) -> (dt: u64)
    ensures
        dt == latency_ns(now_ns, timestamp_ns),
{
    if now_ns >= timestamp_ns {
        now_ns - timestamp_ns
    } else {
        0
    }
}

/// Rank of the median among `n` values.
pub fn median_index(n: usize) -> (k: usize)
    ensures
        k == median_rank(n as nat),
        n > 0 ==> k < n,
{
    n / 2
}

/// Rank of the 99th percentile among `n` values.
pub fn p99_index(n: usize) -> (k: usize)
    ensures
        k == p99_rank(n as nat),
        n > 0 ==> k < n,
        median_rank(n as nat) <= k,
{
    if n == 0 {
        return 0;
    }
    let whole: usize = n / 100;
    let rest: usize = n % 100;
    // n * 99 / 100 without leaving usize: n = 100 * whole + rest.
    let k: usize = whole * 99 + rest * 99 / 100;
    assert(k == (n as nat) * 99 / 100) by (nonlinear_arith)
        requires
            n == 100 * whole + rest,
            0 <= rest < 100,
            k == whole * 99 + rest * 99 / 100,
    ;
    k
}

/// First position of the non-decreasing `sorted` that holds a value above `x`.
fn insertion_point(sorted: &Vec<u64>, x: u64) -> (p: usize)
    requires
        non_decreasing(sorted@),
    ensures
        p <= sorted.len(),
        forall|i: int| 0 <= i < p ==> sorted[i] <= x,
        forall|i: int| p <= i < sorted.len() ==> sorted[i] > x,
{
    let mut lo: usize = 0;
    let mut hi: usize = sorted.len();
    while lo < hi
        invariant
            lo <= hi <= sorted.len(),
            non_decreasing(sorted@),
            forall|i: int| 0 <= i < lo ==> sorted[i] <= x,
            forall|i: int| hi <= i < sorted.len() ==> sorted[i] > x,
        decreases hi - lo,
    {
        let mid: usize = lo + (hi - lo) / 2;
        if sorted[mid] <= x {
            lo = mid + 1;
        } else {
            hi = mid;
        }
    }
    lo
}

/// The values of `values` in ascending order.
pub fn sort_ascending(values: &Vec<u64>) -> (out: Vec<u64>)
    ensures
        out@ == ascending(values@),
{
    let n: usize = values.len();
    let mut out: Vec<u64> = Vec::with_capacity(n);
    // The latencies of a window mostly fall as the samples get younger, so
    // the values are taken from the back: each then tends to go to the end.
    let mut i: usize = n;
    assert(out@ =~= values@.subrange(n as int, n as int));
    while i > 0
        invariant
            i <= n,
            n == values.len(),
            non_decreasing(out@),
            out@.to_multiset() =~= values@.subrange(i as int, n as int).to_multiset(),
        decreases i,
    {
        i -= 1;
        let x: u64 = values[i];
        let p: usize = insertion_point(&out, x);
        proof {
            broadcast use group_to_multiset_ensures;

            let rest = values@.subrange(i + 1, n as int);
            assert(values@.subrange(i as int, n as int) =~= rest.insert(0, x));
        }
        out.insert(p, x);
    }
    proof {
        assert(values@.subrange(0, n as int) =~= values@);
        lemma_ascending_unique(values@, out@);
    }
    out
}

} // verus!
