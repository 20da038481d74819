//! Static partitioning of the download queue.  A queue of `q` entries is
//! split over `t` workers into contiguous, pairwise disjoint index ranges
//! whose union is exactly `[0, q)`.  Worker `i` owns the half-open range
//! `[i * chunk, min((i + 1) * chunk, q))` where `chunk = ceil(q / t)`; a
//! worker whose range is empty has nothing to do and returns immediately.

use vstd::prelude::*;
use vstd::arithmetic::div_mod::{
    lemma_fundamental_div_mod, lemma_fundamental_div_mod_converse, lemma_div_pos_is_pos,
    lemma_div_nonincreasing, lemma_div_decreases,
};
use vstd::arithmetic::mul::{
    lemma_mul_inequality, lemma_mul_is_distributive_add, lemma_mul_basics,
    lemma_mul_is_commutative,
};
use vstd::math::min;
use vstd::seq_lib::{lemma_seq_contains_after_push, lemma_seq_concat_contains_all_elements};
use vstd::set_lib::{set_int_range, lemma_int_range};

verus! {

/// The half-open index range `[start, end)` of one worker's slice.
#[derive(Clone, Copy, Debug, PartialEq, Eq, Structural)]
pub struct WorkerRange {
    pub start: usize,
    pub end: usize,
}

/// The chunk size used by the partition: `ceil(q / t)`.
pub open spec fn chunk_size(q: int, t: int) -> int
    recommends
        0 <= q,
        1 <= t,
{
    if q % t == 0 {
        q / t
    } else {
        q / t + 1
    }
}

/// Where worker `i`'s range begins: `min(i * chunk, q)`.
pub open spec fn range_start(q: int, t: int, i: int) -> int {
    min(i * chunk_size(q, t), q)
}

/// Where worker `i`'s range ends: `min((i + 1) * chunk, q)`.
pub open spec fn range_end(q: int, t: int, i: int) -> int {
    min((i + 1) * chunk_size(q, t), q)
}

/// Whether queue index `k` falls in worker `i`'s range.
pub open spec fn owns(q: int, t: int, i: int, k: int) -> bool {
    range_start(q, t, i) <= k < range_end(q, t, i)
}

/// Whether queue index `k` falls in some worker's range.
pub open spec fn covered(q: int, t: int, k: int) -> bool {
    exists|i: int| 0 <= i < t && #[trigger] owns(q, t, i, k)
}

/// The chunk size is nonnegative, positive for a nonempty queue, and `t`
/// chunks cover the whole queue.
proof fn lemma_chunk_size_bounds(q: int, t: int)
    requires
        0 <= q,
        1 <= t,
    ensures
        0 <= chunk_size(q, t),
        q <= t * chunk_size(q, t),
        q >= 1 ==> 1 <= chunk_size(q, t),
{
    lemma_fundamental_div_mod(q, t);
    lemma_div_pos_is_pos(q, t);
    lemma_mul_basics(t);
    if q % t == 0 {
        if q >= 1 && q / t == 0 {
            assert(q == t * 0 + 0);
        }
    } else {
        lemma_mul_is_distributive_add(t, q / t, 1);
    }
}

/// Every range is well formed: `0 <= start <= end <= q`.
pub proof fn lemma_range_valid(q: int, t: int, i: int)
    requires
        0 <= q,
        1 <= t,
        0 <= i,
    ensures
        0 <= range_start(q, t, i) <= range_end(q, t, i) <= q,
{
    lemma_chunk_size_bounds(q, t);
    let c = chunk_size(q, t);
    lemma_mul_inequality(0, i, c);
    lemma_mul_inequality(i, i + 1, c);
}

/// Neighbouring ranges meet exactly: one worker's range ends where the
/// next one's begins.
pub proof fn lemma_ranges_contiguous(q: int, t: int, i: int)
    requires
        0 <= q,
        1 <= t,
    ensures
        range_end(q, t, i) == range_start(q, t, i + 1),
{
}

/// The ranges of two distinct workers are pairwise disjoint: the earlier
/// worker's range ends no later than the later worker's range begins.
pub proof fn lemma_ranges_disjoint(q: int, t: int, i: int, j: int)
    requires
        0 <= q,
        1 <= t,
        0 <= i < j < t,
    ensures
        range_end(q, t, i) <= range_start(q, t, j),
{
    lemma_chunk_size_bounds(q, t);
    lemma_mul_inequality(i + 1, j, chunk_size(q, t));
}

/// Every queue index is owned by some worker: the union of the ranges
/// covers `[0, q)`.
pub proof fn lemma_ranges_cover(q: int, t: int, k: int)
    requires
        0 <= q,
        1 <= t,
        0 <= k < q,
    ensures
        covered(q, t, k),
{
    lemma_chunk_size_bounds(q, t);
    let c = chunk_size(q, t);
    let i = k / c;
    lemma_div_pos_is_pos(k, c);
    lemma_fundamental_div_mod(k, c);
    lemma_mul_is_commutative(c, i);
    lemma_mul_is_distributive_add(c, i, 1);
    lemma_mul_basics(c);
    lemma_mul_is_commutative(c, i + 1);
    assert((i + 1) * c == i * c + c);
    // If i were at least t, then i * c would reach past k.
    if i >= t {
        lemma_mul_inequality(t, i, c);
    }
    assert(0 <= i < t);
    assert(owns(q, t, i, k));
}

/// The partition's ranges are pairwise disjoint and their union is
/// exactly `[0, q)`: every index below `q` is owned by exactly one
/// worker, and no worker owns an index outside `[0, q)`.
pub proof fn theorem_partition_exact(q: int, t: int)
    requires
        0 <= q,
        1 <= t,
    ensures
        forall|i: int, j: int|
            0 <= i < j < t ==> range_end(q, t, i) <= range_start(q, t, j),
        forall|k: int| 0 <= k < q ==> #[trigger] covered(q, t, k),
        forall|i: int, k: int| 0 <= i < t && #[trigger] owns(q, t, i, k) ==> 0 <= k < q,
        forall|i: int, j: int, k: int|
            0 <= i < t && 0 <= j < t && #[trigger] owns(q, t, i, k) && #[trigger] owns(
                q,
                t,
                j,
                k,
            ) ==> i == j,
{
    assert forall|i: int, j: int| 0 <= i < j < t implies range_end(q, t, i) <= range_start(
        q,
        t,
        j,
    ) by {
        lemma_ranges_disjoint(q, t, i, j);
    }
    assert forall|k: int| 0 <= k < q implies #[trigger] covered(q, t, k) by {
        lemma_ranges_cover(q, t, k);
    }
    assert forall|i: int, k: int| 0 <= i < t && #[trigger] owns(q, t, i, k) implies 0 <= k
        < q by {
        lemma_range_valid(q, t, i);
    }
    assert forall|i: int, j: int, k: int|
        0 <= i < t && 0 <= j < t && #[trigger] owns(q, t, i, k) && #[trigger] owns(
            q,
            t,
            j,
            k,
        ) implies i == j by {
        if i < j {
            lemma_ranges_disjoint(q, t, i, j);
        }
        if j < i {
            lemma_ranges_disjoint(q, t, j, i);
        }
    }
}

/// When there are more workers than queue entries, worker `i`'s range is
/// empty exactly when `i >= q`, and the set of idle workers has size
/// exactly `t - q`.
pub proof fn theorem_surplus_workers_idle(q: int, t: int)
    requires
        0 <= q < t,
    ensures
        forall|i: int|
            0 <= i < t ==> (range_start(q, t, i) == range_end(q, t, i) <==> q <= i),
        Set::new(
            |i: int| 0 <= i < t && range_start(q, t, i) == range_end(q, t, i),
        ).len() == t - q,
{
    let c = chunk_size(q, t);
    lemma_mul_basics(t);
    if q == 0 {
        lemma_fundamental_div_mod_converse(0, t, 0, 0);
        assert(c == 0);
    } else {
        // 1 <= q < t, so q % t == q != 0 and q / t == 0, hence c == 1.
        lemma_fundamental_div_mod_converse(q, t, 0, q);
        assert(c == 1);
    }
    assert forall|i: int| 0 <= i < t implies (range_start(q, t, i) == range_end(q, t, i)
        <==> q <= i) by {
        lemma_range_valid(q, t, i);
        lemma_mul_basics(i);
        lemma_mul_basics(i + 1);
    }
    let idle = Set::new(|i: int| 0 <= i < t && range_start(q, t, i) == range_end(q, t, i));
    assert(idle =~= set_int_range(q, t));
    lemma_int_range(q, t);
}

/// A usable worker count: at least one worker, whatever was requested.
pub fn normalize_worker_count(requested: usize) -> (t: usize)
    ensures
        t == if requested >= 1 { requested as int } else { 1 },
{
    if requested >= 1 {
        requested
    } else {
        1
    }
}

/// Splits a queue of `q` entries over `t` workers into the contiguous
/// ranges described by `range_start` and `range_end`.
pub fn partition(q: usize, t: usize) -> (r: Vec<WorkerRange>)
    requires
        1 <= t,
    ensures
        r@.len() == t,
        forall|i: int|
            0 <= i < t ==> (#[trigger] r@[i]).start == range_start(q as int, t as int, i)
                && r@[i].end == range_end(q as int, t as int, i),
{
    let chunk: usize = if q % t == 0 {
        q / t
    } else {
        proof {
            lemma_div_nonincreasing(q as int, t as int);
            lemma_div_pos_is_pos(q as int, t as int);
            if t == 1 {
                lemma_mul_basics(q as int);
                lemma_fundamental_div_mod_converse(q as int, 1, q as int, 0);
            } else if q >= 1 {
                lemma_div_decreases(q as int, t as int);
            }
        }
        q / t + 1
    };
    let mut r: Vec<WorkerRange> = Vec::new();
    let mut i: usize = 0;
    let mut cur: usize = 0;
    while i < t
        invariant
            1 <= t,
            i <= t,
            r@.len() == i,
            chunk == chunk_size(q as int, t as int),
            cur == range_start(q as int, t as int, i as int),
            cur <= q,
            forall|j: int|
                0 <= j < i ==> (#[trigger] r@[j]).start == range_start(q as int, t as int, j)
                    && r@[j].end == range_end(q as int, t as int, j),
        decreases t - i,
    {
        let end: usize = if chunk > q - cur {
            q
        } else {
            cur + chunk
        };
        proof {
            let qi = q as int;
            let ti = t as int;
            let ii = i as int;
            let c = chunk_size(qi, ti);
            lemma_chunk_size_bounds(qi, ti);
            lemma_mul_is_distributive_add(c, ii, 1);
            lemma_mul_basics(c);
            lemma_mul_is_commutative(c, ii);
            lemma_mul_is_commutative(c, ii + 1);
            assert((ii + 1) * c == ii * c + c);
            lemma_mul_inequality(0, ii, c);
            assert(end == range_end(qi, ti, ii));
        }
        r.push(WorkerRange { start: cur, end });
        cur = end;
        i = i + 1;
    }
    r
}

/// Which queue indices are failures, given per-entry transfer outcomes:
/// index `k` fails exactly when its own transfer failed.
pub open spec fn failing_indices(ok: Seq<bool>) -> Set<int> {
    Set::new(|k: int| 0 <= k < ok.len() && !ok[k])
}

/// A worker walks its slice strictly in order and records the entries
/// whose transfer failed, continuing past every failure.  `ok[k]` is the
/// outcome of entry `k`'s transfer; an empty range returns at once.
pub fn worker_process(range: WorkerRange, ok: &Vec<bool>) -> (failed: Vec<usize>)
    requires
        range.start <= range.end <= ok.len(),
    ensures
        forall|k: usize|
            #[trigger] failed@.contains(k) <==> range.start <= k < range.end && !ok@[k as int],
{
    let mut failed: Vec<usize> = Vec::new();
    let mut k: usize = range.start;
    while k < range.end
        invariant
            range.start <= k <= range.end <= ok.len(),
            forall|m: usize|
                #[trigger] failed@.contains(m) <==> range.start <= m < k && !ok@[m as int],
        decreases range.end - k,
    {
        let ghost pre = failed@;
        let failure_here = !ok[k];
        if failure_here {
            failed.push(k);
        }
        proof {
            let ghost kk = k;
            assert forall|m: usize|
                #[trigger] failed@.contains(m) <==> (range.start <= m < kk + 1 && !ok@[m as int]) by {
                if failure_here {
                    lemma_seq_contains_after_push(pre, k, m);
                }
            }
        }
        k = k + 1;
    }
    failed
}

/// The whole pool: the queue is partitioned over `t` workers, every
/// worker walks its own slice to the end, and the pool joins once all
/// slices are done.  The failures reported are exactly the entries whose
/// own transfer failed: one entry's failure never prevents any other
/// entry, on the same worker or another, from being attempted.
pub fn pool_process(t: usize, ok: &Vec<bool>) -> (failed: Vec<usize>)
    requires
        1 <= t,
    ensures
        forall|k: usize| #[trigger] failed@.contains(k) <==> failing_indices(ok@).contains(k as int),
{
    let q = ok.len();
    let ranges = partition(q, t);
    let mut failed: Vec<usize> = Vec::new();
    let mut w: usize = 0;
    while w < t
        invariant
            1 <= t,
            w <= t,
            q == ok.len(),
            ranges@.len() == t,
            forall|i: int|
                0 <= i < t ==> (#[trigger] ranges@[i]).start == range_start(q as int, t as int, i)
                    && ranges@[i].end == range_end(q as int, t as int, i),
            forall|k: usize|
                #[trigger] failed@.contains(k) <==> k < range_start(q as int, t as int, w as int)
                    && !ok@[k as int],
        decreases t - w,
    {
        proof {
            lemma_range_valid(q as int, t as int, w as int);
            assert(ranges@[w as int].start == range_start(q as int, t as int, w as int));
        }
        let range = ranges[w];
        let mut worker_failed = worker_process(range, ok);
        let ghost pre = failed@;
        let ghost wpre = worker_failed@;
        failed.append(&mut worker_failed);
        proof {
            lemma_ranges_contiguous(q as int, t as int, w as int);
            assert forall|k: usize|
                #[trigger] failed@.contains(k) <==> (k < range_start(
                    q as int,
                    t as int,
                    w as int + 1,
                ) && !ok@[k as int]) by {
                lemma_seq_concat_contains_all_elements(pre, wpre, k);
            }
        }
        w = w + 1;
    }
    proof {
        lemma_chunk_size_bounds(q as int, t as int);
        assert(range_start(q as int, t as int, t as int) == q);
    }
    failed
}

/// One entry's persistent transfer failure is isolated: changing entry
/// `j`'s outcome changes nothing about whether any sibling entry fails.
pub proof fn theorem_failure_isolated(ok1: Seq<bool>, ok2: Seq<bool>, j: int)
    requires
        ok1.len() == ok2.len(),
        forall|k: int| 0 <= k < ok1.len() && k != j ==> ok1[k] == ok2[k],
    ensures
        forall|k: int|
            0 <= k < ok1.len() && k != j ==> (failing_indices(ok1).contains(k)
                <==> failing_indices(ok2).contains(k)),
{
}

} // verus!
