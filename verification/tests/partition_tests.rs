use vanta::partition::{normalize_worker_count, partition, pool_process, worker_process, WorkerRange};

fn ranges_of(q: usize, t: usize) -> Vec<(usize, usize)> {
    partition(q, t).iter().map(|r| (r.start, r.end)).collect()
}

#[test]
fn partition_even_split() {
    assert_eq!(ranges_of(10, 2), vec![(0, 5), (5, 10)]);
}

#[test]
fn partition_uneven_split_uses_ceiling_chunks() {
    assert_eq!(ranges_of(10, 4), vec![(0, 3), (3, 6), (6, 9), (9, 10)]);
}

#[test]
fn partition_single_worker_owns_everything() {
    assert_eq!(ranges_of(7, 1), vec![(0, 7)]);
}

#[test]
fn partition_ranges_are_disjoint_and_cover_the_queue() {
    let q = 13;
    let t = 5;
    let ranges = partition(q, t);
    assert_eq!(ranges.len(), t);
    // Contiguous and clipped: each range starts where the previous ended.
    assert_eq!(ranges[0].start, 0);
    for i in 1..t {
        assert_eq!(ranges[i].start, ranges[i - 1].end);
    }
    assert_eq!(ranges[t - 1].end, q);
    // Every index is owned by exactly one worker.
    for k in 0..q {
        let owners = ranges.iter().filter(|r| r.start <= k && k < r.end).count();
        assert_eq!(owners, 1);
    }
}

#[test]
fn partition_surplus_workers_get_empty_ranges() {
    // Seven workers, three entries: exactly four workers idle.
    let ranges = partition(3, 7);
    assert_eq!(ranges.len(), 7);
    let empty = ranges.iter().filter(|r| r.start == r.end).count();
    assert_eq!(empty, 7 - 3);
    // The empty ranges are exactly those of the workers past the queue.
    for (i, r) in ranges.iter().enumerate() {
        assert_eq!(r.start == r.end, i >= 3);
    }
}

#[test]
fn partition_empty_queue_idles_every_worker() {
    let ranges = partition(0, 4);
    assert_eq!(ranges.len(), 4);
    assert!(ranges.iter().all(|r| r.start == r.end));
}

#[test]
fn worker_walks_its_whole_slice_past_failures() {
    let ok = vec![true, true, false, true, false, false, true, true];
    let failed = worker_process(WorkerRange { start: 2, end: 6 }, &ok);
    assert_eq!(failed, vec![2, 4, 5]);
}

#[test]
fn worker_with_empty_range_returns_immediately() {
    let ok = vec![true, false];
    let failed = worker_process(WorkerRange { start: 1, end: 1 }, &ok);
    assert!(failed.is_empty());
}

#[test]
fn pool_reports_exactly_the_failing_entries() {
    let mut ok = vec![true; 10];
    ok[4] = false;
    let mut failed = pool_process(3, &ok);
    failed.sort();
    assert_eq!(failed, vec![4]);
}

#[test]
fn one_persistent_failure_never_blocks_a_sibling() {
    // Entry three fails persistently; every sibling on every worker is
    // still attempted and succeeds, and the pool still joins.
    let mut ok = vec![true; 9];
    ok[3] = false;
    for t in 1..=12 {
        let failed = pool_process(t, &ok);
        assert_eq!(failed, vec![3]);
        for k in 0..9 {
            assert_eq!(failed.contains(&k), k == 3);
        }
    }
}

#[test]
fn worker_count_is_at_least_one() {
    assert_eq!(normalize_worker_count(0), 1);
    assert_eq!(normalize_worker_count(1), 1);
    assert_eq!(normalize_worker_count(6), 6);
}
