//! Recall@k and NDCG@k bookkeeping, and the latency histogram.

use vbench::metrics::{ndcg_hit_ranks, recall_hits, LatencyHistogram};

/// Recall as a number, the way the harness turns the counts into one.
fn recall_at_k(actual: &[u64], truth: &[u64], k: usize) -> f64 {
    let c = recall_hits(actual, truth, k);
    if k == 0 || c.truth_k == 0 {
        0.0
    } else {
        c.hits as f64 / c.truth_k as f64
    }
}

/// NDCG as a number, the way the harness turns the ranks into one.
fn ndcg_at_k(actual: &[u64], truth: &[u64], k: usize) -> f64 {
    let r = ndcg_hit_ranks(actual, truth, k);
    if k == 0 || r.ideal_len == 0 {
        return 0.0;
    }
    let dcg: f64 = r.hit_ranks.iter().map(|&rank| 1.0 / ((rank + 2) as f64).log2()).sum();
    let idcg: f64 = (0..r.ideal_len).map(|rank| 1.0 / ((rank + 2) as f64).log2()).sum();
    if idcg == 0.0 {
        0.0
    } else {
        dcg / idcg
    }
}

#[test]
fn recall_perfect_match_is_one() {
    let actual = vec![1, 2, 3, 4, 5];
    let truth = vec![1, 2, 3, 4, 5];
    assert_eq!(recall_at_k(&actual, &truth, 5), 1.0);
}

#[test]
fn recall_perfect_match_with_extra_actual_is_one() {
    let actual = vec![1, 2, 3, 4, 5, 999];
    let truth = vec![1, 2, 3, 4, 5];
    assert_eq!(recall_at_k(&actual, &truth, 5), 1.0);
}

#[test]
fn recall_zero_overlap_is_zero() {
    let actual = vec![10, 20, 30];
    let truth = vec![1, 2, 3];
    assert_eq!(recall_at_k(&actual, &truth, 3), 0.0);
}

#[test]
fn recall_partial_overlap() {
    let actual = vec![1, 2, 3, 99, 100];
    let truth = vec![1, 2, 3, 4, 5];
    assert!((recall_at_k(&actual, &truth, 5) - 0.6).abs() < 1e-9);
}

#[test]
fn recall_order_insensitive() {
    let actual_a = vec![5, 4, 3, 2, 1];
    let actual_b = vec![1, 2, 3, 4, 5];
    let truth = vec![1, 2, 3, 4, 5];
    assert_eq!(recall_at_k(&actual_a, &truth, 5), recall_at_k(&actual_b, &truth, 5));
}

#[test]
fn recall_k_zero_is_zero() {
    let actual = vec![1, 2, 3];
    let truth = vec![1, 2, 3];
    assert_eq!(recall_at_k(&actual, &truth, 0), 0.0);
}

#[test]
fn recall_truth_shorter_than_k_uses_truth_len() {
    let actual = vec![1, 2];
    let truth = vec![1, 2];
    assert_eq!(recall_at_k(&actual, &truth, 10), 1.0);
}

#[test]
fn recall_empty_actual_is_zero() {
    let actual: Vec<u64> = vec![];
    let truth = vec![1, 2, 3];
    assert_eq!(recall_at_k(&actual, &truth, 3), 0.0);
}

#[test]
fn recall_empty_truth_is_zero() {
    let actual = vec![1, 2, 3];
    let truth: Vec<u64> = vec![];
    assert_eq!(recall_at_k(&actual, &truth, 3), 0.0);
}

#[test]
fn ndcg_perfect_match_is_one() {
    let actual = vec![1, 2, 3, 4, 5];
    let truth = vec![1, 2, 3, 4, 5];
    assert!((ndcg_at_k(&actual, &truth, 5) - 1.0).abs() < 1e-9);
}

#[test]
fn ndcg_zero_overlap_is_zero() {
    let actual = vec![10, 20, 30];
    let truth = vec![1, 2, 3];
    assert_eq!(ndcg_at_k(&actual, &truth, 3), 0.0);
}

#[test]
fn ndcg_rewards_earlier_matches() {
    let truth = vec![1, 2, 3];
    let early = vec![1, 2, 3, 99, 100];
    let late = vec![99, 100, 1, 2, 3];

    let early_ndcg = ndcg_at_k(&early, &truth, 5);
    let late_ndcg = ndcg_at_k(&late, &truth, 5);

    assert!(early_ndcg > late_ndcg, "{early_ndcg} should beat {late_ndcg}");
    assert!(early_ndcg <= 1.0);
    assert!(late_ndcg >= 0.0);
}

#[test]
fn ndcg_k_zero_is_zero() {
    let actual = vec![1, 2, 3];
    let truth = vec![1, 2, 3];
    assert_eq!(ndcg_at_k(&actual, &truth, 0), 0.0);
}

#[test]
fn ndcg_value_in_unit_interval() {
    let actual = vec![3, 1, 99, 2, 100];
    let truth = vec![1, 2, 3, 4, 5];
    let n = ndcg_at_k(&actual, &truth, 5);
    assert!((0.0..=1.0).contains(&n), "ndcg out of range: {n}");
}

#[test]
fn recall_counts_are_exact() {
    let c = recall_hits(&[1, 2, 3, 99, 100], &[1, 2, 3, 4, 5], 5);
    assert_eq!((c.hits, c.truth_k), (3, 5));
    // only the first k of each list count
    let c = recall_hits(&[9, 1, 2], &[1, 2, 3], 2);
    assert_eq!((c.hits, c.truth_k), (1, 2));
    // repeated truth ids are each counted
    let c = recall_hits(&[7], &[7, 7, 8], 3);
    assert_eq!((c.hits, c.truth_k), (2, 3));
}

#[test]
fn ndcg_ranks_are_exact() {
    let r = ndcg_hit_ranks(&[99, 100, 1, 2, 3], &[1, 2, 3], 5);
    assert_eq!(r.hit_ranks, vec![2, 3, 4]);
    assert_eq!(r.ideal_len, 3);
    let r = ndcg_hit_ranks(&[1, 2, 3, 4, 5], &[1, 2, 3, 4, 5], 3);
    assert_eq!(r.hit_ranks, vec![0, 1, 2]);
    assert_eq!(r.ideal_len, 3);
    // ranks past k are not looked at
    let r = ndcg_hit_ranks(&[9, 9, 1], &[1], 2);
    assert!(r.hit_ranks.is_empty());
}

#[test]
fn ndcg_duplicate_actual_ids_count_once() {
    // a relevant id earns its gain once, at its first rank
    let r = ndcg_hit_ranks(&[1, 1, 1], &[1], 3);
    assert_eq!(r.hit_ranks, vec![0]);
    assert_eq!(r.ideal_len, 1);
    let r = ndcg_hit_ranks(&[5, 2, 5, 2, 3], &[2, 3, 4], 5);
    assert_eq!(r.hit_ranks, vec![1, 4]);
    let n = ndcg_at_k(&[1, 1, 1], &[1], 3);
    assert!((n - 1.0).abs() < 1e-9, "{n}");
    let n = ndcg_at_k(&[2, 2, 1], &[1, 2], 3);
    assert!((0.0..=1.0).contains(&n), "{n}");
}

#[test]
fn histogram_counts_and_clamps() {
    let mut h = LatencyHistogram::new().unwrap();
    assert_eq!(h.count(), 0);
    h.record_micros(0).unwrap();
    h.record_micros(250).unwrap();
    h.record_micros(u64::MAX).unwrap();
    assert_eq!(h.count(), 3);
    let inner = &h.histogram().histogram;
    assert_eq!(inner.min(), 1);
    assert!(inner.max() >= 60_000_000 && inner.max() < 60_100_000);
}

#[test]
fn histogram_default_is_empty() {
    let h = LatencyHistogram::default();
    assert_eq!(h.count(), 0);
}
