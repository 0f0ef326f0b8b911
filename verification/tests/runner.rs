//! The phase machine of a benchmark run, driven against a scripted adapter.

use vbench::error::VbenchError;
use vbench::metrics::{ndcg_hit_ranks, recall_hits};
use vbench::result::{serial_case_config, serial_stages};
use vbench::runner::{BenchRunner, RunnerAction, RunnerEvent, RunnerOptions};

#[derive(Default)]
struct Calls {
    load_calls: usize,
    rows_loaded: usize,
    optimize_calls: usize,
    search_calls: usize,
    shutdown_calls: usize,
    measured: Vec<usize>,
}

/// Drives the machine; the scripted adapter answers every query with the
/// ground truth and reports `count` rows.
fn drive(num_train: usize, num_test: usize, opts: &RunnerOptions, count: Option<u64>, calls: &mut Calls) -> RunnerAction {
    let (mut runner, mut action) = BenchRunner::start(num_train, num_test, opts.batch_size, opts.warmup_queries);
    loop {
        let event = match &action {
            RunnerAction::LoadBatch { start, end } => {
                calls.load_calls += 1;
                calls.rows_loaded += end - start;
                RunnerEvent::Done
            }
            RunnerAction::CountRows => RunnerEvent::Counted(count.unwrap_or(calls.rows_loaded as u64)),
            RunnerAction::Optimize => {
                calls.optimize_calls += 1;
                RunnerEvent::Done
            }
            RunnerAction::Warmup { .. } => {
                calls.search_calls += 1;
                RunnerEvent::Done
            }
            RunnerAction::Measure { query } => {
                calls.search_calls += 1;
                calls.measured.push(*query);
                RunnerEvent::Done
            }
            RunnerAction::Shutdown => {
                calls.shutdown_calls += 1;
                RunnerEvent::Done
            }
            RunnerAction::Finished | RunnerAction::Failed(_) => return action,
        };
        action = runner.step(event);
    }
}

#[test]
fn runner_drives_all_phases_against_mock_adapter() {
    let truth: Vec<Vec<u64>> = vec![vec![0, 4], vec![1, 4], vec![2, 0]];
    let opts = RunnerOptions {
        batch_size: 2,
        recall_k: 2,
        warmup_queries: 1,
        task_label: "test".to_string(),
        install_method: None,
        db_notes: None,
    };
    let mut calls = Calls::default();
    let end = drive(5, 3, &opts, None, &mut calls);
    assert!(matches!(end, RunnerAction::Finished));

    assert_eq!(calls.load_calls, 3, "load batches");
    assert_eq!(calls.rows_loaded, 5, "rows loaded");
    assert_eq!(calls.optimize_calls, 1, "optimize called once");
    assert_eq!(calls.search_calls, opts.warmup_queries + 3, "warmup + test queries");
    assert_eq!(calls.shutdown_calls, 1, "shutdown");

    // the scripted adapter answers with the ground truth: recall and ndcg are 1
    let mut sum_recall = 0.0;
    let mut sum_ndcg = 0.0;
    for &q in &calls.measured {
        let actual: Vec<u64> = truth[q].iter().copied().take(opts.recall_k).collect();
        let c = recall_hits(&actual, &truth[q], opts.recall_k);
        sum_recall += c.hits as f64 / c.truth_k as f64;
        let r = ndcg_hit_ranks(&actual, &truth[q], opts.recall_k);
        let dcg: f64 = r.hit_ranks.iter().map(|&x| 1.0 / ((x + 2) as f64).log2()).sum();
        let idcg: f64 = (0..r.ideal_len).map(|x| 1.0 / ((x + 2) as f64).log2()).sum();
        sum_ndcg += dcg / idcg;
    }
    let n = calls.measured.len() as f64;
    assert!((sum_recall / n - 1.0).abs() < 1e-9, "expected recall 1.0, got {}", sum_recall / n);
    assert!((sum_ndcg / n - 1.0).abs() < 1e-9, "expected ndcg 1.0, got {}", sum_ndcg / n);
    assert_eq!(calls.measured.len(), 3);

    // the run's configuration: a custom case at recall@2, serial stages only
    let case_config = serial_case_config("tiny", opts.recall_k);
    assert_eq!(case_config.case_id, 100);
    assert_eq!(case_config.k, 2);
    assert!(case_config.custom_case.is_none());
    let stages = serial_stages();
    assert_eq!(stages, vec!["drop_old", "load", "search_serial"]);
    assert!(!stages.iter().any(|s| s.contains("concurrent")));
}

#[test]
fn runner_rejects_count_mismatch() {
    let opts = RunnerOptions::default();
    let mut calls = Calls::default();
    let end = drive(5, 3, &opts, Some(0), &mut calls);
    match end {
        RunnerAction::Failed(VbenchError::InvalidInput(m)) => {
            assert!(m.contains("post-load count mismatch"));
            assert_eq!(m, "post-load count mismatch: adapter has 0 rows, expected 5");
        }
        _ => panic!("expected a count mismatch"),
    }
    assert_eq!(calls.optimize_calls, 0);
}

#[test]
fn runner_options_defaults() {
    let o = RunnerOptions::default();
    assert_eq!(o.batch_size, 1000);
    assert_eq!(o.recall_k, 10);
    assert_eq!(o.warmup_queries, 200);
    assert_eq!(o.task_label, "vbench-run");
    assert!(o.install_method.is_none());
    assert!(o.db_notes.is_none());
}

#[test]
fn zero_batch_size_loads_everything_at_once() {
    let (mut r, a) = BenchRunner::start(5, 0, 0, 10);
    assert!(matches!(a, RunnerAction::LoadBatch { start: 0, end: 5 }));
    assert!(matches!(r.step(RunnerEvent::Done), RunnerAction::CountRows));
    assert!(matches!(r.step(RunnerEvent::Counted(5)), RunnerAction::Optimize));
    // no test queries: no warm-up, straight to shutdown
    assert!(matches!(r.step(RunnerEvent::Done), RunnerAction::Shutdown));
    assert!(matches!(r.step(RunnerEvent::Done), RunnerAction::Finished));
}

#[test]
fn failures_abort_except_warmup() {
    let (mut r, _) = BenchRunner::start(1, 2, 10, 5);
    assert!(matches!(r.step(RunnerEvent::Done), RunnerAction::CountRows));
    assert!(matches!(r.step(RunnerEvent::Counted(1)), RunnerAction::Optimize));
    assert!(matches!(r.step(RunnerEvent::Done), RunnerAction::Warmup { query: 0 }));
    // a failed warm-up query is ignored; the warm-up is capped by the test set
    assert!(matches!(r.step(RunnerEvent::Failed("slow".to_string())), RunnerAction::Warmup { query: 1 }));
    assert!(matches!(r.step(RunnerEvent::Done), RunnerAction::Measure { query: 0 }));
    match r.step(RunnerEvent::Failed("socket closed".to_string())) {
        RunnerAction::Failed(VbenchError::Adapter(m)) => assert_eq!(m, "socket closed"),
        _ => panic!("expected an adapter error"),
    }
}

#[test]
fn failed_count_aborts_with_adapter_error() {
    let (mut r, _) = BenchRunner::start(2, 1, 10, 0);
    assert!(matches!(r.step(RunnerEvent::Done), RunnerAction::CountRows));
    match r.step(RunnerEvent::Failed("count failed".to_string())) {
        RunnerAction::Failed(VbenchError::Adapter(m)) => assert_eq!(m, "count failed"),
        _ => panic!("expected an adapter error"),
    }
}
