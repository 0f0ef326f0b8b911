//! The dataset catalog and the in-memory dataset.

use vbench::adapter::Metric;
use vbench::dataset::{catalog, get_spec, DatasetSpec, LoadedDataset};
use vbench::error::VbenchError;

static TINY: DatasetSpec = DatasetSpec {
    id: "tiny",
    display_name: "tiny",
    dim: 4,
    metric: Metric::Cosine,
    num_train: 3,
    num_test: 1,
    num_neighbors: 1,
    url_base: "",
    train_file: "",
    test_file: "",
    neighbors_file: "",
    cache_subdir: "tiny",
    approx_download_bytes: 0,
};

#[test]
fn cohere_1m_resolves() {
    let spec = get_spec("cohere-1m").expect("cohere-1m in catalog");
    assert_eq!(spec.dim, 768);
    assert_eq!(spec.metric, Metric::Cosine);
    assert_eq!(spec.num_train, 1_000_000);
    assert_eq!(spec.num_test, 10_000);
}

#[test]
fn unknown_dataset_returns_none() {
    assert!(get_spec("does-not-exist").is_none());
}

#[test]
fn from_buffers_validates_train_len() {
    let spec = get_spec("cohere-1m").unwrap();
    let bad = LoadedDataset::<f32>::from_buffers(spec, vec![0.0; 10], vec![], vec![]);
    assert!(matches!(bad, Err(VbenchError::InvalidInput(_))));
}

#[test]
fn from_buffers_validates_test_len() {
    let spec = catalog()[0];
    let train = vec![0.0_f32; spec.num_train * spec.dim];
    let bad = LoadedDataset::<f32>::from_buffers(spec, train, vec![0.0; 5], vec![]);
    assert!(matches!(bad, Err(VbenchError::InvalidInput(_))));
}

#[test]
fn iter_train_yields_correct_dim_slices() {
    let train_flat = vec![
        1.0, 0.0, 0.0, 0.0, // row 0
        0.0, 1.0, 0.0, 0.0, // row 1
        0.0, 0.0, 1.0, 0.0, // row 2
    ];
    let test_flat = vec![1.0, 0.0, 0.0, 0.0];
    let truth = vec![vec![0]];
    let ds = LoadedDataset::<f32>::from_buffers(TINY, train_flat, test_flat, truth).unwrap();

    let rows: Vec<_> = ds.train_rows();
    assert_eq!(rows.len(), 3);
    assert_eq!(rows[0].0, 0);
    assert_eq!(rows[0].1, &[1.0, 0.0, 0.0, 0.0]);
    assert_eq!(rows[2].0, 2);
    assert_eq!(rows[2].1, &[0.0, 0.0, 1.0, 0.0]);
}

#[test]
fn from_buffers_messages_name_the_mismatch() {
    match LoadedDataset::<f32>::from_buffers(TINY, vec![0.0; 10], vec![], vec![]) {
        Err(VbenchError::InvalidInput(m)) => assert_eq!(m, "tiny: train buffer has 10 f32s, expected 12"),
        _ => panic!("expected a train length error"),
    }
    match LoadedDataset::<f32>::from_buffers(TINY, vec![0.0; 12], vec![0.0; 5], vec![]) {
        Err(VbenchError::InvalidInput(m)) => assert_eq!(m, "tiny: test buffer has 5 f32s, expected 4"),
        _ => panic!("expected a test length error"),
    }
    match LoadedDataset::<f32>::from_buffers(TINY, vec![0.0; 12], vec![0.0; 4], vec![]) {
        Err(VbenchError::InvalidInput(m)) => assert_eq!(m, "tiny: ground truth has 0 entries, expected 1"),
        _ => panic!("expected a ground-truth length error"),
    }
}

#[test]
fn rows_ground_truth_and_memory() {
    let train_flat: Vec<f32> = (0..12).map(|x| x as f32).collect();
    let test_flat = vec![9.0, 8.0, 7.0, 6.0];
    let truth = vec![vec![2, 1, 0]];
    let ds = LoadedDataset::from_buffers(TINY, train_flat, test_flat, truth).unwrap();
    assert_eq!(ds.train_row(1), &[4.0, 5.0, 6.0, 7.0]);
    assert_eq!(ds.test_row(0), &[9.0, 8.0, 7.0, 6.0]);
    let tests = ds.test_rows();
    assert_eq!(tests.len(), 1);
    assert_eq!(tests[0].0, 0);
    assert_eq!(ds.ground_truth_for(0), &[2, 1, 0]);
    // 12 + 4 components of 4 bytes, 3 ids of 8 bytes
    assert_eq!(ds.memory_bytes(), 16 * 4 + 3 * 8);
}

#[test]
fn metric_names() {
    assert_eq!(Metric::Cosine.name(), "cosine");
    assert_eq!(Metric::L2.name(), "l2");
    assert_eq!(Metric::Ip.name(), "ip");
}
