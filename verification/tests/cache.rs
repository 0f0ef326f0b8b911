//! The cache layout and the download plan.

use vbench::cache::{cache_dir_for, cache_root_from, default_cache_root, join_path, marker_path};
use vbench::dataset::get_spec;
use vbench::download::download_plan;

#[test]
fn cache_dir_for_joins_subdir() {
    let root = b"/tmp/vbench".to_vec();
    let dir = cache_dir_for(&root, "cohere_medium_1m");
    assert_eq!(dir, b"/tmp/vbench/cohere_medium_1m".to_vec());
}

#[test]
fn default_cache_root_ends_in_datasets() {
    let root = default_cache_root();
    assert!(root.ends_with(b"vectordb-bench-rs/datasets"));
}

#[test]
fn join_follows_path_rules() {
    assert_eq!(join_path(b"/a/", b"b"), b"/a/b".to_vec());
    assert_eq!(join_path(b"", b"b"), b"b".to_vec());
    assert_eq!(join_path(b"/a", b"/b"), b"/b".to_vec());
    assert_eq!(join_path(b"a", b""), b"a/".to_vec());
    for (base, part) in [("/a/", "b"), ("", "b"), ("/a", "/b"), ("a", ""), ("x/y", "z")] {
        let expected = std::path::Path::new(base).join(part);
        assert_eq!(join_path(base.as_bytes(), part.as_bytes()), expected.to_str().unwrap().as_bytes().to_vec());
    }
}

#[test]
fn paths_that_are_not_utf8_pass_unchanged() {
    assert_eq!(join_path(b"/h\xff/", b"x"), b"/h\xff/x".to_vec());
    assert_eq!(
        cache_root_from(Some(b"/home/\xfeu/.cache".to_vec())),
        b"/home/\xfeu/.cache/vectordb-bench-rs/datasets".to_vec()
    );
    assert_eq!(marker_path(b"/c/\xff"), b"/c/\xff/.complete".to_vec());
}

#[test]
fn cache_root_without_user_cache_dir() {
    assert_eq!(cache_root_from(None), b"./.cache/vectordb-bench-rs/datasets".to_vec());
    assert_eq!(
        cache_root_from(Some(b"/home/u/.cache".to_vec())),
        b"/home/u/.cache/vectordb-bench-rs/datasets".to_vec()
    );
}

#[test]
fn marker_lives_in_the_dataset_dir() {
    assert_eq!(marker_path(b"/c/cohere_medium_1m"), b"/c/cohere_medium_1m/.complete".to_vec());
}

#[test]
fn download_plan_fetches_three_files() {
    let spec = get_spec("cohere-1m").unwrap();
    let plan = download_plan(&spec, b"/c/cohere_medium_1m");
    assert_eq!(plan.len(), 3);
    assert_eq!(plan[0].file_name, "train.parquet");
    assert_eq!(plan[0].url, "https://assets.zilliz.com/benchmark/cohere_medium_1m/train.parquet");
    assert_eq!(plan[0].final_path, b"/c/cohere_medium_1m/train.parquet".to_vec());
    assert_eq!(plan[0].tmp_path, b"/c/cohere_medium_1m/train.parquet.tmp".to_vec());
    assert_eq!(plan[1].file_name, "test.parquet");
    assert_eq!(plan[2].file_name, "neighbors.parquet");
    assert_eq!(plan[2].url, "https://assets.zilliz.com/benchmark/cohere_medium_1m/neighbors.parquet");
}
