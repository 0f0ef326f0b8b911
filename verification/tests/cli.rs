//! Rules of the command-line front end, the host snapshot and the result
//! schema's fixed parts.

use vbench::cli::{
    byte_unit, check_row_count, compiled_in_adapters, default_output_path, default_task_label, is_affirmative,
    parse_adapter, unknown_adapter_message, unknown_dataset_message, AdapterKind,
};
use vbench::host::HostInfo;
use vbench::result::{default_file_fmt, new_run_id, ConcurrencySearchConfig};
use vbench::result_label;

#[test]
fn adapters_and_defaults() {
    assert_eq!(compiled_in_adapters(), vec!["strata"]);
    assert_eq!(parse_adapter("strata"), Some(AdapterKind::Strata));
    assert_eq!(parse_adapter("qdrant"), None);
    assert_eq!(unknown_adapter_message("qdrant"), "unknown adapter: qdrant");
    assert_eq!(unknown_dataset_message("x"), "unknown dataset id: x");
    assert_eq!(default_task_label("strata", "cohere-1m"), "strata-cohere-1m");
    assert_eq!(default_output_path("strata-cohere-1m"), "vbench-result-strata-cohere-1m.json");
}

#[test]
fn row_counts_are_checked() {
    assert!(check_row_count("cohere-1m", "train.parquet", 5, 5).is_ok());
    assert_eq!(
        check_row_count("cohere-1m", "train.parquet", 4, 5).unwrap_err(),
        "cohere-1m: train.parquet has 4 rows but spec says 5"
    );
}

#[test]
fn byte_units() {
    assert_eq!(byte_unit(1023), None);
    assert_eq!(byte_unit(1024), Some(("KiB", 1024)));
    assert_eq!(byte_unit(5 * 1024 * 1024), Some(("MiB", 1024 * 1024)));
    assert_eq!(byte_unit(3 * 1024 * 1024 * 1024), Some(("GiB", 1024 * 1024 * 1024)));
}

#[test]
fn confirmation_answers() {
    assert!(is_affirmative("y\n"));
    assert!(is_affirmative("  YES \n"));
    assert!(is_affirmative("Yes"));
    assert!(!is_affirmative("n"));
    assert!(!is_affirmative(""));
    assert!(!is_affirmative("yess"));
}

#[test]
fn host_snapshot_fallbacks() {
    let h = HostInfo::from_probes(None, "linux".to_string(), "x86_64".to_string(), None, None, 1 << 30, None);
    assert_eq!(h.hostname, "unknown");
    assert_eq!(h.cpu_brand, "unknown");
    assert_eq!(h.cpu_cores, 1);
    assert_eq!(h.total_memory_bytes, 1 << 30);
    let h = HostInfo::from_probes(
        Some("box".to_string()),
        "linux".to_string(),
        "aarch64".to_string(),
        Some("Neoverse".to_string()),
        Some(64),
        8,
        Some("rustc 1.94.1".to_string()),
    );
    assert_eq!(h.hostname, "box");
    assert_eq!(h.arch, "aarch64");
    assert_eq!(h.cpu_brand, "Neoverse");
    assert_eq!(h.cpu_cores, 64);
    assert_eq!(h.rustc_version.as_deref(), Some("rustc 1.94.1"));
}

#[test]
fn schema_run_id_is_uuid_hex_no_dashes() {
    let id = new_run_id();
    assert_eq!(id.len(), 32, "run_id should be 32 hex chars: {id}");
    assert!(id.chars().all(|c| c.is_ascii_hexdigit()), "run_id should be hex: {id}");
    assert!(!id.contains('-'), "run_id should not contain dashes: {id}");
}

#[test]
fn run_ids_are_fresh_v4() {
    let a = new_run_id();
    let b = new_run_id();
    assert_ne!(a, b);
    assert_eq!(&a[12..13], "4");
    assert!("89ab".contains(&a[16..17]));
}

#[test]
fn schema_defaults() {
    let c = ConcurrencySearchConfig::default();
    assert_eq!(c.num_concurrency, vec![1, 5, 10, 20, 30, 40, 60, 80]);
    assert_eq!(c.concurrency_duration, 30);
    assert_eq!(c.concurrency_timeout, 3600);
    assert_eq!(default_file_fmt(), "result_{}_{}_{}.json");
    assert_eq!(result_label::NORMAL, ":)");
    assert_eq!(result_label::FAILED, "x");
    assert_eq!(result_label::OUT_OF_RANGE, "?");
}
