//! Commands of the Strata adapter and the reading of replies.

use vbench::adapter::{Metric, VectorRow};
use vbench::ipc::types::{Command, DistanceMetric, Output, VectorMatch};
use vbench::strata::adapter::{
    check_create_output, check_upsert_output, create_collection_command, daemon_args, map_metric, search_command,
    search_ids, socket_path, socket_poll_step, strata_info, upsert_command, AdapterReplyError, LoadCounter, SocketPoll,
    COLLECTION_NAME,
};

#[test]
fn metrics_map_to_daemon_metrics() {
    assert_eq!(map_metric(Metric::Cosine), DistanceMetric::Cosine);
    assert_eq!(map_metric(Metric::L2), DistanceMetric::Euclidean);
    assert_eq!(map_metric(Metric::Ip), DistanceMetric::DotProduct);
    assert_eq!(DistanceMetric::default(), DistanceMetric::Cosine);
}

#[test]
fn daemon_is_started_in_the_workdir() {
    assert_eq!(daemon_args(b"/w"), vec![b"up".to_vec(), b"--fg".to_vec(), b"--db".to_vec(), b"/w".to_vec()]);
    assert_eq!(socket_path(b"/w"), b"/w/strata.sock".to_vec());
    assert_eq!(socket_path(b"/w\xff"), b"/w\xff/strata.sock".to_vec());
}

#[test]
fn info_reports_the_server_version() {
    let info = strata_info("0.6.1".to_string());
    assert_eq!(info.name, "strata");
    assert_eq!(info.db_version, "0.6.1");
    assert_eq!(info.notes.as_deref(), Some("embedded; driven via `strata up` IPC daemon over unix socket"));
}

#[test]
fn create_command() {
    match create_collection_command::<f32>(768, Metric::L2) {
        Command::VectorCreateCollection { branch, space, collection, dimension, metric } => {
            assert!(branch.is_none() && space.is_none());
            assert_eq!(collection, COLLECTION_NAME);
            assert_eq!(dimension, 768);
            assert_eq!(metric, DistanceMetric::Euclidean);
        }
        _ => panic!("wrong command"),
    }
}

#[test]
fn upsert_stringifies_ids() {
    let v0 = [0.1f32, 0.2];
    let v1 = [0.3f32, 0.4];
    let rows = [
        VectorRow { id: 0, vector: &v0, labels: None },
        VectorRow { id: 1234567, vector: &v1, labels: None },
    ];
    match upsert_command("vbench", &rows) {
        Some(Command::VectorBatchUpsert { collection, entries, .. }) => {
            assert_eq!(collection, "vbench");
            assert_eq!(entries.len(), 2);
            assert_eq!(entries[0].key, "0");
            assert_eq!(entries[1].key, "1234567");
            assert_eq!(entries[1].vector, vec![0.3, 0.4]);
            assert!(entries[1].metadata.is_none());
        }
        _ => panic!("wrong command"),
    }
    assert!(upsert_command::<f32>("vbench", &[]).is_none());
}

#[test]
fn search_command_copies_the_query() {
    match search_command("vbench", &[1.0f32, 2.0], 10) {
        Command::VectorQuery { collection, query, k, filter, metric, as_of, .. } => {
            assert_eq!(collection, "vbench");
            assert_eq!(query, vec![1.0, 2.0]);
            assert_eq!(k, 10);
            assert!(filter.is_none() && metric.is_none() && as_of.is_none());
        }
        _ => panic!("wrong command"),
    }
}

#[test]
fn replies_are_checked() {
    assert!(check_create_output::<f32>(Output::Version(3)).is_ok());
    assert!(matches!(
        check_create_output::<f32>(Output::Bool(true)),
        Err(AdapterReplyError::Unexpected { command: "VectorCreateCollection", .. })
    ));
    assert!(check_upsert_output::<f32>(Output::Versions(vec![5, 5]), 2).is_ok());
    assert!(matches!(
        check_upsert_output::<f32>(Output::Versions(vec![5]), 2),
        Err(AdapterReplyError::VersionCountMismatch { versions: 1, rows: 2 })
    ));
    assert!(matches!(
        check_upsert_output::<f32>(Output::Version(1), 2),
        Err(AdapterReplyError::Unexpected { command: "VectorBatchUpsert", .. })
    ));
}

#[test]
fn search_ids_parse_keys() {
    let out = Output::VectorMatches(vec![
        VectorMatch { key: "3".to_string(), score: 0.9f32, metadata: None },
        VectorMatch { key: "not-a-number".to_string(), score: 0.5f32, metadata: None },
    ]);
    assert_eq!(search_ids(out).unwrap(), vec![3, u64::MAX]);
    assert!(matches!(
        search_ids::<f32>(Output::Bool(true)),
        Err(AdapterReplyError::Unexpected { command: "VectorQuery", .. })
    ));
}

#[test]
fn socket_poll_step_decides_ready_timeout_wait() {
    assert_eq!(socket_poll_step(true, 20_000, 10_000), SocketPoll::Ready);
    assert_eq!(socket_poll_step(true, 0, 10_000), SocketPoll::Ready);
    assert_eq!(socket_poll_step(false, 10_000, 10_000), SocketPoll::TimedOut);
    assert_eq!(socket_poll_step(false, 9_999, 10_000), SocketPoll::Wait);
}

#[test]
fn load_counter_follows_accepted_upserts() {
    let mut c = LoadCounter::new();
    assert_eq!(c.count(), 0);
    let versions: Vec<u64> = vec![9; 32];
    assert!(c.settle_upsert::<f32>(Output::Versions(versions.clone()), 32).is_ok());
    assert!(c.settle_upsert::<f32>(Output::Versions(versions), 32).is_ok());
    assert_eq!(c.count(), 64);
    // a refused reply leaves the count as it was
    assert!(matches!(
        c.settle_upsert::<f32>(Output::Versions(vec![1]), 2),
        Err(AdapterReplyError::VersionCountMismatch { versions: 1, rows: 2 })
    ));
    assert!(matches!(
        c.settle_upsert::<f32>(Output::Version(3), 1),
        Err(AdapterReplyError::Unexpected { command: "VectorBatchUpsert", .. })
    ));
    assert_eq!(c.count(), 64);
}
