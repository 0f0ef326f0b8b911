//! Verified core of a vector-database benchmark harness.
//!
//! The crate holds the decisions of the harness: the dataset catalog and its
//! in-memory layout, recall and NDCG bookkeeping, the latency histogram, the
//! phase machine that drives an adapter, the length-prefixed IPC frame format,
//! the strata adapter's command building and reply checking, and the small
//! rules of the command-line front end.

pub mod text;
pub mod ipc;
pub mod error;
pub mod adapter;
pub mod dataset;
pub mod metrics;
pub mod runner;
pub mod cache;
pub mod host;
pub mod result;
pub mod result_label;
pub mod download;
pub mod parquet_io;
pub mod strata;
pub mod cli;
