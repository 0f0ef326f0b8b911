//! Error type of the benchmark core.

use vstd::prelude::*;

verus! {

/// `serde_json::Error`, carried through unchanged.
#[verifier::external_type_specification]
#[verifier::external_body]
pub struct ExJsonError(serde_json::Error);

/// Errors raised by the runner, the dataset loader and the metrics.
///
/// Adapter-side errors are wrapped as `Adapter`, carrying the adapter's own
/// message, so a runner failure does not depend on which adapter produced it.
#[derive(Debug)]
pub enum VbenchError {
    /// I/O error reading or writing a dataset, cache file, or output JSON.
    Io(std::io::Error),
    /// JSON serialise / deserialise error.
    Json(serde_json::Error),
    /// Latency histogram error.
    Histogram(String),
    /// Configuration / input-validation error.
    InvalidInput(String),
    /// An adapter-side error, as the adapter's message.
    Adapter(String),
}

} // verus!
