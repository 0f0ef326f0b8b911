//! What every database adapter shares: the distance metric, the borrowed row
//! handed to `load`, and the adapter's self-description.
//!
//! The adapter trait itself is asynchronous and lives with the program that
//! drives it; the types here are what the runner and the result document read.

use vstd::prelude::*;

verus! {

/// `serde_json::Value`, an opaque JSON value, carried through unchanged.
#[verifier::external_type_specification]
#[verifier::external_body]
pub struct ExJsonValue(serde_json::Value);

/// Distance metric for similarity search.
#[derive(Clone, Copy, Debug, PartialEq, Eq, Structural)]
pub enum Metric {
    /// Cosine similarity.
    Cosine,
    /// Euclidean (L2) distance.
    L2,
    /// Inner / dot product.
    Ip,
}

/// The lower-case name of a metric, as the result document and the dataset
/// listing spell it.
pub open spec fn metric_name(m: Metric) -> Seq<char> {
    match m {
        Metric::Cosine => "cosine"@,
        Metric::L2 => "l2"@,
        Metric::Ip => "ip"@,
    }
}

impl Metric {
    /// The metric's lower-case name: `cosine`, `l2` or `ip`.
    pub fn name(&self) -> (s: &'static str)
        ensures
            s@ == metric_name(*self),
    {
        match self {
            Metric::Cosine => "cosine",
            Metric::L2 => "l2",
            Metric::Ip => "ip",
        }
    }
}

/// A row from a dataset, borrowed for the duration of a `load` call.
///
/// `V` is the vector component type (the harness uses 32-bit floats).
#[derive(Debug, Clone, Copy)]
pub struct VectorRow<'a, V> {
    /// Stable row id (rows are numbered 0..N-1).
    pub id: u64,
    /// The embedding.
    pub vector: &'a [V],
    /// Optional structured labels for filtered-search workloads; the
    /// serial phases always pass `None`.
    pub labels: Option<&'a serde_json::Value>,
}

/// Self-describing metadata about an adapter, embedded in the result JSON.
#[derive(Debug, Clone)]
pub struct AdapterInfo {
    /// Short identifier (e.g. "strata").
    pub name: String,
    /// The database version the adapter drives, probed at open time.
    pub db_version: String,
    /// Free-form notes.
    pub notes: Option<String>,
}

} // verus!
