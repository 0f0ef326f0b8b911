//! Wire types of the strata IPC protocol.
//!
//! Field and variant names follow the daemon's definitions exactly; the
//! MessagePack encoding is by name. Vector components and scores are kept
//! generic (`V`, `S`): the harness instantiates them with 32-bit floats.

use vstd::prelude::*;

verus! {

/// `rmpv::Value`, an opaque MessagePack value, carried through unchanged.
#[verifier::external_type_specification]
#[verifier::external_body]
pub struct ExMsgpackValue(rmpv::Value);

/// IPC request from client to server.
#[derive(Debug)]
pub struct Request<V> {
    /// Request id, echoed in the matching response.
    pub id: u64,
    /// The command to execute.
    pub command: Command<V>,
}

/// IPC response from server to client.
#[derive(Debug)]
pub struct Response<S> {
    /// Matches the originating request id.
    pub id: u64,
    /// `Ok(Output)` on success, the server's error captured opaquely otherwise.
    pub result: Result<Output<S>, IpcError>,
}

/// The commands the harness issues.
#[derive(Debug)]
pub enum Command<V> {
    /// Health probe / version handshake. Answered by `Output::Pong`.
    Ping,
    /// Create a vector collection.
    VectorCreateCollection {
        /// Optional target branch.
        branch: Option<String>,
        /// Optional target space.
        space: Option<String>,
        /// Collection name.
        collection: String,
        /// Vector dimensionality.
        dimension: u64,
        /// Distance metric.
        metric: DistanceMetric,
    },
    /// Bulk insert / update of vector entries in one transaction.
    VectorBatchUpsert {
        /// Optional target branch.
        branch: Option<String>,
        /// Optional target space.
        space: Option<String>,
        /// Collection name.
        collection: String,
        /// Vectors to upsert.
        entries: Vec<BatchVectorEntry<V>>,
    },
    /// k-nearest-neighbour search.
    VectorQuery {
        /// Optional target branch.
        branch: Option<String>,
        /// Optional target space.
        space: Option<String>,
        /// Collection name.
        collection: String,
        /// Query embedding.
        query: Vec<V>,
        /// Number of neighbours to return.
        k: u64,
        /// Optional metadata filter (never sent by the harness).
        filter: Option<rmpv::Value>,
        /// Optional distance-metric override.
        metric: Option<DistanceMetric>,
        /// Optional time-travel timestamp (microseconds since epoch).
        as_of: Option<u64>,
    },
    /// Delete a collection.
    VectorDeleteCollection {
        /// Optional target branch.
        branch: Option<String>,
        /// Optional target space.
        space: Option<String>,
        /// Collection name.
        collection: String,
    },
    /// Statistics for a single collection.
    VectorCollectionStats {
        /// Optional target branch.
        branch: Option<String>,
        /// Optional target space.
        space: Option<String>,
        /// Collection name.
        collection: String,
    },
}

/// The replies the harness reads.
#[derive(Debug)]
pub enum Output<S> {
    /// Answer to `Command::Ping`: the daemon's version string.
    Pong {
        /// Server version (e.g. "0.6.1").
        version: String,
    },
    /// Single commit version (e.g. from `VectorCreateCollection`).
    Version(u64),
    /// One commit version per upserted entry (from `VectorBatchUpsert`).
    Versions(Vec<u64>),
    /// k-NN search results.
    VectorMatches(Vec<VectorMatch<S>>),
    /// Boolean (from `VectorDeleteCollection`).
    Bool(bool),
    /// Collection list (from `VectorCollectionStats`), captured opaquely.
    VectorCollectionList(Vec<rmpv::Value>),
}

/// Distance metric for vector similarity; encoded in snake case.
#[derive(Clone, Copy, Debug, PartialEq, Eq, Structural)]
pub enum DistanceMetric {
    /// Cosine similarity (default).
    Cosine,
    /// Euclidean (L2) distance.
    Euclidean,
    /// Dot product similarity.
    DotProduct,
}

impl Default for DistanceMetric {
    /// The daemon's default metric, cosine.
    fn default() -> (m: Self)
        ensures
            m == DistanceMetric::Cosine,
    {
        DistanceMetric::Cosine
    }
}

/// Batch vector entry for `VectorBatchUpsert`.
#[derive(Debug)]
pub struct BatchVectorEntry<V> {
    /// Vector key; the harness stringifies row ids.
    pub key: String,
    /// The embedding.
    pub vector: Vec<V>,
    /// Optional metadata (never sent by the harness).
    pub metadata: Option<rmpv::Value>,
}

/// Single match returned by `VectorQuery`.
#[derive(Debug)]
pub struct VectorMatch<S> {
    /// Key of the matched vector.
    pub key: String,
    /// Similarity score (higher = more similar).
    pub score: S,
    /// Optional metadata, captured opaquely.
    pub metadata: Option<rmpv::Value>,
}

/// The daemon's error, captured opaquely as a MessagePack value.
#[derive(Debug)]
pub struct IpcError(pub rmpv::Value);

} // verus!
