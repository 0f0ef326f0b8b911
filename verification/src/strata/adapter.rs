//! Commands the Strata adapter sends and how it reads the replies.
//!
//! The adapter starts `strata up --fg --db <workdir>`, waits for
//! `<workdir>/strata.sock`, pings the daemon for its version, and creates one
//! collection named `vbench`. Row ids travel as decimal keys; search results
//! are read back by parsing the keys.

use vstd::prelude::*;
use vstd::string::*;
use crate::adapter::{AdapterInfo, Metric, VectorRow};
use crate::cache::{join_path, path_join};
use crate::ipc::types::{BatchVectorEntry, Command, DistanceMetric, Output, VectorMatch};
use crate::text::{decimal_chars, parse_u64, parse_u64_spec, u64_to_decimal, lemma_parse_decimal_roundtrip};

verus! {

/// The collection the adapter creates and fills.
pub const COLLECTION_NAME: &'static str = "vbench";

/// The daemon's socket file inside its working directory.
pub const SOCKET_FILENAME: &'static str = "strata.sock";

/// What the wait for the daemon's socket does after one look.
#[derive(Debug, Clone, Copy, PartialEq, Eq, Structural)]
pub enum SocketPoll {
    /// The socket is there: go on.
    Ready,
    /// The socket is not there and the time is up: give up.
    TimedOut,
    /// The socket is not there yet: sleep, then look again.
    Wait,
}

/// One step of the wait for the socket, from whether it exists and how long
/// the wait has lasted: a socket that exists ends the wait even at the
/// deadline; a missing one times out once `elapsed_ms` reaches `timeout_ms`.
pub fn socket_poll_step(socket_exists: bool, elapsed_ms: u64, timeout_ms: u64) -> (p: SocketPoll)
    ensures
        socket_exists ==> p == SocketPoll::Ready,
        !socket_exists && elapsed_ms >= timeout_ms ==> p == SocketPoll::TimedOut,
        !socket_exists && elapsed_ms < timeout_ms ==> p == SocketPoll::Wait,
{
    if socket_exists {
        SocketPoll::Ready
    } else if elapsed_ms >= timeout_ms {
        SocketPoll::TimedOut
    } else {
        SocketPoll::Wait
    }
}

/// The daemon's metric for a dataset metric.
pub open spec fn distance_metric(m: Metric) -> DistanceMetric {
    match m {
        Metric::Cosine => DistanceMetric::Cosine,
        Metric::L2 => DistanceMetric::Euclidean,
        Metric::Ip => DistanceMetric::DotProduct,
    }
}

/// Maps a dataset metric to the daemon's: cosine to cosine, L2 to Euclidean,
/// inner product to dot product.
pub fn map_metric(m: Metric) -> (d: DistanceMetric)
    ensures
        d == distance_metric(m),
{
    match m {
        Metric::Cosine => DistanceMetric::Cosine,
        Metric::L2 => DistanceMetric::Euclidean,
        Metric::Ip => DistanceMetric::DotProduct,
    }
}

/// The adapter's self-description, given the daemon's reported version.
pub fn strata_info(server_version: String) -> (info: AdapterInfo)
    ensures
        info.name@ == "strata"@,
        info.db_version == server_version,
        info.notes matches Some(n) && n@ == "embedded; driven via `strata up` IPC daemon over unix socket"@,
{
    AdapterInfo {
        name: String::from_str("strata"),
        db_version: server_version,
        notes: Some(String::from_str("embedded; driven via `strata up` IPC daemon over unix socket")),
    }
}

/// The daemon's command line after the binary: `up --fg --db <workdir>`.
pub fn daemon_args(workdir: &[u8]) -> (args: Vec<Vec<u8>>)
    ensures
        args@.len() == 4,
        args@[0]@ == "up".spec_bytes(),
        args@[1]@ == "--fg".spec_bytes(),
        args@[2]@ == "--db".spec_bytes(),
        args@[3]@ == workdir@,
{
    let mut args: Vec<Vec<u8>> = Vec::new();
    args.push(vstd::slice::slice_to_vec("up".as_bytes()));
    args.push(vstd::slice::slice_to_vec("--fg".as_bytes()));
    args.push(vstd::slice::slice_to_vec("--db".as_bytes()));
    args.push(vstd::slice::slice_to_vec(workdir));
    args
}

/// The daemon's socket: `<workdir>/strata.sock`, by the bytes of its path.
pub fn socket_path(workdir: &[u8]) -> (p: Vec<u8>)
    ensures
        p@ == path_join(workdir@, SOCKET_FILENAME.spec_bytes()),
{
    join_path(workdir, SOCKET_FILENAME.as_bytes())
}

/// The command that provisions the bench collection.
pub fn create_collection_command<V>(dim: usize, metric: Metric) -> (c: Command<V>)
    ensures
        c matches Command::VectorCreateCollection { branch, space, collection, dimension, metric: m }
            && branch is None && space is None && collection@ == COLLECTION_NAME@ && dimension == dim
            && m == distance_metric(metric),
{
    Command::VectorCreateCollection {
        branch: None,
        space: None,
        collection: String::from_str(COLLECTION_NAME),
        dimension: dim as u64,
        metric: map_metric(metric),
    }
}

/// The entry that upserts `row`: its id as a decimal key, a copy of its vector.
pub open spec fn entry_for<V>(e: BatchVectorEntry<V>, row: VectorRow<V>) -> bool {
    &&& e.key@ == decimal_chars(row.id as nat)
    &&& e.vector@ == row.vector@
    &&& e.metadata is None
}

/// The command that upserts a batch of rows, or `None` for an empty batch
/// (nothing is sent then).
pub fn upsert_command<V: Copy>(collection: &str, rows: &[VectorRow<V>]) -> (c: Option<Command<V>>)
    ensures
        rows@.len() == 0 ==> c is None,
        rows@.len() > 0 ==> (c matches Some(Command::VectorBatchUpsert { branch, space, collection: name, entries })
            && branch is None && space is None && name@ == collection@ && entries@.len() == rows@.len()
            && forall|i: int| 0 <= i < rows@.len() ==> entry_for(#[trigger] entries@[i], rows@[i])),
{
    if rows.len() == 0 {
        return None;
    }
    let mut entries: Vec<BatchVectorEntry<V>> = Vec::new();
    let mut i: usize = 0;
    while i < rows.len()
        invariant
            i <= rows@.len(),
            entries@.len() == i,
            forall|j: int| 0 <= j < i ==> entry_for(#[trigger] entries@[j], rows@[j]),
        decreases rows@.len() - i,
    {
        let row = &rows[i];
        let key = u64_to_decimal(row.id);
        let vector = vstd::slice::slice_to_vec(row.vector);
        entries.push(BatchVectorEntry { key, vector, metadata: None });
        i = i + 1;
    }
    Some(Command::VectorBatchUpsert { branch: None, space: None, collection: String::from_str(collection), entries })
}

/// The k-NN query for `query`.
pub fn search_command<V: Copy>(collection: &str, query: &[V], k: usize) -> (c: Command<V>)
    ensures
        c matches Command::VectorQuery { branch, space, collection: name, query: q, k: kk, filter, metric, as_of }
            && branch is None && space is None && name@ == collection@ && q@ == query@ && kk == k
            && filter is None && metric is None && as_of is None,
{
    Command::VectorQuery {
        branch: None,
        space: None,
        collection: String::from_str(collection),
        query: vstd::slice::slice_to_vec(query),
        k: k as u64,
        filter: None,
        metric: None,
        as_of: None,
    }
}

/// A reply the adapter cannot accept.
#[derive(Debug)]
pub enum AdapterReplyError<S> {
    /// The daemon answered `command` with an output of the wrong kind.
    Unexpected {
        /// The command that was sent.
        command: &'static str,
        /// What came back.
        output: Output<S>,
    },
    /// An upsert returned a different number of versions than rows sent.
    VersionCountMismatch {
        /// Versions returned.
        versions: usize,
        /// Rows sent.
        rows: u64,
    },
}

/// Reads the reply to `VectorCreateCollection`: a commit version.
pub fn check_create_output<S>(out: Output<S>) -> (r: Result<(), AdapterReplyError<S>>)
    ensures
        out is Version ==> r is Ok,
        !(out is Version) ==> (r matches Err(AdapterReplyError::Unexpected { command, output })
            && command@ == "VectorCreateCollection"@ && output == out),
{
    match out {
        Output::Version(_) => Ok(()),
        other => Err(AdapterReplyError::Unexpected { command: "VectorCreateCollection", output: other }),
    }
}

/// Reads the reply to `VectorBatchUpsert` of `rows` rows: one commit version
/// per row.
pub fn check_upsert_output<S>(out: Output<S>, rows: u64) -> (r: Result<(), AdapterReplyError<S>>)
    ensures
        out matches Output::Versions(v) ==> (if v@.len() == rows {
            r is Ok
        } else {
            r matches Err(AdapterReplyError::VersionCountMismatch { versions, rows: n }) && versions == v@.len()
                && n == rows
        }),
        !(out is Versions) ==> (r matches Err(AdapterReplyError::Unexpected { command, output })
            && command@ == "VectorBatchUpsert"@ && output == out),
{
    match out {
        Output::Versions(v) => {
            if v.len() as u64 == rows {
                Ok(())
            } else {
                Err(AdapterReplyError::VersionCountMismatch { versions: v.len(), rows })
            }
        },
        other => Err(AdapterReplyError::Unexpected { command: "VectorBatchUpsert", output: other }),
    }
}

/// `a + b` wrapped at 2^64, as an atomic counter adds.
pub open spec fn wrapping_sum(a: u64, b: u64) -> u64 {
    if a + b <= u64::MAX { (a + b) as u64 } else { (a + b - 0x1_0000_0000_0000_0000) as u64 }
}

/// Whether the reply to an upsert of `rows` rows accepts them all: one commit
/// version per row.
pub open spec fn upsert_accepted<S>(out: Output<S>, rows: u64) -> bool {
    out matches Output::Versions(v) && v@.len() == rows
}

/// The number of rows the adapter has loaded into its collection: what it
/// reports as its count.
pub struct LoadCounter {
    loaded: u64,
}

impl LoadCounter {
    /// The rows loaded so far.
    pub closed spec fn loaded(&self) -> u64 {
        self.loaded
    }

    /// A freshly opened adapter has loaded nothing.
    pub fn new() -> (c: Self)
        ensures
            c.loaded() == 0,
    {
        LoadCounter { loaded: 0 }
    }

    /// The adapter's row count.
    pub fn count(&self) -> (n: u64)
        ensures
            n == self.loaded(),
    {
        self.loaded
    }

    /// Settles the upsert of `rows` rows from the daemon's reply, checked as
    /// [`check_upsert_output`] does: an accepted upsert adds `rows` to the
    /// count (wrapping, as an atomic add does); a refused one leaves it.
    pub fn settle_upsert<S>(&mut self, out: Output<S>, rows: u64) -> (r: Result<(), AdapterReplyError<S>>)
        ensures
            r is Ok <==> upsert_accepted(out, rows),
            out matches Output::Versions(v) ==> (v@.len() != rows ==> (r matches Err(
                AdapterReplyError::VersionCountMismatch { versions, rows: n },
            ) && versions == v@.len() && n == rows)),
            !(out is Versions) ==> (r matches Err(AdapterReplyError::Unexpected { command, output })
                && command@ == "VectorBatchUpsert"@ && output == out),
            r is Ok ==> final(self).loaded() == wrapping_sum(old(self).loaded(), rows),
            r is Err ==> final(self).loaded() == old(self).loaded(),
    {
        let r = check_upsert_output(out, rows);
        if r.is_ok() {
            self.loaded = if self.loaded <= u64::MAX - rows {
                self.loaded + rows
            } else {
                rows - (u64::MAX - self.loaded) - 1
            };
        }
        r
    }
}

/// The row id a key stands for; a key that is not a decimal `u64` maps to
/// `u64::MAX`, which no row of a dataset carries.
pub open spec fn key_to_id(key: Seq<char>) -> u64 {
    match parse_u64_spec(key) {
        Some(n) => n,
        None => u64::MAX,
    }
}

/// Reads the reply to `VectorQuery`: the matched row ids, best first.
pub fn search_ids<S>(out: Output<S>) -> (r: Result<Vec<u64>, AdapterReplyError<S>>)
    ensures
        out matches Output::VectorMatches(ms) ==> (r matches Ok(ids) && ids@.len() == ms@.len()
            && forall|i: int| 0 <= i < ms@.len() ==> #[trigger] ids@[i] == key_to_id(ms@[i].key@)),
        !(out is VectorMatches) ==> (r matches Err(AdapterReplyError::Unexpected { command, output })
            && command@ == "VectorQuery"@ && output == out),
{
    match out {
        Output::VectorMatches(matches) => {
            let mut ids: Vec<u64> = Vec::new();
            let mut i: usize = 0;
            while i < matches.len()
                invariant
                    i <= matches@.len(),
                    ids@.len() == i,
                    forall|j: int| 0 <= j < i ==> #[trigger] ids@[j] == key_to_id(matches@[j].key@),
                decreases matches@.len() - i,
            {
                let id = match parse_u64(matches[i].key.as_str()) {
                    Some(n) => n,
                    None => u64::MAX,
                };
                ids.push(id);
                i = i + 1;
            }
            Ok(ids)
        },
        other => Err(AdapterReplyError::Unexpected { command: "VectorQuery", output: other }),
    }
}

/// A row id sent as a key comes back as the same id when the key is returned
/// by a search.
pub proof fn lemma_key_roundtrip(id: u64)
    ensures
        key_to_id(decimal_chars(id as nat)) == id,
{
    lemma_parse_decimal_roundtrip(id);
}

} // verus!
