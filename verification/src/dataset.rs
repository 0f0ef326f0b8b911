//! Dataset catalog and the in-memory representation handed to the runner.
//!
//! [`LoadedDataset`] stores train and test embeddings flat (`num * dim`
//! components each) and hands out one row at a time as a slice. The component
//! type is a parameter: the harness stores 32-bit floats.

use vstd::prelude::*;
use crate::adapter::Metric;
use crate::error::VbenchError;
use crate::text::{decimal_chars, u64_to_decimal, str_eq};
use vstd::string::*;

verus! {

/// A static description of a dataset and where to fetch it.
///
/// The bundles follow the VectorDBBench layout: `train.parquet` and
/// `test.parquet` hold `(id, emb: List<Float32>)`, `neighbors.parquet` holds
/// `(id, neighbors_id: List<Int64>)`.
#[derive(Clone, Copy, Debug)]
pub struct DatasetSpec {
    /// Stable id used by the CLI's `--dataset` flag.
    pub id: &'static str,
    /// Human-readable name.
    pub display_name: &'static str,
    /// Vector dimensionality.
    pub dim: usize,
    /// Distance metric the dataset is curated against.
    pub metric: Metric,
    /// Number of training (corpus) vectors.
    pub num_train: usize,
    /// Number of test queries.
    pub num_test: usize,
    /// Number of ground-truth neighbours per query (the upper bound for
    /// `recall_k`).
    pub num_neighbors: usize,
    /// Base URL of the hosted bundle. Filenames are appended.
    pub url_base: &'static str,
    /// Filename of the training parquet under `url_base`.
    pub train_file: &'static str,
    /// Filename of the test queries parquet under `url_base`.
    pub test_file: &'static str,
    /// Filename of the ground-truth neighbours parquet under `url_base`.
    pub neighbors_file: &'static str,
    /// Subdirectory within the cache root where this dataset is stored.
    pub cache_subdir: &'static str,
    /// Approximate total download size, in bytes.
    pub approx_download_bytes: u64,
}

/// Cohere medium 1M: 768-dimensional cosine vectors, 1M train, 10k test.
pub open spec fn cohere_1m_spec() -> DatasetSpec {
    DatasetSpec {
        id: "cohere-1m",
        display_name: "Cohere medium 1M (768d cosine)",
        dim: 768,
        metric: Metric::Cosine,
        num_train: 1_000_000,
        num_test: 10_000,
        num_neighbors: 100,
        url_base: "https://assets.zilliz.com/benchmark/cohere_medium_1m/",
        train_file: "train.parquet",
        test_file: "test.parquet",
        neighbors_file: "neighbors.parquet",
        cache_subdir: "cohere_medium_1m",
        approx_download_bytes: 3221225472,
    }
}

/// The built-in catalog, in listing order.
pub open spec fn catalog_spec() -> Seq<DatasetSpec> {
    seq![cohere_1m_spec()]
}

/// The first entry of `cat` whose id is `id`.
pub open spec fn find_spec(cat: Seq<DatasetSpec>, id: Seq<char>) -> Option<DatasetSpec>
    decreases cat.len(),
{
    if cat.len() == 0 {
        None
    } else if cat[0].id@ == id {
        Some(cat[0])
    } else {
        find_spec(cat.drop_first(), id)
    }
}

/// The built-in dataset catalog.
pub fn catalog() -> (c: Vec<DatasetSpec>)
    ensures
        c@ == catalog_spec(),
{
    let cohere = DatasetSpec {
        id: "cohere-1m",
        display_name: "Cohere medium 1M (768d cosine)",
        dim: 768,
        metric: Metric::Cosine,
        num_train: 1_000_000,
        num_test: 10_000,
        num_neighbors: 100,
        url_base: "https://assets.zilliz.com/benchmark/cohere_medium_1m/",
        train_file: "train.parquet",
        test_file: "test.parquet",
        neighbors_file: "neighbors.parquet",
        cache_subdir: "cohere_medium_1m",
        approx_download_bytes: 3 * 1024 * 1024 * 1024,
    };
    let mut c: Vec<DatasetSpec> = Vec::new();
    c.push(cohere);
    assert(c@ =~= catalog_spec());
    c
}

/// Look up a dataset by its `id`.
pub fn get_spec(id: &str) -> (r: Option<DatasetSpec>)
    ensures
        r == find_spec(catalog_spec(), id@),
{
    let cat = catalog();
    assert(cat@.skip(0) =~= cat@);
    let mut i: usize = 0;
    while i < cat.len()
        invariant
            i <= cat@.len(),
            cat@ == catalog_spec(),
            find_spec(catalog_spec(), id@) == find_spec(cat@.skip(i as int), id@),
        decreases cat@.len() - i,
    {
        let s = cat[i];
        assert(cat@.skip(i as int)[0] == s);
        if str_eq(s.id, id) {
            return Some(s);
        }
        assert(cat@.skip(i as int).drop_first() =~= cat@.skip(i + 1));
        i = i + 1;
    }
    None
}

/// The text of a length-mismatch error: `"<id>: <head><got><tail><expected>"`.
pub open spec fn mismatch_text(id: Seq<char>, head: Seq<char>, got: nat, tail: Seq<char>, expected: nat) -> Seq<char> {
    id + ": "@ + head + decimal_chars(got) + tail + decimal_chars(expected)
}

fn mismatch_message(id: &str, head: &str, got: usize, tail: &str, expected: usize) -> (s: String)
    ensures
        s@ == mismatch_text(id@, head@, got as nat, tail@, expected as nat),
{
    let mut s = String::from_str(id);
    s.append(": ");
    s.append(head);
    let g = u64_to_decimal(got as u64);
    s.append(g.as_str());
    s.append(tail);
    let e = u64_to_decimal(expected as u64);
    s.append(e.as_str());
    s
}

/// Row `i` of a flat buffer of `dim`-wide rows.
pub open spec fn flat_row<T>(flat: Seq<T>, dim: nat, i: int) -> Seq<T> {
    flat.subrange(i * dim, (i + 1) * dim)
}

/// Total number of ids over all ground-truth lists.
pub open spec fn truth_total(truth: Seq<Seq<u64>>) -> nat
    decreases truth.len(),
{
    if truth.len() == 0 {
        0
    } else {
        truth_total(truth.drop_last()) + truth.last().len()
    }
}

proof fn lemma_truth_total_prefix(truth: Seq<Seq<u64>>, i: int)
    requires
        0 <= i <= truth.len(),
    ensures
        truth_total(truth.take(i)) <= truth_total(truth),
    decreases truth.len() - i,
{
    if i < truth.len() {
        lemma_truth_total_prefix(truth, i + 1);
        assert(truth.take(i + 1).drop_last() =~= truth.take(i));
    } else {
        assert(truth.take(i) =~= truth);
    }
}

proof fn lemma_row_in_bounds(i: int, n: int, dim: int)
    requires
        0 <= i < n,
        dim >= 0,
    ensures
        0 <= i * dim,
        i * dim <= (i + 1) * dim,
        (i + 1) * dim == i * dim + dim,
        (i + 1) * dim <= n * dim,
{
    assert(0 <= i * dim) by (nonlinear_arith)
        requires 0 <= i, dim >= 0;
    assert((i + 1) * dim == i * dim + dim) by (nonlinear_arith);
    assert((i + 1) * dim <= n * dim) by (nonlinear_arith)
        requires i + 1 <= n, dim >= 0;
}

/// All vectors and ground truth for a single dataset, in memory.
#[derive(Debug)]
pub struct LoadedDataset<T> {
    /// The catalog entry that produced this dataset.
    pub spec: DatasetSpec,
    train_flat: Vec<T>,
    test_flat: Vec<T>,
    ground_truth: Vec<Vec<u64>>,
}

impl<T: Copy> LoadedDataset<T> {
    /// The catalog entry this dataset was built for.
    pub closed spec fn spec_of(&self) -> DatasetSpec {
        self.spec
    }

    /// Training vectors, flattened row after row.
    pub closed spec fn train(&self) -> Seq<T> {
        self.train_flat@
    }

    /// Test query vectors, flattened row after row.
    pub closed spec fn test(&self) -> Seq<T> {
        self.test_flat@
    }

    /// For each test query, its ground-truth neighbour ids (best first).
    pub closed spec fn truth(&self) -> Seq<Seq<u64>> {
        self.ground_truth@.map_values(|v: Vec<u64>| v@)
    }

    /// The buffers have the lengths that the spec announces.
    pub closed spec fn wf(&self) -> bool {
        &&& self.train().len() == self.spec.num_train * self.spec.dim
        &&& self.test().len() == self.spec.num_test * self.spec.dim
        &&& self.truth().len() == self.spec.num_test
    }

    /// Build a dataset from already-decoded buffers.
    ///
    /// The train buffer must hold `num_train * dim` components, the test
    /// buffer `num_test * dim`, and there must be one ground-truth list per
    /// test query; the first mismatch, in that order, is reported as
    /// `InvalidInput`.
    pub fn from_buffers(
        spec: DatasetSpec,
        train_flat: Vec<T>,
        test_flat: Vec<T>,
        ground_truth: Vec<Vec<u64>>,
    ) -> (r: Result<Self, VbenchError>)
        requires
            spec.num_train * spec.dim <= usize::MAX,
            spec.num_test * spec.dim <= usize::MAX,
        ensures
            train_flat@.len() != spec.num_train * spec.dim ==> (r matches Err(VbenchError::InvalidInput(m))
                && m@ == mismatch_text(spec.id@, "train buffer has "@, train_flat@.len(), " f32s, expected "@,
                (spec.num_train * spec.dim) as nat)),
            train_flat@.len() == spec.num_train * spec.dim && test_flat@.len() != spec.num_test * spec.dim
                ==> (r matches Err(VbenchError::InvalidInput(m)) && m@ == mismatch_text(spec.id@,
                "test buffer has "@, test_flat@.len(), " f32s, expected "@, (spec.num_test * spec.dim) as nat)),
            train_flat@.len() == spec.num_train * spec.dim && test_flat@.len() == spec.num_test * spec.dim
                && ground_truth@.len() != spec.num_test ==> (r matches Err(VbenchError::InvalidInput(m))
                && m@ == mismatch_text(spec.id@, "ground truth has "@, ground_truth@.len(), " entries, expected "@,
                spec.num_test as nat)),
            train_flat@.len() == spec.num_train * spec.dim && test_flat@.len() == spec.num_test * spec.dim
                && ground_truth@.len() == spec.num_test ==> (r matches Ok(d) && d.wf() && d.spec_of() == spec
                && d.train() == train_flat@ && d.test() == test_flat@
                && d.truth() == ground_truth@.map_values(|v: Vec<u64>| v@)),
    {
        let expected_train = spec.num_train * spec.dim;
        if train_flat.len() != expected_train {
            return Err(VbenchError::InvalidInput(mismatch_message(spec.id, "train buffer has ",
                train_flat.len(), " f32s, expected ", expected_train)));
        }
        let expected_test = spec.num_test * spec.dim;
        if test_flat.len() != expected_test {
            return Err(VbenchError::InvalidInput(mismatch_message(spec.id, "test buffer has ",
                test_flat.len(), " f32s, expected ", expected_test)));
        }
        if ground_truth.len() != spec.num_test {
            return Err(VbenchError::InvalidInput(mismatch_message(spec.id, "ground truth has ",
                ground_truth.len(), " entries, expected ", spec.num_test)));
        }
        Ok(LoadedDataset { spec, train_flat, test_flat, ground_truth })
    }

    /// Training row `i` (its id is `i`).
    pub fn train_row(&self, i: usize) -> (r: &[T])
        requires
            self.wf(),
            i < self.spec_of().num_train,
        ensures
            r@ == flat_row(self.train(), self.spec_of().dim as nat, i as int),
    {
        proof {
            lemma_row_in_bounds(i as int, self.spec.num_train as int, self.spec.dim as int);
            assert(self.train_flat@.len() == self.spec.num_train * self.spec.dim);
        }
        let flat = self.train_flat.as_slice();
        let len = flat.len();
        assert((i + 1) * self.spec.dim <= len);
        let start = i * self.spec.dim;
        slice_subrange_of(flat, start, start + self.spec.dim)
    }

    /// Test query `i`.
    pub fn test_row(&self, i: usize) -> (r: &[T])
        requires
            self.wf(),
            i < self.spec_of().num_test,
        ensures
            r@ == flat_row(self.test(), self.spec_of().dim as nat, i as int),
    {
        proof {
            lemma_row_in_bounds(i as int, self.spec.num_test as int, self.spec.dim as int);
            assert(self.test_flat@.len() == self.spec.num_test * self.spec.dim);
        }
        let flat = self.test_flat.as_slice();
        let len = flat.len();
        assert((i + 1) * self.spec.dim <= len);
        let start = i * self.spec.dim;
        slice_subrange_of(flat, start, start + self.spec.dim)
    }

    /// Training rows as `(id, row)` pairs, in id order.
    pub fn train_rows(&self) -> (r: Vec<(u64, &[T])>)
        requires
            self.wf(),
            self.spec_of().dim > 0,
        ensures
            r@.len() == self.spec_of().num_train,
            forall|i: int| 0 <= i < r@.len() ==> (#[trigger] r@[i]).0 == i && r@[i].1@ == flat_row(
                self.train(),
                self.spec_of().dim as nat,
                i,
            ),
    {
        let mut out: Vec<(u64, &[T])> = Vec::new();
        let mut i: usize = 0;
        while i < self.spec.num_train
            invariant
                self.wf(),
                i <= self.spec_of().num_train,
                out@.len() == i,
                forall|j: int| 0 <= j < out@.len() ==> (#[trigger] out@[j]).0 == j && out@[j].1@ == flat_row(
                    self.train(),
                    self.spec_of().dim as nat,
                    j,
                ),
            decreases self.spec.num_train - i,
        {
            let row = self.train_row(i);
            out.push((i as u64, row));
            i = i + 1;
        }
        out
    }

    /// Test queries as `(query_index, row)` pairs, in order.
    pub fn test_rows(&self) -> (r: Vec<(usize, &[T])>)
        requires
            self.wf(),
            self.spec_of().dim > 0,
        ensures
            r@.len() == self.spec_of().num_test,
            forall|i: int| 0 <= i < r@.len() ==> (#[trigger] r@[i]).0 == i && r@[i].1@ == flat_row(
                self.test(),
                self.spec_of().dim as nat,
                i,
            ),
    {
        let mut out: Vec<(usize, &[T])> = Vec::new();
        let mut i: usize = 0;
        while i < self.spec.num_test
            invariant
                self.wf(),
                i <= self.spec_of().num_test,
                out@.len() == i,
                forall|j: int| 0 <= j < out@.len() ==> (#[trigger] out@[j]).0 == j && out@[j].1@ == flat_row(
                    self.test(),
                    self.spec_of().dim as nat,
                    j,
                ),
            decreases self.spec.num_test - i,
        {
            let row = self.test_row(i);
            out.push((i, row));
            i = i + 1;
        }
        out
    }

    /// Ground-truth neighbours for query `i`.
    pub fn ground_truth_for(&self, i: usize) -> (r: &[u64])
        requires
            self.wf(),
            i < self.spec_of().num_test,
        ensures
            r@ == self.truth()[i as int],
    {
        self.ground_truth[i].as_slice()
    }

    /// Resident bytes of the dataset: 4 per vector component (32-bit floats)
    /// and 8 per ground-truth id, ignoring `Vec` overhead.
    pub fn memory_bytes(&self) -> (r: usize)
        requires
            4 * self.train().len() + 4 * self.test().len() + 8 * truth_total(self.truth()) <= usize::MAX,
        ensures
            r == 4 * self.train().len() + 4 * self.test().len() + 8 * truth_total(self.truth()),
    {
        let mut ids: usize = 0;
        let mut i: usize = 0;
        proof {
            lemma_truth_total_prefix(self.truth(), self.truth().len() as int);
        }
        while i < self.ground_truth.len()
            invariant
                i <= self.ground_truth@.len(),
                self.truth().len() == self.ground_truth@.len(),
                ids == truth_total(self.truth().take(i as int)),
                4 * self.train().len() + 4 * self.test().len() + 8 * truth_total(self.truth()) <= usize::MAX,
            decreases self.ground_truth@.len() - i,
        {
            proof {
                lemma_truth_total_prefix(self.truth(), i + 1);
                assert(self.truth().take(i + 1).drop_last() =~= self.truth().take(i as int));
                assert(self.truth().take(i + 1).last() == self.ground_truth@[i as int]@);
            }
            ids = ids + self.ground_truth[i].len();
            i = i + 1;
        }
        assert(self.truth().take(i as int) =~= self.truth());
        self.train_flat.len() * 4 + self.test_flat.len() * 4 + ids * 8
    }
}

/// The subslice `s[i..j]`.
fn slice_subrange_of<T>(s: &[T], i: usize, j: usize) -> (r: &[T])
    requires
        i <= j <= s@.len(),
    ensures
        r@ == s@.subrange(i as int, j as int),
{
    vstd::slice::slice_subrange(s, i, j)
}

} // verus!
