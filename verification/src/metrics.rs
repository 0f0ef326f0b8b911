//! Recall and NDCG bookkeeping, and the latency histogram.
//!
//! Recall@k is the fraction of the ground truth's top-k ids that appear among
//! the adapter's top-k. NDCG@k discounts each hit by its rank: a hit at rank
//! `r` (0-based) gains `1 / log2(r + 2)`, normalised by the gain of a result
//! list whose first `truth_k` entries are all hits. The integer part of both
//! (which ids hit, at which ranks) is decided here; turning it into a float
//! is left to the caller.
//!
//! The latency histogram records microseconds in `[1, 60_000_000]`.

use vstd::prelude::*;
use std::collections::HashSet;
use vstd::multiset::Multiset;
use hdrhistogram::Histogram;
use hdrhistogram::errors::{CreationError, RecordError};
use crate::error::VbenchError;

verus! {

broadcast use vstd::std_specs::hash::group_hash_axioms;

/// The first `k` elements of `s` (all of `s` when it is shorter).
pub open spec fn top_k<A>(s: Seq<A>, k: nat) -> Seq<A> {
    if k < s.len() { s.take(k as int) } else { s }
}

/// How many elements of `s` (counted with repetition) lie in `set`.
pub open spec fn count_in(s: Seq<u64>, set: Set<u64>) -> nat
    decreases s.len(),
{
    if s.len() == 0 {
        0
    } else {
        count_in(s.drop_last(), set) + if set.contains(s.last()) { 1nat } else { 0nat }
    }
}

/// The ranks (0-based positions) of `s` whose element lies in `set` and does
/// not occur earlier in `s`, ascending: each id of `set` is counted once, at
/// its first rank.
pub open spec fn hit_ranks(s: Seq<u64>, set: Set<u64>) -> Seq<usize>
    decreases s.len(),
{
    if s.len() == 0 {
        seq![]
    } else if set.contains(s.last()) && !s.drop_last().contains(s.last()) {
        hit_ranks(s.drop_last(), set).push((s.len() - 1) as usize)
    } else {
        hit_ranks(s.drop_last(), set)
    }
}

/// The ranks `0, 1, ..., n - 1`.
pub open spec fn first_ranks(n: nat) -> Seq<usize> {
    Seq::new(n, |i: int| i as usize)
}

/// The numerator and denominator of recall@k.
pub struct RecallCount {
    /// Ground-truth top-k ids found among the actual top-k.
    pub hits: usize,
    /// How many ground-truth ids were looked for: `min(k, ground_truth.len())`.
    /// Recall is `0` when this is `0`, `hits / truth_k` otherwise.
    pub truth_k: usize,
}

/// Recall@k's numerator: ground-truth top-k ids present in the actual top-k.
pub open spec fn recall_hits_spec(actual: Seq<u64>, truth: Seq<u64>, k: nat) -> nat {
    count_in(top_k(truth, k), top_k(actual, k).to_set())
}

/// Counts for recall@k.
///
/// `actual` is the adapter's result list (best first), `ground_truth` the
/// reference neighbours. Only the first `k` of each are considered, and the
/// order within the actual top-k does not matter.
pub fn recall_hits(actual: &[u64], ground_truth: &[u64], k: usize) -> (r: RecallCount)
    ensures
        r.truth_k == top_k(ground_truth@, k as nat).len(),
        r.hits == recall_hits_spec(actual@, ground_truth@, k as nat),
{
    let set = top_k_set(actual, k);
    let truth_k = if k < ground_truth.len() { k } else { ground_truth.len() };
    let ghost tk = top_k(ground_truth@, k as nat);
    assert(tk =~= ground_truth@.take(truth_k as int));
    let mut hits: usize = 0;
    let mut i: usize = 0;
    while i < truth_k
        invariant
            i <= truth_k <= ground_truth@.len(),
            tk == ground_truth@.take(truth_k as int),
            hits == count_in(ground_truth@.take(i as int), top_k(actual@, k as nat).to_set()),
            hits <= i,
            set@ == top_k(actual@, k as nat).to_set(),
        decreases truth_k - i,
    {
        assert(ground_truth@.take(i + 1).drop_last() =~= ground_truth@.take(i as int));
        if set.contains(&ground_truth[i]) {
            hits = hits + 1;
        }
        i = i + 1;
    }
    RecallCount { hits, truth_k }
}

/// The set of the first `k` ids of `s`.
fn top_k_set(s: &[u64], k: usize) -> (set: HashSet<u64>)
    ensures
        set@ == top_k(s@, k as nat).to_set(),
{
    let n = if k < s.len() { k } else { s.len() };
    assert(top_k(s@, k as nat) =~= s@.take(n as int));
    let mut set: HashSet<u64> = HashSet::new();
    let mut i: usize = 0;
    while i < n
        invariant
            i <= n <= s@.len(),
            top_k(s@, k as nat) == s@.take(n as int),
            set@ == s@.take(i as int).to_set(),
        decreases n - i,
    {
        let x = s[i];
        set.insert(x);
        i = i + 1;
        proof {
            assert(s@.take(i as int) =~= s@.take(i - 1).push(x));
            lemma_to_set_push(s@.take(i - 1), x);
        }
    }
    set
}

/// The rank-level facts behind NDCG@k.
pub struct NdcgRanks {
    /// Ranks (0-based, ascending) of the actual top-k whose id is among the
    /// ground-truth top-k, each such id counted once at its first rank; each
    /// earns gain `1 / log2(rank + 2)`.
    pub hit_ranks: Vec<usize>,
    /// `min(k, ground_truth.len())`: the ideal list has hits at ranks
    /// `0..ideal_len`. NDCG is `0` when this is `0`.
    pub ideal_len: usize,
}

/// Ranks and ideal length for NDCG@k.
///
/// A rank is a hit when the id there lies among the first
/// `min(k, ground_truth.len())` ground-truth ids, wherever it sits there,
/// and did not already appear at an earlier rank: every ground-truth id earns
/// one gain at most, so NDCG stays within `[0, 1]`.
pub fn ndcg_hit_ranks(actual: &[u64], ground_truth: &[u64], k: usize) -> (r: NdcgRanks)
    ensures
        r.ideal_len == top_k(ground_truth@, k as nat).len(),
        r.hit_ranks@ == hit_ranks(top_k(actual@, k as nat), top_k(ground_truth@, k as nat).to_set()),
{
    let truth_set = top_k_set(ground_truth, k);
    let truth_k = if k < ground_truth.len() { k } else { ground_truth.len() };
    let n = if k < actual.len() { k } else { actual.len() };
    let ghost ta = top_k(actual@, k as nat);
    assert(ta =~= actual@.take(n as int));
    let mut ranks: Vec<usize> = Vec::new();
    let mut seen: HashSet<u64> = HashSet::new();
    let mut i: usize = 0;
    while i < n
        invariant
            i <= n <= actual@.len(),
            ta == actual@.take(n as int),
            truth_set@ == top_k(ground_truth@, k as nat).to_set(),
            seen@ == actual@.take(i as int).to_set(),
            ranks@ == hit_ranks(actual@.take(i as int), truth_set@),
        decreases n - i,
    {
        let x: u64 = actual[i];
        let ghost prefix = actual@.take(i as int);
        assert(actual@.take(i + 1).drop_last() =~= prefix);
        assert(actual@.take(i + 1).last() == x);
        assert(seen@.contains(x) == prefix.contains(x));
        if truth_set.contains(&x) && !seen.contains(&x) {
            ranks.push(i);
        }
        seen.insert(x);
        proof {
            assert(actual@.take(i + 1) =~= prefix.push(x));
            lemma_to_set_push(prefix, x);
        }
        i = i + 1;
    }
    NdcgRanks { hit_ranks: ranks, ideal_len: truth_k }
}

proof fn lemma_to_set_push(s: Seq<u64>, x: u64)
    ensures
        s.push(x).to_set() == s.to_set().insert(x),
{
    let p = s.push(x);
    assert forall|y: u64| p.contains(y) == (s.contains(y) || y == x) by {
        if p.contains(y) {
            let j = choose|j: int| 0 <= j < p.len() && #[trigger] p[j] == y;
            if j < s.len() {
                assert(s[j] == y);
            }
        }
        if s.contains(y) {
            let j = choose|j: int| 0 <= j < s.len() && #[trigger] s[j] == y;
            assert(p[j] == y);
        }
        if y == x {
            assert(p[s.len() as int] == x);
        }
    }
    assert(p.to_set() =~= s.to_set().insert(x));
}

proof fn lemma_count_in_le(s: Seq<u64>, set: Set<u64>)
    ensures
        count_in(s, set) <= s.len(),
    decreases s.len(),
{
    if s.len() > 0 {
        lemma_count_in_le(s.drop_last(), set);
    }
}

proof fn lemma_count_in_all(s: Seq<u64>, set: Set<u64>)
    requires
        forall|i: int| 0 <= i < s.len() ==> set.contains(#[trigger] s[i]),
    ensures
        count_in(s, set) == s.len(),
    decreases s.len(),
{
    if s.len() > 0 {
        assert(set.contains(s[s.len() - 1]));
        lemma_count_in_all(s.drop_last(), set);
    }
}

/// Recall never exceeds one: the hits are at most the ids looked for.
pub proof fn lemma_recall_at_most_one(actual: Seq<u64>, truth: Seq<u64>, k: nat)
    ensures
        recall_hits_spec(actual, truth, k) <= top_k(truth, k).len(),
{
    lemma_count_in_le(top_k(truth, k), top_k(actual, k).to_set());
}

/// Recall is insensitive to order, and to anything past the first `k`
/// results: two result lists whose top-k hold the same ids score the same.
pub proof fn lemma_recall_depends_on_top_k_set(a1: Seq<u64>, a2: Seq<u64>, truth: Seq<u64>, k: nat)
    requires
        top_k(a1, k).to_set() == top_k(a2, k).to_set(),
    ensures
        recall_hits_spec(a1, truth, k) == recall_hits_spec(a2, truth, k),
{
}

/// A result list equal to the ground truth finds every id looked for.
pub proof fn lemma_recall_perfect_match(truth: Seq<u64>, k: nat)
    ensures
        recall_hits_spec(truth, truth, k) == top_k(truth, k).len(),
{
    let t = top_k(truth, k);
    assert forall|i: int| 0 <= i < t.len() implies t.to_set().contains(#[trigger] t[i]) by {
        assert(t.contains(t[i]));
    }
    lemma_count_in_all(t, t.to_set());
}

proof fn lemma_hit_ranks_all(s: Seq<u64>, set: Set<u64>)
    requires
        forall|i: int| 0 <= i < s.len() ==> set.contains(#[trigger] s[i]),
        s.no_duplicates(),
        s.len() <= usize::MAX,
    ensures
        hit_ranks(s, set) == first_ranks(s.len()),
    decreases s.len(),
{
    if s.len() > 0 {
        let p = s.drop_last();
        assert(set.contains(s[s.len() - 1]));
        assert(!p.contains(s.last())) by {
            if p.contains(s.last()) {
                let j = choose|j: int| 0 <= j < p.len() && #[trigger] p[j] == s.last();
                assert(s[j] == s[s.len() - 1]);
            }
        }
        assert(p.no_duplicates()) by {
            assert forall|i: int, j: int| 0 <= i < p.len() && 0 <= j < p.len() && i != j implies p[i] != p[j] by {
                assert(p[i] == s[i] && p[j] == s[j]);
            }
        }
        lemma_hit_ranks_all(p, set);
        assert(first_ranks((s.len() - 1) as nat).push((s.len() - 1) as usize) =~= first_ranks(s.len()));
    } else {
        assert(first_ranks(0) =~= Seq::<usize>::empty());
    }
}

/// A result list equal to a ground truth without repeated ids hits exactly
/// the ideal ranks `0..min(k, len)`, so its NDCG is one whenever the ideal is
/// not empty.
pub proof fn lemma_ndcg_perfect_match(truth: Seq<u64>, k: nat)
    requires
        top_k(truth, k).no_duplicates(),
        truth.len() <= usize::MAX,
    ensures
        hit_ranks(top_k(truth, k), top_k(truth, k).to_set()) == first_ranks(top_k(truth, k).len()),
{
    let t = top_k(truth, k);
    assert forall|i: int| 0 <= i < t.len() implies t.to_set().contains(#[trigger] t[i]) by {
        assert(t.contains(t[i]));
    }
    lemma_hit_ranks_all(t, t.to_set());
}

/// Hit ranks are strictly ascending and fall inside the list they rank.
pub proof fn lemma_hit_ranks_ascending(s: Seq<u64>, set: Set<u64>)
    requires
        s.len() <= usize::MAX,
    ensures
        forall|i: int, j: int| 0 <= i < j < hit_ranks(s, set).len() ==> hit_ranks(s, set)[i] < hit_ranks(s, set)[j],
        forall|i: int| 0 <= i < hit_ranks(s, set).len() ==> hit_ranks(s, set)[i] < s.len(),
        hit_ranks(s, set).len() <= s.len(),
    decreases s.len(),
{
    if s.len() > 0 {
        lemma_hit_ranks_ascending(s.drop_last(), set);
    }
}

proof fn lemma_hit_ranks_count(s: Seq<u64>, t: Set<u64>)
    requires
        t.finite(),
        s.len() <= usize::MAX,
    ensures
        hit_ranks(s, t).len() == s.to_set().intersect(t).len(),
        s.to_set().intersect(t).finite(),
        forall|i: int| 0 <= i < hit_ranks(s, t).len() ==> hit_ranks(s, t)[i] >= i,
        hit_ranks(s, t).len() <= s.len(),
    decreases s.len(),
{
    broadcast use vstd::set::group_set_axioms, vstd::seq_lib::seq_to_set_is_finite;
    if s.len() == 0 {
        assert(s.to_set().intersect(t) =~= Set::<u64>::empty());
    } else {
        let p = s.drop_last();
        let x = s.last();
        lemma_hit_ranks_count(p, t);
        assert(s =~= p.push(x));
        lemma_to_set_push(p, x);
        if t.contains(x) && !p.contains(x) {
            assert(!p.to_set().contains(x));
            assert(s.to_set().intersect(t) =~= p.to_set().intersect(t).insert(x));
            assert(hit_ranks(s, t) == hit_ranks(p, t).push((s.len() - 1) as usize));
            assert forall|i: int| 0 <= i < hit_ranks(s, t).len() implies hit_ranks(s, t)[i] >= i by {
                if i < hit_ranks(p, t).len() {
                    assert(hit_ranks(s, t)[i] == hit_ranks(p, t)[i]);
                }
            }
        } else if t.contains(x) {
            assert(p.to_set().contains(x));
            assert(s.to_set().intersect(t) =~= p.to_set().intersect(t));
        } else {
            assert(s.to_set().intersect(t) =~= p.to_set().intersect(t));
        }
    }
}

/// There are at most as many hits as ideal ranks, and the `i`-th hit sits at
/// rank `i` or later. Since the gain `1 / log2(rank + 2)` falls with the
/// rank, NDCG lies in `[0, 1]`, whatever the two lists hold.
pub proof fn lemma_ndcg_hits_within_ideal(actual: Seq<u64>, truth: Seq<u64>, k: nat)
    requires
        actual.len() <= usize::MAX,
    ensures
        hit_ranks(top_k(actual, k), top_k(truth, k).to_set()).len() <= top_k(truth, k).len(),
        forall|i: int| 0 <= i < hit_ranks(top_k(actual, k), top_k(truth, k).to_set()).len()
            ==> #[trigger] hit_ranks(top_k(actual, k), top_k(truth, k).to_set())[i] >= i,
{
    broadcast use vstd::set::group_set_axioms, vstd::seq_lib::seq_to_set_is_finite;
    let s = top_k(actual, k);
    let tk = top_k(truth, k);
    let t = tk.to_set();
    lemma_hit_ranks_count(s, t);
    vstd::set_lib::lemma_len_intersect(t, s.to_set());
    assert(t.intersect(s.to_set()) =~= s.to_set().intersect(t));
    tk.lemma_cardinality_of_set();
}

/// An `hdrhistogram::Histogram<u64>`, held opaquely. Its contents are
/// described by [`hist_samples`] and [`hist_high`].
#[verifier::external_body]
pub struct HistogramCell {
    /// The histogram itself, for reading its mean and quantiles. (Verus
    /// refuses `Histogram` in a function signature, so no accessor can lend it
    /// out; what [`hist_samples`] describes holds only while the histogram is
    /// changed through this module.)
    pub histogram: Histogram<u64>,
}

/// `hdrhistogram::errors::CreationError`, carried through unchanged.
#[verifier::external_type_specification]
#[verifier::external_body]
pub struct ExHistogramCreationError(CreationError);

/// `hdrhistogram::errors::RecordError`, carried through unchanged.
#[verifier::external_type_specification]
#[verifier::external_body]
pub struct ExHistogramRecordError(RecordError);

/// The values recorded into a histogram, each as it was recorded.
pub uninterp spec fn hist_samples(h: HistogramCell) -> Multiset<u64>;

/// The highest value a histogram tracks (its `highest_trackable_value`).
pub uninterp spec fn hist_high(h: HistogramCell) -> u64;

/// Trusted: calls `Histogram::<u64>::new_with_bounds(low, high, sigfig)`.
///
/// Claims, from the crate's source, that the call succeeds when `low` is 1,
/// `high >= 2` and `sigfig <= 5` (its validity checks are then passed and the
/// bucket count fits a `u32`), and that a new histogram holds no samples and
/// tracks values up to `high` (auto-resizing off).
#[verifier::external_body]
fn histogram_with_bounds(low: u64, high: u64, sigfig: u8) -> (r: Result<HistogramCell, CreationError>)
    ensures
        low == 1 && high >= 2 && sigfig <= 5 ==> r is Ok,
        r matches Ok(h) ==> hist_samples(h) == Multiset::<u64>::empty() && hist_high(h) == high,
{
    match Histogram::<u64>::new_with_bounds(low, high, sigfig) {
        Ok(histogram) => Ok(HistogramCell { histogram }),
        Err(e) => Err(e),
    }
}

/// Trusted: calls `Histogram::record(value)`.
///
/// Claims, from the crate's source, that a value no larger than the highest
/// trackable value is recorded without resizing: the call succeeds, the
/// value joins the samples and the bounds stay. Nothing is claimed of larger
/// values.
#[verifier::external_body]
fn histogram_record(h: &mut HistogramCell, value: u64) -> (r: Result<(), RecordError>)
    ensures
        value <= hist_high(*old(h)) ==> {
            &&& r is Ok
            &&& hist_high(*final(h)) == hist_high(*old(h))
            &&& hist_samples(*final(h)) == hist_samples(*old(h)).insert(value)
        },
{
    h.histogram.record(value)
}

/// Trusted: calls `Histogram::len`.
///
/// Claims that it returns the number of recorded samples, saturating at
/// `u64::MAX` (the crate keeps a saturating total count).
#[verifier::external_body]
fn histogram_len(h: &HistogramCell) -> (r: u64)
    ensures
        r == (if hist_samples(*h).len() < u64::MAX { hist_samples(*h).len() } else { u64::MAX as nat }),
{
    h.histogram.len()
}

/// Smallest latency the histogram records, in microseconds.
pub const LATENCY_MIN_MICROS: u64 = 1;

/// Largest latency the histogram records, in microseconds (60 s).
pub const LATENCY_MAX_MICROS: u64 = 60_000_000;

/// A latency sample clamped into the recorded range.
pub open spec fn clamp_micros(micros: u64) -> u64 {
    if micros < LATENCY_MIN_MICROS {
        LATENCY_MIN_MICROS
    } else if micros > LATENCY_MAX_MICROS {
        LATENCY_MAX_MICROS
    } else {
        micros
    }
}

/// Clamping changes only latencies outside `[1 µs, 60 s]`: a latency in that
/// range is recorded as it is, a smaller one as 1 µs and a larger one as 60 s;
/// so every recorded latency lies in the range.
pub proof fn lemma_clamp_keeps_in_range(m: u64)
    ensures
        1 <= m <= 60_000_000 ==> clamp_micros(m) == m,
        m < 1 ==> clamp_micros(m) == 1,
        m > 60_000_000 ==> clamp_micros(m) == 60_000_000,
        1 <= clamp_micros(m) <= 60_000_000,
{
}

/// Latency histogram over microseconds in `[1, 60_000_000]`, 3 significant
/// figures.
pub struct LatencyHistogram {
    inner: HistogramCell,
}

impl LatencyHistogram {
    /// The samples recorded so far (after clamping).
    pub closed spec fn samples(&self) -> Multiset<u64> {
        hist_samples(self.inner)
    }

    /// The histogram tracks values up to the 60 s bound.
    pub closed spec fn wf(&self) -> bool {
        hist_high(self.inner) == LATENCY_MAX_MICROS
    }

    /// An empty histogram with the standard configuration: 1 µs minimum,
    /// 60 s maximum, 3 significant figures. These bounds are valid, so the
    /// result is always `Ok`.
    pub fn new() -> (r: Result<Self, VbenchError>)
        ensures
            r matches Ok(h) && h.wf() && h.samples() == Multiset::<u64>::empty(),
    {
        match histogram_with_bounds(LATENCY_MIN_MICROS, LATENCY_MAX_MICROS, 3) {
            Ok(inner) => Ok(LatencyHistogram { inner }),
            Err(_) => Err(VbenchError::Histogram(String::new())),
        }
    }

    /// Records one latency sample (microseconds), clamped into
    /// `[1, 60_000_000]` rather than refused, so one outlier cannot end a run.
    pub fn record_micros(&mut self, micros: u64) -> (r: Result<(), VbenchError>)
        requires
            old(self).wf(),
        ensures
            r is Ok,
            final(self).wf(),
            final(self).samples() == old(self).samples().insert(clamp_micros(micros)),
    {
        let clamped = if micros < LATENCY_MIN_MICROS {
            LATENCY_MIN_MICROS
        } else if micros > LATENCY_MAX_MICROS {
            LATENCY_MAX_MICROS
        } else {
            micros
        };
        match histogram_record(&mut self.inner, clamped) {
            Ok(()) => Ok(()),
            Err(_) => Err(VbenchError::Histogram(String::new())),
        }
    }

    /// Total samples recorded (saturating at `u64::MAX`).
    pub fn count(&self) -> (r: u64)
        ensures
            r == (if self.samples().len() < u64::MAX { self.samples().len() } else { u64::MAX as nat }),
    {
        histogram_len(&self.inner)
    }

    /// The underlying histogram, for reading its mean and quantiles.
    pub fn histogram(&self) -> (h: &HistogramCell)
        ensures
            hist_samples(*h) == self.samples(),
    {
        &self.inner
    }
}

impl Default for LatencyHistogram {
    /// An empty histogram with the standard configuration.
    fn default() -> (h: Self)
        ensures
            h.wf(),
            h.samples() == Multiset::<u64>::empty(),
    {
        let r = Self::new();
        r.unwrap()
    }
}

} // verus!
