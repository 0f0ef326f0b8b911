//! The phases a benchmark run drives an adapter through, as a state machine.
//!
//! A run loads the training rows in batches, checks the adapter's row count,
//! optimizes, issues warm-up queries (whose failures are ignored), measures
//! every test query, and shuts the adapter down. The machine here decides what
//! to do next from what the last step reported; the program that owns the
//! adapter performs each action, times it, and reports back.

use vstd::prelude::*;
use vstd::string::*;
use crate::error::VbenchError;
use crate::text::{decimal_chars, u64_to_decimal};

verus! {

/// Phase knobs that the CLI exposes.
#[derive(Debug, Clone)]
pub struct RunnerOptions {
    /// Rows per `load` call.
    pub batch_size: usize,
    /// k for recall@k and ndcg@k.
    pub recall_k: usize,
    /// Warm-up queries to issue during the optimize phase.
    pub warmup_queries: usize,
    /// Free-form label for the published result.
    pub task_label: String,
    /// How the database was installed (e.g. "stratadb.org/install.sh").
    pub install_method: Option<String>,
    /// Free-form notes about the database.
    pub db_notes: Option<String>,
}

impl Default for RunnerOptions {
    /// VectorDBBench's standard knobs: batches of 1000, recall@10, 200
    /// warm-up queries, label `vbench-run`.
    fn default() -> (o: Self)
        ensures
            o.batch_size == 1000,
            o.recall_k == 10,
            o.warmup_queries == 200,
            o.task_label@ == "vbench-run"@,
            o.install_method is None,
            o.db_notes is None,
    {
        RunnerOptions {
            batch_size: 1000,
            recall_k: 10,
            warmup_queries: 200,
            task_label: String::from_str("vbench-run"),
            install_method: None,
            db_notes: None,
        }
    }
}

/// Where the batch that starts at row `start` ends (exclusive): `batch_size`
/// rows on, or the last row. A batch size of 0 never fills a batch, so all
/// rows go in one final batch.
pub open spec fn batch_end(start: int, num_rows: int, batch_size: int) -> int {
    if batch_size <= 0 || start + batch_size >= num_rows {
        num_rows
    } else {
        start + batch_size
    }
}

/// The `load` batches from row `start` on, as `(start, end)` row ranges.
pub open spec fn load_batches(start: int, num_rows: int, batch_size: int) -> Seq<(int, int)>
    decreases num_rows - start,
{
    if start >= num_rows {
        seq![]
    } else {
        seq![(start, batch_end(start, num_rows, batch_size))] + load_batches(
            batch_end(start, num_rows, batch_size),
            num_rows,
            batch_size,
        )
    }
}

/// Warm-up queries actually issued: the warm-up budget, capped by the number
/// of test queries.
pub open spec fn warmup_count(warmup_queries: int, num_test: int) -> int {
    if warmup_queries < num_test { warmup_queries } else { num_test }
}

/// What the runner should do next.
pub enum RunnerAction {
    /// Hand rows `start..end` to the adapter's `load`.
    LoadBatch { start: usize, end: usize },
    /// Ask the adapter how many rows it holds.
    CountRows,
    /// Call the adapter's `optimize`.
    Optimize,
    /// Issue test query `query` as a warm-up; its result and failure are ignored.
    Warmup { query: usize },
    /// Issue test query `query`, time it, and score it.
    Measure { query: usize },
    /// Shut the adapter down.
    Shutdown,
    /// The run is complete.
    Finished,
    /// The run is aborted with this error.
    Failed(VbenchError),
}

/// A [`RunnerAction`] with its error message as characters.
pub enum ActionView {
    /// Load rows `start..end`.
    LoadBatch { start: usize, end: usize },
    /// Count rows.
    CountRows,
    /// Optimize.
    Optimize,
    /// Warm up with a query.
    Warmup { query: usize },
    /// Measure a query.
    Measure { query: usize },
    /// Shut down.
    Shutdown,
    /// Done.
    Finished,
    /// Aborted with `InvalidInput(message)`.
    FailedInvalidInput(Seq<char>),
    /// Aborted with `Adapter(message)`.
    FailedAdapter(Seq<char>),
    /// Aborted with another error.
    FailedOther,
}

impl View for RunnerAction {
    type V = ActionView;

    open spec fn view(&self) -> ActionView {
        match self {
            RunnerAction::LoadBatch { start, end } => ActionView::LoadBatch { start: *start, end: *end },
            RunnerAction::CountRows => ActionView::CountRows,
            RunnerAction::Optimize => ActionView::Optimize,
            RunnerAction::Warmup { query } => ActionView::Warmup { query: *query },
            RunnerAction::Measure { query } => ActionView::Measure { query: *query },
            RunnerAction::Shutdown => ActionView::Shutdown,
            RunnerAction::Finished => ActionView::Finished,
            RunnerAction::Failed(VbenchError::InvalidInput(m)) => ActionView::FailedInvalidInput(m@),
            RunnerAction::Failed(VbenchError::Adapter(m)) => ActionView::FailedAdapter(m@),
            RunnerAction::Failed(_) => ActionView::FailedOther,
        }
    }
}

/// What the last action reported.
pub enum RunnerEvent {
    /// The action succeeded.
    Done,
    /// `CountRows` succeeded with this count.
    Counted(u64),
    /// The action failed with the adapter's message.
    Failed(String),
}

/// A [`RunnerEvent`] with its message as characters.
pub enum EventView {
    /// Success.
    Done,
    /// A row count.
    Counted(u64),
    /// Failure with a message.
    Failed(Seq<char>),
}

impl View for RunnerEvent {
    type V = EventView;

    open spec fn view(&self) -> EventView {
        match self {
            RunnerEvent::Done => EventView::Done,
            RunnerEvent::Counted(c) => EventView::Counted(*c),
            RunnerEvent::Failed(m) => EventView::Failed(m@),
        }
    }
}

/// The action the machine is waiting on.
#[derive(Clone, Copy, PartialEq, Eq, Structural)]
pub enum RunnerPhase {
    /// Loading the batch that ends at row `end`.
    Loading { end: usize },
    /// Counting rows.
    Counting,
    /// Optimizing.
    Optimizing,
    /// Warm-up query `query` is in flight.
    WarmingUp { query: usize },
    /// Measured query `query` is in flight.
    Measuring { query: usize },
    /// Shutting down.
    ShuttingDown,
    /// Finished or failed; nothing more to do.
    Stopped,
}

/// The text of a post-load count mismatch.
pub open spec fn count_mismatch_text(count: nat, expected: nat) -> Seq<char> {
    "post-load count mismatch: adapter has "@ + decimal_chars(count) + " rows, expected "@ + decimal_chars(
        expected,
    )
}

/// The run's phase machine.
pub struct BenchRunner {
    /// Training rows to load.
    pub num_train: usize,
    /// Test queries to measure.
    pub num_test: usize,
    /// Rows per `load` call.
    pub batch_size: usize,
    /// Warm-up budget.
    pub warmup_queries: usize,
    /// The action in flight.
    pub phase: RunnerPhase,
}

/// The action that loads from row `start` on, or counts rows once all are loaded.
pub open spec fn load_from_spec(r: BenchRunner, start: int) -> (RunnerPhase, ActionView) {
    if start >= r.num_train {
        (RunnerPhase::Counting, ActionView::CountRows)
    } else {
        let end = batch_end(start, r.num_train as int, r.batch_size as int) as usize;
        (RunnerPhase::Loading { end }, ActionView::LoadBatch { start: start as usize, end })
    }
}

/// The action that measures from query `q` on, or shuts down after the last.
pub open spec fn measure_from_spec(r: BenchRunner, q: int) -> (RunnerPhase, ActionView) {
    if q >= r.num_test {
        (RunnerPhase::ShuttingDown, ActionView::Shutdown)
    } else {
        (RunnerPhase::Measuring { query: q as usize }, ActionView::Measure { query: q as usize })
    }
}

/// The action that warms up with query `q`, or starts measuring once the
/// warm-up queries are done.
pub open spec fn warmup_from_spec(r: BenchRunner, q: int) -> (RunnerPhase, ActionView) {
    if q >= warmup_count(r.warmup_queries as int, r.num_test as int) {
        measure_from_spec(r, 0)
    } else {
        (RunnerPhase::WarmingUp { query: q as usize }, ActionView::Warmup { query: q as usize })
    }
}

/// The phase in flight is consistent with the run's sizes.
pub open spec fn runner_wf(r: BenchRunner) -> bool {
    match r.phase {
        RunnerPhase::Loading { end } => end <= r.num_train,
        RunnerPhase::WarmingUp { query } => query < warmup_count(r.warmup_queries as int, r.num_test as int),
        RunnerPhase::Measuring { query } => query < r.num_test,
        _ => true,
    }
}

/// Whether `e` is a report the machine can take in its current phase:
/// nothing once stopped; a count only while counting; and while counting,
/// either the count or the failure of the count call.
pub open spec fn accepts(r: BenchRunner, e: EventView) -> bool {
    &&& !(r.phase is Stopped)
    &&& (e is Counted ==> r.phase is Counting)
    &&& (r.phase is Counting ==> !(e is Done))
}

/// The phase and action that follow report `e` (for a report the phase accepts).
pub open spec fn step_spec(r: BenchRunner, e: EventView) -> (RunnerPhase, ActionView) {
    match e {
        EventView::Failed(msg) => match r.phase {
            RunnerPhase::WarmingUp { query } => warmup_from_spec(r, query + 1),
            _ => (RunnerPhase::Stopped, ActionView::FailedAdapter(msg)),
        },
        EventView::Counted(c) => if c as usize == r.num_train {
            (RunnerPhase::Optimizing, ActionView::Optimize)
        } else {
            (RunnerPhase::Stopped, ActionView::FailedInvalidInput(count_mismatch_text(c as nat, r.num_train as nat)))
        },
        EventView::Done => match r.phase {
            RunnerPhase::Loading { end } => load_from_spec(r, end as int),
            RunnerPhase::Optimizing => warmup_from_spec(r, 0),
            RunnerPhase::WarmingUp { query } => warmup_from_spec(r, query + 1),
            RunnerPhase::Measuring { query } => measure_from_spec(r, query + 1),
            _ => (RunnerPhase::Stopped, ActionView::Finished),
        },
    }
}

/// The row-count check after loading: a reported count lets the run go on to
/// optimizing exactly when the adapter holds the `num_train` rows that were
/// loaded; any other count, more or fewer, stops the run with the
/// count-mismatch error naming both numbers.
pub proof fn lemma_count_check(r: BenchRunner, c: u64)
    requires
        r.phase is Counting,
    ensures
        (step_spec(r, EventView::Counted(c)).1 is Optimize) <==> (c as usize == r.num_train),
        c <= usize::MAX ==> ((step_spec(r, EventView::Counted(c)).1 is Optimize) <==> (c == r.num_train)),
        c as usize == r.num_train ==> step_spec(r, EventView::Counted(c)) == (
            RunnerPhase::Optimizing,
            ActionView::Optimize,
        ),
        c as usize != r.num_train ==> step_spec(r, EventView::Counted(c)) == (
            RunnerPhase::Stopped,
            ActionView::FailedInvalidInput(
                "post-load count mismatch: adapter has "@ + decimal_chars(c as nat) + " rows, expected "@
                    + decimal_chars(r.num_train as nat),
            ),
        ),
{
}

impl BenchRunner {
    /// A machine for a run over `num_train` rows and `num_test` queries, and
    /// its first action: the first load batch (or the row count when there is
    /// nothing to load).
    pub fn start(num_train: usize, num_test: usize, batch_size: usize, warmup_queries: usize) -> (res: (
        Self,
        RunnerAction,
    ))
        ensures
            res.0.num_train == num_train,
            res.0.num_test == num_test,
            res.0.batch_size == batch_size,
            res.0.warmup_queries == warmup_queries,
            runner_wf(res.0),
            (res.0.phase, res.1@) == load_from_spec(res.0, 0),
    {
        let mut r = BenchRunner { num_train, num_test, batch_size, warmup_queries, phase: RunnerPhase::Counting };
        let a = r.load_from(0);
        (r, a)
    }

    fn load_from(&mut self, start: usize) -> (a: RunnerAction)
        ensures
            final(self).num_train == old(self).num_train,
            final(self).num_test == old(self).num_test,
            final(self).batch_size == old(self).batch_size,
            final(self).warmup_queries == old(self).warmup_queries,
            runner_wf(*final(self)),
            (final(self).phase, a@) == load_from_spec(*old(self), start as int),
    {
        if start >= self.num_train {
            self.phase = RunnerPhase::Counting;
            RunnerAction::CountRows
        } else {
            let end = if self.batch_size == 0 || self.batch_size >= self.num_train - start {
                self.num_train
            } else {
                start + self.batch_size
            };
            self.phase = RunnerPhase::Loading { end };
            RunnerAction::LoadBatch { start, end }
        }
    }

    fn measure_from(&mut self, q: usize) -> (a: RunnerAction)
        ensures
            final(self).num_train == old(self).num_train,
            final(self).num_test == old(self).num_test,
            final(self).batch_size == old(self).batch_size,
            final(self).warmup_queries == old(self).warmup_queries,
            runner_wf(*final(self)),
            (final(self).phase, a@) == measure_from_spec(*old(self), q as int),
    {
        if q >= self.num_test {
            self.phase = RunnerPhase::ShuttingDown;
            RunnerAction::Shutdown
        } else {
            self.phase = RunnerPhase::Measuring { query: q };
            RunnerAction::Measure { query: q }
        }
    }

    fn warmup_from(&mut self, q: usize) -> (a: RunnerAction)
        ensures
            final(self).num_train == old(self).num_train,
            final(self).num_test == old(self).num_test,
            final(self).batch_size == old(self).batch_size,
            final(self).warmup_queries == old(self).warmup_queries,
            runner_wf(*final(self)),
            (final(self).phase, a@) == warmup_from_spec(*old(self), q as int),
    {
        let w = if self.warmup_queries < self.num_test { self.warmup_queries } else { self.num_test };
        if q >= w {
            self.measure_from(0)
        } else {
            self.phase = RunnerPhase::WarmingUp { query: q };
            RunnerAction::Warmup { query: q }
        }
    }

    /// Takes the report of the action in flight and returns the next action.
    ///
    /// Any failure aborts the run with `Adapter(message)`, except a warm-up
    /// query's, which is ignored. A row count other than `num_train` aborts
    /// with `InvalidInput`.
    pub fn step(&mut self, e: RunnerEvent) -> (a: RunnerAction)
        requires
            runner_wf(*old(self)),
            accepts(*old(self), e@),
        ensures
            runner_wf(*final(self)),
            final(self).num_train == old(self).num_train,
            final(self).num_test == old(self).num_test,
            final(self).batch_size == old(self).batch_size,
            final(self).warmup_queries == old(self).warmup_queries,
            (final(self).phase, a@) == step_spec(*old(self), e@),
    {
        match e {
            RunnerEvent::Failed(msg) => match self.phase {
                RunnerPhase::WarmingUp { query } => self.warmup_from(query + 1),
                _ => {
                    self.phase = RunnerPhase::Stopped;
                    RunnerAction::Failed(VbenchError::Adapter(msg))
                },
            },
            RunnerEvent::Counted(c) => {
                if #[verifier::truncate] (c as usize) == self.num_train {
                    self.phase = RunnerPhase::Optimizing;
                    RunnerAction::Optimize
                } else {
                    self.phase = RunnerPhase::Stopped;
                    RunnerAction::Failed(VbenchError::InvalidInput(count_mismatch_message(c, self.num_train)))
                }
            },
            RunnerEvent::Done => match self.phase {
                RunnerPhase::Loading { end } => self.load_from(end),
                RunnerPhase::Optimizing => self.warmup_from(0),
                RunnerPhase::WarmingUp { query } => self.warmup_from(query + 1),
                RunnerPhase::Measuring { query } => self.measure_from(query + 1),
                _ => {
                    self.phase = RunnerPhase::Stopped;
                    RunnerAction::Finished
                },
            },
        }
    }
}

fn count_mismatch_message(count: u64, expected: usize) -> (s: String)
    ensures
        s@ == count_mismatch_text(count as nat, expected as nat),
{
    let mut s = String::from_str("post-load count mismatch: adapter has ");
    let c = u64_to_decimal(count);
    s.append(c.as_str());
    s.append(" rows, expected ");
    let e = u64_to_decimal(expected as u64);
    s.append(e.as_str());
    s
}

/// The report a successful action gives: the true row count when counting,
/// `Done` otherwise.
pub open spec fn success_event(r: BenchRunner) -> EventView {
    if r.phase is Counting {
        EventView::Counted(r.num_train as u64)
    } else {
        EventView::Done
    }
}

/// `r` with another phase in flight.
pub open spec fn with_phase(r: BenchRunner, p: RunnerPhase) -> BenchRunner {
    BenchRunner { phase: p, ..r }
}

/// The actions the machine emits, for at most `steps` steps, when every
/// action succeeds.
pub open spec fn drive(r: BenchRunner, steps: nat) -> Seq<ActionView>
    decreases steps,
{
    if steps == 0 || r.phase is Stopped {
        seq![]
    } else {
        let next = step_spec(r, success_event(r));
        seq![next.1] + drive(with_phase(r, next.0), (steps - 1) as nat)
    }
}

/// The load actions for the batches from row `start` on.
pub open spec fn load_actions(start: int, num_rows: int, batch_size: int) -> Seq<ActionView> {
    load_batches(start, num_rows, batch_size).map_values(
        |b: (int, int)| ActionView::LoadBatch { start: b.0 as usize, end: b.1 as usize },
    )
}

/// Warm-up actions for queries `from..to`.
pub open spec fn warmup_actions(from: int, to: int) -> Seq<ActionView> {
    Seq::new((to - from) as nat, |i: int| ActionView::Warmup { query: (from + i) as usize })
}

/// Measure actions for queries `from..to`.
pub open spec fn measure_actions(from: int, to: int) -> Seq<ActionView> {
    Seq::new((to - from) as nat, |i: int| ActionView::Measure { query: (from + i) as usize })
}

/// Everything a successful run does, in order.
pub open spec fn successful_run(num_train: int, num_test: int, batch_size: int, warmup_queries: int) -> Seq<ActionView> {
    load_actions(0, num_train, batch_size) + seq![ActionView::CountRows, ActionView::Optimize] + warmup_actions(
        0,
        warmup_count(warmup_queries, num_test),
    ) + measure_actions(0, num_test) + seq![ActionView::Shutdown, ActionView::Finished]
}

proof fn lemma_drive_unfold(r: BenchRunner, steps: nat)
    requires
        steps > 0,
        !(r.phase is Stopped),
    ensures
        drive(r, steps) == seq![step_spec(r, success_event(r)).1] + drive(
            with_phase(r, step_spec(r, success_event(r)).0),
            (steps - 1) as nat,
        ),
{
}

proof fn lemma_drive_from_measure(r: BenchRunner, q: int, m: nat)
    requires
        0 <= q <= r.num_test,
    ensures
        seq![measure_from_spec(r, q).1] + drive(with_phase(r, measure_from_spec(r, q).0), (r.num_test - q + 1 + m) as nat)
            == measure_actions(q, r.num_test as int) + seq![ActionView::Shutdown, ActionView::Finished],
    decreases r.num_test - q,
{
    let t = r.num_test as int;
    let (p, a) = measure_from_spec(r, q);
    let fuel = (t - q + 1 + m) as nat;
    if q >= t {
        let rs = with_phase(r, RunnerPhase::ShuttingDown);
        lemma_drive_unfold(rs, fuel);
        assert(drive(with_phase(rs, RunnerPhase::Stopped), (fuel - 1) as nat) =~= Seq::<ActionView>::empty());
        assert(measure_actions(q, t) =~= Seq::<ActionView>::empty());
        assert(seq![a] + drive(with_phase(r, p), fuel) =~= seq![ActionView::Shutdown, ActionView::Finished]);
    } else {
        let rm = with_phase(r, p);
        lemma_drive_unfold(rm, fuel);
        assert(with_phase(rm, measure_from_spec(rm, q + 1).0) == with_phase(r, measure_from_spec(r, q + 1).0));
        lemma_drive_from_measure(r, q + 1, m);
        assert(measure_actions(q, t) =~= seq![ActionView::Measure { query: q as usize }] + measure_actions(q + 1, t));
        assert(seq![a] + drive(with_phase(r, p), fuel) =~= measure_actions(q, t) + seq![
            ActionView::Shutdown,
            ActionView::Finished,
        ]);
    }
}

proof fn lemma_drive_from_warmup(r: BenchRunner, q: int, m: nat)
    requires
        0 <= q <= warmup_count(r.warmup_queries as int, r.num_test as int),
        r.warmup_queries >= 0,
    ensures
        ({
            let wc = warmup_count(r.warmup_queries as int, r.num_test as int);
            seq![warmup_from_spec(r, q).1] + drive(with_phase(r, warmup_from_spec(r, q).0), (wc - q + r.num_test + 1 + m) as nat)
                == warmup_actions(q, wc) + measure_actions(0, r.num_test as int) + seq![
                ActionView::Shutdown,
                ActionView::Finished,
            ]
        }),
    decreases warmup_count(r.warmup_queries as int, r.num_test as int) - q,
{
    let wc = warmup_count(r.warmup_queries as int, r.num_test as int);
    let (p, a) = warmup_from_spec(r, q);
    let fuel = (wc - q + r.num_test + 1 + m) as nat;
    if q >= wc {
        lemma_drive_from_measure(r, 0, m);
        assert(warmup_actions(q, wc) =~= Seq::<ActionView>::empty());
        assert(warmup_actions(q, wc) + measure_actions(0, r.num_test as int) =~= measure_actions(0, r.num_test as int));
    } else {
        let rw = with_phase(r, p);
        lemma_drive_unfold(rw, fuel);
        assert(with_phase(rw, warmup_from_spec(rw, q + 1).0) == with_phase(r, warmup_from_spec(r, q + 1).0));
        lemma_drive_from_warmup(r, q + 1, m);
        assert(warmup_actions(q, wc) =~= seq![ActionView::Warmup { query: q as usize }] + warmup_actions(q + 1, wc));
        assert(seq![a] + drive(with_phase(r, p), fuel) =~= warmup_actions(q, wc) + measure_actions(0, r.num_test as int)
            + seq![ActionView::Shutdown, ActionView::Finished]);
    }
}

proof fn lemma_load_batches_len_step(start: int, num_rows: int, batch_size: int)
    requires
        start < num_rows,
    ensures
        batch_end(start, num_rows, batch_size) > start,
        load_batches(start, num_rows, batch_size) == seq![(start, batch_end(start, num_rows, batch_size))]
            + load_batches(batch_end(start, num_rows, batch_size), num_rows, batch_size),
{
}

proof fn lemma_drive_from_load(r: BenchRunner, e: int, m: nat)
    requires
        0 <= e <= r.num_train,
    ensures
        seq![load_from_spec(r, e).1] + drive(
            with_phase(r, load_from_spec(r, e).0),
            (load_batches(e, r.num_train as int, r.batch_size as int).len() + m) as nat,
        ) == load_actions(e, r.num_train as int, r.batch_size as int) + seq![ActionView::CountRows] + drive(
            with_phase(r, RunnerPhase::Counting),
            m,
        ),
    decreases r.num_train - e,
{
    let n = r.num_train as int;
    let bs = r.batch_size as int;
    let (p, a) = load_from_spec(r, e);
    if e >= n {
        assert(load_actions(e, n, bs) =~= Seq::<ActionView>::empty());
        assert(seq![a] + drive(with_phase(r, p), m) =~= load_actions(e, n, bs) + seq![ActionView::CountRows]
            + drive(with_phase(r, RunnerPhase::Counting), m));
    } else {
        let e2 = batch_end(e, n, bs);
        lemma_load_batches_len_step(e, n, bs);
        let rl = with_phase(r, p);
        let fuel = (load_batches(e, n, bs).len() + m) as nat;
        lemma_drive_unfold(rl, fuel);
        assert(with_phase(rl, load_from_spec(rl, e2).0) == with_phase(r, load_from_spec(r, e2).0));
        lemma_drive_from_load(r, e2, m);
        assert(load_actions(e, n, bs) =~= seq![ActionView::LoadBatch { start: e as usize, end: e2 as usize }]
            + load_actions(e2, n, bs));
        assert(seq![a] + drive(with_phase(r, p), fuel) =~= load_actions(e, n, bs) + seq![ActionView::CountRows]
            + drive(with_phase(r, RunnerPhase::Counting), m));
    }
}

/// When every action succeeds and the adapter reports every row loaded, the
/// machine loads the training rows in its batches, counts, optimizes, issues
/// `min(warmup_queries, num_test)` warm-up queries, measures each test query
/// once in order, shuts the adapter down and finishes: `warmup + num_test`
/// searches in all (with the warm-up capped by the test set).
pub proof fn lemma_successful_run(num_train: usize, num_test: usize, batch_size: usize, warmup_queries: usize)
    ensures
        ({
            let r = BenchRunner { num_train, num_test, batch_size, warmup_queries, phase: RunnerPhase::Counting };
            let first = load_from_spec(r, 0);
            let steps = load_batches(0, num_train as int, batch_size as int).len() + warmup_count(
                warmup_queries as int,
                num_test as int,
            ) + num_test + 3;
            seq![first.1] + drive(with_phase(r, first.0), steps as nat) == successful_run(
                num_train as int,
                num_test as int,
                batch_size as int,
                warmup_queries as int,
            )
        }),
{
    let r = BenchRunner { num_train, num_test, batch_size, warmup_queries, phase: RunnerPhase::Counting };
    let wc = warmup_count(warmup_queries as int, num_test as int);
    let tail = (wc + num_test + 3) as nat;
    lemma_drive_from_load(r, 0, tail);
    let rc = with_phase(r, RunnerPhase::Counting);
    lemma_drive_unfold(rc, tail);
    assert((num_train as u64) as usize == num_train);
    let ro = with_phase(rc, RunnerPhase::Optimizing);
    lemma_drive_unfold(ro, (tail - 1) as nat);
    assert(with_phase(ro, warmup_from_spec(ro, 0).0) == with_phase(r, warmup_from_spec(r, 0).0));
    lemma_drive_from_warmup(r, 0, 0);
    assert(successful_run(num_train as int, num_test as int, batch_size as int, warmup_queries as int) =~= load_actions(
        0,
        num_train as int,
        batch_size as int,
    ) + seq![ActionView::CountRows] + (seq![ActionView::Optimize] + (warmup_actions(0, wc) + measure_actions(
        0,
        num_test as int,
    ) + seq![ActionView::Shutdown, ActionView::Finished])));
}

/// With a positive batch size, batch `i` covers rows
/// `i * batch_size .. min((i + 1) * batch_size, num_rows)`, and there are
/// `ceil(num_rows / batch_size)` batches: the batches cover every row once,
/// in order, and all but the last are full.
pub proof fn lemma_load_batches_shape(num_rows: nat, batch_size: nat)
    requires
        batch_size > 0,
    ensures
        load_batches(0, num_rows as int, batch_size as int).len() == (num_rows + batch_size - 1) / (batch_size as int),
        forall|i: int| 0 <= i < load_batches(0, num_rows as int, batch_size as int).len() ==> #[trigger] load_batches(
            0,
            num_rows as int,
            batch_size as int,
        )[i] == (i * batch_size, if (i + 1) * batch_size < num_rows { (i + 1) * batch_size } else { num_rows as int }),
{
    lemma_load_batches_shape_from(0, num_rows as int, batch_size as int);
    assert(0 * (batch_size as int) == 0);
    if num_rows == 0 {
        assert((batch_size - 1) / (batch_size as int) == 0) by (nonlinear_arith)
            requires batch_size > 0;
    }
}

proof fn lemma_load_batches_shape_from(j: int, n: int, bs: int)
    requires
        bs > 0,
        j >= 0,
        j * bs <= n || (j == 0 && n >= 0),
    ensures
        load_batches(j * bs, n, bs).len() == if j * bs >= n { 0 } else { (n - j * bs + bs - 1) / bs },
        forall|i: int| 0 <= i < load_batches(j * bs, n, bs).len() ==> #[trigger] load_batches(j * bs, n, bs)[i] == (
            (j + i) * bs,
            if (j + i + 1) * bs < n { (j + i + 1) * bs } else { n },
        ),
    decreases n - j * bs,
{
    let s = j * bs;
    assert((j + 1) * bs == j * bs + bs) by (nonlinear_arith);
    if s >= n {
    } else {
        lemma_load_batches_len_step(s, n, bs);
        if s + bs >= n {
            assert(load_batches(s + bs, n, bs).len() == 0) by {
                if s + bs > n {
                } 
            }
            assert(load_batches(n, n, bs) =~= Seq::<(int, int)>::empty());
            assert(batch_end(s, n, bs) == n);
            assert((n - s + bs - 1) / bs == 1) by (nonlinear_arith)
                requires 0 < n - s <= bs, bs > 0;
        } else {
            lemma_load_batches_shape_from(j + 1, n, bs);
            assert((n - s + bs - 1) / bs == (n - (s + bs) + bs - 1) / bs + 1) by (nonlinear_arith)
                requires n - s > bs, bs > 0;
            assert forall|i: int| 0 <= i < load_batches(s, n, bs).len() implies #[trigger] load_batches(s, n, bs)[i] == (
                (j + i) * bs,
                if (j + i + 1) * bs < n { (j + i + 1) * bs } else { n },
            ) by {
                if i == 0 {
                    assert((j + 0) * bs == s);
                } else {
                    assert(load_batches(s, n, bs)[i] == load_batches(s + bs, n, bs)[i - 1]);
                    assert((j + 1 + (i - 1)) == j + i);
                }
            }
        }
    }
}

/// A batch size of 0 never fills a batch: all rows go in one final batch.
pub proof fn lemma_load_batches_unbatched(num_rows: nat)
    requires
        num_rows > 0,
    ensures
        load_batches(0, num_rows as int, 0) == seq![(0int, num_rows as int)],
{
    assert(load_batches(num_rows as int, num_rows as int, 0) =~= Seq::<(int, int)>::empty());
    assert(load_batches(0, num_rows as int, 0) =~= seq![(0int, num_rows as int)]);
}

} // verus!
