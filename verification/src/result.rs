//! The parts of the `TestResult` schema that hold no measurement: the case
//! and task configuration, the concurrency sweep configuration, the filename
//! template and the run id.
//!
//! Field names follow VectorDBBench's `models.py` exactly. The documents
//! that carry the measured numbers are assembled by the program that runs
//! the benchmark.

use vstd::prelude::*;
use vstd::string::*;

verus! {

/// Concurrency sweep configuration (`models.py:ConcurrencySearchConfig`).
#[derive(Debug, Clone)]
pub struct ConcurrencySearchConfig {
    /// Concurrency levels to sweep, e.g. `[1, 5, 10, 20, 30, 40, 60, 80]`.
    pub num_concurrency: Vec<i32>,
    /// Wall-clock seconds per concurrency level.
    pub concurrency_duration: i32,
    /// Hard timeout per concurrency level.
    pub concurrency_timeout: i32,
}

impl Default for ConcurrencySearchConfig {
    /// VectorDBBench's defaults: levels 1, 5, 10, 20, 30, 40, 60, 80; 30 s per
    /// level; a 3600 s timeout.
    fn default() -> (c: Self)
        ensures
            c.num_concurrency@ == seq![1i32, 5, 10, 20, 30, 40, 60, 80],
            c.concurrency_duration == 30,
            c.concurrency_timeout == 3600,
    {
        let mut levels: Vec<i32> = Vec::new();
        levels.push(1);
        levels.push(5);
        levels.push(10);
        levels.push(20);
        levels.push(30);
        levels.push(40);
        levels.push(60);
        levels.push(80);
        assert(levels@ =~= seq![1i32, 5, 10, 20, 30, 40, 60, 80]);
        ConcurrencySearchConfig { num_concurrency: levels, concurrency_duration: 30, concurrency_timeout: 3600 }
    }
}

/// Case configuration (`models.py:CaseConfig`).
#[derive(Debug)]
pub struct CaseConfig {
    /// VectorDBBench `CaseType` number (e.g. 5 for Performance768D1M).
    pub case_id: i32,
    /// Custom-case parameters for custom case ids; otherwise `None`.
    pub custom_case: Option<serde_json::Value>,
    /// k for recall@k and ndcg@k.
    pub k: i32,
    /// Concurrency sweep configuration; present even when no sweep runs.
    pub concurrency_search_config: ConcurrencySearchConfig,
}

/// Task configuration (`models.py:TaskConfig`).
#[derive(Debug)]
pub struct TaskConfig {
    /// Database identifier (e.g. "Strata").
    pub db: String,
    /// Adapter-specific connection bag, captured opaquely.
    pub db_config: serde_json::Value,
    /// Adapter-specific tuning bag, captured opaquely.
    pub db_case_config: serde_json::Value,
    /// Case identification.
    pub case_config: CaseConfig,
    /// Phases run, e.g. `["drop_old", "load", "search_serial"]`.
    pub stages: Vec<String>,
    /// Concurrent loaders during the load phase.
    pub load_concurrency: i32,
}

/// The filename template upstream keeps in every result document.
pub fn default_file_fmt() -> (s: String)
    ensures
        s@ == "result_{}_{}_{}.json"@,
{
    String::from_str("result_{}_{}_{}.json")
}

/// Whether `c` is a lower-case hexadecimal digit.
pub open spec fn is_lower_hex(c: char) -> bool {
    ('0' <= c && c <= '9') || ('a' <= c && c <= 'f')
}

/// A UUID version 4 in simple form: 32 lower-case hex digits, no dashes,
/// version digit `4`, variant digit one of `8`, `9`, `a`, `b`.
pub open spec fn is_uuid_v4_simple(s: Seq<char>) -> bool {
    &&& s.len() == 32
    &&& forall|i: int| 0 <= i < 32 ==> is_lower_hex(#[trigger] s[i])
    &&& s[12] == '4'
    &&& (s[16] == '8' || s[16] == '9' || s[16] == 'a' || s[16] == 'b')
}

/// Trusted: calls `uuid::Uuid::new_v4()` and formats it with `.simple()`.
///
/// Claims what the crate's source shows of every outcome: the simple form is
/// 32 lower-case hex digits, and `new_v4` sets the version nibble to 4 and
/// the variant bits to `10`. The digits themselves are random.
#[verifier::external_body]
fn uuid_v4_simple() -> (s: String)
    ensures
        is_uuid_v4_simple(s@),
{
    uuid::Uuid::new_v4().simple().to_string()
}

/// A fresh run id in upstream's format: a random UUID4 as 32 lower-case hex
/// digits, no dashes.
pub fn new_run_id() -> (s: String)
    ensures
        is_uuid_v4_simple(s@),
{
    uuid_v4_simple()
}

/// The stages a serial run goes through, as upstream names them.
pub fn serial_stages() -> (stages: Vec<String>)
    ensures
        stages@.len() == 3,
        stages@[0]@ == "drop_old"@,
        stages@[1]@ == "load"@,
        stages@[2]@ == "search_serial"@,
{
    let mut stages: Vec<String> = Vec::new();
    stages.push(String::from_str("drop_old"));
    stages.push(String::from_str("load"));
    stages.push(String::from_str("search_serial"));
    stages
}

/// Upstream's `CaseType` for a catalog dataset: `Performance768D1M` (5) for
/// Cohere-1M; any other dataset is reported as a custom case (100).
pub open spec fn case_id_spec(dataset_id: Seq<char>) -> i32 {
    if dataset_id == "cohere-1m"@ { 5 } else { 100 }
}

/// The case configuration of a serial run over `dataset_id` at recall@k
/// (k saturates at `i32::MAX`), with the default concurrency configuration.
pub fn serial_case_config(dataset_id: &str, recall_k: usize) -> (c: CaseConfig)
    ensures
        c.case_id == case_id_spec(dataset_id@),
        c.custom_case is None,
        c.k == (if recall_k > i32::MAX { i32::MAX as int } else { recall_k as int }),
        c.concurrency_search_config.num_concurrency@ == seq![1i32, 5, 10, 20, 30, 40, 60, 80],
        c.concurrency_search_config.concurrency_duration == 30,
        c.concurrency_search_config.concurrency_timeout == 3600,
{
    let case_id: i32 = if crate::text::str_eq(dataset_id, "cohere-1m") { 5 } else { 100 };
    let k: i32 = if recall_k > i32::MAX as usize { i32::MAX } else { recall_k as i32 };
    CaseConfig { case_id, custom_case: None, k, concurrency_search_config: ConcurrencySearchConfig::default() }
}

} // verus!
