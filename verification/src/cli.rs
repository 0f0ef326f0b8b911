//! Rules of the command-line front end: the `run` arguments (paths by their
//! OS bytes, so none is altered), defaults for the
//! task label and output path, the adapter and dataset checks, the byte units
//! of the cache listing, and the answer that confirms clearing the cache.

use vstd::prelude::*;
use vstd::string::*;
use crate::text::{concat2, concat3, decimal_chars, str_eq, u64_to_decimal};

verus! {

/// Arguments of `vbench run`.
pub struct RunArgs {
    /// Adapter id (e.g. "strata").
    pub adapter: String,
    /// Dataset id from the catalog (e.g. "cohere-1m").
    pub dataset: String,
    /// Output JSON path (its bytes); defaults to
    /// `./vbench-result-<task-label>.json`.
    pub output: Option<Vec<u8>>,
    /// Working directory for the adapter (its bytes); defaults to a fresh
    /// temporary one.
    pub workdir: Option<Vec<u8>>,
    /// Rows per `load` call.
    pub batch_size: usize,
    /// k for recall@k and ndcg@k.
    pub recall_k: usize,
    /// Warm-up queries to issue during the optimize phase.
    pub warmup_queries: usize,
    /// Free-form label for the published result.
    pub task_label: Option<String>,
    /// Explicit path to the `strata` binary (its bytes).
    pub strata_bin: Option<Vec<u8>>,
    /// Override of the dataset cache root (its bytes).
    pub cache_dir: Option<Vec<u8>>,
    /// Keep the temporary workdir after the run.
    pub keep_workdir: bool,
}

/// The adapters built into this program.
pub fn compiled_in_adapters() -> (names: Vec<&'static str>)
    ensures
        names@.len() == 1,
        names@[0]@ == "strata"@,
{
    let mut names: Vec<&'static str> = Vec::new();
    names.push("strata");
    names
}

/// An adapter this program can run.
#[derive(Clone, Copy, Debug, PartialEq, Eq, Structural)]
pub enum AdapterKind {
    /// The Strata daemon adapter.
    Strata,
}

/// The adapter an `--adapter` value names, if any.
pub fn parse_adapter(name: &str) -> (r: Option<AdapterKind>)
    ensures
        name@ == "strata"@ ==> r == Some(AdapterKind::Strata),
        name@ != "strata"@ ==> r is None,
{
    if str_eq(name, "strata") {
        Some(AdapterKind::Strata)
    } else {
        None
    }
}

/// `unknown adapter: <name>`.
pub fn unknown_adapter_message(name: &str) -> (s: String)
    ensures
        s@ == "unknown adapter: "@ + name@,
{
    concat2("unknown adapter: ", name)
}

/// `unknown dataset id: <id>`.
pub fn unknown_dataset_message(id: &str) -> (s: String)
    ensures
        s@ == "unknown dataset id: "@ + id@,
{
    concat2("unknown dataset id: ", id)
}

/// The label used when none is given: `<adapter>-<dataset>`.
pub fn default_task_label(adapter: &str, dataset: &str) -> (s: String)
    ensures
        s@ == adapter@ + "-"@ + dataset@,
{
    concat3(adapter, "-", dataset)
}

/// The output path used when none is given: `vbench-result-<label>.json`.
pub fn default_output_path(task_label: &str) -> (s: String)
    ensures
        s@ == "vbench-result-"@ + task_label@ + ".json"@,
{
    concat3("vbench-result-", task_label, ".json")
}

/// The message for a parquet file whose row count disagrees with the catalog.
pub open spec fn row_count_text(id: Seq<char>, file: Seq<char>, got: nat, expected: nat) -> Seq<char> {
    id + ": "@ + file + " has "@ + decimal_chars(got) + " rows but spec says "@ + decimal_chars(expected)
}

/// Checks a decoded file's row count against the catalog.
pub fn check_row_count(id: &str, file: &str, got: usize, expected: usize) -> (r: Result<(), String>)
    ensures
        got == expected ==> r is Ok,
        got != expected ==> (r matches Err(m) && m@ == row_count_text(id@, file@, got as nat, expected as nat)),
{
    if got == expected {
        return Ok(());
    }
    let mut s = String::from_str(id);
    s.append(": ");
    s.append(file);
    s.append(" has ");
    let g = u64_to_decimal(got as u64);
    s.append(g.as_str());
    s.append(" rows but spec says ");
    let e = u64_to_decimal(expected as u64);
    s.append(e.as_str());
    Err(s)
}

/// The largest binary unit not above `bytes`: GiB, MiB or KiB with its
/// scale, or `None` when `bytes` is under 1 KiB (shown as plain bytes).
pub open spec fn byte_unit_spec(bytes: u64) -> Option<(Seq<char>, u64)> {
    if bytes >= 1024 * 1024 * 1024 {
        Some(("GiB"@, 1073741824u64))
    } else if bytes >= 1024 * 1024 {
        Some(("MiB"@, 1048576u64))
    } else if bytes >= 1024 {
        Some(("KiB"@, 1024u64))
    } else {
        None
    }
}

/// The unit a byte count is shown in (see [`byte_unit_spec`]).
pub fn byte_unit(bytes: u64) -> (r: Option<(&'static str, u64)>)
    ensures
        match byte_unit_spec(bytes) {
            Some((label, scale)) => r matches Some(u) && u.0@ == label && u.1 == scale,
            None => r is None,
        },
{
    if bytes >= 1024 * 1024 * 1024 {
        Some(("GiB", 1073741824u64))
    } else if bytes >= 1024 * 1024 {
        Some(("MiB", 1048576u64))
    } else if bytes >= 1024 {
        Some(("KiB", 1024u64))
    } else {
        None
    }
}

/// Whether `c` has the Unicode `White_Space` property, which is what
/// `char::is_whitespace` tests.
pub open spec fn is_white_space(c: char) -> bool {
    let n = c as u32;
    ||| 0x9 <= n <= 0xD
    ||| n == 0x20
    ||| n == 0x85
    ||| n == 0xA0
    ||| n == 0x1680
    ||| 0x2000 <= n <= 0x200A
    ||| n == 0x2028
    ||| n == 0x2029
    ||| n == 0x202F
    ||| n == 0x205F
    ||| n == 0x3000
}

/// A string with its leading and trailing white space removed.
pub open spec fn trimmed(s: Seq<char>) -> Seq<char>
    decreases s.len(),
{
    if s.len() > 0 && is_white_space(s[0]) {
        trimmed(s.drop_first())
    } else if s.len() > 0 && is_white_space(s.last()) {
        trimmed(s.drop_last())
    } else {
        s
    }
}

/// What `str::to_lowercase` makes of a string.
pub uninterp spec fn lowercased(s: Seq<char>) -> Seq<char>;

/// Trusted: calls `str::trim`, which std documents as removing leading and
/// trailing white space, white space being the `White_Space` property; the
/// result is [`trimmed`].
#[verifier::external_body]
fn trim_str(s: &str) -> (r: &str)
    ensures
        r@ == trimmed(s@),
{
    s.trim()
}

/// Trusted: calls `str::to_lowercase`; the result is named [`lowercased`].
#[verifier::external_body]
fn lowercase_str(s: &str) -> (r: String)
    ensures
        r@ == lowercased(s@),
{
    s.to_lowercase()
}

/// Whether an answer to "Continue? [y/N]" confirms: after trimming and
/// lower-casing it is `y` or `yes`.
pub fn is_affirmative(input: &str) -> (r: bool)
    ensures
        r == (lowercased(trimmed(input@)) == "y"@ || lowercased(trimmed(input@)) == "yes"@),
{
    let t = trim_str(input);
    let l = lowercase_str(t);
    str_eq(l.as_str(), "y") || str_eq(l.as_str(), "yes")
}

} // verus!
