//! What fetching a dataset bundle consists of.
//!
//! Each required file is fetched from `url_base + file_name` into
//! `<file_name>.tmp` inside the dataset's cache directory, then renamed into
//! place; the completion marker is written only after all three landed. The
//! HTTP transfer and the file operations belong to the caller.

use vstd::prelude::*;
use vstd::string::*;
use crate::cache::{join_path, path_join};
use crate::dataset::DatasetSpec;
use crate::text::concat2;

verus! {

/// One file of a dataset bundle to fetch.
pub struct DownloadStep {
    /// The file's name within the bundle.
    pub file_name: &'static str,
    /// Where to fetch it from: the bundle's base URL followed by the name.
    pub url: String,
    /// Where it lives once complete (the path's bytes).
    pub final_path: Vec<u8>,
    /// Where the transfer is written before the rename (the path's bytes).
    pub tmp_path: Vec<u8>,
}

/// The fetch of `file_name` into `dir`.
pub open spec fn step_for(url_base: Seq<char>, dir: Seq<u8>, file_name: &str, s: DownloadStep) -> bool {
    &&& s.file_name@ == file_name@
    &&& s.url@ == url_base + file_name@
    &&& s.final_path@ == path_join(dir, file_name.spec_bytes())
    &&& s.tmp_path@ == path_join(dir, file_name.spec_bytes() + ".tmp".spec_bytes())
}

fn step(url_base: &str, dir: &[u8], file_name: &'static str) -> (s: DownloadStep)
    ensures
        step_for(url_base@, dir@, file_name, s),
{
    let url = concat2(url_base, file_name);
    let final_path = join_path(dir, file_name.as_bytes());
    let mut tmp_name: Vec<u8> = Vec::new();
    crate::cache::append_bytes(&mut tmp_name, file_name.as_bytes());
    crate::cache::append_bytes(&mut tmp_name, ".tmp".as_bytes());
    let tmp_path = join_path(dir, tmp_name.as_slice());
    DownloadStep { file_name, url, final_path, tmp_path }
}

/// The files to fetch for `spec` into its cache directory `dir`, in order:
/// training vectors, test queries, ground-truth neighbours.
pub fn download_plan(spec: &DatasetSpec, dir: &[u8]) -> (plan: Vec<DownloadStep>)
    ensures
        plan@.len() == 3,
        step_for(spec.url_base@, dir@, spec.train_file, plan@[0]),
        step_for(spec.url_base@, dir@, spec.test_file, plan@[1]),
        step_for(spec.url_base@, dir@, spec.neighbors_file, plan@[2]),
{
    let mut plan: Vec<DownloadStep> = Vec::new();
    plan.push(step(spec.url_base, dir, spec.train_file));
    plan.push(step(spec.url_base, dir, spec.test_file));
    plan.push(step(spec.url_base, dir, spec.neighbors_file));
    plan
}

} // verus!
