//! Host snapshot for result provenance.
//!
//! Captured once at the start of every run so that a reader can tell which
//! machine produced a number. Probing the machine is the caller's part; this
//! module decides what is recorded when a probe comes back empty.

use vstd::prelude::*;
use vstd::string::*;

verus! {

/// Snapshot of the host the benchmark ran on.
#[derive(Debug, Clone)]
pub struct HostInfo {
    /// `hostname(1)` output.
    pub hostname: String,
    /// Operating system (e.g. "linux", "macos").
    pub os: String,
    /// CPU architecture (e.g. "x86_64", "aarch64").
    pub arch: String,
    /// CPU brand string (e.g. "AMD Ryzen 9 7950X").
    pub cpu_brand: String,
    /// Logical core count (includes SMT threads).
    pub cpu_cores: usize,
    /// Total physical RAM in bytes.
    pub total_memory_bytes: u64,
    /// Rust compiler version that built the binary, when known.
    pub rustc_version: Option<String>,
}

/// A probed text, or `unknown` when the probe found nothing.
pub open spec fn or_unknown(o: Option<String>) -> Seq<char> {
    match o {
        Some(s) => s@,
        None => "unknown"@,
    }
}

impl HostInfo {
    /// Assembles a snapshot from what the probes found. A missing host name
    /// or CPU brand is recorded as `unknown`, an unknown core count as 1. The
    /// parallelism probe, when it answers, answers a non-zero count, so the
    /// snapshot always has at least one core.
    pub fn from_probes(
        hostname: Option<String>,
        os: String,
        arch: String,
        first_cpu_brand: Option<String>,
        available_parallelism: Option<usize>,
        total_memory_bytes: u64,
        rustc_version: Option<String>,
    ) -> (h: HostInfo)
        requires
            available_parallelism matches Some(n) ==> n >= 1,
        ensures
            h.cpu_cores >= 1,
            h.hostname@ == or_unknown(hostname),
            h.os == os,
            h.arch == arch,
            h.cpu_brand@ == or_unknown(first_cpu_brand),
            h.cpu_cores == (match available_parallelism {
                Some(n) => n,
                None => 1,
            }),
            h.total_memory_bytes == total_memory_bytes,
            h.rustc_version == rustc_version,
    {
        let hostname = match hostname {
            Some(h) => h,
            None => String::from_str("unknown"),
        };
        let cpu_brand = match first_cpu_brand {
            Some(b) => b,
            None => String::from_str("unknown"),
        };
        let cpu_cores = match available_parallelism {
            Some(n) => n,
            None => 1,
        };
        HostInfo { hostname, os, arch, cpu_brand, cpu_cores, total_memory_bytes, rustc_version }
    }
}

} // verus!
