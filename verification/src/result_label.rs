//! Result label values, as VectorDBBench's `ResultLabel` spells them.

use vstd::prelude::*;

verus! {

/// Successful run.
pub const NORMAL: &'static str = ":)";

/// Failed run.
pub const FAILED: &'static str = "x";

/// Numbers fall outside the expected range.
pub const OUT_OF_RANGE: &'static str = "?";

} // verus!
