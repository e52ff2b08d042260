//! The well-known path that result lines are mirrored to. The mirror
//! itself — a log file beside stdout — is written by the surrounding
//! process.

use vstd::prelude::*;

verus! {

/// Where the full results are saved.
pub fn output_path() -> (r: &'static str)
    ensures
        r@ == "./src/analysis_results.txt"@,
{
    "./src/analysis_results.txt"
}

} // verus!
