//! Platforms without a native cleanup strategy.

use vstd::prelude::*;
use crate::cleaner::CleanResult;

verus! {

/// The result on a platform without a native cleanup: always a failure.
pub fn clean_memory() -> (r: CleanResult)
    ensures
        !r.success,
        r.method@ == "Unsupported platform"@,
        r.detail@ == "No native memory-cleaning strategy is available for this OS."@,
{
    CleanResult {
        success: false,
        method: String::from_str("Unsupported platform"),
        detail: String::from_str("No native memory-cleaning strategy is available for this OS."),
    }
}

} // verus!
