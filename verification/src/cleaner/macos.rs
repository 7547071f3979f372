//! macOS: `malloc_trim(0)`, then `/usr/bin/purge`. The caller performs the
//! stages and hands the outcome of `purge` here.

use vstd::prelude::*;
use crate::cleaner::CleanResult;

verus! {

/// The method reported when `purge` succeeded.
pub open spec fn full_method() -> Seq<char> {
    "macOS native (/usr/bin/purge)"@
}

/// The method reported when `purge` did not succeed.
pub open spec fn limited_method() -> Seq<char> {
    "macOS limited (malloc_trim only — sudo required for purge)"@
}

/// The detail reported when `purge` succeeded.
pub open spec fn full_detail() -> Seq<char> {
    "Disk buffer cache purged; malloc zones pressure-relieved."@
}

/// The detail reported when `purge` did not succeed.
pub open spec fn limited_detail() -> Seq<char> {
    "/usr/bin/purge requires root. malloc zone pressure-relief applied. Run with sudo for full disk-cache flush."@
}

/// The result of the macOS cleanup from whether `/usr/bin/purge` ran and
/// exited successfully. It succeeds exactly when it did.
pub fn clean_memory(purged: bool) -> (r: CleanResult)
    ensures
        r.success == purged,
        purged ==> r.method@ == full_method() && r.detail@ == full_detail(),
        !purged ==> r.method@ == limited_method() && r.detail@ == limited_detail(),
{
    if purged {
        CleanResult {
            success: true,
            method: String::from_str("macOS native (/usr/bin/purge)"),
            detail: String::from_str("Disk buffer cache purged; malloc zones pressure-relieved."),
        }
    } else {
        CleanResult {
            success: false,
            method: String::from_str("macOS limited (malloc_trim only — sudo required for purge)"),
            detail: String::from_str(
                "/usr/bin/purge requires root. malloc zone pressure-relief applied. Run with sudo for full disk-cache flush.",
            ),
        }
    }
}

} // verus!
