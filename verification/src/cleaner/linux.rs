//! Linux: `sync(2)`, `malloc_trim(0)`, then `3` written to
//! `/proc/sys/vm/drop_caches`. The caller performs the stages and hands the
//! outcome of the cache drop here.

use vstd::prelude::*;
use crate::cleaner::CleanResult;

verus! {

/// The method reported when the caches were dropped.
pub open spec fn full_method() -> Seq<char> {
    "Linux native (sync + drop_caches=3)"@
}

/// The method reported when the cache drop failed.
pub open spec fn limited_method() -> Seq<char> {
    "Linux limited (sync + malloc_trim — root required for drop_caches)"@
}

/// The detail reported when the caches were dropped.
pub open spec fn full_detail() -> Seq<char> {
    "Filesystem synced; pagecache, dentries and inodes dropped."@
}

/// The detail reported when the cache drop failed with `error`.
pub open spec fn limited_detail(error: Seq<char>) -> Seq<char> {
    "sync() OK; drop_caches failed ("@ + error
        + "). Run as root or with CAP_SYS_ADMIN for full effect."@
}

/// The result of the Linux cleanup from the outcome of writing to
/// `drop_caches` (its error, rendered, on failure). It succeeds exactly when
/// the caches were dropped.
pub fn clean_memory(drop_caches: &Result<(), String>) -> (r: CleanResult)
    ensures
        r.success == drop_caches is Ok,
        drop_caches is Ok ==> r.method@ == full_method() && r.detail@ == full_detail(),
        drop_caches matches Err(e) ==> r.method@ == limited_method() && r.detail@ == limited_detail(e@),
{
    match drop_caches {
        Ok(_) => CleanResult {
            success: true,
            method: String::from_str("Linux native (sync + drop_caches=3)"),
            detail: String::from_str("Filesystem synced; pagecache, dentries and inodes dropped."),
        },
        Err(e) => CleanResult {
            success: false,
            method: String::from_str(
                "Linux limited (sync + malloc_trim — root required for drop_caches)",
            ),
            detail: String::from_str("sync() OK; drop_caches failed (").concat(e.as_str()).concat(
                "). Run as root or with CAP_SYS_ADMIN for full effect.",
            ),
        },
    }
}

} // verus!
