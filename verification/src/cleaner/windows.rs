//! Windows: trim the working set of every process, flush the Modified list,
//! then purge the Standby list. The caller performs the three stages through
//! the Win32/NT APIs and hands their outcomes here.

use vstd::prelude::*;
use crate::cleaner::CleanResult;
use crate::display::{bool_text, render_bool};
use crate::text::{decimal, render_u64};

verus! {

/// What happened to one process id reported by `EnumProcesses`.
#[derive(Clone, Copy, Debug, PartialEq, Eq, Structural)]
pub enum ProcessTrim {
    /// The id was 0 (the idle process): not touched, not counted.
    Idle,
    /// The process could not be opened.
    Inaccessible,
    /// `EmptyWorkingSet` succeeded.
    Trimmed,
    /// `EmptyWorkingSet` failed.
    Refused,
}

/// How many processes of `s` were trimmed.
pub open spec fn trimmed_count(s: Seq<ProcessTrim>) -> nat
    decreases s.len(),
{
    if s.len() == 0 {
        0
    } else {
        trimmed_count(s.drop_last()) + (if s.last() == ProcessTrim::Trimmed { 1nat } else { 0nat })
    }
}

/// How many processes of `s` were skipped: not opened, or not trimmed.
pub open spec fn skipped_count(s: Seq<ProcessTrim>) -> nat
    decreases s.len(),
{
    if s.len() == 0 {
        0
    } else {
        skipped_count(s.drop_last()) + (if s.last() == ProcessTrim::Inaccessible
            || s.last() == ProcessTrim::Refused { 1nat } else { 0nat })
    }
}

/// How many ids of `s` were 0.
pub open spec fn idle_count(s: Seq<ProcessTrim>) -> nat
    decreases s.len(),
{
    if s.len() == 0 {
        0
    } else {
        idle_count(s.drop_last()) + (if s.last() == ProcessTrim::Idle { 1nat } else { 0nat })
    }
}

/// Every id is counted once: as trimmed, as skipped, or as the idle process.
pub proof fn law_every_process_counted_once(s: Seq<ProcessTrim>)
    ensures
        trimmed_count(s) + skipped_count(s) + idle_count(s) == s.len(),
    decreases s.len(),
{
    if s.len() > 0 {
        law_every_process_counted_once(s.drop_last());
    }
}

/// The trimmed count is the number of processes trimmed, and the skipped
/// count the number that could not be opened or trimmed.
pub proof fn law_counts_are_the_outcomes(s: Seq<ProcessTrim>)
    ensures
        trimmed_count(s) == s.filter(|o: ProcessTrim| o == ProcessTrim::Trimmed).len(),
        skipped_count(s) == s.filter(
            |o: ProcessTrim| o == ProcessTrim::Inaccessible || o == ProcessTrim::Refused,
        ).len(),
    decreases s.len(),
{
    reveal(Seq::filter);
    if s.len() > 0 {
        law_counts_are_the_outcomes(s.drop_last());
    }
}

/// Counts the trimmed and the skipped processes of the first cleanup stage.
pub fn tally_working_sets(outcomes: &Vec<ProcessTrim>) -> (r: (usize, usize))
    ensures
        r.0 == trimmed_count(outcomes@),
        r.1 == skipped_count(outcomes@),
{
    let mut trimmed: usize = 0;
    let mut skipped: usize = 0;
    let mut i: usize = 0;
    assert(outcomes@.subrange(0, 0) =~= Seq::<ProcessTrim>::empty());
    while i < outcomes.len()
        invariant
            i <= outcomes.len(),
            trimmed == trimmed_count(outcomes@.subrange(0, i as int)),
            skipped == skipped_count(outcomes@.subrange(0, i as int)),
            trimmed + skipped <= i,
        decreases outcomes.len() - i,
    {
        proof {
            let next = outcomes@.subrange(0, i as int + 1);
            assert(next.drop_last() =~= outcomes@.subrange(0, i as int));
            assert(next.last() == outcomes@[i as int]);
        }
        match outcomes[i] {
            ProcessTrim::Trimmed => { trimmed = trimmed + 1; },
            ProcessTrim::Inaccessible | ProcessTrim::Refused => { skipped = skipped + 1; },
            ProcessTrim::Idle => {},
        }
        i = i + 1;
    }
    assert(outcomes@.subrange(0, i as int) =~= outcomes@);
    (trimmed, skipped)
}

/// Whether a process id is a real process to trim (every id but the idle
/// process, 0).
pub fn is_trimmable(pid: u32) -> (b: bool)
    ensures
        b == (pid != 0),
{
    pid != 0
}

/// Whether `OpenProcess` gave a usable handle: neither null nor
/// `INVALID_HANDLE_VALUE` (-1).
pub fn handle_is_valid(handle: isize) -> (b: bool)
    ensures
        b == (handle != 0 && handle != -1),
{
    handle != 0 && handle != -1
}

/// What happened to one process id: the idle process is left alone, a
/// process that could not be opened is inaccessible, and otherwise the
/// result of `EmptyWorkingSet` (non-zero on success) decides. `opened` and
/// `trim_result` are ignored where the step they describe did not happen.
pub fn process_outcome(pid: u32, opened: bool, trim_result: i32) -> (o: ProcessTrim)
    ensures
        o == (if pid == 0 {
            ProcessTrim::Idle
        } else if !opened {
            ProcessTrim::Inaccessible
        } else if trim_result != 0 {
            ProcessTrim::Trimmed
        } else {
            ProcessTrim::Refused
        }),
{
    if pid == 0 {
        ProcessTrim::Idle
    } else if !opened {
        ProcessTrim::Inaccessible
    } else if trim_result != 0 {
        ProcessTrim::Trimmed
    } else {
        ProcessTrim::Refused
    }
}

/// Whether an NTSTATUS reports success (it is not negative).
pub fn status_succeeded(status: i32) -> (ok: bool)
    ensures
        ok == (status >= 0),
{
    status >= 0
}

/// The method reported by the Windows cleanup.
pub open spec fn windows_method() -> Seq<char> {
    "Windows native (EmptyWorkingSet + NtSetSystemInformation)"@
}

/// The detail reported by the Windows cleanup.
pub open spec fn windows_detail(trimmed: nat, skipped: nat, flushed: bool, purged: bool) -> Seq<char> {
    "Working-set trim: "@ + decimal(trimmed) + " processes OK, "@ + decimal(skipped)
        + " skipped | Modified list flushed: "@ + bool_text(flushed)
        + " | Standby list purged: "@ + bool_text(purged)
}

/// The result of the Windows cleanup from its stages' outcomes: `trimmed`
/// and `skipped` processes in the first stage, and whether the Modified list
/// was flushed and the Standby list purged. Only a full cleanup counts as a
/// success: some process trimmed, and both lists handled; a partial one
/// (as without administrator rights) is reported as a failure.
pub fn clean_memory(trimmed: usize, skipped: usize, flushed: bool, purged: bool) -> (r: CleanResult)
    ensures
        r.success == (trimmed > 0 && flushed && purged),
        r.method@ == windows_method(),
        r.detail@ == windows_detail(trimmed as nat, skipped as nat, flushed, purged),
{
    let detail = String::from_str("Working-set trim: ")
        .concat(render_u64(trimmed as u64).as_str())
        .concat(" processes OK, ")
        .concat(render_u64(skipped as u64).as_str())
        .concat(" skipped | Modified list flushed: ")
        .concat(render_bool(flushed).as_str())
        .concat(" | Standby list purged: ")
        .concat(render_bool(purged).as_str());
    CleanResult {
        success: trimmed > 0 && flushed && purged,
        method: String::from_str("Windows native (EmptyWorkingSet + NtSetSystemInformation)"),
        detail,
    }
}

} // verus!
