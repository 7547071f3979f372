use memory_monitor::cleaner::windows::{self, ProcessTrim};
use memory_monitor::cleaner::{
    linux, macos, unsupported, CleanResult, CleanupRoute, ExternalRun, MemoryCleaner, Platform,
};
use memory_monitor::display::TermColor;

fn texts(lines: &[memory_monitor::display::StyledLine]) -> Vec<String> {
    lines.iter().map(|l| l.text.clone()).collect()
}

#[test]
fn new_keeps_the_tool_path() {
    let c = MemoryCleaner::new("cleanmem.exe");
    assert_eq!(c.cleanmem_path(), "cleanmem.exe");
}

#[test]
fn external_tool_runs_only_when_set_and_present() {
    let set = MemoryCleaner::new("cleanmem.exe");
    assert_eq!(set.route(true), CleanupRoute::External);
    assert_eq!(set.route(false), CleanupRoute::NativeToolMissing);
    let unset = MemoryCleaner::new("");
    assert_eq!(unset.route(true), CleanupRoute::NativeUnconfigured);
    assert_eq!(unset.route(false), CleanupRoute::NativeUnconfigured);
}

#[test]
fn route_notices() {
    let c = MemoryCleaner::new("cm.exe");
    let l = c.route_notice(CleanupRoute::External);
    assert_eq!(l.text, "🧹 Running cm.exe...");
    assert_eq!(l.color, Some(TermColor::Yellow));
    let l = c.route_notice(CleanupRoute::NativeToolMissing);
    assert_eq!(l.text, "⚠️  'cm.exe' not found — switching to native OS memory cleaner.");
    let l = c.route_notice(CleanupRoute::NativeUnconfigured);
    assert_eq!(l.text, "🧠 cleanmem_path not configured — using native OS memory cleaner.");
    assert_eq!(l.color, Some(TermColor::Cyan));
    assert_eq!(MemoryCleaner::native_start_line().text, "🔧 Running native memory cleanup…");
}

#[test]
fn external_reports() {
    let (ok, l) = MemoryCleaner::external_report(&ExternalRun::Exited { success: true, stderr: String::new() });
    assert!(ok);
    assert_eq!(l.text, "✅ External cleaner executed successfully");
    assert_eq!(l.color, Some(TermColor::Green));
    let (ok, l) = MemoryCleaner::external_report(&ExternalRun::Exited {
        success: false,
        stderr: "access denied".to_string(),
    });
    assert!(!ok);
    assert_eq!(l.text, "❌ External cleaner error: access denied");
    let (ok, l) = MemoryCleaner::external_report(&ExternalRun::Failed { error: "not found".to_string() });
    assert!(!ok);
    assert_eq!(l.text, "❌ Unexpected error running external cleaner: not found");
    assert_eq!(l.color, Some(TermColor::Red));
}

#[test]
fn windows_cleanup_succeeds_only_when_every_stage_worked() {
    assert!(windows::clean_memory(3, 1, true, true).success);
    assert!(!windows::clean_memory(5, 40, false, false).success);
    assert!(!windows::clean_memory(0, 3, true, true).success);
    assert!(!windows::clean_memory(1, 0, true, false).success);
    assert!(!windows::clean_memory(1, 0, false, true).success);
    assert!(!windows::clean_memory(0, 0, false, false).success);
    let r = windows::clean_memory(12, 7, true, false);
    assert!(!r.success);
    assert_eq!(r.method, "Windows native (EmptyWorkingSet + NtSetSystemInformation)");
    assert_eq!(
        r.detail,
        "Working-set trim: 12 processes OK, 7 skipped | Modified list flushed: true | Standby list purged: false"
    );
}

#[test]
fn a_partial_windows_cleanup_shows_the_privilege_tip() {
    let r = windows::clean_memory(5, 40, false, false);
    let lines = MemoryCleaner::native_report(&r, Platform::Windows);
    assert_eq!(lines[0].text, "⚠️  Native cleanup partial / limited");
    assert_eq!(lines[3].text, "💡 Tip: Run memory-monitor as Administrator for full effect.");
}

#[test]
fn working_sets_are_tallied() {
    let outcomes = vec![
        ProcessTrim::Idle,
        ProcessTrim::Trimmed,
        ProcessTrim::Inaccessible,
        ProcessTrim::Trimmed,
        ProcessTrim::Refused,
        ProcessTrim::Trimmed,
    ];
    assert_eq!(windows::tally_working_sets(&outcomes), (3, 2));
    assert_eq!(windows::tally_working_sets(&vec![]), (0, 0));
}

#[test]
fn ntstatus_success_is_non_negative() {
    assert!(windows::status_succeeded(0));
    assert!(windows::status_succeeded(1));
    assert!(!windows::status_succeeded(-1073741790));
}

#[test]
fn linux_cleanup_results() {
    let r = linux::clean_memory(&Ok(()));
    assert!(r.success);
    assert_eq!(r.method, "Linux native (sync + drop_caches=3)");
    assert_eq!(r.detail, "Filesystem synced; pagecache, dentries and inodes dropped.");
    let r = linux::clean_memory(&Err("Permission denied (os error 13)".to_string()));
    assert!(!r.success);
    assert_eq!(r.method, "Linux limited (sync + malloc_trim — root required for drop_caches)");
    assert_eq!(
        r.detail,
        "sync() OK; drop_caches failed (Permission denied (os error 13)). Run as root or with CAP_SYS_ADMIN for full effect."
    );
}

#[test]
fn macos_cleanup_results() {
    let r = macos::clean_memory(true);
    assert!(r.success);
    assert_eq!(r.method, "macOS native (/usr/bin/purge)");
    let r = macos::clean_memory(false);
    assert!(!r.success);
    assert_eq!(r.method, "macOS limited (malloc_trim only — sudo required for purge)");
    assert_eq!(
        r.detail,
        "/usr/bin/purge requires root. malloc zone pressure-relief applied. Run with sudo for full disk-cache flush."
    );
}

#[test]
fn unsupported_platform_always_fails() {
    let r = unsupported::clean_memory();
    assert!(!r.success);
    assert_eq!(r.method, "Unsupported platform");
    assert_eq!(r.detail, "No native memory-cleaning strategy is available for this OS.");
}

#[test]
fn native_reports() {
    let ok = CleanResult { success: true, method: "M".to_string(), detail: "D".to_string() };
    let lines = MemoryCleaner::native_report(&ok, Platform::Linux);
    assert_eq!(texts(&lines), vec!["✅ Native cleanup succeeded", "   Method : M", "   Detail : D"]);
    assert!(lines.iter().all(|l| l.color == Some(TermColor::Green)));
    let bad = CleanResult { success: false, method: "M".to_string(), detail: "D".to_string() };
    let lines = MemoryCleaner::native_report(&bad, Platform::Linux);
    assert_eq!(texts(&lines), vec![
        "⚠️  Native cleanup partial / limited",
        "   Method : M",
        "   Detail : D",
        "💡 Tip: Run with `sudo memory-monitor` for full cache-drop effect.",
    ]);
    assert!(lines.iter().all(|l| l.color == Some(TermColor::Yellow)));
    assert_eq!(MemoryCleaner::native_report(&bad, Platform::Other).len(), 3);
    assert_eq!(
        MemoryCleaner::native_report(&bad, Platform::Windows)[3].text,
        "💡 Tip: Run memory-monitor as Administrator for full effect."
    );
    assert_eq!(
        MemoryCleaner::native_report(&bad, Platform::MacOs)[3].text,
        "💡 Tip: Run with `sudo memory-monitor` so `purge` can flush the disk cache."
    );
}

#[test]
fn each_process_is_classified() {
    assert!(!windows::is_trimmable(0));
    assert!(windows::is_trimmable(4));
    assert!(!windows::handle_is_valid(0));
    assert!(!windows::handle_is_valid(-1));
    assert!(windows::handle_is_valid(0x1c4));
    assert_eq!(windows::process_outcome(0, true, 1), ProcessTrim::Idle);
    assert_eq!(windows::process_outcome(8, false, 1), ProcessTrim::Inaccessible);
    assert_eq!(windows::process_outcome(8, true, 1), ProcessTrim::Trimmed);
    assert_eq!(windows::process_outcome(8, true, 0), ProcessTrim::Refused);
}
