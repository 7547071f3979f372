//! The memory cleaner: which strategy runs, and what a run reports.
//!
//! The cleaner runs an external tool when `cleanmem_path` names one that
//! exists, and the operating system's own cleanup otherwise. The stages of each
//! platform's native cleanup are performed by the caller; the functions of the
//! platform modules turn their outcomes into a `CleanResult`.

use vstd::prelude::*;
use crate::display::{lines_view, styled, StyledLine, StyledLineView, TermColor};


pub mod linux;
pub mod macos;
pub mod unsupported;
pub mod windows;

verus! {

/// The outcome of a native cleanup: whether it fully succeeded, which method
/// ran, and a description of what happened.
pub struct CleanResult {
    pub success: bool,
    pub method: String,
    pub detail: String,
}

/// The operating systems that the cleaner tells apart.
#[derive(Clone, Copy, Debug, PartialEq, Eq, Structural)]
pub enum Platform {
    Windows,
    Linux,
    MacOs,
    Other,
}

/// The way a cleanup goes.
#[derive(Clone, Copy, Debug, PartialEq, Eq, Structural)]
pub enum CleanupRoute {
    /// `cleanmem_path` names a tool that exists: it is run.
    External,
    /// `cleanmem_path` names a tool that does not exist: the native cleanup runs.
    NativeToolMissing,
    /// `cleanmem_path` is empty: the native cleanup runs.
    NativeUnconfigured,
}

/// How a run of the external tool ended.
pub enum ExternalRun {
    /// The tool ran and exited; `stderr` is its error output, decoded lossily.
    Exited { success: bool, stderr: String },
    /// The tool could not be started; `error` describes why.
    Failed { error: String },
}

/// Memory cleaner that selects the best available strategy: an existing
/// external tool named by `cleanmem_path`, or else the native OS cleanup.
pub struct MemoryCleaner {
    cleanmem_path: String,
}

/// The route that a cleaner with the given tool path takes.
pub open spec fn route_for(path: Seq<char>, tool_exists: bool) -> CleanupRoute {
    if path.len() == 0 {
        CleanupRoute::NativeUnconfigured
    } else if tool_exists {
        CleanupRoute::External
    } else {
        CleanupRoute::NativeToolMissing
    }
}

/// The line printed when a route is taken.
pub open spec fn route_notice(path: Seq<char>, route: CleanupRoute) -> StyledLineView {
    match route {
        CleanupRoute::External => styled(
            "🧹 Running "@ + path + "..."@, Some(TermColor::Yellow), false),
        CleanupRoute::NativeToolMissing => styled(
            "⚠️  '"@ + path + "' not found — switching to native OS memory cleaner."@,
            Some(TermColor::Yellow), false),
        CleanupRoute::NativeUnconfigured => styled(
            "🧠 cleanmem_path not configured — using native OS memory cleaner."@,
            Some(TermColor::Cyan), false),
    }
}

/// Whether a run of the external tool counts as a successful cleanup.
pub open spec fn external_succeeded(run: ExternalRun) -> bool {
    match run {
        ExternalRun::Exited { success, .. } => success,
        ExternalRun::Failed { .. } => false,
    }
}

/// The line printed after a run of the external tool.
pub open spec fn external_line(run: ExternalRun) -> StyledLineView {
    match run {
        ExternalRun::Exited { success, stderr } => if success {
            styled("✅ External cleaner executed successfully"@, Some(TermColor::Green), false)
        } else {
            styled("❌ External cleaner error: "@ + stderr@, Some(TermColor::Red), false)
        },
        ExternalRun::Failed { error } => styled(
            "❌ Unexpected error running external cleaner: "@ + error@, Some(TermColor::Red), false),
    }
}

/// The tip printed after a limited native cleanup, on the platforms that have one.
pub open spec fn privilege_tip_text(platform: Platform) -> Option<Seq<char>> {
    match platform {
        Platform::Windows => Some("💡 Tip: Run memory-monitor as Administrator for full effect."@),
        Platform::Linux => Some("💡 Tip: Run with `sudo memory-monitor` for full cache-drop effect."@),
        Platform::MacOs => Some(
            "💡 Tip: Run with `sudo memory-monitor` so `purge` can flush the disk cache."@),
        Platform::Other => None,
    }
}

/// The lines printed after a native cleanup with the given result.
pub open spec fn native_report_lines(
    success: bool,
    method: Seq<char>,
    detail: Seq<char>,
    platform: Platform,
) -> Seq<StyledLineView> {
    if success {
        let c = Some(TermColor::Green);
        seq![
            styled("✅ Native cleanup succeeded"@, c, false),
            styled("   Method : "@ + method, c, false),
            styled("   Detail : "@ + detail, c, false),
        ]
    } else {
        let c = Some(TermColor::Yellow);
        let base = seq![
            styled("⚠️  Native cleanup partial / limited"@, c, false),
            styled("   Method : "@ + method, c, false),
            styled("   Detail : "@ + detail, c, false),
        ];
        match privilege_tip_text(platform) {
            Some(tip) => base.push(styled(tip, c, false)),
            None => base,
        }
    }
}

/// The external tool runs exactly when a tool path is set and the file
/// exists; otherwise the native cleanup runs, and the notice says which.
pub proof fn law_route(path: Seq<char>, tool_exists: bool)
    ensures
        (route_for(path, tool_exists) == CleanupRoute::External) <==> (path.len() > 0 && tool_exists),
        path.len() == 0 ==> route_for(path, tool_exists) == CleanupRoute::NativeUnconfigured,
        path.len() > 0 && !tool_exists ==> route_for(path, tool_exists) == CleanupRoute::NativeToolMissing,
{
}

/// A native report opens with the outcome, names the method and the detail
/// given, and adds the platform's tip exactly after a limited cleanup on a
/// platform that has one; a successful report is green, a limited one yellow.
pub proof fn law_native_report(success: bool, method: Seq<char>, detail: Seq<char>, platform: Platform)
    ensures
        ({
            let lines = native_report_lines(success, method, detail, platform);
            let c = if success { Some(TermColor::Green) } else { Some(TermColor::Yellow) };
            &&& lines.len() == (if !success && privilege_tip_text(platform) is Some { 4int } else { 3int })
            &&& lines[0].text == (if success { "✅ Native cleanup succeeded"@ } else {
                "⚠️  Native cleanup partial / limited"@
            })
            &&& lines[1].text == "   Method : "@ + method
            &&& lines[2].text == "   Detail : "@ + detail
            &&& forall|i: int| 0 <= i < lines.len() ==> #[trigger] lines[i].color == c
        }),
{
}

impl MemoryCleaner {
    /// The tool path this cleaner was made with.
    pub closed spec fn path(&self) -> Seq<char> {
        self.cleanmem_path@
    }

    /// A cleaner that runs the tool at `cleanmem_path` where it exists.
    pub fn new(cleanmem_path: &str) -> (c: MemoryCleaner)
        ensures
            c.path() == cleanmem_path@,
    {
        MemoryCleaner { cleanmem_path: String::from_str(cleanmem_path) }
    }

    /// The tool path this cleaner was made with.
    pub fn cleanmem_path(&self) -> (p: &str)
        ensures
            p@ == self.path(),
    {
        self.cleanmem_path.as_str()
    }

    /// The route of a cleanup, given whether the file at the tool path exists:
    /// the external tool exactly when the path is set and the file exists.
    pub fn route(&self, tool_exists: bool) -> (r: CleanupRoute)
        ensures
            r == route_for(self.path(), tool_exists),
    {
        if self.cleanmem_path.as_str().is_empty() {
            CleanupRoute::NativeUnconfigured
        } else if tool_exists {
            CleanupRoute::External
        } else {
            CleanupRoute::NativeToolMissing
        }
    }

    /// The line printed when `route` is taken.
    pub fn route_notice(&self, route: CleanupRoute) -> (line: StyledLine)
        ensures
            line@ == route_notice(self.path(), route),
    {
        let p = self.cleanmem_path.as_str();
        match route {
            CleanupRoute::External => StyledLine::new(
                String::from_str("🧹 Running ").concat(p).concat("..."),
                Some(TermColor::Yellow),
                false,
            ),
            CleanupRoute::NativeToolMissing => StyledLine::new(
                String::from_str("⚠️  '").concat(p).concat(
                    "' not found — switching to native OS memory cleaner.",
                ),
                Some(TermColor::Yellow),
                false,
            ),
            CleanupRoute::NativeUnconfigured => StyledLine::new(
                String::from_str("🧠 cleanmem_path not configured — using native OS memory cleaner."),
                Some(TermColor::Cyan),
                false,
            ),
        }
    }

    /// The line printed before the native cleanup starts.
    pub fn native_start_line() -> (line: StyledLine)
        ensures
            line@ == styled("🔧 Running native memory cleanup…"@, Some(TermColor::Cyan), false),
    {
        StyledLine::new(String::from_str("🔧 Running native memory cleanup…"), Some(TermColor::Cyan), false)
    }

    /// What a run of the external tool reports: whether the cleanup succeeded
    /// (the tool exited successfully) and the line to print.
    pub fn external_report(run: &ExternalRun) -> (r: (bool, StyledLine))
        ensures
            r.0 == external_succeeded(*run),
            r.1@ == external_line(*run),
    {
        match run {
            ExternalRun::Exited { success, stderr } => {
                if *success {
                    (true, StyledLine::new(
                        String::from_str("✅ External cleaner executed successfully"),
                        Some(TermColor::Green),
                        false,
                    ))
                } else {
                    (false, StyledLine::new(
                        String::from_str("❌ External cleaner error: ").concat(stderr.as_str()),
                        Some(TermColor::Red),
                        false,
                    ))
                }
            },
            ExternalRun::Failed { error } => (false, StyledLine::new(
                String::from_str("❌ Unexpected error running external cleaner: ").concat(
                    error.as_str(),
                ),
                Some(TermColor::Red),
                false,
            )),
        }
    }

    /// The tip printed after a limited native cleanup on `platform`.
    pub fn privilege_tip(platform: Platform) -> (tip: Option<StyledLine>)
        ensures
            match privilege_tip_text(platform) {
                Some(t) => tip matches Some(l) && l@ == styled(t, Some(TermColor::Yellow), false),
                None => tip is None,
            },
    {
        let text = match platform {
            Platform::Windows => String::from_str(
                "💡 Tip: Run memory-monitor as Administrator for full effect.",
            ),
            Platform::Linux => String::from_str(
                "💡 Tip: Run with `sudo memory-monitor` for full cache-drop effect.",
            ),
            Platform::MacOs => String::from_str(
                "💡 Tip: Run with `sudo memory-monitor` so `purge` can flush the disk cache.",
            ),
            Platform::Other => {
                return None;
            },
        };
        Some(StyledLine::new(text, Some(TermColor::Yellow), false))
    }

    /// The lines printed after a native cleanup with `result` on `platform`:
    /// the outcome, the method and the detail, and on a limited cleanup the
    /// platform's privilege tip.
    pub fn native_report(result: &CleanResult, platform: Platform) -> (lines: Vec<StyledLine>)
        ensures
            lines_view(lines@) == native_report_lines(
                result.success,
                result.method@,
                result.detail@,
                platform,
            ),
    {
        let c = if result.success { TermColor::Green } else { TermColor::Yellow };
        let head = if result.success {
            String::from_str("✅ Native cleanup succeeded")
        } else {
            String::from_str("⚠️  Native cleanup partial / limited")
        };
        let mut lines: Vec<StyledLine> = Vec::new();
        lines.push(StyledLine::new(head, Some(c), false));
        lines.push(StyledLine::new(
            String::from_str("   Method : ").concat(result.method.as_str()),
            Some(c),
            false,
        ));
        lines.push(StyledLine::new(
            String::from_str("   Detail : ").concat(result.detail.as_str()),
            Some(c),
            false,
        ));
        if !result.success {
            let tip = Self::privilege_tip(platform);
            match tip {
                Some(l) => lines.push(l),
                None => {},
            }
        }
        assert(lines_view(lines@) =~= native_report_lines(
            result.success,
            result.method@,
            result.detail@,
            platform,
        ));
        lines
    }
}

} // verus!
