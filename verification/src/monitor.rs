//! The monitoring loop's decisions: how a memory reading is classified and
//! shown, when a cleanup runs, and what follows it.
//!
//! The loop alternates outside work (reading the memory counters, cleaning,
//! notifying, sleeping) with decisions. `MemoryMonitor::step` takes the loop's
//! phase and what the last outside work reported, and gives the next phase and
//! the work to do next; the caller performs that work in order.

use vstd::prelude::*;
use crate::cleaner::MemoryCleaner;
use crate::config::MonitorConfig;
use crate::display::{lines_view, styled, StyledLine, StyledLineView, TermColor};
use crate::text::{
    centi_display, decimal, fixed2, law_repeated, render_centi, render_fixed2, render_u64, repeat_str, repeated,
};

verus! {

/// A reading of the memory counters, in bytes.
#[derive(Clone, Copy, Debug, PartialEq, Eq, Structural)]
pub struct UsageReading {
    pub used: u64,
    pub total: u64,
}

/// How close memory usage is to the threshold.
#[derive(Clone, Copy, Debug, PartialEq, Eq, Structural)]
pub enum Severity {
    /// More than five percentage points below the threshold.
    Normal,
    /// Below the threshold, by five percentage points at most.
    Warning,
    /// At or above the threshold.
    Critical,
}

/// The severity of `used` bytes out of `total` against a threshold of
/// `t` hundredths of a percent. The usage is `used / total` as a percentage;
/// with `total == 0` it is undefined when nothing is used, which compares
/// with no threshold, and unbounded otherwise, which reaches every threshold.
pub open spec fn severity_of(used: int, total: int, t: int) -> Severity {
    if total == 0 {
        if used == 0 { Severity::Normal } else { Severity::Critical }
    } else if used * 10000 >= t * total {
        Severity::Critical
    } else if used * 10000 >= (t - 500) * total {
        Severity::Warning
    } else {
        Severity::Normal
    }
}

/// The rank of a severity: 0 for OK, 1 for WARNING, 2 for CRITICAL.
pub open spec fn severity_rank(s: Severity) -> int {
    match s {
        Severity::Normal => 0,
        Severity::Warning => 1,
        Severity::Critical => 2,
    }
}

/// The usage of a reading in hundredths of a percent: the exact ratio of
/// used to total bytes, rounded to the nearest hundredth, an exact half to
/// the even neighbour.
pub open spec fn percent_centi(used: nat, total: nat) -> nat
    recommends
        total > 0,
{
    let q = (used * 10000) / total;
    let r = (used * 10000) % total;
    if 2 * r > total || (2 * r == total && q % 2 == 1) {
        q + 1
    } else {
        q
    }
}

/// The usage of a reading with two decimals (the exact ratio, rounded as
/// `percent_centi` rounds), or "NaN" and "inf" for the undefined and
/// unbounded usage of a zero total.
pub open spec fn percent_text(used: nat, total: nat) -> Seq<char> {
    if total == 0 {
        if used == 0 { "NaN"@ } else { "inf"@ }
    } else {
        fixed2(percent_centi(used, total))
    }
}

/// Classifies `reading` against a threshold of `threshold_centi` hundredths of a percent.
pub fn classify(reading: UsageReading, threshold_centi: i32) -> (s: Severity)
    ensures
        s == severity_of(reading.used as int, reading.total as int, threshold_centi as int),
{
    if reading.total == 0 {
        if reading.used == 0 {
            Severity::Normal
        } else {
            Severity::Critical
        }
    } else {
        let used = reading.used as i128;
        let total = reading.total as i128;
        let t = threshold_centi as i128;
        proof {
            assert(0 <= used * 10000 <= 0x1_0000_0000_0000_0000 * 10000) by (nonlinear_arith)
                requires 0 <= used < 0x1_0000_0000_0000_0000;
            assert(-0x8000_0000 * 0x1_0000_0000_0000_0000 <= t * total <= 0x8000_0000 * 0x1_0000_0000_0000_0000)
                by (nonlinear_arith)
                requires 0 <= total < 0x1_0000_0000_0000_0000, -0x8000_0000 <= t < 0x8000_0000;
            assert(-0x8000_0300 * 0x1_0000_0000_0000_0000 <= (t - 500) * total <= 0x8000_0000 * 0x1_0000_0000_0000_0000)
                by (nonlinear_arith)
                requires 0 <= total < 0x1_0000_0000_0000_0000, -0x8000_0000 <= t < 0x8000_0000;
        }
        let lhs = used * 10000;
        if lhs >= t * total {
            Severity::Critical
        } else if lhs >= (t - 500) * total {
            Severity::Warning
        } else {
            Severity::Normal
        }
    }
}

/// Renders the usage of `reading` with two decimals (see `percent_text`).
pub fn render_percent(reading: UsageReading) -> (s: String)
    ensures
        s@ == percent_text(reading.used as nat, reading.total as nat),
{
    if reading.total == 0 {
        if reading.used == 0 {
            String::from_str("NaN")
        } else {
            String::from_str("inf")
        }
    } else {
        let used = reading.used as u128;
        let total = reading.total as u128;
        proof {
            assert(used * 10000 <= 0x1_0000_0000_0000_0000 * 10000) by (nonlinear_arith)
                requires used < 0x1_0000_0000_0000_0000;
        }
        let scaled = used * 10000;
        let q = scaled / total;
        let r = scaled % total;
        let rounded = if 2 * r > total || (2 * r == total && q % 2 == 1) {
            q + 1
        } else {
            q
        };
        render_fixed2(rounded)
    }
}

/// A raised usage never lowers the severity: for two readings with nonzero
/// totals, where the first's usage is at most the second's, the first's
/// severity is at most the second's, for every threshold.
pub proof fn law_severity_monotone(used1: nat, total1: nat, used2: nat, total2: nat, t: int)
    requires
        total1 > 0,
        total2 > 0,
        used1 * total2 <= used2 * total1,
    ensures
        severity_rank(severity_of(used1 as int, total1 as int, t))
            <= severity_rank(severity_of(used2 as int, total2 as int, t)),
{
    assert forall|k: int| #[trigger] (used1 * 10000 - k * total1) >= 0
        implies used2 * 10000 - k * total2 >= 0 by {
        assert((used1 * 10000 - k * total1) * total2 >= 0) by (nonlinear_arith)
            requires used1 * 10000 - k * total1 >= 0, total2 > 0;
        assert((used2 * 10000 - k * total2) * total1 >= 0) by (nonlinear_arith)
            requires
                (used1 * 10000 - k * total1) * total2 >= 0,
                used1 * total2 <= used2 * total1;
        assert(used2 * 10000 - k * total2 >= 0) by (nonlinear_arith)
            requires (used2 * 10000 - k * total2) * total1 >= 0, total1 > 0;
    }
    assert(used1 * 10000 - t * total1 >= 0 ==> used2 * 10000 - t * total2 >= 0);
    assert(used1 * 10000 - (t - 500) * total1 >= 0 ==> used2 * 10000 - (t - 500) * total2 >= 0);
}

/// Exactly one severity holds, and it is CRITICAL exactly at or above the
/// threshold and WARNING exactly within five percentage points below it.
pub proof fn law_severity_bands(used: nat, total: nat, t: int)
    requires
        total > 0,
    ensures
        (severity_of(used as int, total as int, t) == Severity::Critical) <==> used * 10000 >= t * total,
        (severity_of(used as int, total as int, t) == Severity::Warning) <==> (used * 10000 < t * total
            && used * 10000 >= (t - 500) * total),
        (severity_of(used as int, total as int, t) == Severity::Normal) <==> used * 10000 < (t - 500) * total,
{
    assert((t - 500) * total == t * total - 500 * total) by (nonlinear_arith);
}

/// The quotient and remainder of `x` by `d`.
proof fn lemma_div_mod(x: int, d: int)
    requires
        x >= 0,
        d > 0,
    ensures
        x == (x / d) * d + x % d,
        0 <= x % d < d,
        x / d >= 0,
{
    vstd::arithmetic::div_mod::lemma_fundamental_div_mod(x, d);
    vstd::arithmetic::div_mod::lemma_mod_bound(x, d);
    assert(d * (x / d) == (x / d) * d) by (nonlinear_arith);
    assert(x / d >= 0) by (nonlinear_arith)
        requires x >= 0, d > 0;
}

/// The usage shown is the used share of the total, as a percentage, to the
/// nearest hundredth: `c` hundredths where `c * total` is within half a
/// `total` of `used * 10000`; and it never falls as more is used.
pub proof fn law_percent_is_nearest_hundredth(used: nat, total: nat, more: nat)
    requires
        total > 0,
        used <= more,
    ensures
        2 * (percent_centi(used, total) * total - used * 10000) <= total,
        2 * (used * 10000 - percent_centi(used, total) * total) <= total,
        percent_text(used, total) == fixed2(percent_centi(used, total)),
        percent_centi(used, total) <= percent_centi(more, total),
{
    let t = total as int;
    let x = (used * 10000) as int;
    let y = (more * 10000) as int;
    lemma_div_mod(x, t);
    lemma_div_mod(y, t);
    let q = x / t;
    let r = x % t;
    let c = percent_centi(used, total) as int;
    if c == q + 1 {
        assert(c * t == q * t + t) by (nonlinear_arith)
            requires c == q + 1;
    }
    vstd::arithmetic::div_mod::lemma_div_is_ordered(x, y, t);
    let q2 = y / t;
    if q == q2 {
        assert(x % t <= y % t);
    }
}

/// The status screen shows the severity of the reading: CRITICAL in red at
/// or above the threshold, WARNING in yellow within five points below it, OK
/// in green further below (with a zero total: OK when nothing is used,
/// CRITICAL otherwise); the usage line has the badge's colour, and the
/// usage, threshold, interval and time are those given.
pub proof fn law_status_screen_shows_severity(
    t: i32,
    interval: u64,
    r: UsageReading,
    width: nat,
    ts: Seq<char>,
)
    ensures
        ({
            let lines = status_screen_lines(t, interval, r, width, ts);
            let used = r.used as int;
            let total = r.total as int;
            let critical = if total == 0 { used > 0 } else { used * 10000 >= t * total };
            let warning = total > 0 && used * 10000 < t * total && used * 10000 >= (t - 500) * total;
            let normal = if total == 0 { used == 0 } else { used * 10000 < (t - 500) * total };
            &&& lines.len() == 9
            &&& critical ==> lines[3] == styled("\n🔴 Memory Status: CRITICAL"@, Some(TermColor::Red), true)
                && lines[5].color == Some(TermColor::Red)
            &&& warning ==> lines[3] == styled("\n🟡 Memory Status: WARNING"@, Some(TermColor::Yellow), true)
                && lines[5].color == Some(TermColor::Yellow)
            &&& normal ==> lines[3] == styled("\n🟢 Memory Status: OK"@, Some(TermColor::Green), true)
                && lines[5].color == Some(TermColor::Green)
            &&& lines[5].text == "📊 Usage: "@ + percent_text(r.used as nat, r.total as nat) + "%"@
            &&& lines[6] == styled("🎯 Threshold: "@ + centi_display(t as int) + "%"@, None, false)
            &&& lines[7].text == "⏰ Interval : "@ + decimal(interval as nat) + " "@ + (if interval < 10 {
                "second"@
            } else {
                "seconds"@
            })
            &&& lines[8] == styled("⏰ Time: "@ + ts, None, false)
        }),
{
    if r.total > 0 {
        law_severity_bands(r.used as nat, r.total as nat, t as int);
    }
}

/// A notification to send through Growl.
pub struct Notification {
    pub title: String,
    pub message: String,
    pub priority: i8,
}

/// What a notification says.
pub struct NotificationView {
    pub title: Seq<char>,
    pub message: Seq<char>,
    pub priority: i8,
}

impl View for Notification {
    type V = NotificationView;

    open spec fn view(&self) -> NotificationView {
        NotificationView { title: self.title@, message: self.message@, priority: self.priority }
    }
}

/// Where the monitoring loop stands.
#[derive(Clone, Copy, Debug, PartialEq, Eq, Structural)]
pub enum MonitorPhase {
    /// Waiting for a reading, to show it and decide on a cleanup.
    Measuring,
    /// Waiting for the cleanup started at `reading`.
    Cleaning { reading: UsageReading },
    /// Waiting for the reading after a cleanup.
    Rechecking,
}

/// What the outside work of the loop reports.
#[derive(Clone, Copy, Debug, PartialEq, Eq, Structural)]
pub enum MonitorEvent {
    /// The memory counters were read.
    Reading(UsageReading),
    /// A cleanup finished; `true` when it succeeded.
    Cleaned(bool),
}

/// Work for the caller of the loop.
pub enum MonitorAction {
    /// Clear the terminal and show the status screen of the reading.
    ShowStatus(UsageReading),
    /// Print a line.
    Print(StyledLine),
    /// Run a cleanup, then report `MonitorEvent::Cleaned`.
    Clean,
    /// Send a notification.
    Notify(Notification),
    /// Sleep for the given number of seconds.
    Sleep(u64),
    /// Read the memory counters, then report `MonitorEvent::Reading`.
    Measure,
}

/// What an action asks for.
pub enum ActionView {
    ShowStatus(UsageReading),
    Print(StyledLineView),
    Clean,
    Notify(NotificationView),
    Sleep(u64),
    Measure,
}

impl View for MonitorAction {
    type V = ActionView;

    open spec fn view(&self) -> ActionView {
        match self {
            MonitorAction::ShowStatus(r) => ActionView::ShowStatus(*r),
            MonitorAction::Print(l) => ActionView::Print(l@),
            MonitorAction::Clean => ActionView::Clean,
            MonitorAction::Notify(n) => ActionView::Notify(n@),
            MonitorAction::Sleep(s) => ActionView::Sleep(*s),
            MonitorAction::Measure => ActionView::Measure,
        }
    }
}

/// The views of a sequence of actions.
pub open spec fn actions_view(actions: Seq<MonitorAction>) -> Seq<ActionView> {
    actions.map_values(|a: MonitorAction| a@)
}

/// The seconds the loop waits after a cleanup before reading again.
pub open spec fn settle_seconds() -> u64 { 30 }

/// The line printed when a reading reaches the threshold.
pub open spec fn alert_line(r: UsageReading) -> StyledLineView {
    styled("\n⚠️  ALERT: Memory usage at "@ + percent_text(r.used as nat, r.total as nat) + "%!\n"@,
        Some(TermColor::Red), true)
}

/// The line printed with the reading after a cleanup.
pub open spec fn after_cleanup_line(r: UsageReading) -> StyledLineView {
    styled("📉 Memory after cleanup: "@ + percent_text(r.used as nat, r.total as nat) + "%\n"@,
        Some(TermColor::Cyan), false)
}

/// The notification sent after a cleanup started at `r`: priority 0 after a
/// successful cleanup, 2 (emergency) after a failed one.
pub open spec fn cleanup_notification(succeeded: bool, r: UsageReading) -> NotificationView {
    let p = percent_text(r.used as nat, r.total as nat);
    if succeeded {
        NotificationView {
            title: "🧹 Memory Cleaned"@,
            message: "Memory was at "@ + p + "%. CleanMem executed successfully."@,
            priority: 0,
        }
    } else {
        NotificationView {
            title: "🔴 Memory Critical"@,
            message: "Memory at "@ + p + "%. CleanMem execution failed!"@,
            priority: 2,
        }
    }
}

/// The loop's decision: from the phase and the report of the last outside
/// work, the next phase and the work to do, for a monitor with threshold `t`
/// hundredths of a percent, `interval` seconds between checks, and
/// `notifies` when a notifier is registered. A report that the phase does not
/// wait for changes nothing.
pub open spec fn step_spec(
    t: i32,
    interval: u64,
    notifies: bool,
    phase: MonitorPhase,
    event: MonitorEvent,
) -> (MonitorPhase, Seq<ActionView>) {
    match (phase, event) {
        (MonitorPhase::Measuring, MonitorEvent::Reading(r)) => {
            if severity_of(r.used as int, r.total as int, t as int) == Severity::Critical {
                (
                    MonitorPhase::Cleaning { reading: r },
                    seq![ActionView::ShowStatus(r), ActionView::Print(alert_line(r)), ActionView::Clean],
                )
            } else {
                (
                    MonitorPhase::Measuring,
                    seq![ActionView::ShowStatus(r), ActionView::Sleep(interval), ActionView::Measure],
                )
            }
        },
        (MonitorPhase::Cleaning { reading }, MonitorEvent::Cleaned(ok)) => {
            let rest = seq![ActionView::Sleep(settle_seconds()), ActionView::Measure];
            if notifies {
                (
                    MonitorPhase::Rechecking,
                    seq![ActionView::Notify(cleanup_notification(ok, reading))] + rest,
                )
            } else {
                (MonitorPhase::Rechecking, rest)
            }
        },
        (MonitorPhase::Rechecking, MonitorEvent::Reading(r)) => (
            MonitorPhase::Measuring,
            seq![ActionView::Print(after_cleanup_line(r)), ActionView::Sleep(interval), ActionView::Measure],
        ),
        _ => (phase, Seq::empty()),
    }
}

/// Whether `phase` waits for a report of the kind of `event`.
pub open spec fn awaits(phase: MonitorPhase, event: MonitorEvent) -> bool {
    match phase {
        MonitorPhase::Cleaning { .. } => event is Cleaned,
        _ => event is Reading,
    }
}

/// A cleanup runs exactly when a reading is at or above the threshold: the
/// reading's step asks for a cleanup, and waits for it, if and only if the
/// reading is CRITICAL.
pub proof fn law_cleanup_exactly_when_critical(t: i32, interval: u64, notifies: bool, r: UsageReading)
    ensures
        ({
            let (next, actions) = step_spec(t, interval, notifies, MonitorPhase::Measuring,
                MonitorEvent::Reading(r));
            let critical = severity_of(r.used as int, r.total as int, t as int) == Severity::Critical;
            &&& (next is Cleaning) <==> critical
            &&& (exists|i: int| 0 <= i < actions.len() && actions[i] is Clean) <==> critical
            &&& actions[0] == ActionView::ShowStatus(r)
        }),
{
    let (next, actions) = step_spec(t, interval, notifies, MonitorPhase::Measuring,
        MonitorEvent::Reading(r));
    if severity_of(r.used as int, r.total as int, t as int) == Severity::Critical {
        assert(actions[2] is Clean);
    } else {
        assert forall|i: int| 0 <= i < actions.len() implies !(actions[i] is Clean) by {}
    }
}

/// After a cleanup a registered notifier is told of it, with priority 0
/// (normal) after a success and 2 (emergency) after a failure; without a
/// notifier nothing is sent. Either way the loop waits 30 seconds and reads again.
pub proof fn law_cleanup_is_reported(t: i32, interval: u64, notifies: bool, r: UsageReading, ok: bool)
    ensures
        ({
            let (next, actions) = step_spec(t, interval, notifies, MonitorPhase::Cleaning { reading: r },
                MonitorEvent::Cleaned(ok));
            &&& next == MonitorPhase::Rechecking
            &&& notifies ==> (actions[0] matches ActionView::Notify(n) && n.priority == (if ok { 0i8 } else { 2i8 })
                && n == cleanup_notification(ok, r))
            &&& !notifies ==> forall|i: int| 0 <= i < actions.len() ==> !(actions[i] is Notify)
            &&& actions.len() >= 2
            &&& actions[actions.len() - 2] == ActionView::Sleep(settle_seconds())
            &&& actions[actions.len() - 1] == ActionView::Measure
        }),
{
}

/// The loop never stalls and asks for what it waits for: after every step on
/// an awaited report, the last action is a cleanup exactly when the next
/// phase waits for one, and a reading otherwise.
pub proof fn law_loop_asks_what_it_awaits(
    t: i32,
    interval: u64,
    notifies: bool,
    phase: MonitorPhase,
    event: MonitorEvent,
)
    requires
        awaits(phase, event),
    ensures
        ({
            let (next, actions) = step_spec(t, interval, notifies, phase, event);
            &&& actions.len() > 0
            &&& (next is Cleaning) ==> actions.last() is Clean
            &&& !(next is Cleaning) ==> actions.last() is Measure
        }),
{
}

/// Every round that ends in the measuring phase waits the configured interval
/// before the next reading.
pub proof fn law_rounds_wait_the_interval(
    t: i32,
    interval: u64,
    notifies: bool,
    phase: MonitorPhase,
    event: MonitorEvent,
)
    requires
        awaits(phase, event),
        step_spec(t, interval, notifies, phase, event).0 == MonitorPhase::Measuring,
    ensures
        ({
            let actions = step_spec(t, interval, notifies, phase, event).1;
            &&& actions.len() >= 2
            &&& actions[actions.len() - 2] == ActionView::Sleep(interval)
            &&& actions[actions.len() - 1] == ActionView::Measure
        }),
{
}

/// A report that the phase does not wait for changes nothing and asks for nothing.
pub proof fn law_unawaited_report_ignored(
    t: i32,
    interval: u64,
    notifies: bool,
    phase: MonitorPhase,
    event: MonitorEvent,
)
    requires
        !awaits(phase, event),
    ensures
        step_spec(t, interval, notifies, phase, event) == (phase, Seq::<ActionView>::empty()),
{
}

/// The rule under the status line of the status screen.
pub open spec fn status_rule() -> Seq<char> {
    "━━━━━━━━━━━━━━━━━━━━━━━━━━━━━━━━━━"@
}

/// The title of the monitor.
pub open spec fn title_text() -> Seq<char> {
    "        🚀 Memory Monitor & Auto-Cleaner"@
}

/// The banner: the title between two rules of `width` `=` signs.
pub open spec fn banner_lines(width: nat) -> Seq<StyledLineView> {
    let c = Some(TermColor::Magenta);
    seq![
        styled(repeated("="@, width), c, true),
        styled(title_text(), c, true),
        styled(repeated("="@, width), c, true),
    ]
}

/// The status screen of reading `r` for threshold `t`, `interval` seconds
/// between checks, a terminal `width` columns wide, at time `timestamp`.
pub open spec fn status_screen_lines(
    t: i32,
    interval: u64,
    r: UsageReading,
    width: nat,
    timestamp: Seq<char>,
) -> Seq<StyledLineView> {
    let sev = severity_of(r.used as int, r.total as int, t as int);
    let color = match sev {
        Severity::Critical => TermColor::Red,
        Severity::Warning => TermColor::Yellow,
        Severity::Normal => TermColor::Green,
    };
    let badge: Seq<char> = match sev {
        Severity::Critical => "\n🔴 Memory Status: CRITICAL"@,
        Severity::Warning => "\n🟡 Memory Status: WARNING"@,
        Severity::Normal => "\n🟢 Memory Status: OK"@,
    };
    let unit: Seq<char> = if interval < 10 { "second"@ } else { "seconds"@ };
    banner_lines(width) + seq![
        styled(badge, Some(color), true),
        styled(status_rule(), None, false),
        styled("📊 Usage: "@ + percent_text(r.used as nat, r.total as nat) + "%"@, Some(color), false),
        styled("🎯 Threshold: "@ + centi_display(t as int) + "%"@, None, false),
        styled("⏰ Interval : "@ + decimal(interval as nat) + " "@ + unit, None, false),
        styled("⏰ Time: "@ + timestamp, None, false),
    ]
}

/// The work that starts the loop: the start lines, with rules `width`
/// columns wide, then a reading.
pub open spec fn start_actions(t: i32, interval: u64, width: nat) -> Seq<ActionView> {
    let c = Some(TermColor::Cyan);
    seq![
        ActionView::Print(styled(repeated("─"@, width), c, true)),
        ActionView::Print(styled("💓 Memory Monitor Started"@, c, true)),
        ActionView::Print(styled("Threshold: "@ + centi_display(t as int) + "% | Interval: "@
            + decimal(interval as nat) + "s"@, c, true)),
        ActionView::Print(styled(repeated("─"@, width), c, true)),
        ActionView::Measure,
    ]
}

/// The settings shown when the program starts; the Growl settings only
/// where notifications are sent.
pub open spec fn configuration_lines(c: MonitorConfig, notifies: bool) -> Seq<StyledLineView> {
    let head = seq![
        styled("⚙️  Current Configuration:"@, Some(TermColor::Cyan), false),
        styled("  📍 Threshold: "@ + centi_display(c.threshold_centi as int) + "%"@, None, false),
        styled("  ⏱️ Check Interval: "@ + decimal(c.check_interval as nat) + "s"@, None, false),
        styled("  🔧 CleanMem Path: "@ + c.cleanmem_path@, None, false),
    ];
    let growl: Seq<StyledLineView> = if notifies {
        seq![
            styled("  🌐 Growl Host: "@ + c.growl_host@ + ":"@ + decimal(c.growl_port as nat), None, false),
            styled("  📱 App Name: "@ + c.growl_app_name@, None, false),
        ]
    } else {
        Seq::empty()
    };
    head + growl + seq![styled(Seq::empty(), None, false)]
}

/// The settings shown at start: the threshold, interval and cleaner path
/// always; the Growl host, port and application name exactly when
/// notifications are sent; then a blank line.
pub proof fn law_configuration_lines(c: MonitorConfig, notifies: bool)
    ensures
        ({
            let lines = configuration_lines(c, notifies);
            &&& lines.len() == (if notifies { 7int } else { 5int })
            &&& lines[1].text == "  📍 Threshold: "@ + centi_display(c.threshold_centi as int) + "%"@
            &&& lines[2].text == "  ⏱️ Check Interval: "@ + decimal(c.check_interval as nat) + "s"@
            &&& lines[3].text == "  🔧 CleanMem Path: "@ + c.cleanmem_path@
            &&& notifies ==> lines[4].text == "  🌐 Growl Host: "@ + c.growl_host@ + ":"@ + decimal(
                c.growl_port as nat,
            ) && lines[5].text == "  📱 App Name: "@ + c.growl_app_name@
            &&& lines.last().text.len() == 0
        }),
{
}

/// The banner is the title between two rules of exactly `width` `=` signs,
/// all in bold magenta.
pub proof fn law_banner(width: nat)
    ensures
        ({
            let lines = banner_lines(width);
            &&& lines.len() == 3
            &&& lines[1].text == title_text()
            &&& forall|k: int| 0 <= k < 3 ==> #[trigger] lines[k].color == Some(TermColor::Magenta) && lines[k].bold
            &&& lines[0].text.len() == width && lines[2].text.len() == width
            &&& forall|i: int| 0 <= i < width ==> #[trigger] lines[0].text[i] == '=' && lines[2].text[i] == '='
        }),
{
    reveal_strlit("=");
    assert("="@ =~= seq!['=']);
    law_repeated('=', width);
}

/// The banner, `width` columns wide.
pub fn banner(width: usize) -> (lines: Vec<StyledLine>)
    ensures
        lines_view(lines@) == banner_lines(width as nat),
{
    let c = Some(TermColor::Magenta);
    let mut lines: Vec<StyledLine> = Vec::new();
    lines.push(StyledLine::new(repeat_str("=", width), c, true));
    lines.push(StyledLine::new(String::from_str("        🚀 Memory Monitor & Auto-Cleaner"), c, true));
    lines.push(StyledLine::new(repeat_str("=", width), c, true));
    assert(lines_view(lines@) =~= banner_lines(width as nat));
    lines
}

/// A memory monitor: its settings, its cleaner, and whether Growl
/// notifications are sent (a notifier registered with the Growl server).
pub struct MemoryMonitor {
    pub config: MonitorConfig,
    cleaner: MemoryCleaner,
    notifier_enabled: bool,
}

impl MemoryMonitor {
    /// The settings of this monitor.
    pub closed spec fn settings(&self) -> MonitorConfig {
        self.config
    }

    /// Whether this monitor sends notifications.
    pub closed spec fn notifies(&self) -> bool {
        self.notifier_enabled
    }

    /// The tool path of this monitor's cleaner.
    pub closed spec fn cleaner_path(&self) -> Seq<char> {
        self.cleaner.path()
    }

    /// A monitor with `config`, whose cleaner runs the tool that the
    /// configuration names, and which notifies when `notifier_registered`.
    pub fn with_config(config: MonitorConfig, notifier_registered: bool) -> (m: MemoryMonitor)
        ensures
            m.settings() == config,
            m.notifies() == notifier_registered,
            m.cleaner_path() == config.cleanmem_path@,
    {
        let cleaner = MemoryCleaner::new(config.cleanmem_path.as_str());
        MemoryMonitor { config, cleaner, notifier_enabled: notifier_registered }
    }

    /// The cleaner of this monitor.
    pub fn cleaner(&self) -> (c: &MemoryCleaner)
        ensures
            c.path() == self.cleaner_path(),
    {
        &self.cleaner
    }

    /// The threshold, in hundredths of a percent.
    pub fn threshold(&self) -> (t: i32)
        ensures
            t == self.settings().threshold_centi,
    {
        self.config.threshold_centi
    }

    /// The seconds between checks.
    pub fn check_interval(&self) -> (s: u64)
        ensures
            s == self.settings().check_interval,
    {
        self.config.check_interval
    }

    /// The path of the external cleaner.
    pub fn cleanmem_path(&self) -> (p: &str)
        ensures
            p@ == self.settings().cleanmem_path@,
    {
        self.config.cleanmem_path.as_str()
    }

    /// The Growl host.
    pub fn growl_host(&self) -> (h: &str)
        ensures
            h@ == self.settings().growl_host@,
    {
        self.config.growl_host.as_str()
    }

    /// The Growl port.
    pub fn growl_port(&self) -> (p: u16)
        ensures
            p == self.settings().growl_port,
    {
        self.config.growl_port
    }

    /// The application name shown by Growl.
    pub fn growl_app_name(&self) -> (n: &str)
        ensures
            n@ == self.settings().growl_app_name@,
    {
        self.config.growl_app_name.as_str()
    }

    /// Whether notifications are sent.
    pub fn has_notifier(&self) -> (b: bool)
        ensures
            b == self.notifies(),
    {
        self.notifier_enabled
    }

    /// The settings shown when the program starts (see `configuration_lines`).
    pub fn configuration_lines(&self) -> (lines: Vec<StyledLine>)
        ensures
            lines_view(lines@) == configuration_lines(self.settings(), self.notifies()),
    {
        let c = &self.config;
        let mut lines: Vec<StyledLine> = Vec::new();
        lines.push(StyledLine::new(
            String::from_str("⚙️  Current Configuration:"),
            Some(TermColor::Cyan),
            false,
        ));
        lines.push(StyledLine::new(
            String::from_str("  📍 Threshold: ").concat(render_centi(c.threshold_centi).as_str()).concat("%"),
            None,
            false,
        ));
        lines.push(StyledLine::new(
            String::from_str("  ⏱️ Check Interval: ").concat(render_u64(c.check_interval).as_str()).concat(
                "s",
            ),
            None,
            false,
        ));
        lines.push(StyledLine::new(
            String::from_str("  🔧 CleanMem Path: ").concat(c.cleanmem_path.as_str()),
            None,
            false,
        ));
        if self.notifier_enabled {
            lines.push(StyledLine::new(
                String::from_str("  🌐 Growl Host: ").concat(c.growl_host.as_str()).concat(":").concat(
                    render_u64(c.growl_port as u64).as_str(),
                ),
                None,
                false,
            ));
            lines.push(StyledLine::new(
                String::from_str("  📱 App Name: ").concat(c.growl_app_name.as_str()),
                None,
                false,
            ));
        }
        lines.push(StyledLine::new(String::new(), None, false));
        assert(lines_view(lines@) =~= configuration_lines(self.settings(), self.notifies()));
        lines
    }

    /// The status screen of `reading`, `width` columns wide, at `timestamp`.
    pub fn status_screen(&self, reading: UsageReading, width: usize, timestamp: &str) -> (lines: Vec<
        StyledLine,
    >)
        ensures
            lines_view(lines@) == status_screen_lines(
                self.settings().threshold_centi,
                self.settings().check_interval,
                reading,
                width as nat,
                timestamp@,
            ),
    {
        let t = self.config.threshold_centi;
        let interval = self.config.check_interval;
        let sev = classify(reading, t);
        let (color, badge) = match sev {
            Severity::Critical => (TermColor::Red, String::from_str("\n🔴 Memory Status: CRITICAL")),
            Severity::Warning => (TermColor::Yellow, String::from_str("\n🟡 Memory Status: WARNING")),
            Severity::Normal => (TermColor::Green, String::from_str("\n🟢 Memory Status: OK")),
        };
        let unit = if interval < 10 {
            "second"
        } else {
            "seconds"
        };
        let mut lines = banner(width);
        lines.push(StyledLine::new(badge, Some(color), true));
        lines.push(StyledLine::new(String::from_str("━━━━━━━━━━━━━━━━━━━━━━━━━━━━━━━━━━"), None, false));
        lines.push(StyledLine::new(
            String::from_str("📊 Usage: ").concat(render_percent(reading).as_str()).concat("%"),
            Some(color),
            false,
        ));
        lines.push(StyledLine::new(
            String::from_str("🎯 Threshold: ").concat(render_centi(t).as_str()).concat("%"),
            None,
            false,
        ));
        lines.push(StyledLine::new(
            String::from_str("⏰ Interval : ").concat(render_u64(interval).as_str()).concat(
                " ",
            ).concat(unit),
            None,
            false,
        ));
        lines.push(StyledLine::new(
            String::from_str("⏰ Time: ").concat(timestamp),
            None,
            false,
        ));
        assert(lines_view(lines@) =~= status_screen_lines(t, interval, reading, width as nat, timestamp@));
        lines
    }

    /// The notification after a cleanup started at `reading`.
    pub fn cleanup_notification(succeeded: bool, reading: UsageReading) -> (n: Notification)
        ensures
            n@ == cleanup_notification(succeeded, reading),
    {
        let p = render_percent(reading);
        if succeeded {
            Notification {
                title: String::from_str("🧹 Memory Cleaned"),
                message: String::from_str("Memory was at ").concat(p.as_str()).concat(
                    "%. CleanMem executed successfully.",
                ),
                priority: 0,
            }
        } else {
            Notification {
                title: String::from_str("🔴 Memory Critical"),
                message: String::from_str("Memory at ").concat(p.as_str()).concat(
                    "%. CleanMem execution failed!",
                ),
                priority: 2,
            }
        }
    }

    /// The first phase of the loop and the work that starts it: the start
    /// lines, `width` columns wide, then a reading.
    pub fn start(&self, width: usize) -> (r: (MonitorPhase, Vec<MonitorAction>))
        ensures
            r.0 == MonitorPhase::Measuring,
            actions_view(r.1@) == start_actions(
                self.settings().threshold_centi,
                self.settings().check_interval,
                width as nat,
            ),
    {
        let c = Some(TermColor::Cyan);
        let mut actions: Vec<MonitorAction> = Vec::new();
        actions.push(MonitorAction::Print(StyledLine::new(repeat_str("─", width), c, true)));
        actions.push(MonitorAction::Print(StyledLine::new(
            String::from_str("💓 Memory Monitor Started"),
            c,
            true,
        )));
        actions.push(MonitorAction::Print(StyledLine::new(
            String::from_str("Threshold: ").concat(render_centi(self.config.threshold_centi).as_str())
                .concat("% | Interval: ").concat(render_u64(self.config.check_interval).as_str())
                .concat("s"),
            c,
            true,
        )));
        actions.push(MonitorAction::Print(StyledLine::new(repeat_str("─", width), c, true)));
        actions.push(MonitorAction::Measure);
        assert(actions_view(actions@) =~= start_actions(
            self.config.threshold_centi,
            self.config.check_interval,
            width as nat,
        ));
        (MonitorPhase::Measuring, actions)
    }

    /// The loop's decision for `phase` and `event` (see `step_spec`).
    pub fn step(&self, phase: MonitorPhase, event: MonitorEvent) -> (r: (MonitorPhase, Vec<MonitorAction>))
        ensures
            r.0 == step_spec(
                self.settings().threshold_centi,
                self.settings().check_interval,
                self.notifies(),
                phase,
                event,
            ).0,
            actions_view(r.1@) == step_spec(
                self.settings().threshold_centi,
                self.settings().check_interval,
                self.notifies(),
                phase,
                event,
            ).1,
    {
        let t = self.config.threshold_centi;
        let interval = self.config.check_interval;
        let mut actions: Vec<MonitorAction> = Vec::new();
        let next = match (phase, event) {
            (MonitorPhase::Measuring, MonitorEvent::Reading(r)) => {
                actions.push(MonitorAction::ShowStatus(r));
                if classify(r, t) == Severity::Critical {
                    let p = render_percent(r);
                    actions.push(MonitorAction::Print(StyledLine::new(
                        String::from_str("\n⚠️  ALERT: Memory usage at ").concat(p.as_str()).concat(
                            "%!\n",
                        ),
                        Some(TermColor::Red),
                        true,
                    )));
                    actions.push(MonitorAction::Clean);
                    MonitorPhase::Cleaning { reading: r }
                } else {
                    actions.push(MonitorAction::Sleep(interval));
                    actions.push(MonitorAction::Measure);
                    MonitorPhase::Measuring
                }
            },
            (MonitorPhase::Cleaning { reading }, MonitorEvent::Cleaned(ok)) => {
                if self.notifier_enabled {
                    actions.push(MonitorAction::Notify(Self::cleanup_notification(ok, reading)));
                }
                actions.push(MonitorAction::Sleep(30));
                actions.push(MonitorAction::Measure);
                MonitorPhase::Rechecking
            },
            (MonitorPhase::Rechecking, MonitorEvent::Reading(r)) => {
                let p = render_percent(r);
                actions.push(MonitorAction::Print(StyledLine::new(
                    String::from_str("📉 Memory after cleanup: ").concat(p.as_str()).concat("%\n"),
                    Some(TermColor::Cyan),
                    false,
                )));
                actions.push(MonitorAction::Sleep(interval));
                actions.push(MonitorAction::Measure);
                MonitorPhase::Measuring
            },
            _ => phase,
        };
        assert(actions_view(actions@) =~= step_spec(t, interval, self.notifier_enabled, phase, event).1);
        (next, actions)
    }
}

} // verus!
