use memory_monitor::config::MonitorConfig;
use memory_monitor::display::TermColor;
use memory_monitor::monitor::{
    banner, classify, render_percent, MemoryMonitor, MonitorAction, MonitorEvent, MonitorPhase,
    Severity, UsageReading,
};

fn reading(used: u64, total: u64) -> UsageReading {
    UsageReading { used, total }
}

fn monitor(threshold_centi: i32, check_interval: u64, notify: bool) -> MemoryMonitor {
    let config = MonitorConfig { threshold_centi, check_interval, ..MonitorConfig::default() };
    MemoryMonitor::with_config(config, notify)
}

fn describe(actions: &[MonitorAction]) -> Vec<String> {
    actions
        .iter()
        .map(|a| match a {
            MonitorAction::ShowStatus(r) => format!("show {}/{}", r.used, r.total),
            MonitorAction::Print(l) => format!("print {}", l.text),
            MonitorAction::Clean => "clean".to_string(),
            MonitorAction::Notify(n) => format!("notify {} | {} | {}", n.title, n.message, n.priority),
            MonitorAction::Sleep(s) => format!("sleep {s}"),
            MonitorAction::Measure => "measure".to_string(),
        })
        .collect()
}

#[test]
fn severity_bands_around_the_threshold() {
    assert_eq!(classify(reading(9800, 10000), 9800), Severity::Critical);
    assert_eq!(classify(reading(10000, 10000), 9800), Severity::Critical);
    assert_eq!(classify(reading(9799, 10000), 9800), Severity::Warning);
    assert_eq!(classify(reading(9300, 10000), 9800), Severity::Warning);
    assert_eq!(classify(reading(9299, 10000), 9800), Severity::Normal);
    assert_eq!(classify(reading(0, 10000), 9800), Severity::Normal);
    assert_eq!(classify(reading(1, 3), 3334), Severity::Warning);
    assert_eq!(classify(reading(1, 3), 3333), Severity::Critical);
}

#[test]
fn zero_total_readings() {
    assert_eq!(classify(reading(0, 0), 9800), Severity::Normal);
    assert_eq!(classify(reading(5, 0), 9800), Severity::Critical);
    assert_eq!(render_percent(reading(0, 0)), "NaN");
    assert_eq!(render_percent(reading(5, 0)), "inf");
}

#[test]
fn percentages_have_two_decimals() {
    assert_eq!(render_percent(reading(9753, 10000)), "97.53");
    assert_eq!(render_percent(reading(1, 3)), "33.33");
    assert_eq!(render_percent(reading(2, 3)), "66.67");
    assert_eq!(render_percent(reading(16_000_000_000, 16_000_000_000)), "100.00");
    assert_eq!(render_percent(reading(u64::MAX, 1)), "1844674407370955161500.00");
}

#[test]
fn exact_halves_round_to_even_as_float_formatting_does() {
    assert_eq!(render_percent(reading(97, 800)), "12.12");
    assert_eq!(render_percent(reading(99, 800)), "12.38");
    assert_eq!(render_percent(reading(1, 20000)), "0.00");
    assert_eq!(render_percent(reading(3, 20000)), "0.02");
    for (used, total) in [(97u64, 800u64), (99, 800), (1, 8), (3, 8), (5, 16), (7, 400), (1, 3), (2, 3), (9753, 10000), (123456, 789012)] {
        assert_eq!(
            render_percent(reading(used, total)),
            format!("{:.2}", (used as f64 / total as f64) * 100.0),
            "{used}/{total}"
        );
    }
}

#[test]
fn a_reading_below_the_threshold_waits_the_interval() {
    let m = monitor(9800, 60, true);
    let (next, actions) = m.step(MonitorPhase::Measuring, MonitorEvent::Reading(reading(50, 100)));
    assert_eq!(next, MonitorPhase::Measuring);
    assert_eq!(describe(&actions), vec!["show 50/100", "sleep 60", "measure"]);
}

#[test]
fn a_critical_reading_starts_a_cleanup() {
    let m = monitor(9000, 60, true);
    let r = reading(9500, 10000);
    let (next, actions) = m.step(MonitorPhase::Measuring, MonitorEvent::Reading(r));
    assert_eq!(next, MonitorPhase::Cleaning { reading: r });
    assert_eq!(describe(&actions), vec![
        "show 9500/10000",
        "print \n⚠️  ALERT: Memory usage at 95.00%!\n",
        "clean",
    ]);
    match &actions[1] {
        MonitorAction::Print(l) => {
            assert_eq!(l.color, Some(TermColor::Red));
            assert!(l.bold);
        }
        _ => panic!("expected an alert"),
    }
}

#[test]
fn a_successful_cleanup_is_reported_with_normal_priority() {
    let m = monitor(9000, 60, true);
    let r = reading(9500, 10000);
    let (next, actions) = m.step(MonitorPhase::Cleaning { reading: r }, MonitorEvent::Cleaned(true));
    assert_eq!(next, MonitorPhase::Rechecking);
    assert_eq!(describe(&actions), vec![
        "notify 🧹 Memory Cleaned | Memory was at 95.00%. CleanMem executed successfully. | 0",
        "sleep 30",
        "measure",
    ]);
}

#[test]
fn a_failed_cleanup_is_reported_with_emergency_priority() {
    let m = monitor(9000, 60, true);
    let r = reading(9500, 10000);
    let (_, actions) = m.step(MonitorPhase::Cleaning { reading: r }, MonitorEvent::Cleaned(false));
    assert_eq!(describe(&actions)[0], "notify 🔴 Memory Critical | Memory at 95.00%. CleanMem execution failed! | 2");
}

#[test]
fn without_a_notifier_nothing_is_sent() {
    let m = monitor(9000, 60, false);
    let (next, actions) =
        m.step(MonitorPhase::Cleaning { reading: reading(1, 1) }, MonitorEvent::Cleaned(true));
    assert_eq!(next, MonitorPhase::Rechecking);
    assert_eq!(describe(&actions), vec!["sleep 30", "measure"]);
}

#[test]
fn the_reading_after_a_cleanup_is_printed() {
    let m = monitor(9000, 45, true);
    let (next, actions) = m.step(MonitorPhase::Rechecking, MonitorEvent::Reading(reading(4000, 10000)));
    assert_eq!(next, MonitorPhase::Measuring);
    assert_eq!(describe(&actions), vec!["print 📉 Memory after cleanup: 40.00%\n", "sleep 45", "measure"]);
}

#[test]
fn unexpected_reports_change_nothing() {
    let m = monitor(9000, 45, true);
    let (next, actions) = m.step(MonitorPhase::Measuring, MonitorEvent::Cleaned(true));
    assert_eq!(next, MonitorPhase::Measuring);
    assert!(actions.is_empty());
    let (next, actions) = m.step(MonitorPhase::Rechecking, MonitorEvent::Cleaned(false));
    assert_eq!(next, MonitorPhase::Rechecking);
    assert!(actions.is_empty());
}

#[test]
fn start_prints_the_settings_then_measures() {
    let m = monitor(9850, 5, false);
    let (phase, actions) = m.start(4);
    assert_eq!(phase, MonitorPhase::Measuring);
    assert_eq!(describe(&actions), vec![
        "print ────",
        "print 💓 Memory Monitor Started",
        "print Threshold: 98.5% | Interval: 5s",
        "print ────",
        "measure",
    ]);
}

#[test]
fn status_screen() {
    let m = monitor(9800, 60, false);
    let lines = m.status_screen(reading(9500, 10000), 3, "2025-11-01 10:00:00");
    let texts: Vec<&str> = lines.iter().map(|l| l.text.as_str()).collect();
    assert_eq!(texts, vec![
        "===",
        "        🚀 Memory Monitor & Auto-Cleaner",
        "===",
        "\n🟡 Memory Status: WARNING",
        "━━━━━━━━━━━━━━━━━━━━━━━━━━━━━━━━━━",
        "📊 Usage: 95.00%",
        "🎯 Threshold: 98%",
        "⏰ Interval : 60 seconds",
        "⏰ Time: 2025-11-01 10:00:00",
    ]);
    assert_eq!(lines[3].color, Some(TermColor::Yellow));
    assert_eq!(lines[5].color, Some(TermColor::Yellow));
    let m = monitor(9800, 5, false);
    let lines = m.status_screen(reading(99, 100), 0, "t");
    assert_eq!(lines[3].text, "\n🔴 Memory Status: CRITICAL");
    assert_eq!(lines[3].color, Some(TermColor::Red));
    assert_eq!(lines[7].text, "⏰ Interval : 5 second");
    let lines = m.status_screen(reading(1, 100), 0, "t");
    assert_eq!(lines[3].text, "\n🟢 Memory Status: OK");
    assert_eq!(lines[3].color, Some(TermColor::Green));
}

#[test]
fn banner_lines() {
    let b = banner(2);
    assert_eq!(b.len(), 3);
    assert_eq!(b[0].text, "==");
    assert_eq!(b[0].color, Some(TermColor::Magenta));
    assert!(b[0].bold);
}

#[test]
fn configuration_lines_show_growl_only_with_a_notifier() {
    let m = monitor(9800, 60, true);
    let texts: Vec<String> = m.configuration_lines().into_iter().map(|l| l.text).collect();
    assert_eq!(texts, vec![
        "⚙️  Current Configuration:",
        "  📍 Threshold: 98%",
        "  ⏱️ Check Interval: 60s",
        "  🔧 CleanMem Path: ",
        "  🌐 Growl Host: localhost:23053",
        "  📱 App Name: Memory Monitor",
        "",
    ]);
    assert_eq!(monitor(9800, 60, false).configuration_lines().len(), 5);
}

#[test]
fn getters() {
    let m = monitor(9000, 30, true);
    assert_eq!(m.threshold(), 9000);
    assert_eq!(m.check_interval(), 30);
    assert_eq!(m.cleanmem_path(), "");
    assert_eq!(m.growl_host(), "localhost");
    assert_eq!(m.growl_port(), 23053);
    assert_eq!(m.growl_app_name(), "Memory Monitor");
    assert!(m.has_notifier());
    assert!(!monitor(9000, 30, false).has_notifier());
    assert_eq!(m.cleaner().cleanmem_path(), "");
}
