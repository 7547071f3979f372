use memory_monitor::display::TermColor;
use memory_monitor::notification::{
    checking_line, delivery_report, icon_report, icon_search_paths, registration_report, sending_line,
    uses_password,
};

#[test]
fn only_a_set_password_is_sent() {
    assert!(!uses_password(""));
    assert!(uses_password("secret"));
}

#[test]
fn icon_is_looked_for_in_order() {
    let paths = icon_search_paths("icon.png", &Some("/opt/mm".to_string()), &Some("/work".to_string()));
    assert_eq!(paths, vec![
        vec!["icon.png".to_string()],
        vec!["/opt/mm".to_string(), "icon.png".to_string()],
        vec!["/work".to_string(), "icon.png".to_string()],
    ]);
    assert_eq!(icon_search_paths("icon.png", &None, &None).len(), 1);
}

#[test]
fn setup_lines() {
    assert_eq!(checking_line().text, "\n📬 Checking notification libraries...");
    let l = icon_report(true, "i.png");
    assert_eq!(l.text, "  🖼️  Icon loaded: i.png");
    assert_eq!(l.color, Some(TermColor::Green));
    let l = icon_report(false, "i.png");
    assert_eq!(l.text, "  ⚠️  Icon not found: i.png");
    assert_eq!(l.color, Some(TermColor::Yellow));
}

#[test]
fn registration_outcomes() {
    let (enabled, lines) = registration_report(&None, "localhost", 23053);
    assert!(enabled);
    assert_eq!(lines.len(), 1);
    assert_eq!(lines[0].text, "  ✅ GNTP found - Growl notifications enabled");
    let (enabled, lines) =
        registration_report(&Some("ConnectionError(\"refused\")".to_string()), "localhost", 23053);
    assert!(!enabled);
    assert_eq!(lines[0].text, "  ⚠️  GNTP initialization failed: ConnectionError(\"refused\")");
    assert_eq!(lines[1].text, "  💡 Make sure Growl is running on localhost:23053");
}

#[test]
fn delivery_outcomes() {
    assert_eq!(sending_line().text, "\n📤 Sending notifications...");
    let (sent, lines) = delivery_report(&None, "growl.local", 1234);
    assert!(sent);
    assert_eq!(lines[0].text, "📬 ✅ Growl notification sent to growl.local:1234");
    let (sent, lines) = delivery_report(&Some("IoError(\"x\")".to_string()), "growl.local", 1234);
    assert!(!sent);
    assert_eq!(lines[0].text, "❌ Growl notification error: IoError(\"x\")");
    assert_eq!(lines[0].color, Some(TermColor::Red));
    assert_eq!(lines[1].text, "💡 Make sure Growl is running on growl.local:1234");
    assert_eq!(lines[1].color, Some(TermColor::Yellow));
}

#[test]
fn one_notification_type_is_registered_and_sent() {
    assert_eq!(memory_monitor::notification::alert_type(), "Memory Alert");
}
