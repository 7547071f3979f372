use memory_monitor::text::{parse_unsigned, render_centi, render_fixed2, render_u64, repeat_str};

#[test]
fn renders_integers() {
    assert_eq!(render_u64(0), "0");
    assert_eq!(render_u64(7), "7");
    assert_eq!(render_u64(23053), "23053");
    assert_eq!(render_u64(u64::MAX), "18446744073709551615");
}

#[test]
fn parses_unsigned_integers_as_std_does() {
    for s in ["0", "60", "+15", "007", "18446744073709551615", "", "+", "-1", " 5", "5 ", "1.0", "18446744073709551616", "abc"] {
        assert_eq!(parse_unsigned(s, u64::MAX), s.parse::<u64>().ok(), "{s}");
    }
    for s in ["65535", "65536", "+1", "23053", "99999"] {
        assert_eq!(parse_unsigned(s, 65535), s.parse::<u16>().ok().map(u64::from), "{s}");
    }
}

#[test]
fn parse_reads_back_what_render_writes() {
    for n in [0u64, 9, 10, 60, 23053, u64::MAX] {
        assert_eq!(parse_unsigned(&render_u64(n), u64::MAX), Some(n));
    }
}

#[test]
fn renders_two_decimals() {
    assert_eq!(render_fixed2(9753), "97.53");
    assert_eq!(render_fixed2(5), "0.05");
    assert_eq!(render_fixed2(10000), "100.00");
}

#[test]
fn renders_hundredths_like_a_float() {
    for t in [9800i32, 9050, 9025, -225, 5, 0, -500, 100] {
        assert_eq!(render_centi(t), format!("{}", f64::from(t) / 100.0), "{t}");
    }
}

#[test]
fn repeats() {
    assert_eq!(repeat_str("=", 5), "=====");
    assert_eq!(repeat_str("─", 3), "───");
    assert_eq!(repeat_str("=", 0), "");
}
