use ness_relay::bgp::bgp_state_name;
use ness_relay::conversions::{format_uptime, safe_int};

#[test]
fn test_format_uptime_zero() {
    let v = format_uptime(0);
    assert_eq!(v.days, 0);
}

#[test]
fn test_format_uptime_1day() {
    let v = format_uptime(8640000);
    assert_eq!(v.days, 1);
    assert_eq!(v.hours, 0);
}

#[test]
fn uptime_parts_and_text() {
    // 1 day, 2 hours, 3 minutes, 4 seconds and 56 hundredths
    let ticks = ((86400 + 2 * 3600 + 3 * 60 + 4) * 100) + 56;
    let v = format_uptime(ticks);
    assert_eq!(v.total_seconds, 86400 + 2 * 3600 + 3 * 60 + 4);
    assert_eq!((v.days, v.hours, v.minutes, v.seconds), (1, 2, 3, 4));
    assert_eq!(v.human, "1d 2h 3m 4s");
}

#[test]
fn safe_int_values() {
    assert_eq!(safe_int("  42 "), 42);
    assert_eq!(safe_int("-17"), -17);
    assert_eq!(safe_int("+8"), 8);
    assert_eq!(safe_int("abc"), 0);
    assert_eq!(safe_int(""), 0);
    assert_eq!(safe_int("9223372036854775807"), i64::MAX);
    assert_eq!(safe_int("9223372036854775808"), 0);
    assert_eq!(safe_int("-9223372036854775808"), i64::MIN);
    assert_eq!(safe_int("1 2"), 0);
}

#[test]
fn bgp_states() {
    assert_eq!(bgp_state_name(1), "idle");
    assert_eq!(bgp_state_name(3), "active");
    assert_eq!(bgp_state_name(6), "established");
    assert_eq!(bgp_state_name(0), "unknown");
    assert_eq!(bgp_state_name(7), "unknown");
}
