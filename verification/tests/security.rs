use ness_relay::security::{
    analyze_security, check_name, counter_message, counter_of, counter_threshold, level_name, status_name,
    AlertLevel, RateLevel, SecurityCheck, SecurityCounters, SecurityFinding, SecurityStatus,
};

fn counters(conn: i64, fails: i64, bad: i64, echos: i64) -> SecurityCounters {
    SecurityCounters { tcp_curr_estab: conn, tcp_attempt_fails: fails, snmp_bad_community_names: bad, icmp_in_echos: echos }
}

fn f(check: SecurityCheck, level: AlertLevel) -> SecurityFinding {
    SecurityFinding { check, level }
}

#[test]
fn quiet_device_is_ok() {
    let a = analyze_security(&counters(10, 0, 0, 3), RateLevel::Normal, RateLevel::Normal);
    assert!(a.alerts.is_empty());
    assert!(a.warnings.is_empty());
    assert_eq!(a.status, SecurityStatus::Healthy);
    assert_eq!(status_name(a.status), "ok");
}

#[test]
fn thresholds_are_inclusive() {
    let a = analyze_security(&counters(5_000, 999, 1, 999), RateLevel::Normal, RateLevel::Normal);
    assert!(a.alerts.is_empty());
    assert_eq!(
        a.warnings,
        vec![f(SecurityCheck::TcpConnections, AlertLevel::Warning), f(SecurityCheck::SnmpSecurity, AlertLevel::Warning)]
    );
    assert_eq!(a.status, SecurityStatus::Warning);

    let a = analyze_security(&counters(10_000, 1_000, 10, 1_000), RateLevel::Normal, RateLevel::Normal);
    assert_eq!(
        a.alerts,
        vec![
            f(SecurityCheck::TcpConnections, AlertLevel::Critical),
            f(SecurityCheck::TcpFailures, AlertLevel::Critical),
            f(SecurityCheck::SnmpSecurity, AlertLevel::Critical),
            f(SecurityCheck::IcmpReconnaissance, AlertLevel::Critical),
        ]
    );
    assert!(a.warnings.is_empty());
    assert_eq!(a.status, SecurityStatus::Critical);
}

#[test]
fn rate_levels_in_check_order() {
    let a = analyze_security(&counters(6_000, 0, 0, 0), RateLevel::Critical, RateLevel::Elevated);
    assert_eq!(a.alerts, vec![f(SecurityCheck::TcpRetransmission, AlertLevel::Critical)]);
    assert_eq!(
        a.warnings,
        vec![f(SecurityCheck::TcpConnections, AlertLevel::Warning), f(SecurityCheck::IpFragmentation, AlertLevel::Warning)]
    );
    assert_eq!(a.status, SecurityStatus::Critical);
}

#[test]
fn counter_findings_text() {
    let c = counters(12_000, 1_500, 3, 2_000);
    assert_eq!(counter_of(&c, SecurityCheck::TcpConnections), Some(12_000));
    assert_eq!(counter_of(&c, SecurityCheck::TcpRetransmission), None);
    assert_eq!(counter_threshold(SecurityCheck::TcpConnections, AlertLevel::Warning), Some(5_000));
    assert_eq!(counter_threshold(SecurityCheck::SnmpSecurity, AlertLevel::Warning), Some(0));
    assert_eq!(counter_threshold(SecurityCheck::IpFragmentation, AlertLevel::Critical), None);
    assert_eq!(
        counter_message(SecurityCheck::TcpConnections, AlertLevel::Critical, 12_000),
        Some("Conexiones TCP críticas: 12000".to_string())
    );
    assert_eq!(
        counter_message(SecurityCheck::SnmpSecurity, AlertLevel::Warning, 3),
        Some("Fallos de autenticación SNMP: 3".to_string())
    );
    assert_eq!(
        counter_message(SecurityCheck::IcmpReconnaissance, AlertLevel::Critical, 2_000),
        Some("ICMP Echo requests excesivos: 2000 (posible escaneo)".to_string())
    );
    assert_eq!(counter_message(SecurityCheck::TcpRetransmission, AlertLevel::Critical, 0), None);
    assert_eq!(check_name(SecurityCheck::IcmpReconnaissance), "icmp_reconnaissance");
    assert_eq!(level_name(AlertLevel::Warning), "warning");
}
