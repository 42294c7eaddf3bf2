//! Security alerts from the collected counters: established TCP connections,
//! failed TCP attempts, SNMP authentication failures and ICMP echo requests
//! against fixed thresholds, together with the levels reached by the TCP
//! retransmission and IP fragmentation rates.
//!
//! The rates are percentages in floating point; the caller compares them
//! with their thresholds and hands over the level reached.

use vstd::prelude::*;
use crate::text::{int_decimal, i64_to_decimal, push_str, to_owned_string};

verus! {

/// Established connections from which a warning is raised.
pub const TCP_CONN_WARNING: i64 = 5_000;
/// Established connections from which an alert is raised.
pub const TCP_CONN_CRITICAL: i64 = 10_000;
/// Failed connection attempts from which an alert is raised.
pub const TCP_FAIL_CRITICAL: i64 = 1_000;
/// SNMP authentication failures above which a warning is raised.
pub const SNMP_BAD_COM_WARNING: i64 = 0;
/// SNMP authentication failures from which an alert is raised.
pub const SNMP_BAD_COM_CRITICAL: i64 = 10;
/// ICMP echo requests from which an alert is raised.
pub const ICMP_ECHO_CRITICAL: i64 = 1_000;

/// The counters the analysis reads (0 where the device gave none).
#[derive(Debug, Clone, Copy, PartialEq, Eq, Structural)]
pub struct SecurityCounters {
    pub tcp_curr_estab: i64,
    pub tcp_attempt_fails: i64,
    pub snmp_bad_community_names: i64,
    pub icmp_in_echos: i64,
}

/// The level a rate reached against its two thresholds.
#[derive(Debug, Clone, Copy, PartialEq, Eq, Structural)]
pub enum RateLevel {
    Normal,
    Elevated,
    Critical,
}

/// What each alert or warning is about, in the order they are checked.
#[derive(Debug, Clone, Copy, PartialEq, Eq, Structural)]
pub enum SecurityCheck {
    TcpConnections,
    TcpFailures,
    TcpRetransmission,
    SnmpSecurity,
    IpFragmentation,
    IcmpReconnaissance,
}

/// How serious a finding is.
#[derive(Debug, Clone, Copy, PartialEq, Eq, Structural)]
pub enum AlertLevel {
    Critical,
    Warning,
}

/// The overall state: critical with any alert, warning with warnings only,
/// healthy (`ok` in the report) otherwise.
#[derive(Debug, Clone, Copy, PartialEq, Eq, Structural)]
pub enum SecurityStatus {
    Critical,
    Warning,
    Healthy,
}

/// One finding of the analysis.
#[derive(Debug, Clone, Copy, PartialEq, Eq, Structural)]
pub struct SecurityFinding {
    pub check: SecurityCheck,
    pub level: AlertLevel,
}

/// The findings, alerts and warnings apart, and the resulting state.
#[derive(Debug, Clone)]
pub struct SecurityAnalysis {
    pub alerts: Vec<SecurityFinding>,
    pub warnings: Vec<SecurityFinding>,
    pub status: SecurityStatus,
}

/// Established connections: alert from 10000, warning from 5000.
pub open spec fn tcp_connections_level(n: i64) -> Option<AlertLevel> {
    if n >= TCP_CONN_CRITICAL {
        Some(AlertLevel::Critical)
    } else if n >= TCP_CONN_WARNING {
        Some(AlertLevel::Warning)
    } else {
        None
    }
}

/// Failed attempts: alert from 1000.
pub open spec fn tcp_failures_level(n: i64) -> Option<AlertLevel> {
    if n >= TCP_FAIL_CRITICAL {
        Some(AlertLevel::Critical)
    } else {
        None
    }
}

/// SNMP authentication failures: alert from 10, warning from 1.
pub open spec fn snmp_level(n: i64) -> Option<AlertLevel> {
    if n >= SNMP_BAD_COM_CRITICAL {
        Some(AlertLevel::Critical)
    } else if n > SNMP_BAD_COM_WARNING {
        Some(AlertLevel::Warning)
    } else {
        None
    }
}

/// ICMP echo requests: alert from 1000.
pub open spec fn icmp_level(n: i64) -> Option<AlertLevel> {
    if n >= ICMP_ECHO_CRITICAL {
        Some(AlertLevel::Critical)
    } else {
        None
    }
}

/// A rate at its critical threshold gives an alert, at its warning one a warning.
pub open spec fn rate_alert(r: RateLevel) -> Option<AlertLevel> {
    match r {
        RateLevel::Critical => Some(AlertLevel::Critical),
        RateLevel::Elevated => Some(AlertLevel::Warning),
        RateLevel::Normal => None,
    }
}

/// The level of each check, in the order the checks are made.
pub open spec fn check_levels(c: SecurityCounters, retransmission: RateLevel, fragmentation: RateLevel) -> Seq<
    (SecurityCheck, Option<AlertLevel>),
> {
    seq![
        (SecurityCheck::TcpConnections, tcp_connections_level(c.tcp_curr_estab)),
        (SecurityCheck::TcpFailures, tcp_failures_level(c.tcp_attempt_fails)),
        (SecurityCheck::TcpRetransmission, rate_alert(retransmission)),
        (SecurityCheck::SnmpSecurity, snmp_level(c.snmp_bad_community_names)),
        (SecurityCheck::IpFragmentation, rate_alert(fragmentation)),
        (SecurityCheck::IcmpReconnaissance, icmp_level(c.icmp_in_echos)),
    ]
}

/// The findings of level `want` among `levels`, in order.
pub open spec fn findings_at(levels: Seq<(SecurityCheck, Option<AlertLevel>)>, want: AlertLevel) -> Seq<SecurityFinding>
    decreases levels.len(),
{
    if levels.len() == 0 {
        Seq::empty()
    } else {
        let rest = findings_at(levels.drop_last(), want);
        if levels.last().1 == Some(want) {
            rest.push(SecurityFinding { check: levels.last().0, level: want })
        } else {
            rest
        }
    }
}

/// The state of an analysis with these alerts and warnings.
pub open spec fn status_of(alerts: Seq<SecurityFinding>, warnings: Seq<SecurityFinding>) -> SecurityStatus {
    if alerts.len() > 0 {
        SecurityStatus::Critical
    } else if warnings.len() > 0 {
        SecurityStatus::Warning
    } else {
        SecurityStatus::Healthy
    }
}

fn push_level(out: &mut Vec<SecurityFinding>, check: SecurityCheck, level: Option<AlertLevel>, want: AlertLevel)
    ensures
        final(out)@ == if level == Some(want) {
            old(out)@.push(SecurityFinding { check, level: want })
        } else {
            old(out)@
        },
{
    match level {
        Some(l) => if l == want {
            out.push(SecurityFinding { check, level: want });
        },
        None => {},
    }
}

fn tcp_connections_check(n: i64) -> (r: Option<AlertLevel>)
    ensures
        r == tcp_connections_level(n),
{
    if n >= TCP_CONN_CRITICAL {
        Some(AlertLevel::Critical)
    } else if n >= TCP_CONN_WARNING {
        Some(AlertLevel::Warning)
    } else {
        None
    }
}

fn snmp_check(n: i64) -> (r: Option<AlertLevel>)
    ensures
        r == snmp_level(n),
{
    if n >= SNMP_BAD_COM_CRITICAL {
        Some(AlertLevel::Critical)
    } else if n > SNMP_BAD_COM_WARNING {
        Some(AlertLevel::Warning)
    } else {
        None
    }
}

fn rate_check(r: RateLevel) -> (l: Option<AlertLevel>)
    ensures
        l == rate_alert(r),
{
    match r {
        RateLevel::Critical => Some(AlertLevel::Critical),
        RateLevel::Elevated => Some(AlertLevel::Warning),
        RateLevel::Normal => None,
    }
}

/// Checks the counters and the rate levels in a fixed order: established
/// connections, failed attempts, retransmissions, SNMP authentication,
/// fragmentation, ICMP echos. Each gives at most one finding.
pub fn analyze_security(c: &SecurityCounters, retransmission: RateLevel, fragmentation: RateLevel) -> (r: SecurityAnalysis)
    ensures
        r.alerts@ == findings_at(check_levels(*c, retransmission, fragmentation), AlertLevel::Critical),
        r.warnings@ == findings_at(check_levels(*c, retransmission, fragmentation), AlertLevel::Warning),
        r.status == status_of(r.alerts@, r.warnings@),
{
    let ghost levels = check_levels(*c, retransmission, fragmentation);
    let l0 = tcp_connections_check(c.tcp_curr_estab);
    let l1 = if c.tcp_attempt_fails >= TCP_FAIL_CRITICAL { Some(AlertLevel::Critical) } else { None };
    let l2 = rate_check(retransmission);
    let l3 = snmp_check(c.snmp_bad_community_names);
    let l4 = rate_check(fragmentation);
    let l5 = if c.icmp_in_echos >= ICMP_ECHO_CRITICAL { Some(AlertLevel::Critical) } else { None };
    let mut alerts: Vec<SecurityFinding> = Vec::new();
    let mut warnings: Vec<SecurityFinding> = Vec::new();
    push_level(&mut alerts, SecurityCheck::TcpConnections, l0, AlertLevel::Critical);
    push_level(&mut warnings, SecurityCheck::TcpConnections, l0, AlertLevel::Warning);
    push_level(&mut alerts, SecurityCheck::TcpFailures, l1, AlertLevel::Critical);
    push_level(&mut warnings, SecurityCheck::TcpFailures, l1, AlertLevel::Warning);
    push_level(&mut alerts, SecurityCheck::TcpRetransmission, l2, AlertLevel::Critical);
    push_level(&mut warnings, SecurityCheck::TcpRetransmission, l2, AlertLevel::Warning);
    push_level(&mut alerts, SecurityCheck::SnmpSecurity, l3, AlertLevel::Critical);
    push_level(&mut warnings, SecurityCheck::SnmpSecurity, l3, AlertLevel::Warning);
    push_level(&mut alerts, SecurityCheck::IpFragmentation, l4, AlertLevel::Critical);
    push_level(&mut warnings, SecurityCheck::IpFragmentation, l4, AlertLevel::Warning);
    push_level(&mut alerts, SecurityCheck::IcmpReconnaissance, l5, AlertLevel::Critical);
    push_level(&mut warnings, SecurityCheck::IcmpReconnaissance, l5, AlertLevel::Warning);
    proof {
        reveal_with_fuel(findings_at, 7);
        assert(levels.drop_last().drop_last().drop_last().drop_last().drop_last().drop_last() =~= Seq::<
            (SecurityCheck, Option<AlertLevel>),
        >::empty());
    }
    let status = if alerts.len() > 0 {
        SecurityStatus::Critical
    } else if warnings.len() > 0 {
        SecurityStatus::Warning
    } else {
        SecurityStatus::Healthy
    };
    SecurityAnalysis { alerts, warnings, status }
}

/// The state is critical exactly when some check reached its alert level,
/// a warning exactly when none did but one reached its warning level, and
/// ok otherwise.
pub proof fn lemma_status_from_checks(c: SecurityCounters, retransmission: RateLevel, fragmentation: RateLevel)
    ensures
        ({
            let levels = check_levels(c, retransmission, fragmentation);
            let alerts = findings_at(levels, AlertLevel::Critical);
            let warnings = findings_at(levels, AlertLevel::Warning);
            &&& (status_of(alerts, warnings) == SecurityStatus::Critical) <==> (exists|i: int|
                0 <= i < 6 && #[trigger] levels[i].1 == Some(AlertLevel::Critical))
            &&& (status_of(alerts, warnings) == SecurityStatus::Warning) <==> ((forall|i: int|
                0 <= i < 6 ==> #[trigger] levels[i].1 != Some(AlertLevel::Critical)) && exists|i: int|
                0 <= i < 6 && #[trigger] levels[i].1 == Some(AlertLevel::Warning))
            &&& alerts.len() + warnings.len() <= 6
        }),
{
    let levels = check_levels(c, retransmission, fragmentation);
    reveal_with_fuel(findings_at, 7);
    assert(levels.drop_last().drop_last().drop_last().drop_last().drop_last().drop_last() =~= Seq::<
        (SecurityCheck, Option<AlertLevel>),
    >::empty());
    if exists|i: int| 0 <= i < 6 && #[trigger] levels[i].1 == Some(AlertLevel::Critical) {
        let i = choose|i: int| 0 <= i < 6 && #[trigger] levels[i].1 == Some(AlertLevel::Critical);
        assert(i == 0 || i == 1 || i == 2 || i == 3 || i == 4 || i == 5);
    }
    if exists|i: int| 0 <= i < 6 && #[trigger] levels[i].1 == Some(AlertLevel::Warning) {
        let i = choose|i: int| 0 <= i < 6 && #[trigger] levels[i].1 == Some(AlertLevel::Warning);
        assert(i == 0 || i == 1 || i == 2 || i == 3 || i == 4 || i == 5);
    }
    assert(levels[0].1 == tcp_connections_level(c.tcp_curr_estab));
    assert(levels[1].1 == tcp_failures_level(c.tcp_attempt_fails));
    assert(levels[2].1 == rate_alert(retransmission));
    assert(levels[3].1 == snmp_level(c.snmp_bad_community_names));
    assert(levels[4].1 == rate_alert(fragmentation));
    assert(levels[5].1 == icmp_level(c.icmp_in_echos));
}

/// A finding is among those of level `want` exactly when some check
/// reached that level.
proof fn lemma_findings_at_contains(levels: Seq<(SecurityCheck, Option<AlertLevel>)>, want: AlertLevel, f: SecurityFinding)
    ensures
        findings_at(levels, want).contains(f) <==> (f.level == want && exists|i: int|
            0 <= i < levels.len() && #[trigger] levels[i] == (f.check, Some(want))),
    decreases levels.len(),
{
    if levels.len() > 0 {
        let init = levels.drop_last();
        lemma_findings_at_contains(init, want, f);
        let rest = findings_at(init, want);
        if f.level == want && exists|i: int| 0 <= i < levels.len() && #[trigger] levels[i] == (f.check, Some(want)) {
            let i = choose|i: int| 0 <= i < levels.len() && #[trigger] levels[i] == (f.check, Some(want));
            if i < levels.len() - 1 {
                assert(init[i] == levels[i]);
                let j = choose|j: int| 0 <= j < rest.len() && rest[j] == f;
                if levels.last().1 == Some(want) {
                    assert(findings_at(levels, want)[j] == f);
                }
            } else {
                assert(findings_at(levels, want).last() == f);
            }
        }
        if findings_at(levels, want).contains(f) {
            let j = choose|j: int| 0 <= j < findings_at(levels, want).len() && findings_at(levels, want)[j] == f;
            if levels.last().1 == Some(want) && j == rest.len() {
                assert(levels[levels.len() - 1] == (f.check, Some(want)));
            } else {
                assert(rest[j] == f);
                let i = choose|i: int| 0 <= i < init.len() && #[trigger] init[i] == (f.check, Some(want));
                assert(levels[i] == init[i]);
            }
        }
    }
}

/// What each check reports, over all counters and rate levels: the
/// established connections raise an alert from 10000 and a warning from
/// 5000; the failed attempts an alert from 1000; the SNMP authentication
/// failures an alert from 10 and a warning from 1; the ICMP echo requests an
/// alert from 1000; each rate (retransmission, fragmentation) an alert when
/// critical and a warning when elevated. Alerts are all critical, warnings
/// all warnings.
pub proof fn lemma_security_findings(c: SecurityCounters, retransmission: RateLevel, fragmentation: RateLevel)
    ensures
        ({
            let alerts = findings_at(check_levels(c, retransmission, fragmentation), AlertLevel::Critical);
            let warnings = findings_at(check_levels(c, retransmission, fragmentation), AlertLevel::Warning);
            &&& alerts.contains(SecurityFinding { check: SecurityCheck::TcpConnections, level: AlertLevel::Critical })
                <==> c.tcp_curr_estab >= 10_000
            &&& warnings.contains(SecurityFinding { check: SecurityCheck::TcpConnections, level: AlertLevel::Warning })
                <==> (5_000 <= c.tcp_curr_estab && c.tcp_curr_estab < 10_000)
            &&& alerts.contains(SecurityFinding { check: SecurityCheck::TcpFailures, level: AlertLevel::Critical })
                <==> c.tcp_attempt_fails >= 1_000
            &&& !warnings.contains(SecurityFinding { check: SecurityCheck::TcpFailures, level: AlertLevel::Warning })
            &&& alerts.contains(SecurityFinding { check: SecurityCheck::TcpRetransmission, level: AlertLevel::Critical })
                <==> retransmission == RateLevel::Critical
            &&& warnings.contains(SecurityFinding { check: SecurityCheck::TcpRetransmission, level: AlertLevel::Warning })
                <==> retransmission == RateLevel::Elevated
            &&& alerts.contains(SecurityFinding { check: SecurityCheck::SnmpSecurity, level: AlertLevel::Critical })
                <==> c.snmp_bad_community_names >= 10
            &&& warnings.contains(SecurityFinding { check: SecurityCheck::SnmpSecurity, level: AlertLevel::Warning })
                <==> (0 < c.snmp_bad_community_names && c.snmp_bad_community_names < 10)
            &&& alerts.contains(SecurityFinding { check: SecurityCheck::IpFragmentation, level: AlertLevel::Critical })
                <==> fragmentation == RateLevel::Critical
            &&& warnings.contains(SecurityFinding { check: SecurityCheck::IpFragmentation, level: AlertLevel::Warning })
                <==> fragmentation == RateLevel::Elevated
            &&& alerts.contains(SecurityFinding { check: SecurityCheck::IcmpReconnaissance, level: AlertLevel::Critical })
                <==> c.icmp_in_echos >= 1_000
            &&& !warnings.contains(SecurityFinding { check: SecurityCheck::IcmpReconnaissance, level: AlertLevel::Warning })
            &&& forall|f: SecurityFinding| alerts.contains(f) ==> f.level == AlertLevel::Critical
            &&& forall|f: SecurityFinding| warnings.contains(f) ==> f.level == AlertLevel::Warning
        }),
{
    let levels = check_levels(c, retransmission, fragmentation);
    assert forall|k: SecurityCheck, want: AlertLevel|
        #![trigger check_level_of(levels, k), findings_at(levels, want)]
        findings_at(levels, want).contains(SecurityFinding { check: k, level: want }) <==> check_level_of(levels, k) == Some(want)
    by {
        let f = SecurityFinding { check: k, level: want };
        lemma_findings_at_contains(levels, want, f);
        if exists|i: int| 0 <= i < levels.len() && #[trigger] levels[i] == (k, Some(want)) {
            let i = choose|i: int| 0 <= i < levels.len() && #[trigger] levels[i] == (k, Some(want));
            assert(i == 0 || i == 1 || i == 2 || i == 3 || i == 4 || i == 5);
        }
        if check_level_of(levels, k) == Some(want) {
            match k {
                SecurityCheck::TcpConnections => { assert(levels[0] == (k, Some(want))); },
                SecurityCheck::TcpFailures => { assert(levels[1] == (k, Some(want))); },
                SecurityCheck::TcpRetransmission => { assert(levels[2] == (k, Some(want))); },
                SecurityCheck::SnmpSecurity => { assert(levels[3] == (k, Some(want))); },
                SecurityCheck::IpFragmentation => { assert(levels[4] == (k, Some(want))); },
                SecurityCheck::IcmpReconnaissance => { assert(levels[5] == (k, Some(want))); },
            }
        }
    }
    assert forall|f: SecurityFinding| findings_at(levels, AlertLevel::Critical).contains(f) implies f.level
        == AlertLevel::Critical by {
        lemma_findings_at_contains(levels, AlertLevel::Critical, f);
    }
    assert forall|f: SecurityFinding| findings_at(levels, AlertLevel::Warning).contains(f) implies f.level
        == AlertLevel::Warning by {
        lemma_findings_at_contains(levels, AlertLevel::Warning, f);
    }
    assert(findings_at(levels, AlertLevel::Critical).contains(SecurityFinding { check: SecurityCheck::TcpConnections, level: AlertLevel::Critical }) <==> check_level_of(levels, SecurityCheck::TcpConnections) == Some(AlertLevel::Critical));
    assert(findings_at(levels, AlertLevel::Warning).contains(SecurityFinding { check: SecurityCheck::TcpConnections, level: AlertLevel::Warning }) <==> check_level_of(levels, SecurityCheck::TcpConnections) == Some(AlertLevel::Warning));
    assert(findings_at(levels, AlertLevel::Critical).contains(SecurityFinding { check: SecurityCheck::TcpFailures, level: AlertLevel::Critical }) <==> check_level_of(levels, SecurityCheck::TcpFailures) == Some(AlertLevel::Critical));
    assert(findings_at(levels, AlertLevel::Warning).contains(SecurityFinding { check: SecurityCheck::TcpFailures, level: AlertLevel::Warning }) <==> check_level_of(levels, SecurityCheck::TcpFailures) == Some(AlertLevel::Warning));
    assert(findings_at(levels, AlertLevel::Critical).contains(SecurityFinding { check: SecurityCheck::TcpRetransmission, level: AlertLevel::Critical }) <==> check_level_of(levels, SecurityCheck::TcpRetransmission) == Some(AlertLevel::Critical));
    assert(findings_at(levels, AlertLevel::Warning).contains(SecurityFinding { check: SecurityCheck::TcpRetransmission, level: AlertLevel::Warning }) <==> check_level_of(levels, SecurityCheck::TcpRetransmission) == Some(AlertLevel::Warning));
    assert(findings_at(levels, AlertLevel::Critical).contains(SecurityFinding { check: SecurityCheck::SnmpSecurity, level: AlertLevel::Critical }) <==> check_level_of(levels, SecurityCheck::SnmpSecurity) == Some(AlertLevel::Critical));
    assert(findings_at(levels, AlertLevel::Warning).contains(SecurityFinding { check: SecurityCheck::SnmpSecurity, level: AlertLevel::Warning }) <==> check_level_of(levels, SecurityCheck::SnmpSecurity) == Some(AlertLevel::Warning));
    assert(findings_at(levels, AlertLevel::Critical).contains(SecurityFinding { check: SecurityCheck::IpFragmentation, level: AlertLevel::Critical }) <==> check_level_of(levels, SecurityCheck::IpFragmentation) == Some(AlertLevel::Critical));
    assert(findings_at(levels, AlertLevel::Warning).contains(SecurityFinding { check: SecurityCheck::IpFragmentation, level: AlertLevel::Warning }) <==> check_level_of(levels, SecurityCheck::IpFragmentation) == Some(AlertLevel::Warning));
    assert(findings_at(levels, AlertLevel::Critical).contains(SecurityFinding { check: SecurityCheck::IcmpReconnaissance, level: AlertLevel::Critical }) <==> check_level_of(levels, SecurityCheck::IcmpReconnaissance) == Some(AlertLevel::Critical));
    assert(findings_at(levels, AlertLevel::Warning).contains(SecurityFinding { check: SecurityCheck::IcmpReconnaissance, level: AlertLevel::Warning }) <==> check_level_of(levels, SecurityCheck::IcmpReconnaissance) == Some(AlertLevel::Warning));
}

/// The level the check `k` reached in a list of levels in check order.
spec fn check_level_of(levels: Seq<(SecurityCheck, Option<AlertLevel>)>, k: SecurityCheck) -> Option<AlertLevel> {
    match k {
        SecurityCheck::TcpConnections => levels[0].1,
        SecurityCheck::TcpFailures => levels[1].1,
        SecurityCheck::TcpRetransmission => levels[2].1,
        SecurityCheck::SnmpSecurity => levels[3].1,
        SecurityCheck::IpFragmentation => levels[4].1,
        SecurityCheck::IcmpReconnaissance => levels[5].1,
    }
}

/// The name of a check in the report.
pub open spec fn check_name_spec(check: SecurityCheck) -> Seq<char> {
    match check {
        SecurityCheck::TcpConnections => "tcp_connections"@,
        SecurityCheck::TcpFailures => "tcp_failures"@,
        SecurityCheck::TcpRetransmission => "tcp_retransmission"@,
        SecurityCheck::SnmpSecurity => "snmp_security"@,
        SecurityCheck::IpFragmentation => "ip_fragmentation"@,
        SecurityCheck::IcmpReconnaissance => "icmp_reconnaissance"@,
    }
}

/// The name of a check in the report.
pub fn check_name(check: SecurityCheck) -> (r: &'static str)
    ensures
        r@ == check_name_spec(check),
{
    match check {
        SecurityCheck::TcpConnections => "tcp_connections",
        SecurityCheck::TcpFailures => "tcp_failures",
        SecurityCheck::TcpRetransmission => "tcp_retransmission",
        SecurityCheck::SnmpSecurity => "snmp_security",
        SecurityCheck::IpFragmentation => "ip_fragmentation",
        SecurityCheck::IcmpReconnaissance => "icmp_reconnaissance",
    }
}

/// The name of a level in the report.
pub fn level_name(level: AlertLevel) -> (r: &'static str)
    ensures
        r@ == (match level {
            AlertLevel::Critical => "critical"@,
            AlertLevel::Warning => "warning"@,
        }),
{
    match level {
        AlertLevel::Critical => "critical",
        AlertLevel::Warning => "warning",
    }
}

/// The name of a state in the report.
pub fn status_name(status: SecurityStatus) -> (r: &'static str)
    ensures
        r@ == (match status {
            SecurityStatus::Critical => "critical"@,
            SecurityStatus::Warning => "warning"@,
            SecurityStatus::Healthy => "ok"@,
        }),
{
    match status {
        SecurityStatus::Critical => "critical",
        SecurityStatus::Warning => "warning",
        SecurityStatus::Healthy => "ok",
    }
}

/// The counter a check reads; the rate checks read none.
pub open spec fn counter_of_spec(c: SecurityCounters, check: SecurityCheck) -> Option<i64> {
    match check {
        SecurityCheck::TcpConnections => Some(c.tcp_curr_estab),
        SecurityCheck::TcpFailures => Some(c.tcp_attempt_fails),
        SecurityCheck::SnmpSecurity => Some(c.snmp_bad_community_names),
        SecurityCheck::IcmpReconnaissance => Some(c.icmp_in_echos),
        _ => None,
    }
}

/// The counter a check reads; the rate checks read none.
pub fn counter_of(c: &SecurityCounters, check: SecurityCheck) -> (r: Option<i64>)
    ensures
        r == counter_of_spec(*c, check),
{
    match check {
        SecurityCheck::TcpConnections => Some(c.tcp_curr_estab),
        SecurityCheck::TcpFailures => Some(c.tcp_attempt_fails),
        SecurityCheck::SnmpSecurity => Some(c.snmp_bad_community_names),
        SecurityCheck::IcmpReconnaissance => Some(c.icmp_in_echos),
        _ => None,
    }
}

/// The threshold reported with a counter finding.
pub open spec fn counter_threshold_spec(check: SecurityCheck, level: AlertLevel) -> Option<i64> {
    match (check, level) {
        (SecurityCheck::TcpConnections, AlertLevel::Critical) => Some(TCP_CONN_CRITICAL),
        (SecurityCheck::TcpConnections, AlertLevel::Warning) => Some(TCP_CONN_WARNING),
        (SecurityCheck::TcpFailures, _) => Some(TCP_FAIL_CRITICAL),
        (SecurityCheck::SnmpSecurity, AlertLevel::Critical) => Some(SNMP_BAD_COM_CRITICAL),
        (SecurityCheck::SnmpSecurity, AlertLevel::Warning) => Some(SNMP_BAD_COM_WARNING),
        (SecurityCheck::IcmpReconnaissance, _) => Some(ICMP_ECHO_CRITICAL),
        _ => None,
    }
}

/// The threshold reported with a counter finding.
pub fn counter_threshold(check: SecurityCheck, level: AlertLevel) -> (r: Option<i64>)
    ensures
        r == counter_threshold_spec(check, level),
{
    match (check, level) {
        (SecurityCheck::TcpConnections, AlertLevel::Critical) => Some(TCP_CONN_CRITICAL),
        (SecurityCheck::TcpConnections, AlertLevel::Warning) => Some(TCP_CONN_WARNING),
        (SecurityCheck::TcpFailures, _) => Some(TCP_FAIL_CRITICAL),
        (SecurityCheck::SnmpSecurity, AlertLevel::Critical) => Some(SNMP_BAD_COM_CRITICAL),
        (SecurityCheck::SnmpSecurity, AlertLevel::Warning) => Some(SNMP_BAD_COM_WARNING),
        (SecurityCheck::IcmpReconnaissance, _) => Some(ICMP_ECHO_CRITICAL),
        _ => None,
    }
}

/// A count in decimal.
pub open spec fn count_text(v: i64) -> Seq<char> {
    int_decimal(v as int)
}

/// The message of a counter finding with the counter's value.
pub open spec fn counter_message_spec(check: SecurityCheck, level: AlertLevel, value: i64) -> Option<Seq<char>> {
    let v = count_text(value);
    match (check, level) {
        (SecurityCheck::TcpConnections, AlertLevel::Critical) => Some("Conexiones TCP críticas: "@ + v),
        (SecurityCheck::TcpConnections, AlertLevel::Warning) => Some("Conexiones TCP elevadas: "@ + v),
        (SecurityCheck::TcpFailures, _) => Some("Fallos de conexión TCP: "@ + v),
        (SecurityCheck::SnmpSecurity, AlertLevel::Critical) => Some("Fallos de autenticación SNMP críticos: "@ + v),
        (SecurityCheck::SnmpSecurity, AlertLevel::Warning) => Some("Fallos de autenticación SNMP: "@ + v),
        (SecurityCheck::IcmpReconnaissance, _) => Some("ICMP Echo requests excesivos: "@ + v + " (posible escaneo)"@),
        _ => None,
    }
}

/// The message of a counter finding with the counter's value; the rate
/// findings have none here.
pub fn counter_message(check: SecurityCheck, level: AlertLevel, value: i64) -> (r: Option<String>)
    ensures
        match r {
            Some(m) => counter_message_spec(check, level, value) == Some(m@),
            None => counter_message_spec(check, level, value) is None,
        },
{
    let head = match (check, level) {
        (SecurityCheck::TcpConnections, AlertLevel::Critical) => "Conexiones TCP críticas: ",
        (SecurityCheck::TcpConnections, AlertLevel::Warning) => "Conexiones TCP elevadas: ",
        (SecurityCheck::TcpFailures, _) => "Fallos de conexión TCP: ",
        (SecurityCheck::SnmpSecurity, AlertLevel::Critical) => "Fallos de autenticación SNMP críticos: ",
        (SecurityCheck::SnmpSecurity, AlertLevel::Warning) => "Fallos de autenticación SNMP: ",
        (SecurityCheck::IcmpReconnaissance, _) => "ICMP Echo requests excesivos: ",
        _ => {
            return None;
        },
    };
    let mut m = to_owned_string(head);
    let v = i64_to_decimal(value);
    push_str(&mut m, v.as_str());
    if check == SecurityCheck::IcmpReconnaissance {
        push_str(&mut m, " (posible escaneo)");
    }
    Some(m)
}

} // verus!
