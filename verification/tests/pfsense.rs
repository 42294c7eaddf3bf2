use ness_relay::snmp::types::SnmpValue;
use ness_relay::vendor_data::pfsense::{pfsense_vendor_data, PfSenseReadings};

fn col(base: &str, rows: Vec<(&str, SnmpValue)>) -> Vec<(String, SnmpValue)> {
    rows.into_iter().map(|(i, v)| (format!("{}.{}", base, i), v)).collect()
}

fn s(v: &str) -> SnmpValue {
    SnmpValue::OctetString(v.to_string())
}

#[test]
fn pfsense_wan_interfaces_by_name() {
    let r = PfSenseReadings {
        state_count: Some(SnmpValue::Gauge32(1500)),
        state_limit: Some(SnmpValue::Gauge32(100000)),
        if_names: col("1.3.6.1.2.1.31.1.1.1.1", vec![("1", s("igb0")), ("2", s("igb1")), ("3", s("PPPoE-Claro")), ("4", s("lo0")), ("2", s("LAN"))]),
        if_hc_in: col("1.3.6.1.2.1.31.1.1.1.6", vec![("1", SnmpValue::Counter64(1000)), ("3", SnmpValue::Counter64(30))]),
        if_hc_out: col("1.3.6.1.2.1.31.1.1.1.10", vec![("1", SnmpValue::Counter64(2000))]),
        if_high_speed: col("1.3.6.1.2.1.31.1.1.1.15", vec![("1", SnmpValue::Gauge32(1000))]),
    };
    let d = pfsense_vendor_data(&r);
    assert_eq!(d.state_count, 1500);
    assert_eq!(d.state_limit, 100000);
    assert_eq!(d.total_interfaces, 4);
    let names: Vec<(&str, &str)> = d.wan_interfaces.iter().map(|w| (w.index.as_str(), w.name.as_str())).collect();
    assert_eq!(names, vec![("1", "igb0"), ("3", "PPPoE-Claro")]);
    assert_eq!(d.wan_interfaces[0].in_bytes, 1000);
    assert_eq!(d.wan_interfaces[0].out_bytes, 2000);
    assert_eq!(d.wan_interfaces[0].speed_mbps, 1000);
    assert_eq!(d.wan_interfaces[1].in_bytes, 30);
    assert_eq!(d.wan_interfaces[1].speed_mbps, 0);
}

#[test]
fn pfsense_nothing_read() {
    let r = PfSenseReadings {
        state_count: None,
        state_limit: Some(SnmpValue::OctetString("x".to_string())),
        if_names: vec![],
        if_hc_in: vec![],
        if_hc_out: vec![],
        if_high_speed: vec![],
    };
    let d = pfsense_vendor_data(&r);
    assert_eq!((d.state_count, d.state_limit, d.total_interfaces), (0, 0, 0));
    assert!(d.wan_interfaces.is_empty());
}
