use ness_relay::snmp::types::SnmpValue;
use ness_relay::vendor_data::fortinet::{fortinet_vendor_data, FortinetReadings};

fn col(base: &str, rows: Vec<(&str, SnmpValue)>) -> Vec<(String, SnmpValue)> {
    rows.into_iter().map(|(i, v)| (format!("{}.{}", base, i), v)).collect()
}

fn empty() -> FortinetReadings {
    FortinetReadings {
        sessions_ipv4: None,
        sessions_ipv6: None,
        session_rate: None,
        ha_mode: None,
        ha_group: None,
        ha_priority: None,
        av_detections: None,
        ips_detections: None,
        tunnel_names: vec![],
        tunnel_status: vec![],
        tunnel_in_octets: vec![],
        tunnel_out_octets: vec![],
        sdwan_names: vec![],
        sdwan_latency: vec![],
        sdwan_jitter: vec![],
        sdwan_packet_loss: vec![],
        sdwan_bandwidth_in: vec![],
        sdwan_bandwidth_out: vec![],
    }
}

#[test]
fn fortinet_nothing_read() {
    let d = fortinet_vendor_data(&empty());
    assert_eq!(d.sessions_ipv4, 0);
    assert!(d.ha.is_none());
    assert!(d.vpn_tunnels.is_empty());
    assert_eq!(d.av_detections, None);
    assert!(d.sdwan_links.is_none());
}

#[test]
fn fortinet_full_readings() {
    let mut r = empty();
    r.sessions_ipv4 = Some(SnmpValue::Gauge32(1200));
    r.sessions_ipv6 = Some(SnmpValue::OctetString("n/a".to_string()));
    r.session_rate = Some(SnmpValue::Integer(35));
    r.ha_mode = Some(SnmpValue::Integer(2));
    r.ha_group = Some(SnmpValue::OctetString("cluster-a".to_string()));
    r.av_detections = Some(SnmpValue::Counter32(4));
    r.tunnel_names = col("1.3.6.1.4.1.12356.101.12.2.2.1.3", vec![("2", SnmpValue::OctetString("to-branch".to_string())), ("1", SnmpValue::OctetString("to-hq".to_string()))]);
    r.tunnel_status = col("1.3.6.1.4.1.12356.101.12.2.2.1.20", vec![("1", SnmpValue::Integer(2)), ("2", SnmpValue::Integer(1))]);
    r.tunnel_in_octets = col("1.3.6.1.4.1.12356.101.12.2.2.1.18", vec![("2", SnmpValue::Counter64(900))]);
    r.sdwan_names = col("1.3.6.1.4.1.12356.101.4.9.2.1.2", vec![("1", SnmpValue::OctetString("wan1".to_string())), ("2", SnmpValue::OctetString("wan2".to_string()))]);
    r.sdwan_latency = col("1.3.6.1.4.1.12356.101.4.9.2.1.5", vec![("1", SnmpValue::Integer(12)), ("2", SnmpValue::OctetString("x".to_string()))]);
    r.sdwan_bandwidth_in = col("1.3.6.1.4.1.12356.101.4.9.2.1.9", vec![("2", SnmpValue::Gauge32(5000))]);

    let d = fortinet_vendor_data(&r);
    assert_eq!(d.sessions_ipv4, 1200);
    assert_eq!(d.sessions_ipv6, 0);
    assert_eq!(d.session_rate, 35);
    let ha = d.ha.unwrap();
    assert_eq!((ha.mode, ha.group.as_str(), ha.priority), (2, "cluster-a", 0));
    assert_eq!(d.av_detections, Some(4));
    assert_eq!(d.ips_detections, None);

    assert_eq!(d.vpn_tunnels.len(), 2);
    assert_eq!(d.vpn_tunnels[0].index, "1");
    assert_eq!(d.vpn_tunnels[0].name, "to-hq");
    assert_eq!(d.vpn_tunnels[0].status, 2);
    assert_eq!(d.vpn_tunnels[1].name, "to-branch");
    assert_eq!(d.vpn_tunnels[1].status, 1);
    assert_eq!(d.vpn_tunnels[1].in_octets, 900);
    assert_eq!(d.vpn_tunnels[1].out_octets, 0);

    let links = d.sdwan_links.unwrap();
    assert_eq!(links.len(), 2);
    assert_eq!((links[0].name.as_str(), links[0].latency_ms, links[0].bandwidth_in_kbps), ("wan1", 12, 0));
    assert_eq!((links[1].name.as_str(), links[1].latency_ms, links[1].bandwidth_in_kbps), ("wan2", 0, 5000));
}

#[test]
fn fortinet_ha_disabled() {
    let mut r = empty();
    r.ha_mode = Some(SnmpValue::Integer(0));
    r.ha_group = Some(SnmpValue::OctetString("g".to_string()));
    assert!(fortinet_vendor_data(&r).ha.is_none());
}
