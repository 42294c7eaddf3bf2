use ness_relay::interfaces::{build_interfaces, IfMibColumns};
use ness_relay::snmp::types::SnmpValue;

fn s(v: &str) -> SnmpValue {
    SnmpValue::OctetString(v.to_string())
}

fn col(base: &str, rows: Vec<(&str, SnmpValue)>) -> Vec<(String, SnmpValue)> {
    rows.into_iter().map(|(i, v)| (format!("{}.{}", base, i), v)).collect()
}

fn empty_columns() -> IfMibColumns {
    IfMibColumns {
        descr: vec![],
        if_type: vec![],
        speed: vec![],
        admin_status: vec![],
        oper_status: vec![],
        in_octets: vec![],
        out_octets: vec![],
        in_errors: vec![],
        out_errors: vec![],
        in_discards: vec![],
        out_discards: vec![],
        in_ucast_pkts: vec![],
        out_ucast_pkts: vec![],
        name: vec![],
        hc_in_octets: vec![],
        hc_out_octets: vec![],
        high_speed: vec![],
        alias: vec![],
    }
}

#[test]
fn no_interfaces() {
    assert!(build_interfaces(&empty_columns()).is_empty());
}

#[test]
fn interfaces_merge_columns() {
    let mut c = empty_columns();
    c.descr = col("1.3.6.1.2.1.2.2.1.2", vec![("1", s("ether1")), ("2", s("ether2")), ("10", s("bridge"))]);
    c.name = col("1.3.6.1.2.1.31.1.1.1.1", vec![("1", s("WAN1")), ("3", s("lo"))]);
    c.alias = col("1.3.6.1.2.1.31.1.1.1.18", vec![("1", s("Fibra"))]);
    c.if_type = col("1.3.6.1.2.1.2.2.1.3", vec![("1", SnmpValue::Integer(6)), ("2", s("x"))]);
    c.speed = col("1.3.6.1.2.1.2.2.1.5", vec![("1", SnmpValue::Gauge32(100_000_000)), ("2", SnmpValue::Gauge32(10_000_000))]);
    c.high_speed = col("1.3.6.1.2.1.31.1.1.1.15", vec![("1", SnmpValue::Gauge32(1000)), ("2", SnmpValue::Gauge32(0))]);
    c.admin_status = col("1.3.6.1.2.1.2.2.1.7", vec![("1", SnmpValue::Integer(1)), ("2", SnmpValue::Integer(2))]);
    c.oper_status = col("1.3.6.1.2.1.2.2.1.8", vec![("1", SnmpValue::Integer(1)), ("2", SnmpValue::Integer(1))]);
    c.in_octets = col("1.3.6.1.2.1.2.2.1.10", vec![("1", SnmpValue::Counter32(5)), ("2", SnmpValue::Counter32(7))]);
    c.hc_in_octets = col("1.3.6.1.2.1.31.1.1.1.6", vec![("1", SnmpValue::Counter64(5_000_000_000)), ("2", SnmpValue::Counter64(0))]);
    c.out_octets = col("1.3.6.1.2.1.2.2.1.16", vec![("1", SnmpValue::Counter32(9))]);
    c.in_errors = col("1.3.6.1.2.1.2.2.1.14", vec![("1", SnmpValue::Counter32(3)), ("1", SnmpValue::Counter32(4))]);

    let r = build_interfaces(&c);
    let idx: Vec<&str> = r.iter().map(|i| i.index.as_str()).collect();
    // indexes from ifDescr and ifName, in string order
    assert_eq!(idx, vec!["1", "10", "2", "3"]);

    let i1 = &r[0];
    assert_eq!(i1.name, "WAN1");
    assert_eq!(i1.description, "ether1");
    assert_eq!(i1.alias, "Fibra");
    assert_eq!(i1.if_type, 6);
    assert_eq!(i1.speed_bps, 1_000_000_000);
    assert_eq!(i1.admin_status, "up");
    assert_eq!(i1.oper_status, "up");
    assert_eq!(i1.in_octets, 5_000_000_000);
    assert_eq!(i1.out_octets, 9);
    // a later row for the same index replaces an earlier one
    assert_eq!(i1.in_errors, 4);

    let i10 = &r[1];
    assert_eq!(i10.name, "bridge");
    assert_eq!(i10.alias, "");
    assert_eq!(i10.admin_status, "down");
    assert_eq!(i10.speed_bps, 0);

    let i2 = &r[2];
    assert_eq!(i2.if_type, 0);
    assert_eq!(i2.speed_bps, 10_000_000);
    assert_eq!(i2.admin_status, "down");
    assert_eq!(i2.oper_status, "up");
    assert_eq!(i2.in_octets, 7);

    let i3 = &r[3];
    assert_eq!(i3.name, "lo");
    assert_eq!(i3.description, "");
}
