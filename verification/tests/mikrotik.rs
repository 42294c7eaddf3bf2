use ness_relay::channels::{build_internet_channels_summary, check_channel_alerts, ChannelSource};
use ness_relay::mikrotik::{
    build_netwatch_probes, build_queue_entries, build_wan_interfaces, clean_text, detect_isp_from_name,
    is_wan_candidate, netwatch_counts, oid_index, queue_drop_totals, snmp_addr_to_string, status_to_text,
    InterfaceTables, NetwatchProbe, NetwatchTables, QueueEntry, QueueTables,
};
use ness_relay::snmp::types::SnmpValue;

fn s(v: &str) -> SnmpValue {
    SnmpValue::OctetString(v.to_string())
}

fn row(oid: &str, v: SnmpValue) -> (String, SnmpValue) {
    (oid.to_string(), v)
}

#[test]
fn status_texts() {
    assert_eq!(status_to_text(1), "UP");
    assert_eq!(status_to_text(2), "DOWN");
    assert_eq!(status_to_text(7), "unknown");
}

#[test]
fn wan_names() {
    assert!(is_wan_candidate("ether1"));
    assert!(is_wan_candidate("PPPoE-Out1"));
    assert!(is_wan_candidate("Fibra Claro"));
    assert!(is_wan_candidate("vlan999"));
    assert!(!is_wan_candidate("bridge-lan"));
    assert!(!is_wan_candidate("ether2"));
}

#[test]
fn providers() {
    assert_eq!(detect_isp_from_name("WAN-TIGO"), Some("Tigo".to_string()));
    assert_eq!(detect_isp_from_name("enlace movistar"), Some("Movistar".to_string()));
    assert_eq!(detect_isp_from_name("AT&T backup"), Some("AT&T".to_string()));
    assert_eq!(detect_isp_from_name("att-fiber"), Some("AT&T".to_string()));
    assert_eq!(detect_isp_from_name("Telefonica"), Some("Telefónica".to_string()));
    // the first pattern in the list wins
    assert_eq!(detect_isp_from_name("etb-claro"), Some("ETB".to_string()));
    assert_eq!(detect_isp_from_name("lan"), None);
}

#[test]
fn oid_and_text_helpers() {
    assert_eq!(oid_index("1.3.6.1.2.1.2.2.1.2.7"), "7");
    assert_eq!(oid_index("nodots"), "nodots");
    assert_eq!(oid_index("1.3."), "");
    assert_eq!(clean_text("  ether1\0\0 "), "ether1");
    assert_eq!(clean_text("a\0b"), "ab");
    assert_eq!(snmp_addr_to_string(&SnmpValue::IpAddress("8.8.8.8".to_string())), "8.8.8.8");
    assert_eq!(snmp_addr_to_string(&s(" 1.1.1.1\0")), "1.1.1.1");
    assert_eq!(snmp_addr_to_string(&SnmpValue::OctetStringRaw(vec![1, 2])), "unknown");
    assert_eq!(snmp_addr_to_string(&SnmpValue::Integer(5)), "5");
}

fn empty_tables() -> InterfaceTables {
    InterfaceTables {
        descrs: vec![],
        names: vec![],
        aliases: vec![],
        admin_status: vec![],
        oper_status: vec![],
        speeds: vec![],
        in_octets: vec![],
        out_octets: vec![],
        in_errors: vec![],
        out_errors: vec![],
        in_discards: vec![],
        out_discards: vec![],
        in_ucast: vec![],
        out_ucast: vec![],
    }
}

#[test]
fn wan_interfaces_from_tables() {
    let mut t = empty_tables();
    t.descrs = vec![row("1.3.6.1.2.1.2.2.1.2.1", s("ether1")), row("1.3.6.1.2.1.2.2.1.2.2", s("ether2")), row("1.3.6.1.2.1.2.2.1.2.3", s("sfp-sfpplus1"))];
    t.names = vec![row("x.1", s("ether1")), row("x.2", s("ether2"))];
    t.aliases = vec![row("x.2", s("Enlace Tigo")), row("x.3", s(""))];
    t.oper_status = vec![row("x.1", SnmpValue::Integer(1)), row("x.2", SnmpValue::Integer(2)), row("x.3", SnmpValue::Integer(258))];
    t.speeds = vec![row("x.1", SnmpValue::Gauge32(1000))];
    t.in_octets = vec![row("x.1", SnmpValue::Counter64(5_000_000))];
    t.in_errors = vec![row("x.2", SnmpValue::Counter32(3))];
    let w = build_wan_interfaces(&t);
    assert_eq!(w.len(), 3);
    assert_eq!(w[0].index, "1");
    assert_eq!(w[0].name, "ether1");
    assert_eq!(w[0].if_name, "ether1");
    assert_eq!(w[0].alias, None);
    assert_eq!(w[0].oper_status, 1);
    assert_eq!(w[0].speed_mbps, 1000);
    assert_eq!(w[0].traffic_in_bytes, 5_000_000);
    assert_eq!(w[0].isp_detected, None);
    // ether2 is a WAN by its alias, which also names the provider
    assert_eq!(w[1].alias.as_deref(), Some("Enlace Tigo"));
    assert_eq!(w[1].isp_detected.as_deref(), Some("Tigo"));
    assert_eq!(w[1].oper_status, 2);
    assert_eq!(w[1].errors_in, 3);
    // no ifName row: the description stands for it; 258 keeps its low byte
    assert_eq!(w[2].if_name, "sfp-sfpplus1");
    assert_eq!(w[2].alias, None);
    assert_eq!(w[2].oper_status, 2);
    assert!(w.iter().all(|i| i.is_wan));

    // without descriptions the names are listed
    let mut t2 = empty_tables();
    t2.names = vec![row("x.4", s("lan")), row("x.5", s("pppoe-out1"))];
    let w2 = build_wan_interfaces(&t2);
    assert_eq!(w2.len(), 1);
    assert_eq!(w2[0].index, "5");
}

#[test]
fn netwatch_and_queues() {
    let nt = NetwatchTables {
        names: vec![row("n.1", s("ping-claro")), row("n.2", s("dns"))],
        ips: vec![row("n.1", SnmpValue::IpAddress("8.8.8.8".to_string()))],
        intervals: vec![row("n.1", SnmpValue::Integer(10000))],
        timeouts: vec![],
        status: vec![row("n.1", SnmpValue::Integer(1)), row("n.2", SnmpValue::Integer(2))],
    };
    let (probes, available) = build_netwatch_probes(&nt);
    assert!(available);
    assert_eq!(probes.len(), 2);
    assert_eq!(probes[0].target_ip, "8.8.8.8");
    assert_eq!(probes[0].interval_ms, 10000);
    assert_eq!(probes[0].status_text, "up");
    assert_eq!(probes[0].isp_detected.as_deref(), Some("Claro"));
    assert_eq!(probes[1].target_ip, "");
    assert_eq!(probes[1].status_text, "down");
    let (none, avail) = build_netwatch_probes(&NetwatchTables { names: vec![], ips: vec![], intervals: vec![], timeouts: vec![], status: vec![] });
    assert!(none.is_empty());
    assert!(!avail);

    let qt = QueueTables {
        names: vec![row("q.9", s("queue-claro"))],
        src_addrs: vec![row("q.9", s("10.0.0.0/24"))],
        dst_addrs: vec![],
        interfaces: vec![row("q.9", s(" ether1 "))],
        tx_bytes: vec![row("q.9", SnmpValue::Counter64(2048))],
        tx_packets: vec![],
        rx_bytes: vec![],
        rx_packets: vec![],
        tx_drops: vec![row("q.9", SnmpValue::Counter64(4))],
        rx_drops: vec![row("q.9", SnmpValue::Counter64(1))],
    };
    let (queues, qa) = build_queue_entries(&qt);
    assert!(qa);
    assert_eq!(queues[0].index, "9");
    assert_eq!(queues[0].src_addr, "10.0.0.0/24");
    assert_eq!(queues[0].interface, "ether1");
    assert_eq!(queues[0].tx_bytes, 2048);
    assert_eq!((queues[0].tx_drop, queues[0].rx_drop), (4, 1));
    assert_eq!(queues[0].isp_detected.as_deref(), Some("Claro"));
}

#[test]
fn channel_alerts() {
    assert_eq!(check_channel_alerts("wan1", "UP", 0, 0, 0, 0), Vec::<String>::new());
    assert_eq!(check_channel_alerts("wan1", "down", 0, 0, 0, 0), vec!["Canal WAN DOWN: wan1".to_string()]);
    assert_eq!(
        check_channel_alerts("wan1", "UP", 60, 41, 250, 251),
        vec![
            "Alto numero de errores en interfaz WAN: IN=60 OUT=41".to_string(),
            "Descartes elevados en interfaz WAN: 501 paquetes".to_string()
        ]
    );
    // exactly at the thresholds: no alert
    assert!(check_channel_alerts("w", "UP", 50, 50, 250, 250).is_empty());
}

#[test]
fn channels_summary() {
    let mut t = empty_tables();
    t.descrs = vec![row("d.1", s("ether1")), row("d.2", s("ether2-wan"))];
    t.aliases = vec![row("d.1", s("WAN Claro")), row("d.2", s("Backup ETB"))];
    t.oper_status = vec![row("d.1", SnmpValue::Integer(1)), row("d.2", SnmpValue::Integer(2))];
    t.in_errors = vec![row("d.2", SnmpValue::Counter32(200))];
    let wan = build_wan_interfaces(&t);
    let nt = NetwatchTables {
        names: vec![row("n.1", s("claro-gw")), row("n.2", s("starlink-probe")), row("n.3", s("dns"))],
        ips: vec![row("n.1", SnmpValue::IpAddress("1.1.1.1".to_string())), row("n.2", SnmpValue::IpAddress("9.9.9.9".to_string()))],
        intervals: vec![],
        timeouts: vec![],
        status: vec![row("n.1", SnmpValue::Integer(1)), row("n.2", SnmpValue::Integer(1)), row("n.3", SnmpValue::Integer(2))],
    };
    let (probes, nw) = build_netwatch_probes(&nt);
    let qt = QueueTables {
        names: vec![row("q.1", s("etb-queue")), row("q.2", s("other"))],
        src_addrs: vec![],
        dst_addrs: vec![],
        interfaces: vec![],
        tx_bytes: vec![row("q.1", SnmpValue::Counter64(100))],
        tx_packets: vec![],
        rx_bytes: vec![],
        rx_packets: vec![],
        tx_drops: vec![row("q.1", SnmpValue::Counter64(3))],
        rx_drops: vec![row("q.1", SnmpValue::Counter64(2))],
    };
    let (queues, qa) = build_queue_entries(&qt);
    let r = build_internet_channels_summary(&wan, &probes, nw, &queues, qa);
    assert_eq!(r.channels.len(), 4);
    let c0 = &r.channels[0];
    assert_eq!(c0.channel_name, "WAN Claro");
    assert_eq!(c0.isp, "Claro");
    assert!(c0.is_up);
    assert!(matches!(c0.source, ChannelSource::WanInterface));
    assert_eq!(c0.netwatch_status.as_deref(), Some("up"));
    assert_eq!(c0.netwatch_probe.as_deref(), Some("1.1.1.1"));
    assert_eq!(c0.netwatch_probe_name.as_deref(), Some("claro-gw"));
    let c1 = &r.channels[1];
    assert_eq!(c1.isp, "ETB");
    assert!(!c1.is_up);
    assert_eq!(
        c1.alerts,
        vec![
            "Canal WAN DOWN: Backup ETB".to_string(),
            "Alto numero de errores en interfaz WAN: IN=200 OUT=0".to_string(),
            "Queue drops detectados en canal ETB: 5 drops".to_string()
        ]
    );
    let q = c1.queue.unwrap();
    assert_eq!((q.tx_bytes, q.tx_drops, q.rx_drops), (100, 3, 2));
    let c2 = &r.channels[2];
    assert_eq!(c2.channel_name, "starlink-probe");
    assert_eq!(c2.isp, "Starlink");
    assert!(matches!(c2.source, ChannelSource::Netwatch));
    assert_eq!(c2.oper_status, "unknown");
    assert!(c2.is_up);
    let c3 = &r.channels[3];
    assert_eq!(c3.isp, "Desconocido");
    assert!(!c3.is_up);
    assert_eq!(r.channels_up, 2);
    assert_eq!(r.channels_down, 1);

    // without Netwatch and queues, only the WAN channels
    let r2 = build_internet_channels_summary(&wan, &probes, false, &queues, false);
    assert_eq!(r2.channels.len(), 2);
    assert!(r2.channels[0].netwatch_status.is_none());
    assert_eq!(r2.channels[1].alerts.len(), 2);
}

fn probe(status: u8) -> NetwatchProbe {
    NetwatchProbe {
        index: "1".to_string(),
        name: "p".to_string(),
        target_ip: "8.8.8.8".to_string(),
        interval_ms: 10000,
        timeout_ms: 1000,
        status,
        status_text: "x".to_string(),
        isp_detected: None,
    }
}

fn queue(tx_drop: u64, rx_drop: u64) -> QueueEntry {
    QueueEntry {
        index: "1".to_string(),
        name: "q".to_string(),
        src_addr: "".to_string(),
        dst_addr: "".to_string(),
        interface: "ether1".to_string(),
        tx_bytes: 0,
        rx_bytes: 0,
        tx_packets: 0,
        rx_packets: 0,
        tx_drop,
        rx_drop,
        isp_detected: None,
    }
}

#[test]
fn netwatch_summary_counts() {
    assert_eq!(netwatch_counts(&vec![probe(1), probe(2), probe(1), probe(0)]), (4, 2, 2));
    assert_eq!(netwatch_counts(&vec![]), (0, 0, 0));
}

#[test]
fn queue_drop_sums() {
    assert_eq!(queue_drop_totals(&vec![queue(3, 4), queue(10, 0)]), (13, 4));
    assert_eq!(queue_drop_totals(&vec![queue(u64::MAX, 1), queue(1, 1)]), (u64::MAX as u128 + 1, 2));
}
