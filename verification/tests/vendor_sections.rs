use ness_relay::snmp::types::SnmpValue;
use ness_relay::vendor_data::cambium::{cambium_vendor_data, CambiumReadings};
use ness_relay::vendor_data::sophos::{sophos_service_oids, sophos_vendor_data, SophosReadings};
use ness_relay::vendor_data::switches::{
    aruba_sensor_text, aruba_vendor_data, extreme_fan_text, extreme_psu_text, extreme_vendor_data, ubnt_vendor_data,
    ArubaReadings, ExtremeReadings, UbntReadings,
};
use ness_relay::vendor_data::tables::{indexed_texts, poe_total_power};

fn col(base: &str, rows: Vec<(&str, SnmpValue)>) -> Vec<(String, SnmpValue)> {
    rows.into_iter().map(|(i, v)| (format!("{}.{}", base, i), v)).collect()
}

fn s(v: &str) -> SnmpValue {
    SnmpValue::OctetString(v.to_string())
}

fn num(v: i64) -> SnmpValue {
    SnmpValue::Integer(v)
}

#[test]
fn cambium_section() {
    let r = CambiumReadings {
        temperature_board: Some(num(45)),
        temperature_cpu: Some(s("hot")),
        radio_channel: Some(num(36)),
        radio_tx_power: None,
        radio_freq: Some(SnmpValue::Gauge32(5180)),
        channel_utilization: None,
        noise_floor: Some(num(-95)),
        client_count: Some(SnmpValue::Gauge32(2)),
        client_rssi: col("1.3.6.1.4.1.17713.22.1.3.1.1.4", vec![("7", num(-61)), ("9", s("?"))]),
        client_snr: col("1.3.6.1.4.1.17713.22.1.3.1.1.5", vec![("7", num(30))]),
        client_tx_rate: col("1.3.6.1.4.1.17713.22.1.3.1.1.6", vec![("9", num(144))]),
        client_rx_rate: vec![],
        ssid_names: col("1.3.6.1.4.1.17713.22.1.4.1.1.2", vec![("1", s("Oficina")), ("2", s("Invitados"))]),
    };
    let d = cambium_vendor_data(&r);
    assert_eq!(d.temperature_board_c, Some(45));
    assert_eq!(d.temperature_cpu_c, None);
    assert_eq!(d.radio_freq_mhz, Some(5180));
    assert_eq!(d.noise_floor_dbm, Some(-95));
    assert_eq!(d.connected_clients, Some(2));
    let c = d.clients.unwrap();
    assert_eq!(c.len(), 2);
    assert_eq!((c[0].index.as_str(), c[0].rssi_dbm, c[0].snr_db, c[0].tx_rate_mbps), ("7", -61, 30, 0));
    assert_eq!((c[1].index.as_str(), c[1].rssi_dbm, c[1].snr_db, c[1].tx_rate_mbps), ("9", 0, 0, 144));
    let ssids: Vec<(String, String)> = d.ssids.unwrap().into_iter().map(|t| (t.index, t.text)).collect();
    assert_eq!(ssids, vec![("1".to_string(), "Oficina".to_string()), ("2".to_string(), "Invitados".to_string())]);
}

#[test]
fn cambium_empty_tables() {
    let r = CambiumReadings {
        temperature_board: None,
        temperature_cpu: None,
        radio_channel: None,
        radio_tx_power: None,
        radio_freq: None,
        channel_utilization: None,
        noise_floor: None,
        client_count: None,
        client_rssi: vec![],
        client_snr: col("x", vec![("1", num(3))]),
        client_tx_rate: vec![],
        client_rx_rate: vec![],
        ssid_names: vec![],
    };
    let d = cambium_vendor_data(&r);
    assert!(d.clients.is_none());
    assert!(d.ssids.is_none());
}

#[test]
fn sophos_section() {
    let oids = sophos_service_oids();
    assert_eq!(oids.len(), 12);
    assert_eq!(oids[0], ("pop3", "1.3.6.1.4.1.2604.5.1.7.0"));
    assert_eq!(oids[11], ("ssl_vpn", "1.3.6.1.4.1.2604.5.1.21.0"));
    let r = SophosReadings {
        live_users: Some(SnmpValue::Gauge32(12)),
        http_hits: None,
        active_connections: Some(s("many")),
        services: vec![
            ("pop3".to_string(), None),
            ("smtp".to_string(), Some(s("Running"))),
            ("av".to_string(), Some(num(1))),
            ("ips".to_string(), Some(s("stopped"))),
        ],
    };
    let d = sophos_vendor_data(&r);
    assert_eq!(d.live_users, Some(12));
    assert_eq!(d.http_hits, None);
    assert_eq!(d.active_connections, None);
    let sv: Vec<(&str, &str, bool)> = d.services.iter().map(|x| (x.name.as_str(), x.status.as_str(), x.running)).collect();
    assert_eq!(sv, vec![("smtp", "Running", true), ("av", "1", true), ("ips", "stopped", false)]);
}

#[test]
fn ubnt_section() {
    let r = UbntReadings {
        model: Some(s("USW-24-POE")),
        firmware_version: Some(s("")),
        mac_address: None,
        temperature: Some(num(52)),
        poe_status: col("1.3.6.1.2.1.105.1.1.1.3", vec![("1", num(3)), ("2", num(2))]),
        poe_power: col("1.3.6.1.2.1.105.1.1.1.6", vec![("1", num(4500)), ("2", num(100)), ("2", num(7000))]),
        vlan_names: col("1.3.6.1.2.1.17.7.1.4.3.1.1", vec![("1", s("default")), ("20", s("voz"))]),
    };
    let d = ubnt_vendor_data(&r);
    assert_eq!(d.model.as_deref(), Some("USW-24-POE"));
    assert_eq!(d.firmware_version, None);
    assert_eq!(d.mac_address, None);
    assert_eq!(d.temperature_c, Some(52));
    let p = d.poe_ports.unwrap();
    assert_eq!((p[0].port.as_str(), p[0].status, p[0].power_mw), ("1", 3, 4500));
    assert_eq!((p[1].port.as_str(), p[1].status, p[1].power_mw), ("2", 2, 7000));
    // port 2's earlier reading is replaced by the later one
    assert_eq!(d.poe_total_power_mw, Some(11500));
    let v = d.vlans.unwrap();
    assert_eq!((v[1].index.as_str(), v[1].text.as_str()), ("20", "voz"));
}

#[test]
fn aruba_and_extreme_sections() {
    let a = aruba_vendor_data(&ArubaReadings {
        temperature: None,
        fan_status: col("1.3.6.1.4.1.11.2.14.11.1.2.6.1.4", vec![("1", num(4)), ("2", num(2))]),
        poe_status: vec![],
        poe_power: col("p", vec![("1", num(5))]),
    });
    assert_eq!(a.temperature_c, None);
    let f = a.fans.unwrap();
    assert_eq!((f[0].index.as_str(), f[0].status, aruba_sensor_text(f[0].status)), ("1", 4, "good"));
    assert_eq!(aruba_sensor_text(f[1].status), "bad");
    assert_eq!(aruba_sensor_text(3), "warning");
    assert_eq!(aruba_sensor_text(1), "unknown");
    assert!(a.poe_ports.is_none());
    assert!(a.poe_total_power_mw.is_none());

    let e = extreme_vendor_data(&ExtremeReadings {
        temperature: Some(num(81)),
        fan_status: vec![],
        psu_status: col("1.3.6.1.4.1.1916.1.1.1.10.1.2", vec![("1", num(1)), ("2", num(2)), ("3", s("x"))]),
    });
    assert_eq!(e.temperature_half_c, Some(81));
    assert!(e.fans.is_none());
    let psus = e.power_supplies.unwrap();
    let texts: Vec<&str> = psus.iter().map(|p| extreme_psu_text(p.status)).collect();
    assert_eq!(texts, vec!["present_ok", "absent", "unknown"]);
    assert_eq!(extreme_fan_text(1), "operational");
    assert_eq!(extreme_fan_text(2), "not operational");
    assert_eq!(extreme_fan_text(0), "unknown");
}

#[test]
fn table_helpers() {
    assert!(indexed_texts(&vec![]).is_empty());
    assert_eq!(poe_total_power(&vec![]), 0);
    let big = col("p", vec![("1", SnmpValue::Integer(i64::MAX)), ("2", SnmpValue::Integer(i64::MAX))]);
    assert_eq!(poe_total_power(&big), 2 * (i64::MAX as i128));
}
