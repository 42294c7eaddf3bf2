use ness_relay::bgp::{bgp_state_name, group_bgp_peers, BgpColumns, RemoteAs};
use ness_relay::snmp::types::SnmpValue;

fn columns() -> BgpColumns {
    BgpColumns {
        remote_addr: "1.3.6.1.2.1.15.3.1.7".to_string(),
        remote_as: "1.3.6.1.2.1.15.3.1.9".to_string(),
        state: "1.3.6.1.2.1.15.3.1.2".to_string(),
        local_addr: "1.3.6.1.2.1.15.3.1.5".to_string(),
        last_error: "1.3.6.1.2.1.15.3.1.14".to_string(),
    }
}

fn row(oid: &str, v: SnmpValue) -> (String, SnmpValue) {
    (oid.to_string(), v)
}

#[test]
fn bgp_state_names() {
    assert_eq!(bgp_state_name(1), "idle");
    assert_eq!(bgp_state_name(6), "established");
    assert_eq!(bgp_state_name(0), "unknown");
    assert_eq!(bgp_state_name(7), "unknown");
}

#[test]
fn peers_grouped_by_index() {
    let rows = vec![
        row("1.3.6.1.2.1.15.3.1.2.10.0.0.1", SnmpValue::Integer(6)),
        row("1.3.6.1.2.1.15.3.1.2.10.0.0.2", SnmpValue::Integer(3)),
        row("1.3.6.1.2.1.15.3.1.5.10.0.0.1", SnmpValue::IpAddress("10.0.0.254".to_string())),
        row("1.3.6.1.2.1.15.3.1.7.10.0.0.1", SnmpValue::IpAddress("10.0.0.1".to_string())),
        row("1.3.6.1.2.1.15.3.1.9.10.0.0.1", SnmpValue::Integer(65001)),
        row("1.3.6.1.2.1.15.3.1.9.10.0.0.2", SnmpValue::OctetString("AS?".to_string())),
        row("1.3.6.1.2.1.15.3.1.14.10.0.0.2", SnmpValue::OctetString("0600".to_string())),
        row("1.3.6.1.2.1.15.2.0", SnmpValue::Integer(65000)),
        row("1.3.6.1.2.1.15.3.1.2.10.0.0.2", SnmpValue::OctetString("weird".to_string())),
    ];
    let peers = group_bgp_peers(&columns(), &rows);
    assert_eq!(peers.len(), 2);
    let p1 = &peers[0];
    assert_eq!(p1.index, "10.0.0.1");
    assert_eq!(p1.state.as_deref(), Some("established"));
    assert_eq!(p1.local_addr.as_deref(), Some("10.0.0.254"));
    assert_eq!(p1.remote_addr.as_deref(), Some("10.0.0.1"));
    assert_eq!(p1.remote_as, Some(RemoteAs::Number(65001)));
    assert_eq!(p1.last_error, None);
    let p2 = &peers[1];
    assert_eq!(p2.index, "10.0.0.2");
    // the last row of a column wins
    assert_eq!(p2.state.as_deref(), Some("weird"));
    assert_eq!(p2.remote_as, Some(RemoteAs::Text("AS?".to_string())));
    assert_eq!(p2.last_error.as_deref(), Some("0600"));
    assert_eq!(p2.remote_addr, None);
}

#[test]
fn peer_index_drops_repeated_prefix_and_dots() {
    let rows = vec![row("1.3.6.1.2.1.15.3.1.2..7", SnmpValue::Integer(1))];
    let peers = group_bgp_peers(&columns(), &rows);
    assert_eq!(peers.len(), 1);
    assert_eq!(peers[0].index, "7");
    assert!(group_bgp_peers(&columns(), &vec![]).is_empty());
}
