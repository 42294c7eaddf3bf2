use ness_relay::engine::{cycle_result, device_output_dir, reported_text, vendor_section_key, CollectionEngine};
use ness_relay::profiles::base::{DeviceProfile, Profile};
use ness_relay::profiles::firewalls::{
    CheckPointProfile, FortinetProfile, MikroTikFwProfile, PaloAltoProfile, PfSenseProfile, SophosProfile,
};
use ness_relay::profiles::routers::{CiscoProfile, JuniperMxProfile, MikroTikProfile};
use ness_relay::profiles::generic::GenericProfile;
use ness_relay::profiles::loader::ProfileLoader;
use ness_relay::profiles::switches::{
    ArubaProfile, DatacomProfile, DellProfile, ExtremeProfile, HuaweiProfile, JuniperExProfile, TpLinkProfile,
    UbntProfile,
};
use ness_relay::profiles::access_points::CambiumProfile;
use ness_relay::snmp::types::{SnmpResult, SnmpValue};

#[test]
fn profile_identities() {
    assert_eq!(PfSenseProfile::new().vendor(), "pfsense");
    assert_eq!(PfSenseProfile::new().vendor_display_name(), "pfSense (FreeBSD)");
    assert_eq!(FortinetProfile::new().device_type(), "firewall");
    assert_eq!(MikroTikFwProfile::new().vendor_display_name(), "MikroTik Firewall (RouterOS)");
    assert_eq!(SophosProfile::new().vendor(), "sophos");
    assert_eq!(UbntProfile::new().device_type(), "switch");
    assert_eq!(ArubaProfile::new().vendor_display_name(), "Aruba (HPE)");
    assert_eq!(ExtremeProfile::new().vendor(), "extreme");
    assert_eq!(DellProfile.vendor_display_name(), "Dell Networking");
    assert_eq!(TpLinkProfile.vendor(), "tp_link");
    assert_eq!(CambiumProfile::new().device_type(), "ap");
}

#[test]
fn sys_object_id_matching() {
    assert!(PfSenseProfile::new().matches_sys_object_id("x.1.3.6.1.4.1.12325.1"));
    assert!(FortinetProfile::new().matches_sys_object_id("1.3.6.1.4.1.12356.101.1"));
    assert!(!FortinetProfile::new().matches_sys_object_id("x1.3.6.1.4.1.12356"));
    assert!(UbntProfile::new().matches_sys_object_id("1.3.6.1.4.1.4413.1"));
    assert!(ArubaProfile::new().matches_sys_object_id("1.3.6.1.4.1.11.2.3.7.11"));
    assert!(!DellProfile.matches_sys_object_id("1.3.6.1.4.1.674"));
    assert!(!TpLinkProfile.matches_sys_object_id("1.3.6.1.4.1.11863"));
}

#[test]
fn generic_profiles() {
    let p = GenericProfile::new("printer");
    assert_eq!(p.vendor(), "printer");
    assert_eq!(p.vendor_display_name(), "Impresora genérica SNMP");
    assert_eq!(p.device_type(), "printer");
    let g = GenericProfile::new("generic");
    assert_eq!(g.vendor_display_name(), "Generic SNMP");
    assert_eq!(g.device_type(), "generic");
    assert!(!g.matches_sys_object_id("1.3.6.1"));
    assert_eq!(GenericProfile::new("ap").vendor_display_name(), "Access Point genérico SNMP");
}

#[test]
fn registry_lookup() {
    let loader = ProfileLoader::new();
    assert_eq!(loader.get_profile("PFSENSE").vendor(), "pfsense");
    assert_eq!(loader.get_profile("c_n").vendor_display_name(), "Cambium Networks");
    assert_eq!(loader.get_profile("unknown-vendor").vendor(), "generic");
    assert_eq!(loader.get_profile("router").vendor_display_name(), "Router genérico SNMP");
    let vendors = loader.list_vendors();
    assert_eq!(
        vendors,
        vec![
            "ap", "aruba", "c_n", "checkpoint", "cisco", "datacomm", "dell", "extreme", "firewall", "fortinet",
            "generic", "huawei", "juniper_ex", "juniper_mx", "mikrotik", "mikrotik_fw", "palo_alto", "pfsense",
            "printer", "router", "sophos", "switch", "tp_link", "ubnt"
        ]
    );
    let d = ProfileLoader::default();
    assert_eq!(d.list_vendors().len(), 24);
    assert!(d.auto_detect("").is_none());
    assert_eq!(d.get_profile("no_such_vendor").vendor(), d.get_profile("GENERIC").vendor());
    assert_eq!(d.get_profile("Huawei").vendor_display_name(), "Huawei");
    assert_eq!(d.get_profile("datacomm").device_type(), "switch");
    assert_eq!(d.get_profile("palo_alto").device_type(), "firewall");
    assert_eq!(d.get_profile("mikrotik").device_type(), "router");
}

#[test]
fn registry_register() {
    let mut loader = ProfileLoader::new();
    loader.register("Custom", Profile::Generic(GenericProfile::new("custom")));
    assert_eq!(loader.get_profile("custom").vendor(), "custom");
    assert_eq!(loader.get_profile("CUSTOM").vendor(), "custom");
    // replacing an existing key keeps one entry
    loader.register("pfsense", Profile::Sophos(SophosProfile::new()));
    assert_eq!(loader.get_profile("pfsense").vendor(), "sophos");
    let vendors = loader.list_vendors();
    assert_eq!(vendors.len(), 25);
    let mut sorted = vendors.clone();
    sorted.sort();
    assert_eq!(vendors, sorted);
}

#[test]
fn detection_by_oid() {
    let loader = ProfileLoader::new();
    assert_eq!(loader.auto_detect("1.3.6.1.4.1.12356.101.1.1").unwrap().vendor(), "fortinet");
    assert_eq!(loader.auto_detect("1.3.6.1.4.1.2604.5").unwrap().vendor(), "sophos");
    assert_eq!(loader.auto_detect("1.3.6.1.4.1.17713.21").unwrap().vendor(), "c_n");
    assert_eq!(loader.auto_detect("1.3.6.1.4.1.1916.2.1").unwrap().vendor(), "extreme");
    assert!(loader.auto_detect("").is_none());
    assert_eq!(loader.auto_detect("1.3.6.1.4.1.2620.1.1").unwrap().vendor(), "checkpoint");
    assert_eq!(loader.auto_detect("1.3.6.1.4.1.25461.2.3.1").unwrap().vendor(), "palo_alto");
    assert_eq!(loader.auto_detect("1.3.6.1.4.1.9.1.1").unwrap().vendor(), "cisco");
    // EX/QFX before the MX/SRX catch-all
    assert_eq!(loader.auto_detect("1.3.6.1.4.1.2636.1.51.7").unwrap().vendor(), "juniper_ex");
    assert_eq!(loader.auto_detect("1.3.6.1.4.1.2636.1.62.1").unwrap().vendor(), "juniper_ex");
    assert_eq!(loader.auto_detect("1.3.6.1.4.1.2636.1.1.1.2.21").unwrap().vendor(), "juniper_mx");
    // MikroTik's enterprise number is detected in its router role
    assert_eq!(loader.auto_detect("1.3.6.1.4.1.14988.1").unwrap().vendor(), "mikrotik");
    assert!(loader.auto_detect("1.3.6.1.4.1.99999.1").is_none());
}

#[test]
fn resolution_chain() {
    let loader = ProfileLoader::new();
    // an explicit vendor is kept
    assert_eq!(loader.resolve_profile("fortinet", "1.3.6.1.4.1.2604", "").vendor(), "fortinet");
    assert_eq!(loader.resolve_profile("  PfSense ", "", "").vendor(), "pfsense");
    // a generic configured vendor gives way to the sysObjectID
    assert_eq!(loader.resolve_profile("generic", "1.3.6.1.4.1.2604.5", "").vendor(), "sophos");
    // printers by enterprise number
    assert_eq!(loader.resolve_profile("linux", " 1.3.6.1.4.1.1347.4 ", "").vendor(), "printer");
    // sysDescr keywords
    assert_eq!(loader.resolve_profile("", "", "Ubiquiti EdgeSwitch 24").vendor(), "ubnt");
    assert_eq!(loader.resolve_profile("generic", "", "MikroTik RouterOS 7.1").vendor(), "mikrotik_fw");
    assert_eq!(loader.resolve_profile("", "", "HP LaserJet 4000").vendor(), "printer");
    assert_eq!(loader.resolve_profile("", "", "Next-Generation Firewall appliance").vendor(), "firewall");
    // vendors named by sysDescr
    assert_eq!(loader.resolve_profile("", "", "Check Point Gaia R81").vendor(), "checkpoint");
    assert_eq!(loader.resolve_profile("", "", "Palo Alto Networks PAN-OS 10").vendor(), "palo_alto");
    assert_eq!(loader.resolve_profile("", "", "Juniper Networks, Inc. junos").vendor(), "juniper_mx");
    assert_eq!(loader.resolve_profile("", "", "Huawei Versatile Routing Platform").vendor(), "huawei");
    assert_eq!(loader.resolve_profile("", "", "DATACOM DM4100").vendor(), "datacomm");
    // a MikroTik found by sysObjectID: router role with a specific vendor, firewall role with a generic one
    assert_eq!(loader.resolve_profile("generic", "1.3.6.1.4.1.14988.1", "").vendor(), "mikrotik_fw");
    assert_eq!(loader.resolve_profile("mikrotik", "1.3.6.1.4.1.14988.1", "").vendor(), "mikrotik");
    assert_eq!(loader.resolve_profile("unlisted", "1.3.6.1.4.1.14988.1", "").vendor(), "mikrotik");
    // nothing recognised: the configured vendor, else generic
    assert_eq!(loader.resolve_profile("router", "", "Linux box").vendor(), "router");
    assert_eq!(loader.resolve_profile("", "", "Linux box").vendor(), "generic");
}

#[test]
fn engine_profiles() {
    let engine = CollectionEngine::new(42u32);
    assert_eq!(*engine.config(), 42);
    assert_eq!(engine.initial_profile("Sophos").vendor(), "sophos");
    let oid = SnmpResult::ok("1.3.6.1.2.1.1.2.0".to_string(), SnmpValue::ObjectIdentifier("1.3.6.1.4.1.12356.1".to_string()));
    let descr = SnmpResult::err("1.3.6.1.2.1.1.1.0".to_string(), "timeout".to_string());
    assert_eq!(engine.device_profile("generic", &oid, &descr).vendor(), "fortinet");
    assert_eq!(reported_text(&descr), "");
    assert_eq!(reported_text(&oid), "1.3.6.1.4.1.12356.1");
    assert_eq!(vendor_section_key("mikrotik_fw"), "mikrotik_fw_specific");
}

#[test]
fn device_output_directories() {
    assert_eq!(device_output_dir("/opt/ness_relay", "firewall", "mikrotik_fw"), "/opt/ness_relay/devices/firewall_mikrotik_fw/output");
    assert_eq!(device_output_dir("/opt/ness_relay/", "switch", "aruba"), "/opt/ness_relay/devices/switch_aruba/output");
    assert_eq!(device_output_dir("", "ap", "cambium"), "devices/ap_cambium/output");
    assert_eq!(device_output_dir("/opt", "/tmp/x", "v"), "/tmp/x_v/output");
}

#[test]
fn collection_cycle_result() {
    assert_eq!(cycle_result(0), Ok(()));
    assert_eq!(cycle_result(2), Err("2 dispositivo(s) fallaron al enviar datos al servidor".to_string()));
}

#[test]
fn router_and_further_profiles_identity() {
    assert_eq!(CheckPointProfile::new().vendor(), "checkpoint");
    assert_eq!(PaloAltoProfile::new().vendor_display_name(), "Palo Alto");
    assert_eq!(MikroTikProfile::new().vendor_display_name(), "MikroTik RouterOS");
    assert_eq!(CiscoProfile::new().device_type(), "router");
    assert_eq!(JuniperMxProfile::new().vendor_display_name(), "Juniper MX/SRX");
    assert_eq!(JuniperExProfile::new().vendor_display_name(), "Juniper EX/QFX");
    assert_eq!(HuaweiProfile.vendor(), "huawei");
    assert_eq!(DatacomProfile.vendor(), "datacomm");
    assert!(!HuaweiProfile.matches_sys_object_id("1.3.6.1.4.1.2011.2.23"));
    assert!(!CiscoProfile::new().matches_sys_object_id("1.3.6.1.4.1.99.1"));
    assert!(JuniperMxProfile::new().matches_sys_object_id("1.3.6.1.4.1.2636.1.51.1"));
}

#[test]
fn register_keeps_earlier_keys_and_sorts_the_new_one_in() {
    let mut loader = ProfileLoader::new();
    let before = loader.list_vendors();
    let earlier: Vec<String> = before.iter().map(|k| loader.get_profile(k).vendor().to_string()).collect();
    loader.register("Zyxel", Profile::Generic(GenericProfile::new("zyxel")));
    for w in ["zyxel", "ZYXEL", "ZyXeL"] {
        assert_eq!(loader.get_profile(w).vendor(), "zyxel");
    }
    for (k, v) in before.iter().zip(earlier.iter()) {
        assert_eq!(loader.get_profile(k).vendor(), v.as_str());
    }
    let mut expected = before.clone();
    expected.push("zyxel".to_string());
    expected.sort();
    assert_eq!(loader.list_vendors(), expected);
}
