use ness_relay::payload::firmware_version_from_descr;

#[test]
fn firmware_version_after_software_version() {
    assert_eq!(
        firmware_version_from_descr("Cisco IOS Software, C2960 Software (C2960-LANBASEK9-M), Version 15.0(2)SE11, RELEASE SOFTWARE (fc3)"),
        Some("15.0(2)SE11".to_string())
    );
    assert_eq!(
        firmware_version_from_descr("Juniper Networks, Inc. ex2300 internet router, kernel JUNOS 18.4, Software Version  18.4R2.7 build"),
        Some("18.4R2.7".to_string())
    );
}

#[test]
fn firmware_version_absent() {
    assert_eq!(firmware_version_from_descr("RouterOS CCR1036-8G-2S+"), None);
    assert_eq!(firmware_version_from_descr("version "), None);
    assert_eq!(firmware_version_from_descr("version ,1.2"), None);
    assert_eq!(firmware_version_from_descr(""), None);
}

#[test]
fn firmware_version_case_ignored() {
    assert_eq!(firmware_version_from_descr("VERSION 7.16.2\tstable"), Some("7.16.2".to_string()));
    assert_eq!(firmware_version_from_descr("HP Switch, SOFTWARE VERSION KB.16.10"), Some("KB.16.10".to_string()));
}
