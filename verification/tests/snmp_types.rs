use ness_relay::snmp::types::{encode_simple, SnmpResult, SnmpValue};

#[test]
fn value_as_i64() {
    assert_eq!(SnmpValue::Integer(-5).as_i64(), Some(-5));
    assert_eq!(SnmpValue::Counter32(7).as_i64(), Some(7));
    assert_eq!(SnmpValue::Counter64(u64::MAX).as_i64(), None);
    assert_eq!(SnmpValue::Counter64(5).as_i64(), Some(5));
    assert_eq!(SnmpValue::Counter64(0x7fff_ffff_ffff_ffff).as_i64(), Some(i64::MAX));
    assert_eq!(SnmpValue::Integer(-3).as_i64(), Some(-3));
    assert_eq!(SnmpValue::OctetString("-12".to_string()).as_i64(), Some(-12));
    assert_eq!(SnmpValue::OctetString(" 5".to_string()).as_i64(), None);
    assert_eq!(SnmpValue::OctetString("42".to_string()).as_i64(), Some(42));
    assert_eq!(SnmpValue::OctetString("x".to_string()).as_i64(), None);
    assert_eq!(SnmpValue::Null.as_i64(), None);
}

#[test]
fn value_as_u64() {
    assert_eq!(SnmpValue::Integer(-5).as_u64(), None);
    assert_eq!(SnmpValue::Integer(5).as_u64(), Some(5));
    assert_eq!(SnmpValue::Gauge32(9).as_u64(), Some(9));
    assert_eq!(SnmpValue::TimeTicks(100).as_u64(), Some(100));
    assert_eq!(SnmpValue::OctetString("18446744073709551615".to_string()).as_u64(), Some(u64::MAX));
    assert_eq!(SnmpValue::IpAddress("1.2.3.4".to_string()).as_u64(), None);
}

#[test]
fn value_as_string() {
    assert_eq!(SnmpValue::Integer(-12).as_string(), "-12");
    assert_eq!(SnmpValue::Counter64(99).as_string(), "99");
    assert_eq!(SnmpValue::Null.as_string(), "NULL");
    assert_eq!(SnmpValue::NoSuchObject.as_string(), "noSuchObject");
    assert_eq!(SnmpValue::ObjectIdentifier("1.3.6".to_string()).as_string(), "1.3.6");
    assert_eq!(SnmpValue::OctetStringRaw(vec![0xff, 0xad]).as_string(), "0xffad");
    assert_eq!(SnmpValue::OctetStringRaw(vec![0xde, 0xad]).as_string(), "\u{7ad}");
    assert_eq!(SnmpValue::OctetStringRaw(b"ok\0\0".to_vec()).as_string(), "ok");
}

#[test]
fn value_error_and_data() {
    assert!(SnmpValue::NoSuchObject.is_error());
    assert!(SnmpValue::NoSuchInstance.is_error());
    assert!(SnmpValue::EndOfMibView.is_error());
    assert!(!SnmpValue::Null.is_error());
    assert!(!SnmpValue::Null.has_data());
    assert!(!SnmpValue::NoSuchObject.has_data());
    assert!(SnmpValue::Integer(0).has_data());
}

#[test]
fn hex_encoding() {
    assert_eq!(encode_simple(&[0x00, 0x0f, 0xab]), "000fab");
    assert_eq!(encode_simple(&[]), "");
}

#[test]
fn result_states() {
    let ok = SnmpResult::ok("1.3".to_string(), SnmpValue::Integer(1));
    assert!(ok.is_ok());
    assert!(ok.has_data());
    let empty = SnmpResult::ok("1.3".to_string(), SnmpValue::Null);
    assert!(empty.is_ok());
    assert!(!empty.has_data());
    let err = SnmpResult::err("1.3".to_string(), "timeout".to_string());
    assert!(!err.is_ok());
    assert!(!err.has_data());
    assert_eq!(err.error.as_deref(), Some("timeout"));
}
