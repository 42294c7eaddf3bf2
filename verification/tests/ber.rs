use ness_relay::snmp::ber::{
    decode_integer, decode_length, decode_oid, decode_uint, encode_integer, encode_length, encode_null,
    encode_octet_string, encode_oid, encode_uint, oid_string_to_components, parse_response_pdu, parse_tlv,
    parse_value, parse_varbind_list, sequence, tlv, TAG_COUNTER32, TAG_COUNTER64, TAG_END_OF_MIB_VIEW,
    TAG_INTEGER, TAG_IP_ADDRESS, TAG_NULL, TAG_OCTET_STRING, TAG_OID, TAG_SEQUENCE, TAG_TIMETICKS,
};
use ness_relay::snmp::types::SnmpValue;

#[test]
fn length_short_and_long_forms() {
    assert_eq!(encode_length(5), vec![5]);
    assert_eq!(encode_length(127), vec![0x7f]);
    assert_eq!(encode_length(128), vec![0x81, 0x80]);
    assert_eq!(encode_length(255), vec![0x81, 0xff]);
    assert_eq!(encode_length(256), vec![0x82, 0x01, 0x00]);
    assert_eq!(encode_length(70000), vec![0x83, 0x01, 0x11, 0x70]);
}

#[test]
fn length_decoding() {
    assert_eq!(decode_length(&[0x05, 0xaa]), Some((5, 1)));
    assert_eq!(decode_length(&[0x82, 0x01, 0x00]), Some((256, 3)));
    assert_eq!(decode_length(&[0x82, 0x01]), None);
    assert_eq!(decode_length(&[]), None);
}

#[test]
fn length_roundtrip() {
    for len in [0usize, 1, 127, 128, 200, 255, 256, 1000, 65535, 65536, 1_000_000] {
        let enc = encode_length(len);
        assert_eq!(decode_length(&enc), Some((len, enc.len())));
    }
}

#[test]
fn tlv_and_sequence() {
    assert_eq!(tlv(0x04, b"ab"), vec![0x04, 0x02, b'a', b'b']);
    assert_eq!(sequence(&[0x05, 0x00]), vec![TAG_SEQUENCE, 0x02, 0x05, 0x00]);
    assert_eq!(encode_null(), vec![TAG_NULL, 0x00]);
    assert_eq!(encode_octet_string(b"public"), vec![0x04, 6, b'p', b'u', b'b', b'l', b'i', b'c']);
    let long = vec![7u8; 300];
    let t = tlv(0x04, &long);
    assert_eq!(&t[..4], &[0x04, 0x82, 0x01, 0x2c]);
    assert_eq!(t.len(), 304);
}

#[test]
fn integer_encoding() {
    assert_eq!(encode_integer(0), vec![TAG_INTEGER, 1, 0x00]);
    assert_eq!(encode_integer(127), vec![TAG_INTEGER, 1, 0x7f]);
    assert_eq!(encode_integer(128), vec![TAG_INTEGER, 2, 0x00, 0x80]);
    assert_eq!(encode_integer(256), vec![TAG_INTEGER, 2, 0x01, 0x00]);
    assert_eq!(encode_integer(-1), vec![TAG_INTEGER, 1, 0xff]);
    assert_eq!(encode_integer(-128), vec![TAG_INTEGER, 1, 0x80]);
    assert_eq!(encode_integer(-129), vec![TAG_INTEGER, 2, 0xff, 0x7f]);
    assert_eq!(
        encode_integer(i64::MIN),
        vec![TAG_INTEGER, 8, 0x80, 0, 0, 0, 0, 0, 0, 0]
    );
}

#[test]
fn integer_roundtrip() {
    for v in [0i64, 1, -1, 127, 128, -128, -129, 65535, -65536, i64::MAX, i64::MIN, 1234567890123] {
        let enc = encode_integer(v);
        assert_eq!(decode_integer(&enc[2..]), Some(v));
    }
    assert_eq!(decode_integer(&[]), Some(0));
}

#[test]
fn uint_encoding() {
    assert_eq!(encode_uint(0), vec![TAG_INTEGER, 1, 0x00]);
    assert_eq!(encode_uint(0x7f), vec![TAG_INTEGER, 1, 0x7f]);
    assert_eq!(encode_uint(0x80), vec![TAG_INTEGER, 2, 0x00, 0x80]);
    assert_eq!(encode_uint(u64::MAX), vec![TAG_INTEGER, 9, 0x00, 0xff, 0xff, 0xff, 0xff, 0xff, 0xff, 0xff, 0xff]);
    for v in [0u64, 1, 255, 256, 0x8000_0000, u64::MAX] {
        let enc = encode_uint(v);
        assert_eq!(decode_uint(&enc[2..]), v);
    }
    assert_eq!(decode_uint(&[0x01, 0x00]), 256);
}

#[test]
fn oid_components() {
    assert_eq!(oid_string_to_components("1.3.6.1.2.1.1.1.0"), Some(vec![1, 3, 6, 1, 2, 1, 1, 1, 0]));
    assert_eq!(oid_string_to_components(".1.3.6"), Some(vec![1, 3, 6]));
    assert_eq!(oid_string_to_components("1.x.3"), None);
}

#[test]
fn oid_encoding() {
    assert_eq!(
        encode_oid("1.3.6.1.2.1.1.1.0"),
        vec![TAG_OID, 8, 0x2b, 6, 1, 2, 1, 1, 1, 0]
    );
    // multi-byte arc (14988 = 0xf5 0x0c in base 128)
    assert_eq!(
        encode_oid("1.3.6.1.4.1.14988"),
        vec![TAG_OID, 7, 0x2b, 6, 1, 4, 1, 0xf5, 0x0c]
    );
    // fewer than two arcs, or not a number: an empty OID
    assert_eq!(encode_oid("1"), vec![TAG_OID, 0]);
    assert_eq!(encode_oid("abc"), vec![TAG_OID, 0]);
}

#[test]
fn oid_decoding_and_roundtrip() {
    assert_eq!(decode_oid(&[0x2b, 6, 1, 2, 1, 1, 1, 0]), "1.3.6.1.2.1.1.1.0");
    assert_eq!(decode_oid(&[]), "");
    for oid in ["1.3.6.1.4.1.14988.1.1.3.9.0", "1.3.6.1.2.1.2.2.1.10.7", "2.5.4.3"] {
        let enc = encode_oid(oid);
        assert_eq!(decode_oid(&enc[2..]), oid);
    }
}

#[test]
fn tlv_parsing() {
    let data = [0x02, 0x01, 0x05, 0xff];
    let (tag, value, consumed) = parse_tlv(&data).unwrap();
    assert_eq!(tag, 0x02);
    assert_eq!(value, &[0x05]);
    assert_eq!(consumed, 3);
    assert!(parse_tlv(&[0x02]).is_none());
    assert!(parse_tlv(&[0x04, 0x05, 1, 2]).is_none());
    let enc = tlv(0x04, &vec![1u8; 200]);
    let (t, v, c) = parse_tlv(&enc).unwrap();
    assert_eq!((t, v.len(), c), (0x04, 200, enc.len()));
}

#[test]
fn value_parsing() {
    assert!(matches!(parse_value(TAG_INTEGER, &[0xff]), SnmpValue::Integer(-1)));
    match parse_value(TAG_OCTET_STRING, b"router1\0\0") {
        SnmpValue::OctetString(s) => assert_eq!(s, "router1"),
        other => panic!("unexpected {:?}", other),
    }
    match parse_value(TAG_OCTET_STRING, &[0xc0, 0xa8, 0x01, 0x01]) {
        SnmpValue::IpAddress(s) => assert_eq!(s, "192.168.1.1"),
        other => panic!("unexpected {:?}", other),
    }
    match parse_value(TAG_OCTET_STRING, &[0xff, 0xfe, 0x00]) {
        SnmpValue::OctetStringRaw(b) => assert_eq!(b, vec![0xff, 0xfe, 0x00]),
        other => panic!("unexpected {:?}", other),
    }
    match parse_value(TAG_IP_ADDRESS, &[10, 0, 0, 1]) {
        SnmpValue::IpAddress(s) => assert_eq!(s, "10.0.0.1"),
        other => panic!("unexpected {:?}", other),
    }
    match parse_value(TAG_IP_ADDRESS, &[10, 0, 1]) {
        SnmpValue::OctetString(s) => assert_eq!(s, "[10, 0, 1]"),
        other => panic!("unexpected {:?}", other),
    }
    assert!(matches!(parse_value(TAG_COUNTER32, &[0x01, 0x00]), SnmpValue::Counter32(256)));
    assert!(matches!(parse_value(TAG_TIMETICKS, &[0x00, 0xff]), SnmpValue::TimeTicks(255)));
    assert!(matches!(parse_value(TAG_COUNTER64, &[0x01, 0, 0, 0, 0]), SnmpValue::Counter64(4294967296)));
    // a Counter32 wider than 32 bits keeps its low 32 bits
    assert!(matches!(parse_value(TAG_COUNTER32, &[0x01, 0, 0, 0, 5]), SnmpValue::Counter32(5)));
    assert!(matches!(parse_value(TAG_NULL, &[]), SnmpValue::Null));
    assert!(matches!(parse_value(TAG_END_OF_MIB_VIEW, &[]), SnmpValue::EndOfMibView));
    match parse_value(TAG_OID, &[0x2b, 6, 1]) {
        SnmpValue::ObjectIdentifier(s) => assert_eq!(s, "1.3.6.1"),
        other => panic!("unexpected {:?}", other),
    }
}

fn varbind(oid: &str, value: Vec<u8>) -> Vec<u8> {
    let mut inner = encode_oid(oid);
    inner.extend_from_slice(&value);
    sequence(&inner)
}

#[test]
fn varbind_list_parsing() {
    let mut list = varbind("1.3.6.1.2.1.1.5.0", encode_octet_string(b"edge-01"));
    list.extend(varbind("1.3.6.1.2.1.1.3.0", tlv(TAG_TIMETICKS, &[0x01, 0x00])));
    let vbs = parse_varbind_list(&sequence(&list));
    assert_eq!(vbs.len(), 2);
    assert_eq!(vbs[0].0, "1.3.6.1.2.1.1.5.0");
    match &vbs[0].1 {
        SnmpValue::OctetString(s) => assert_eq!(s, "edge-01"),
        other => panic!("unexpected {:?}", other),
    }
    assert_eq!(vbs[1].0, "1.3.6.1.2.1.1.3.0");
    assert!(matches!(vbs[1].1, SnmpValue::TimeTicks(256)));
    // not a SEQUENCE: nothing
    assert!(parse_varbind_list(&[0x04, 0x00]).is_empty());
}

#[test]
fn response_pdu_parsing() {
    let vbl = sequence(&varbind("1.3.6.1.2.1.1.1.0", encode_octet_string(b"RouterOS")));
    let mut body = encode_integer(4242);
    body.extend(encode_integer(0));
    body.extend(encode_integer(0));
    body.extend(vbl);
    let pdu = parse_response_pdu(&body).unwrap();
    assert_eq!(pdu.request_id, 4242);
    assert_eq!(pdu.error_status, 0);
    assert_eq!(pdu.error_index, 0);
    assert_eq!(pdu.varbinds.len(), 1);
    assert_eq!(pdu.varbinds[0].0, "1.3.6.1.2.1.1.1.0");

    // an error status is reported as it is
    let mut err_body = encode_integer(7);
    err_body.extend(encode_integer(2));
    err_body.extend(encode_integer(1));
    err_body.extend(sequence(&[]));
    let pdu = parse_response_pdu(&err_body).unwrap();
    assert_eq!((pdu.request_id, pdu.error_status, pdu.error_index), (7, 2, 1));
    assert!(pdu.varbinds.is_empty());

    // a header that is not an INTEGER: no PDU
    let mut bad = encode_octet_string(b"x");
    bad.extend(encode_integer(0));
    bad.extend(encode_integer(0));
    assert!(parse_response_pdu(&bad).is_none());
}

#[test]
fn parse_tlv_length_beyond_usize_is_none() {
    let data = [0x04u8, 0x88, 0xff, 0xff, 0xff, 0xff, 0xff, 0xff, 0xff, 0xff];
    assert!(parse_tlv(&data).is_none());
    assert!(parse_varbind_list(&data).is_empty());
    let mut seq_data = vec![0x30u8, 0x88];
    seq_data.extend_from_slice(&[0xff; 8]);
    assert!(parse_varbind_list(&seq_data).is_empty());
    let mut body = vec![0x02u8, 0x88];
    body.extend_from_slice(&[0xff; 8]);
    assert!(parse_response_pdu(&body).is_none());
}
