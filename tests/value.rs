use inkcheck::error::ErrorKind;
use inkcheck::value::{parse_decimal_i64, FromSnmpValue, SnmpValue};

#[test]
fn integer_like_kinds_convert() {
    assert_eq!(i64::from_snmp_value(&SnmpValue::Integer(-3)).unwrap(), -3);
    assert_eq!(i64::from_snmp_value(&SnmpValue::Counter32(7)).unwrap(), 7);
    assert_eq!(i64::from_snmp_value(&SnmpValue::Unsigned32(u32::MAX)).unwrap(), 4294967295);
    assert_eq!(i64::from_snmp_value(&SnmpValue::Timeticks(12)).unwrap(), 12);
    assert_eq!(i64::from_snmp_value(&SnmpValue::Counter64(1 << 40)).unwrap(), 1 << 40);
    assert_eq!(
        i64::from_snmp_value(&SnmpValue::Counter64(u64::MAX)).unwrap_err().kind,
        ErrorKind::TypeMismatch(String::from("Expected Integer, but received Counter64"))
    );
}

#[test]
fn numeric_octet_strings_convert() {
    assert_eq!(i64::from_snmp_value(&SnmpValue::OctetString(b"2800".to_vec())).unwrap(), 2800);
    assert_eq!(i64::from_snmp_value(&SnmpValue::OctetString(b"-2".to_vec())).unwrap(), -2);
    assert_eq!(
        i64::from_snmp_value(&SnmpValue::OctetString(b"12 pages".to_vec())).unwrap_err().kind,
        ErrorKind::TypeMismatch(String::from("Expected Integer, but received OctetString"))
    );
    assert!(matches!(
        i64::from_snmp_value(&SnmpValue::Boolean(true)).unwrap_err().kind,
        ErrorKind::TypeMismatch(_)
    ));
}

#[test]
fn decimal_parse_edges() {
    assert_eq!(parse_decimal_i64(&b"9223372036854775807".to_vec()), Some(i64::MAX));
    assert_eq!(parse_decimal_i64(&b"-9223372036854775808".to_vec()), Some(i64::MIN));
    assert_eq!(parse_decimal_i64(&b"9223372036854775808".to_vec()), None);
    assert_eq!(parse_decimal_i64(&b"+15".to_vec()), Some(15));
    assert_eq!(parse_decimal_i64(&b"-".to_vec()), None);
    assert_eq!(parse_decimal_i64(&b"".to_vec()), None);
}

#[test]
fn octet_strings_convert_to_text_and_bytes() {
    let v = SnmpValue::OctetString(vec![0x48, 0x50, 0xFF]);
    assert_eq!(String::from_snmp_value(&v).unwrap(), "HP\u{FFFD}");
    assert_eq!(<Vec<u8>>::from_snmp_value(&v).unwrap(), vec![0x48, 0x50, 0xFF]);
    assert!(matches!(
        String::from_snmp_value(&SnmpValue::Integer(1)).unwrap_err().kind,
        ErrorKind::TypeMismatch(_)
    ));
    assert!(matches!(
        <Vec<u8>>::from_snmp_value(&SnmpValue::Null).unwrap_err().kind,
        ErrorKind::TypeMismatch(_)
    ));
}

#[test]
fn other_kinds_convert() {
    let oid = SnmpValue::ObjectIdentifier(String::from("1.3.6.1.2.1"));
    assert_eq!(<Vec<u64>>::from_snmp_value(&oid).unwrap(), vec![1, 3, 6, 1, 2, 1]);
    let bad = SnmpValue::ObjectIdentifier(String::from("1.x"));
    assert!(matches!(<Vec<u64>>::from_snmp_value(&bad).unwrap_err().kind, ErrorKind::Parse(_)));
    assert_eq!(u32::from_snmp_value(&SnmpValue::Timeticks(9)).unwrap(), 9);
    assert!(u32::from_snmp_value(&SnmpValue::Integer(9)).is_err());
    assert_eq!(u64::from_snmp_value(&SnmpValue::Counter64(5)).unwrap(), 5);
    assert!(u64::from_snmp_value(&SnmpValue::Counter32(5)).is_err());
    assert!(bool::from_snmp_value(&SnmpValue::Boolean(true)).unwrap());
    assert!(bool::from_snmp_value(&SnmpValue::Integer(1)).is_err());
}

#[test]
fn mismatch_names_both_kinds() {
    let e = i64::from_snmp_value(&SnmpValue::Boolean(true)).unwrap_err();
    assert_eq!(
        e.kind,
        ErrorKind::TypeMismatch(String::from("Expected Integer, but received Boolean"))
    );
    let e = u64::from_snmp_value(&SnmpValue::Counter32(1)).unwrap_err();
    assert_eq!(
        e.kind,
        ErrorKind::TypeMismatch(String::from("Expected Counter64, but received Counter32"))
    );
}
