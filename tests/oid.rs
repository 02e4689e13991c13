use inkcheck::error::ErrorKind;
use inkcheck::oid::parse_oid_to_vec;

#[test]
fn test_parse_oid_to_vec() {
    let oids = [
        ("1.3.6.1.2.1.25.3.2.1.3.1", vec![1, 3, 6, 1, 2, 1, 25, 3, 2, 1, 3, 1]),
        ("1.3.6.1.2.1.4.21.1.11.169.254.0.0", vec![1, 3, 6, 1, 2, 1, 4, 21, 1, 11, 169, 254, 0, 0]),
        ("1.3.6.1.4.1.2699.1.2.1.2.1.1.7.1", vec![1, 3, 6, 1, 4, 1, 2699, 1, 2, 1, 2, 1, 1, 7, 1]),
        ("1.3.6.1.2.1.43.11.1.1.9.1.4", vec![1, 3, 6, 1, 2, 1, 43, 11, 1, 1, 9, 1, 4]),
        ("1.3.6.1.2.1.4.21.1.13.224.0.0.0", vec![1, 3, 6, 1, 2, 1, 4, 21, 1, 13, 224, 0, 0, 0]),
    ];

    for (oid, expected_oid_vec) in oids.iter() {
        assert_eq!(parse_oid_to_vec(oid).unwrap(), *expected_oid_vec);
    }
}

#[test]
fn empty_oid_is_empty() {
    assert_eq!(parse_oid_to_vec("").unwrap(), Vec::<u64>::new());
}

#[test]
fn non_numeric_segment_is_rejected() {
    for bad in ["1.3.a.1", "1..3", "1.3.", ".1", "1.-3", "1. 3", "+", "1.3.6x"] {
        let e = parse_oid_to_vec(bad).unwrap_err();
        assert_eq!(e.kind, ErrorKind::InvalidOidFormat, "{bad}");
    }
}

#[test]
fn segments_follow_unsigned_decimal_rules() {
    assert_eq!(parse_oid_to_vec("+1.007").unwrap(), vec![1, 7]);
    assert_eq!(parse_oid_to_vec("18446744073709551615").unwrap(), vec![u64::MAX]);
    assert_eq!(
        parse_oid_to_vec("18446744073709551616").unwrap_err().kind,
        ErrorKind::InvalidOidFormat
    );
}

#[test]
fn dotted_decimal_round_trips() {
    let arcs: Vec<u64> = vec![1, 3, 6, 1, 4, 1, 2699, 0, u64::MAX];
    let text = arcs.iter().map(|a| a.to_string()).collect::<Vec<_>>().join(".");
    assert_eq!(parse_oid_to_vec(&text).unwrap(), arcs);
    assert_eq!(parse_oid_to_vec("42").unwrap(), vec![42]);
}
