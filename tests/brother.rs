use inkcheck::brother::{
    find_value_in_brother_bytes, BrotherDriver, BLACK_DRUM_CODE, BLACK_TONER_CODE,
    CYAN_DRUM_CODE, CYAN_TONER_CODE, FUSER_CODE, MAGENTA_DRUM_CODE, MAGENTA_TONER_CODE,
    YELLOW_DRUM_CODE, YELLOW_TONER_CODE,
};
use inkcheck::error::ErrorKind;
use inkcheck::fetch::SlotKey;
use inkcheck::value::SnmpValue;

fn bytes_color() -> Vec<u8> {
    vec![
        0x63, 0x01, 0x04, 0x00, 0x00, 0x00, 0x01, 0x41, 0x01, 0x04, 0x00, 0x00, 0x25, 0x1C,
        0x11, 0x01, 0x04, 0x00, 0x00, 0x06, 0x7B, 0x68, 0x01, 0x04, 0x00, 0x00, 0x00, 0x01,
        0x55, 0x01, 0x04, 0x00, 0x00, 0x00, 0x01, 0x32, 0x01, 0x04, 0x00, 0x00, 0x00, 0x01,
        0x33, 0x01, 0x04, 0x00, 0x00, 0x00, 0x01, 0x34, 0x01, 0x04, 0x00, 0x00, 0x00, 0x01,
        0x31, 0x01, 0x04, 0x00, 0x00, 0x00, 0x01, 0x70, 0x01, 0x04, 0x00, 0x00, 0x10, 0x68,
        0x82, 0x01, 0x04, 0x00, 0x00, 0x00, 0x32, 0x71, 0x01, 0x04, 0x00, 0x00, 0x11, 0x30,
        0x83, 0x01, 0x04, 0x00, 0x00, 0x00, 0x32, 0x72, 0x01, 0x04, 0x00, 0x00, 0x1E, 0xDC,
        0x84, 0x01, 0x04, 0x00, 0x00, 0x00, 0x50, 0x6F, 0x01, 0x04, 0x00, 0x00, 0x10, 0xCC,
        0x81, 0x01, 0x04, 0x00, 0x00, 0x00, 0x32, 0x69, 0x01, 0x04, 0x00, 0x00, 0x26, 0xAC,
        0x67, 0x01, 0x04, 0x00, 0x00, 0x00, 0x01, 0x6B, 0x01, 0x04, 0x00, 0x00, 0x26, 0xAC,
        0x54, 0x01, 0x04, 0x00, 0x00, 0x00, 0x01, 0x6A, 0x01, 0x04, 0x00, 0x00, 0x26, 0xAC,
        0x66, 0x01, 0x04, 0x00, 0x00, 0x00, 0x01, 0x6C, 0x01, 0x04, 0x00, 0x00, 0x27, 0x10,
        0x35, 0x01, 0x04, 0x00, 0x00, 0x00, 0x01, 0x6D, 0x01, 0x04, 0x00, 0x00, 0x26, 0xAC,
        0xFF,
    ]
}

#[test]
fn brother_test_find_value_in_brother_bytes() {
    let bytes_mono = vec![
        0x63, 0x01, 0x04, 0x00, 0x00, 0x00, 0x01, 0x11, 0x01, 0x04, 0x00, 0x00, 0x08, 0x62,
        0x41, 0x01, 0x04, 0x00, 0x00, 0x25, 0x80, 0x31, 0x01, 0x04, 0x00, 0x00, 0x00, 0x01,
        0x6F, 0x01, 0x04, 0x00, 0x00, 0x21, 0xFC, 0x81, 0x01, 0x04, 0x00, 0x00, 0x00, 0x5A,
        0x86, 0x01, 0x04, 0x00, 0x00, 0x00, 0x0A, 0x67, 0x01, 0x04, 0x00, 0x00, 0x00, 0x01,
        0x6B, 0x01, 0x04, 0x00, 0x00, 0x19, 0x64, 0x54, 0x01, 0x04, 0x00, 0x00, 0x00, 0x01,
        0x66, 0x01, 0x04, 0x00, 0x00, 0x00, 0x01, 0x35, 0x01, 0x04, 0x00, 0x00, 0x00, 0x01,
        0x6A, 0x01, 0x04, 0x00, 0x00, 0x19, 0x64, 0x6C, 0x01, 0x04, 0x00, 0x00, 0x27, 0x10,
        0x6D, 0x01, 0x04, 0x00, 0x00, 0x1B, 0xBC, 0xFF,
    ];
    let bytes_color = bytes_color();
    let empty_bytes: Vec<u8> = Vec::new();

    assert_eq!(find_value_in_brother_bytes(&empty_bytes, BLACK_TONER_CODE), None);

    // Mono
    assert_eq!(find_value_in_brother_bytes(&bytes_mono, BLACK_TONER_CODE), Some(87));
    assert_eq!(find_value_in_brother_bytes(&bytes_mono, YELLOW_TONER_CODE), None);

    // Inexistent code in mono
    assert_eq!(find_value_in_brother_bytes(&bytes_mono, 0x99), None);

    // Color
    assert_eq!(find_value_in_brother_bytes(&bytes_color, BLACK_TONER_CODE), Some(43));
    assert_eq!(find_value_in_brother_bytes(&bytes_color, CYAN_TONER_CODE), Some(42));
    assert_eq!(find_value_in_brother_bytes(&bytes_color, MAGENTA_TONER_CODE), Some(44));
    assert_eq!(find_value_in_brother_bytes(&bytes_color, YELLOW_TONER_CODE), Some(79));

    // Drums
    assert_eq!(find_value_in_brother_bytes(&bytes_color, BLACK_DRUM_CODE), Some(95));
    assert_eq!(find_value_in_brother_bytes(&bytes_color, CYAN_DRUM_CODE), None);
    assert_eq!(find_value_in_brother_bytes(&bytes_color, MAGENTA_DRUM_CODE), None);
    assert_eq!(find_value_in_brother_bytes(&bytes_color, YELLOW_DRUM_CODE), None);

    // Fuser
    assert_eq!(find_value_in_brother_bytes(&bytes_color, FUSER_CODE), Some(99));

    // Inexistent code in color
    assert_eq!(find_value_in_brother_bytes(&bytes_color, 0x99), None);
}

#[test]
fn test_find_value_in_old_models() {
    let bytes = vec![
        0x41, 0x01, 0x04, 0x00, 0x00, 0x17, 0x53, 0x82, 0x01, 0x04, 0x00, 0x00, 0x3A, 0x50,
        0x73, 0x01, 0x04, 0x00, 0x00, 0xE1, 0x07, 0x86, 0x01, 0x04, 0x00, 0x00, 0xC3, 0x14,
        0x77, 0x01, 0x04, 0x00, 0x00, 0xE6, 0x86, 0x81, 0x01, 0x04, 0x00, 0x00, 0xE1, 0x07,
        0x89, 0x01, 0x04, 0x00, 0x00, 0xE1, 0x07, 0xFF,
    ];
    let empty_bytes: Vec<u8> = Vec::new();

    assert_eq!(find_value_in_brother_bytes(&empty_bytes, BLACK_DRUM_CODE), None);
    assert_eq!(find_value_in_brother_bytes(&bytes, BLACK_DRUM_CODE), Some(59));
}

#[test]
fn scanner_reads_the_documented_sequence() {
    let blob = vec![0x6F, 0x01, 0x04, 0x00, 0x00, 0x21, 0xFC];
    assert_eq!(find_value_in_brother_bytes(&blob, 0x6F), Some(87));
    assert_eq!(find_value_in_brother_bytes(&blob, 0x70), None);
}

#[test]
fn empty_blob_has_no_value_for_any_code() {
    let empty: Vec<u8> = Vec::new();
    for code in 0..=255u8 {
        assert_eq!(find_value_in_brother_bytes(&empty, code), None);
    }
}

#[test]
fn scanner_needs_four_full_bytes_after_the_marker() {
    assert_eq!(find_value_in_brother_bytes(&[0x6F, 0x01, 0x04, 0x00, 0x00, 0x21], 0x6F), None);
    assert_eq!(find_value_in_brother_bytes(&[0x6F, 0x01, 0x04], 0x6F), None);
    assert_eq!(
        find_value_in_brother_bytes(&[0x6F, 0x01, 0x04, 0xFF, 0xFF, 0xFF, 0xFF], 0x6F),
        Some(42949672)
    );
}

#[test]
fn scanner_uses_the_first_marker() {
    let blob = vec![0x6F, 0x01, 0x04, 0x00, 0x00, 0x00, 0x64, 0x6F, 0x01, 0x04, 0x00, 0x00, 0x27, 0x10];
    assert_eq!(find_value_in_brother_bytes(&blob, 0x6F), Some(1));
}

#[test]
fn brother_compatibility_ignores_case() {
    let d = BrotherDriver;
    assert!(d.is_compatible("Brother HL-L2350DW series"));
    assert!(d.is_compatible("BROTHER MFC-L2710DW"));
    assert!(!d.is_compatible("HP LaserJet 400"));
    assert!(!BrotherDriver::matches_lowered("BROTHER MFC-L2710DW"));
}

#[test]
fn brother_plan_picks_the_blob_of_the_model() {
    let plan = BrotherDriver::plan("Brother HL-L2350DW series");
    assert_eq!(plan.len(), 2);
    assert_eq!(plan[0].slot.key, SlotKey::SerialNumber);
    assert_eq!(plan[0].oid, vec![1, 3, 6, 1, 2, 1, 43, 5, 1, 1, 17, 1]);
    assert_eq!(plan[1].slot.key, SlotKey::MaintenanceBlob);
    assert_eq!(plan[1].oid, vec![1, 3, 6, 1, 4, 1, 2435, 2, 3, 9, 4, 2, 1, 5, 5, 8, 0]);

    let legacy = BrotherDriver::plan("Brother HL-5350DN series");
    assert_eq!(legacy[1].oid, vec![1, 3, 6, 1, 4, 1, 2435, 2, 3, 9, 4, 2, 1, 5, 5, 11, 0]);
}

#[test]
fn brother_assembly_reads_the_blob() {
    let serial = SnmpValue::OctetString(b"E78123".to_vec());
    let blob = SnmpValue::OctetString(bytes_color());
    let p = BrotherDriver::assemble(String::from("Brother HL-L3270CDW"), &serial, &blob, true).unwrap();
    assert_eq!(p.name, "Brother HL-L3270CDW");
    assert_eq!(p.serial_number.as_deref(), Some("E78123"));
    let black = p.toners.black_toner.unwrap();
    assert_eq!((black.level, black.max_level, black.level_percent), (0, 0, Some(43)));
    assert_eq!(p.toners.yellow_toner.unwrap().level_percent, Some(79));
    assert_eq!(p.drums.black_drum.unwrap().level_percent, Some(95));
    assert!(p.drums.cyan_drum.is_none());
    assert_eq!(p.fuser.unwrap().level_percent, Some(99));
    assert!(p.reservoir.is_none());

    let without = BrotherDriver::assemble(String::from("Brother"), &serial, &blob, false).unwrap();
    assert!(without.drums.black_drum.is_none());
    assert_eq!(without.fuser.unwrap().level_percent, Some(99));
}

#[test]
fn brother_assembly_needs_octet_strings() {
    let blob = SnmpValue::OctetString(bytes_color());
    let e = BrotherDriver::assemble(String::from("Brother"), &SnmpValue::Integer(3), &blob, true)
        .unwrap_err();
    assert!(matches!(e.kind, ErrorKind::TypeMismatch(_)));
    let e = BrotherDriver::assemble(
        String::from("Brother"),
        &SnmpValue::OctetString(vec![]),
        &SnmpValue::Null,
        true,
    )
    .unwrap_err();
    assert!(matches!(e.kind, ErrorKind::TypeMismatch(_)));
}
