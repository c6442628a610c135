use mood_api::errors::Error;
use mood_api::utils::date::{now, Date};
use mood_api::utils::oid::ObjectId;

#[test]
fn identifier_is_written_in_lower_case_hex() {
    let id = ObjectId::from_bytes([0x00, 0x01, 0x0a, 0x0f, 0x10, 0x7f, 0x80, 0xab, 0xcd, 0xef, 0xfe, 0xff]);
    assert_eq!(id.to_hex(), "00010a0f107f80abcdeffeff");
    assert_eq!(id.bytes(), [0x00, 0x01, 0x0a, 0x0f, 0x10, 0x7f, 0x80, 0xab, 0xcd, 0xef, 0xfe, 0xff]);
}

#[test]
fn identifier_is_read_back_from_hex() {
    let id = ObjectId::parse_str("00010a0f107f80abcdeffeff").unwrap();
    assert_eq!(id.bytes(), [0x00, 0x01, 0x0a, 0x0f, 0x10, 0x7f, 0x80, 0xab, 0xcd, 0xef, 0xfe, 0xff]);
    let upper = ObjectId::parse_str("00010A0F107F80ABCDEFFEFF").unwrap();
    assert_eq!(upper, id);
    assert_eq!(ObjectId::parse_str(&id.to_hex()).unwrap(), id);
}

#[test]
fn malformed_identifiers_are_refused() {
    for given in ["", "abc", "00010a0f107f80abcdeffef", "00010a0f107f80abcdeffeff00", "00010a0f107f80abcdeffefg", "éé010a0f107f80abcdeffe"] {
        assert_eq!(
            ObjectId::parse_str(given),
            Err(Error::ParseObjectID(given.to_string()))
        );
    }
}

#[test]
fn identifiers_compare_by_value() {
    let a = ObjectId::from_bytes([1; 12]);
    let b = ObjectId::from_bytes([1; 12]);
    let mut bytes = [1; 12];
    bytes[11] = 2;
    let c = ObjectId::from_bytes(bytes);
    assert_eq!(a, b);
    assert_ne!(a, c);
}

#[test]
fn dates_are_written_as_rfc3339() {
    assert_eq!(Date::from_millis(0).to_rfc3339(), "1970-01-01T00:00:00+00:00");
    assert_eq!(Date::from_millis(1500).to_rfc3339(), "1970-01-01T00:00:01.500+00:00");
    assert_eq!(
        Date::from_millis(1_700_000_000_000).to_rfc3339(),
        "2023-11-14T22:13:20+00:00"
    );
    assert_eq!(Date::from_millis(-1).timestamp_millis(), -1);
}

#[test]
fn the_clock_moves_forward() {
    let first = now();
    let second = now();
    assert!(first.timestamp_millis() > 1_600_000_000_000);
    assert!(second.timestamp_millis() >= first.timestamp_millis());
}
