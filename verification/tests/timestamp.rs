use slack_api::json::Json;
use slack_api::timestamp::{Timestamp, u32_to_u8s, u8s_to_u32};
use slack_api::decode::FromJson;

fn ts_from(j: &Json) -> Timestamp {
    Timestamp::from_json(j).expect("timestamp should decode")
}

#[test]
fn test_decode_dotted_string_roundtrip() {
    let wire = Json::Str(b"1234567890.123456".to_vec());
    let ts = ts_from(&wire);
    assert_eq!(ts.seconds(), 1234567890);
    assert_eq!(ts.micros(), Some(123456));
    // the dotted form is re-encoded quoted, byte for byte
    assert_eq!(ts.to_wire(), b"\"1234567890.123456\"".to_vec());
    assert_eq!(ts.to_text(), "1234567890.123456");
}

#[test]
fn test_decode_integer_roundtrip() {
    let ts = ts_from(&Json::Num(42));
    assert_eq!(ts.seconds(), 42);
    assert_eq!(ts.micros(), None);
    // bare seconds re-encode without quotes and without a fraction
    assert_eq!(ts.to_wire(), b"42".to_vec());
    assert_eq!(ts.to_text(), "42");
}

#[test]
fn test_decode_string_without_dot_fails() {
    assert!(Timestamp::from_json(&Json::Str(b"abc".to_vec())).is_err());
    assert!(Timestamp::from_json(&Json::Str(b"1234567890".to_vec())).is_err());
}

#[test]
fn test_decode_eighteen_byte_string_fails() {
    let s = b"12345678901.123456".to_vec();
    assert_eq!(s.len(), 18);
    assert!(Timestamp::from_json(&Json::Str(s)).is_err());
}

#[test]
fn test_decode_seventeen_byte_string_succeeds() {
    let s = b"1234567890.123456".to_vec();
    assert_eq!(s.len(), 17);
    assert!(Timestamp::from_json(&Json::Str(s)).is_ok());
}

#[test]
fn test_decode_rejects_other_shapes() {
    assert!(Timestamp::from_json(&Json::Null).is_err());
    assert!(Timestamp::from_json(&Json::Bool(true)).is_err());
    assert!(Timestamp::from_json(&Json::Arr(vec![])).is_err());
    assert!(Timestamp::from_json(&Json::Obj(vec![])).is_err());
}

#[test]
fn test_fraction_bounds() {
    // value above 999999 is out of the fraction's range
    assert!(Timestamp::from_json(&Json::Str(b"1.1000000".to_vec())).is_err());
    let ts = ts_from(&Json::Str(b"1.999999".to_vec()));
    assert_eq!(ts.micros(), Some(999999));
    // a short fraction is read by value and re-encoded zero-padded
    let ts = ts_from(&Json::Str(b"7.5".to_vec()));
    assert_eq!(ts.micros(), Some(5));
    assert_eq!(ts.to_wire(), b"\"7.000005\"".to_vec());
}

#[test]
fn test_nonnumeric_parts_fail() {
    assert!(Timestamp::from_json(&Json::Str(b".5".to_vec())).is_err());
    assert!(Timestamp::from_json(&Json::Str(b"5.".to_vec())).is_err());
    assert!(Timestamp::from_json(&Json::Str(b"5.x".to_vec())).is_err());
    assert!(Timestamp::from_json(&Json::Str(b"x.5".to_vec())).is_err());
    assert!(Timestamp::from_json(&Json::Str(b"1.2.3".to_vec())).is_err());
}

#[test]
fn test_integer_seconds_wrap_to_the_counter() {
    let ts = ts_from(&Json::Num(0x1_0000_0005));
    assert_eq!(ts.seconds(), 5);
}

#[test]
fn test_packing_functions() {
    assert_eq!(u32_to_u8s(123456), [0x01, 0xe2, 0x40]);
    assert_eq!(u8s_to_u32(&[0x01, 0xe2, 0x40]), 123456);
    assert_eq!(u8s_to_u32(&u32_to_u8s(999999)), 999999);
    assert_eq!(u8s_to_u32(&u32_to_u8s(0)), 0);
    // only the low 24 bits survive packing
    assert_eq!(u8s_to_u32(&u32_to_u8s(0x0100_0001)), 1);
}

#[test]
fn test_new_checks_the_fraction() {
    assert!(Timestamp::new(10, Some(1_000_000)).is_none());
    let ts = Timestamp::new(10, Some(999_999)).unwrap();
    assert_eq!(ts.micros(), Some(999_999));
    let ts = Timestamp::new(10, None).unwrap();
    assert_eq!(ts.micros(), None);
}

#[test]
fn test_calendar_display() {
    let ts = ts_from(&Json::Num(1234567890));
    let shown = ts.to_datetime().display();
    assert_eq!(shown, "2009-02-13 23:31:30 UTC");
}

#[test]
fn test_to_json_matches_the_wire_shapes() {
    let ts = ts_from(&Json::Str(b"12.000034".to_vec()));
    match ts.to_json() {
        Json::Str(b) => assert_eq!(b, b"12.000034".to_vec()),
        _ => panic!("expected a string"),
    }
    let ts = ts_from(&Json::Num(9));
    match ts.to_json() {
        Json::Num(n) => assert_eq!(n, 9),
        _ => panic!("expected a number"),
    }
}

#[test]
fn test_rejection_diagnostic_names_the_input() {
    let e = Timestamp::decode(&Json::Str(b"abc".to_vec())).unwrap_err();
    assert!(e.message.ends_with("abc"));
    let e = Timestamp::decode(&Json::Str(b"12345678901.123456".to_vec())).unwrap_err();
    assert!(e.message.ends_with("12345678901.123456"));
    let e = Timestamp::decode(&Json::Str(b"1.1000000".to_vec())).unwrap_err();
    assert!(e.message.ends_with("1.1000000"));
}
