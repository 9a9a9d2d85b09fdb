use slack_api::json::{Json, parse_json};
use slack_api::decode::{decode_response, DecodeFailure, FromJson};
use slack_api::auth::{RevokeResponse, TestResponse};
use slack_api::users::GetPresenceResponse;

#[test]
fn test_parse_scalars() {
    assert!(matches!(parse_json(b"null"), Some(Json::Null)));
    assert!(matches!(parse_json(b"true"), Some(Json::Bool(true))));
    assert!(matches!(parse_json(b"false"), Some(Json::Bool(false))));
    assert!(matches!(parse_json(b"42"), Some(Json::Num(42))));
    match parse_json(b"\"a b\"") {
        Some(Json::Str(s)) => assert_eq!(s, b"a b".to_vec()),
        other => panic!("unexpected: {:?}", other.is_some()),
    }
}

#[test]
fn test_parse_escapes() {
    match parse_json(b"\"a\\n\\t\\\"b\\\\c\\/\"") {
        Some(Json::Str(s)) => assert_eq!(s, b"a\n\t\"b\\c/".to_vec()),
        _ => panic!("expected a string"),
    }
}

#[test]
fn test_parse_structures() {
    match parse_json(b" { \"a\" : [ 1 , 2 ] , \"b\" : { } } ") {
        Some(Json::Obj(es)) => {
            assert_eq!(es.len(), 2);
            assert_eq!(es[0].0, b"a".to_vec());
            match &es[0].1 {
                Json::Arr(items) => {
                    assert_eq!(items.len(), 2);
                    assert!(matches!(items[0], Json::Num(1)));
                    assert!(matches!(items[1], Json::Num(2)));
                },
                _ => panic!("expected an array"),
            }
            assert_eq!(es[1].0, b"b".to_vec());
            assert!(matches!(&es[1].1, Json::Obj(inner) if inner.is_empty()));
        },
        _ => panic!("expected an object"),
    }
}

#[test]
fn test_parse_rejects_bad_input() {
    assert!(parse_json(b"").is_none());
    assert!(parse_json(b"   ").is_none());
    assert!(parse_json(b"{").is_none());
    assert!(parse_json(b"[1,]").is_none());
    assert!(parse_json(b"{\"a\":1,}").is_none());
    assert!(parse_json(b"1 2").is_none());
    assert!(parse_json(b"-1").is_none());
    assert!(parse_json(b"\"unterminated").is_none());
    // one past the largest representable integer
    assert!(parse_json(b"18446744073709551616").is_none());
    assert!(parse_json(b"18446744073709551615").is_some());
}

#[test]
fn test_success_schema_round_trip() {
    // every field populated, reproduced exactly
    let body = b"{\"ok\":true,\"team\":\"t\",\"team_id\":\"T1\",\"url\":\"https://x\",\"user\":\"u\",\"user_id\":\"U1\"}";
    let r: Result<TestResponse, DecodeFailure> = decode_response(body);
    let v = r.ok().expect("should decode");
    assert_eq!(v.team, "t");
    assert_eq!(v.team_id, "T1");
    assert_eq!(v.url, "https://x");
    assert_eq!(v.user, "u");
    assert_eq!(v.user_id, "U1");
}

#[test]
fn test_success_schema_with_optionals_absent() {
    let r: Result<GetPresenceResponse, DecodeFailure> = decode_response(b"{\"ok\":true}");
    let v = r.ok().expect("should decode");
    assert_eq!(v.presence, None);
}

#[test]
fn test_optional_field_null_or_present() {
    let r: Result<GetPresenceResponse, DecodeFailure> =
        decode_response(b"{\"ok\":true,\"presence\":null}");
    assert_eq!(r.ok().unwrap().presence, None);
    let r: Result<GetPresenceResponse, DecodeFailure> =
        decode_response(b"{\"ok\":true,\"presence\":\"active\"}");
    assert_eq!(r.ok().unwrap().presence, Some("active".to_string()));
}

#[test]
fn test_multibyte_text_survives_decoding() {
    let r: Result<GetPresenceResponse, DecodeFailure> =
        decode_response("{\"ok\":true,\"presence\":\"pr\u{e4}sent\"}".as_bytes());
    assert_eq!(r.ok().unwrap().presence, Some("pr\u{e4}sent".to_string()));
}

#[test]
fn test_known_error_envelope() {
    let r: Result<RevokeResponse, DecodeFailure> =
        decode_response(b"{\"ok\": false, \"error\": \"invalid_auth\"}");
    match r {
        Err(DecodeFailure::ErrorCode(c)) => assert_eq!(c, "invalid_auth"),
        _ => panic!("expected an error code"),
    }
}

#[test]
fn test_unknown_error_code_preserved_verbatim() {
    let r: Result<RevokeResponse, DecodeFailure> =
        decode_response(b"{\"ok\": false, \"error\": \"brand_new_failure\"}");
    match r {
        Err(DecodeFailure::ErrorCode(c)) => assert_eq!(c, "brand_new_failure"),
        _ => panic!("expected an error code"),
    }
}

#[test]
fn test_neither_shape_is_malformed() {
    // an unexpected field breaks the strict schema, and there is no error
    // envelope to fall back to
    let r: Result<GetPresenceResponse, DecodeFailure> =
        decode_response(b"{\"ok\": true, \"unexpected_field\": 1}");
    assert!(matches!(r, Err(DecodeFailure::Malformed(_))));
}

#[test]
fn test_unparseable_bytes_are_malformed() {
    let r: Result<RevokeResponse, DecodeFailure> = decode_response(b"not json at all");
    assert!(matches!(r, Err(DecodeFailure::Malformed(_))));
}

#[test]
fn test_error_field_must_be_a_string() {
    let r: Result<RevokeResponse, DecodeFailure> = decode_response(b"{\"ok\":false,\"error\":7}");
    assert!(matches!(r, Err(DecodeFailure::Malformed(_))));
}

#[test]
fn test_duplicate_keys_break_the_strict_schema() {
    let r: Result<GetPresenceResponse, DecodeFailure> =
        decode_response(b"{\"ok\":true,\"ok\":true}");
    assert!(matches!(r, Err(DecodeFailure::Malformed(_))));
}

#[test]
fn test_stray_error_field_does_not_shadow_success() {
    // success-first: a reply matching the success schema decodes as success
    // even though it also holds an "error"-named member
    let body = b"{\"ok\":true,\"presence\":\"away\"}";
    let r: Result<GetPresenceResponse, DecodeFailure> = decode_response(body);
    assert!(r.is_ok());
}

#[test]
fn test_missing_required_field_fails() {
    let r: Result<RevokeResponse, DecodeFailure> = decode_response(b"{\"ok\":true}");
    assert!(matches!(r, Err(DecodeFailure::Malformed(_))));
}

#[test]
fn test_from_json_is_the_success_stage() {
    let j = parse_json(b"{\"ok\":true,\"revoked\":true}").unwrap();
    let v = RevokeResponse::from_json(&j).unwrap();
    assert!(v.revoked);
}

#[test]
fn test_parse_unicode_escapes() {
    match parse_json(b"\"\\u0041\"") {
        Some(Json::Str(s)) => assert_eq!(s, b"A".to_vec()),
        _ => panic!("expected a string"),
    }
    match parse_json(b"\"\\u00e4\"") {
        Some(Json::Str(s)) => assert_eq!(s, vec![0xc3, 0xa4]),
        _ => panic!("expected a string"),
    }
    match parse_json(b"\"\\u20AC\"") {
        Some(Json::Str(s)) => assert_eq!(s, vec![0xe2, 0x82, 0xac]),
        _ => panic!("expected a string"),
    }
    // a surrogate pair joins into one four-byte code point
    match parse_json(b"\"\\uD83D\\uDE00\"") {
        Some(Json::Str(s)) => assert_eq!(s, vec![0xf0, 0x9f, 0x98, 0x80]),
        _ => panic!("expected a string"),
    }
}

#[test]
fn test_parse_rejects_bad_unicode_escapes() {
    // a lone surrogate, either half
    assert!(parse_json(b"\"\\uD83D\"").is_none());
    assert!(parse_json(b"\"\\uDE00\"").is_none());
    // not hexadecimal, or cut short
    assert!(parse_json(b"\"\\u00zz\"").is_none());
    assert!(parse_json(b"\"\\u00\"").is_none());
}
