use slack_api::json::{Json, parse_json};
use slack_api::codec::{decode_struct_or_empty, StringMap, BoolMap, MapDecode};
use slack_api::types::{User, ProfileFields};
use slack_api::decode::FromJson;

fn user_with(profile_json: &str) -> Result<User, ()> {
    let body = format!("{{\"id\":\"U1\",\"profile_fields\":{}}}", profile_json);
    let j = parse_json(body.as_bytes()).expect("test input should parse");
    User::from_json(&j).map_err(|_| ())
}

#[test]
fn test_empty_object_is_the_empty_default() {
    let u = user_with("{}").unwrap();
    let fields = u.profile_fields.expect("an empty map is still a value");
    assert_eq!(fields.len(), 0);
}

#[test]
fn test_empty_array_is_the_empty_default() {
    let u = user_with("[]").unwrap();
    let fields = u.profile_fields.expect("an empty array stands for the empty map");
    assert_eq!(fields.len(), 0);
}

#[test]
fn test_null_is_none() {
    let u = user_with("null").unwrap();
    assert!(u.profile_fields.is_none());
}

#[test]
fn test_absent_key_is_none() {
    let j = parse_json(b"{\"id\":\"U1\"}").unwrap();
    let u = User::from_json(&j).unwrap();
    assert!(u.profile_fields.is_none());
}

#[test]
fn test_populated_array_is_an_error() {
    assert!(user_with("[\"x\"]").is_err());
}

#[test]
fn test_populated_map_decodes_entries() {
    let u = user_with("{\"k\": {\"alt\":\"a\",\"label\":\"b\"}}").unwrap();
    let fields = u.profile_fields.unwrap();
    assert_eq!(fields.len(), 1);
    let f = fields.get("k").expect("the entry is keyed k");
    assert_eq!(f.alt, Some("a".to_string()));
    assert_eq!(f.label, Some("b".to_string()));
    assert_eq!(f.value, None);
    assert!(fields.get("other").is_none());
}

#[test]
fn test_adapter_direct_use() {
    let j = parse_json(b"[]").unwrap();
    let r: Result<Option<ProfileFields>, _> = decode_struct_or_empty(Some(&j));
    assert!(r.unwrap().is_some());
    let r: Result<Option<ProfileFields>, _> = decode_struct_or_empty(None);
    assert!(r.unwrap().is_none());
    let j = Json::Bool(true);
    let r: Result<Option<ProfileFields>, _> = decode_struct_or_empty(Some(&j));
    assert!(r.is_err());
}

#[test]
fn test_string_map_keeps_order_and_lookup() {
    let j = parse_json(b"{\"foo\":\"bar\",\"baz\":\"qux\"}").unwrap();
    let m = match &j {
        Json::Obj(es) => StringMap::decode_from_map(es).unwrap(),
        _ => panic!("expected an object"),
    };
    assert_eq!(m.len(), 2);
    assert_eq!(m.entries[0].0, "foo");
    assert_eq!(m.get("foo").map(|s| s.as_str()), Some("bar"));
    assert_eq!(m.get("baz").map(|s| s.as_str()), Some("qux"));
    assert!(m.get("nope").is_none());
}

#[test]
fn test_string_map_rejects_non_string_values() {
    let j = parse_json(b"{\"foo\":1}").unwrap();
    match &j {
        Json::Obj(es) => assert!(StringMap::decode_from_map(es).is_err()),
        _ => panic!("expected an object"),
    }
}

#[test]
fn test_bool_map() {
    let j = parse_json(b"{\"U1\":true,\"U2\":false}").unwrap();
    let m = match &j {
        Json::Obj(es) => BoolMap::decode_from_map(es).unwrap(),
        _ => panic!("expected an object"),
    };
    assert_eq!(m.get("U1"), Some(&true));
    assert_eq!(m.get("U2"), Some(&false));
    assert_eq!(m.get("U3"), None);
}
