use std::cell::RefCell;

use slack_api::requests::{Transport, Error};
use slack_api::{api, auth, channels, pins, rtm, team, users};
use slack_api::rtm::StartError;
use slack_api::json::Json;
use slack_api::decode::FromJson;
use slack_api::timestamp::Timestamp;

/// Replies with a canned body, remembering what was sent.
struct FakeTransport {
    body: Vec<u8>,
    seen_url: RefCell<Vec<u8>>,
    seen_params: RefCell<Vec<(String, String)>>,
}

impl FakeTransport {
    fn replying(body: &[u8]) -> FakeTransport {
        FakeTransport {
            body: body.to_vec(),
            seen_url: RefCell::new(Vec::new()),
            seen_params: RefCell::new(Vec::new()),
        }
    }
}

impl Transport for FakeTransport {
    type E = String;

    fn send(&self, url: &Vec<u8>, params: &Vec<(String, String)>) -> Result<Vec<u8>, String> {
        *self.seen_url.borrow_mut() = url.clone();
        *self.seen_params.borrow_mut() = params.clone();
        Ok(self.body.clone())
    }
}

/// Always fails, as a dead network would.
struct DownTransport;

impl Transport for DownTransport {
    type E = String;

    fn send(&self, _url: &Vec<u8>, _params: &Vec<(String, String)>) -> Result<Vec<u8>, String> {
        Err("connection refused".to_string())
    }
}

#[test]
fn test_revoke_round_trip() {
    let client = FakeTransport::replying(b"{\"ok\":true,\"revoked\":false}");
    let req = auth::RevokeRequest { test: Some(true) };
    let resp = auth::revoke(&client, "tok", &req).unwrap();
    assert_eq!(resp.revoked, false);
    assert_eq!(
        client.seen_url.borrow().as_slice(),
        &b"https://slack.com/api/auth.revoke"[..]
    );
    let params = client.seen_params.borrow().clone();
    assert_eq!(
        params,
        vec![
            ("token".to_string(), "tok".to_string()),
            ("test".to_string(), "true".to_string()),
        ]
    );
}

#[test]
fn test_present_field_only_reaches_the_wire() {
    // one optional field present, one absent: only the present key is sent
    let client = FakeTransport::replying(b"{\"ok\":true,\"args\":{\"foo\":\"bar\"}}");
    let req = api::TestRequest { error: None, foo: Some("bar".to_string()) };
    let resp = api::test(&client, "tok", &req).unwrap();
    assert_eq!(resp.args.get("foo").map(|s| s.as_str()), Some("bar"));
    let params = client.seen_params.borrow().clone();
    assert_eq!(
        params,
        vec![
            ("token".to_string(), "tok".to_string()),
            ("foo".to_string(), "bar".to_string()),
        ]
    );
    assert!(params.iter().all(|(k, _)| k != "error"));
}

#[test]
fn test_create_name_taken() {
    let client = FakeTransport::replying(b"{\"ok\":false,\"error\":\"name_taken\"}");
    let req = channels::CreateRequest {
        name: "testchannel".to_string(),
        validate: Some(false),
    };
    match channels::create(&client, "tok", &req) {
        Err(Error::Slack(cause)) => assert_eq!(cause, "name_taken"),
        _ => panic!("expected the remote error to surface"),
    }
    let params = client.seen_params.borrow().clone();
    assert_eq!(
        params,
        vec![
            ("token".to_string(), "tok".to_string()),
            ("name".to_string(), "testchannel".to_string()),
            ("validate".to_string(), "false".to_string()),
        ]
    );
}

#[test]
fn test_set_purpose_echo() {
    let client = FakeTransport::replying(b"{\"ok\":true,\"purpose\":\"test_purpose\"}");
    let req = channels::SetPurposeRequest {
        channel: "C9VGPGBL4".to_string(),
        purpose: "test_purpose".to_string(),
    };
    let resp = channels::set_purpose(&client, "tok", &req).unwrap();
    assert_eq!(resp.purpose, "test_purpose");
}

#[test]
fn test_set_topic_echo() {
    let client = FakeTransport::replying(b"{\"ok\":true,\"topic\":\"test_topic\"}");
    let req = channels::SetTopicRequest {
        channel: "C9VGPGBL4".to_string(),
        topic: "test_topic".to_string(),
    };
    let resp = channels::set_topic(&client, "tok", &req).unwrap();
    assert_eq!(resp.topic, "test_topic");
}

#[test]
fn test_transport_failure_is_returned_undecoded() {
    let req = auth::RevokeRequest { test: None };
    match auth::revoke(&DownTransport, "tok", &req) {
        Err(Error::Client(e)) => assert_eq!(e, "connection refused"),
        _ => panic!("expected the transport failure"),
    }
}

#[test]
fn test_malformed_reply_is_reported() {
    let client = FakeTransport::replying(b"<html>gateway timeout</html>");
    let req = auth::RevokeRequest { test: None };
    match auth::revoke(&client, "tok", &req) {
        Err(Error::MalformedResponse(_)) => {},
        _ => panic!("expected a malformed-response verdict"),
    }
}

#[test]
fn test_history_decodes_messages() {
    let body = b"{\"ok\":true,\"has_more\":false,\"messages\":[{\"ts\":\"123.000456\",\"user\":\"U1\",\"text\":\"hello\"}]}";
    let client = FakeTransport::replying(body);
    let mut req = channels::HistoryRequest::default();
    req.channel = "CAGMCM14K".to_string();
    let resp = channels::history(&client, "tok", &req).unwrap();
    assert_eq!(resp.messages.len(), 1);
    assert_eq!(resp.messages[0].text, Some("hello".to_string()));
    let ts = resp.messages[0].ts.unwrap();
    assert_eq!(ts.seconds(), 123);
    assert_eq!(ts.micros(), Some(456));
}

#[test]
fn test_users_list_with_paging() {
    let body = b"{\"ok\":true,\"members\":[{\"id\":\"U1\",\"name\":\"ada\"},{\"id\":\"U2\"}],\"cache_ts\":99,\"response_metadata\":{\"count\":2}}";
    let client = FakeTransport::replying(body);
    let resp = users::list(&client, "tok", &users::ListRequest::default()).unwrap();
    assert_eq!(resp.members.len(), 2);
    assert_eq!(resp.members[0].name, Some("ada".to_string()));
    assert_eq!(resp.members[1].id, Some("U2".to_string()));
    assert_eq!(resp.cache_ts.unwrap().seconds(), 99);
    assert_eq!(resp.response_metadata.unwrap().count, Some(2));
}

#[test]
fn test_numeric_and_flag_parameters() {
    let client = FakeTransport::replying(b"{\"ok\":true,\"members\":[]}");
    let mut req = users::ListRequest::default();
    req.presence = Some(true);
    req.limit = Some(200);
    users::list(&client, "tok", &req).unwrap();
    let params = client.seen_params.borrow().clone();
    assert_eq!(
        params,
        vec![
            ("token".to_string(), "tok".to_string()),
            ("presence".to_string(), "true".to_string()),
            ("limit".to_string(), "200".to_string()),
        ]
    );
}

#[test]
fn test_pins_tagged_items() {
    let body = b"{\"items\":[{\"type\":\"Message\",\"channel\":\"C1\",\"message\":{\"text\":\"hi\"}},{\"type\":\"File\",\"file\":{\"id\":\"F1\"}}]}";
    let client = FakeTransport::replying(body);
    let req = pins::ListRequest { channel: "C1".to_string() };
    let resp = pins::list(&client, "tok", &req).unwrap();
    let items = resp.items.unwrap();
    assert_eq!(items.len(), 2);
    match &items[0] {
        pins::ListResponseItem::Message(m) => {
            assert_eq!(m.channel, "C1");
            assert_eq!(m.message.text, Some("hi".to_string()));
        },
        _ => panic!("expected a pinned message"),
    }
    match &items[1] {
        pins::ListResponseItem::File(f) => assert_eq!(f.file.id, Some("F1".to_string())),
        _ => panic!("expected a pinned file"),
    }
}

#[test]
fn test_pins_unknown_tag_fails() {
    let body = b"{\"items\":[{\"type\":\"Sticker\"}]}";
    let client = FakeTransport::replying(body);
    let req = pins::ListRequest { channel: "C1".to_string() };
    assert!(matches!(
        pins::list(&client, "tok", &req),
        Err(Error::MalformedResponse(_))
    ));
}

#[test]
fn test_pin_timestamp_parameter_uses_the_dotted_form() {
    let client = FakeTransport::replying(b"{\"ok\":true}");
    let ts = Timestamp::from_json(&Json::Str(b"1525306421.000207".to_vec())).unwrap();
    let req = pins::AddRequest {
        channel: "C1".to_string(),
        file: None,
        timestamp: Some(ts),
    };
    pins::add(&client, "tok", &req).unwrap();
    let params = client.seen_params.borrow().clone();
    assert_eq!(
        params,
        vec![
            ("token".to_string(), "tok".to_string()),
            ("channel".to_string(), "C1".to_string()),
            ("timestamp".to_string(), "1525306421.000207".to_string()),
        ]
    );
}

#[test]
fn test_billable_info_map() {
    let body = b"{\"ok\":true,\"billable_info\":{\"U1\":true,\"U2\":false}}";
    let client = FakeTransport::replying(body);
    let req = team::BillableInfoRequest::default();
    let resp = team::billable_info(&client, "tok", &req).unwrap();
    assert_eq!(resp.billable_info.get("U1"), Some(&true));
    assert_eq!(resp.billable_info.get("U2"), Some(&false));
}

#[test]
fn test_rtm_connect() {
    let body = b"{\"ok\":true,\"self\":{\"id\":\"U1\",\"name\":\"ada\"},\"team\":{\"name\":\"t\"},\"url\":\"wss://x\"}";
    let client = FakeTransport::replying(body);
    let resp = rtm::connect(&client, "tok", &rtm::ConnectRequest::default()).unwrap();
    assert_eq!(resp.slf.id, "U1");
    assert_eq!(resp.team.name, "t");
    assert_eq!(resp.url, "wss://x");
}

#[test]
fn test_rtm_start_success() {
    let body = b"{\"ok\":true,\"url\":\"wss://x\",\"users\":[{\"id\":\"U1\"}]}";
    let client = FakeTransport::replying(body);
    let resp = rtm::start(&client, "tok", &rtm::StartRequest::default()).unwrap();
    assert_eq!(resp.url, Some("wss://x".to_string()));
    assert_eq!(resp.users.unwrap()[0].id, Some("U1".to_string()));
}

#[test]
fn test_rtm_start_encodes_bools_as_digits() {
    let client = FakeTransport::replying(b"{\"ok\":true}");
    let mut req = rtm::StartRequest::default();
    req.no_unreads = Some(true);
    req.include_locale = Some(false);
    rtm::start(&client, "tok", &req).unwrap();
    let params = client.seen_params.borrow().clone();
    assert_eq!(
        params,
        vec![
            ("token".to_string(), "tok".to_string()),
            ("no_unreads".to_string(), "1".to_string()),
            ("include_locale".to_string(), "0".to_string()),
        ]
    );
}

#[test]
fn test_rtm_start_known_error() {
    let body = b"{\"ok\":false,\"error\":\"not_authed\"}";
    let client = FakeTransport::replying(body);
    match rtm::start(&client, "tok", &rtm::StartRequest::default()) {
        Err(StartError::NotAuthed) => {},
        _ => panic!("expected the documented variant"),
    }
}

#[test]
fn test_rtm_start_unknown_error_preserved() {
    let body = b"{\"ok\":false,\"error\":\"flux_capacitor_down\"}";
    let client = FakeTransport::replying(body);
    match rtm::start(&client, "tok", &rtm::StartRequest::default()) {
        Err(StartError::Unknown(code)) => assert_eq!(code, "flux_capacitor_down"),
        _ => panic!("expected the code to be preserved"),
    }
}

#[test]
fn test_rtm_start_missing_error_code() {
    let body = b"{\"ok\":false}";
    let client = FakeTransport::replying(body);
    match rtm::start(&client, "tok", &rtm::StartRequest::default()) {
        Err(StartError::Unknown(code)) => assert_eq!(code, ""),
        _ => panic!("expected the empty code"),
    }
}

#[test]
fn test_start_error_classification_table() {
    let cases: Vec<(&str, StartError<String>)> = vec![
        ("migration_in_progress", StartError::MigrationInProgress),
        ("not_authed", StartError::NotAuthed),
        ("invalid_auth", StartError::InvalidAuth),
        ("account_inactive", StartError::AccountInactive),
        ("invalid_arg_name", StartError::InvalidArgName),
        ("invalid_array_arg", StartError::InvalidArrayArg),
        ("invalid_charset", StartError::InvalidCharset),
        ("invalid_form_data", StartError::InvalidFormData),
        ("invalid_post_type", StartError::InvalidPostType),
        ("missing_post_type", StartError::MissingPostType),
        ("team_added_to_org", StartError::TeamAddedToOrg),
        ("request_timeout", StartError::RequestTimeout),
    ];
    for (code, expected) in cases {
        let got: StartError<String> = StartError::from_code(code);
        assert_eq!(
            std::mem::discriminant(&got),
            std::mem::discriminant(&expected),
            "code {} classified wrongly",
            code
        );
    }
    let got: StartError<String> = StartError::from_code("something_else");
    match got {
        StartError::Unknown(s) => assert_eq!(s, "something_else"),
        _ => panic!("expected Unknown"),
    }
}

#[test]
fn test_start_error_description() {
    let e: StartError<String> = StartError::from_code("not_authed");
    assert_eq!(e.description(), "not_authed: No authentication token provided.");
    let e: StartError<String> = StartError::Unknown("weird".to_string());
    assert_eq!(e.description(), "weird");
}

#[test]
fn test_get_presence() {
    let client = FakeTransport::replying(b"{\"ok\":true,\"presence\":\"away\"}");
    let req = users::GetPresenceRequest { user: "U1".to_string() };
    let resp = users::get_presence(&client, "tok", &req).unwrap();
    assert_eq!(resp.presence, Some("away".to_string()));
}

#[test]
fn test_set_presence_word() {
    let client = FakeTransport::replying(b"{\"ok\":true}");
    let req = users::SetPresenceRequest { presence: users::Presence::Away };
    users::set_presence(&client, "tok", &req).unwrap();
    let params = client.seen_params.borrow().clone();
    assert_eq!(
        params,
        vec![
            ("token".to_string(), "tok".to_string()),
            ("presence".to_string(), "away".to_string()),
        ]
    );
}

#[test]
fn test_auth_test_identity() {
    let body = b"{\"ok\":true,\"team\":\"t\",\"team_id\":\"T1\",\"url\":\"https://x\",\"user\":\"u\",\"user_id\":\"U1\"}";
    let client = FakeTransport::replying(body);
    let resp = auth::test(&client, "tok").unwrap();
    assert_eq!(resp.user_id, "U1");
    assert_eq!(
        client.seen_params.borrow().clone(),
        vec![("token".to_string(), "tok".to_string())]
    );
}

#[test]
fn test_rtm_start_unexpected_field_is_malformed() {
    // strict schema: an undeclared member breaks the snapshot decode, and
    // without an error envelope the reply is malformed
    let body = b"{\"ok\": true, \"unexpected_field\": 1}";
    let client = FakeTransport::replying(body);
    match rtm::start(&client, "tok", &rtm::StartRequest::default()) {
        Err(StartError::MalformedResponse(_)) => {},
        _ => panic!("expected the malformed verdict"),
    }
}

#[test]
fn test_rtm_start_envelope_fallback_is_classified() {
    // the reply misses the snapshot schema but carries the error envelope:
    // the second stage classifies the code
    let body = b"{\"bogus\": 1, \"error\": \"not_authed\"}";
    let client = FakeTransport::replying(body);
    match rtm::start(&client, "tok", &rtm::StartRequest::default()) {
        Err(StartError::NotAuthed) => {},
        _ => panic!("expected the classified code"),
    }
}

#[test]
fn test_rtm_connect_rejects_unexpected_fields() {
    let body = b"{\"ok\":true,\"self\":{\"id\":\"U1\",\"name\":\"ada\"},\"team\":{\"name\":\"t\"},\"url\":\"wss://x\",\"extra\":1}";
    let client = FakeTransport::replying(body);
    match rtm::connect(&client, "tok", &rtm::ConnectRequest::default()) {
        Err(Error::MalformedResponse(_)) => {},
        _ => panic!("expected the malformed verdict"),
    }
}
