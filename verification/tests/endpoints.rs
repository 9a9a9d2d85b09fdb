use std::cell::RefCell;

use slack_api::requests::Transport;
use slack_api::{auth, channels, team, usergroups_users, users};

struct CannedTransport {
    body: Vec<u8>,
    seen_params: RefCell<Vec<(String, String)>>,
}

impl CannedTransport {
    fn replying(body: &[u8]) -> CannedTransport {
        CannedTransport { body: body.to_vec(), seen_params: RefCell::new(Vec::new()) }
    }
}

impl Transport for CannedTransport {
    type E = String;

    fn send(&self, _url: &Vec<u8>, params: &Vec<(String, String)>) -> Result<Vec<u8>, String> {
        *self.seen_params.borrow_mut() = params.clone();
        Ok(self.body.clone())
    }
}

#[test]
fn test_archive_and_unarchive() {
    let client = CannedTransport::replying(b"{\"ok\":true}");
    let req = channels::ArchiveRequest { channel: "CAGMCM14K".to_string() };
    assert!(channels::archive(&client, "tok", &req).is_ok());
    let req = channels::UnarchiveRequest { channel: "CAGMCM14K".to_string() };
    assert!(channels::unarchive(&client, "tok", &req).is_ok());
}

#[test]
fn test_join_and_leave() {
    let body = b"{\"ok\":true,\"channel\":{\"id\":\"C1\",\"name\":\"general\"},\"already_in_channel\":true}";
    let client = CannedTransport::replying(body);
    let req = channels::JoinRequest { name: "#general".to_string(), validate: None };
    let resp = channels::join(&client, "tok", &req).unwrap();
    assert_eq!(resp.channel.name, Some("general".to_string()));
    assert_eq!(resp.already_in_channel, Some(true));

    let client = CannedTransport::replying(b"{\"ok\":true,\"not_in_channel\":true}");
    let req = channels::LeaveRequest { channel: "C1".to_string() };
    assert!(channels::leave(&client, "tok", &req).is_ok());
}

#[test]
fn test_channel_listing_with_metadata() {
    let body = b"{\"ok\":true,\"channels\":[{\"id\":\"C1\",\"is_archived\":false}],\"response_metadata\":{\"next_cursor\":\"abc\"}}";
    let client = CannedTransport::replying(body);
    let resp = channels::list(&client, "tok", &channels::ListRequest::default()).unwrap();
    assert_eq!(resp.channels.len(), 1);
    assert_eq!(resp.channels[0].is_archived, Some(false));
    assert!(resp.response_metadata.is_some());
}

#[test]
fn test_mark_rename_replies() {
    let client = CannedTransport::replying(b"{\"ok\":true}");
    let req = channels::MarkRequest { channel: "C1".to_string(), ts: "123".to_string() };
    assert!(channels::mark(&client, "tok", &req).is_ok());

    let body = b"{\"ok\":true,\"channel\":{\"id\":\"C1\",\"name\":\"renamed\"}}";
    let client = CannedTransport::replying(body);
    let req = channels::RenameRequest {
        channel: "C1".to_string(),
        name: "renamed".to_string(),
        validate: None,
    };
    let resp = channels::rename(&client, "tok", &req).unwrap();
    assert_eq!(resp.channel.name, Some("renamed".to_string()));

    let body = b"{\"ok\":true,\"has_more\":false,\"messages\":[]}";
    let client = CannedTransport::replying(body);
    let req = channels::RepliesRequest {
        channel: "C1".to_string(),
        thread_ts: "1525306421.000207".to_string(),
    };
    let resp = channels::replies(&client, "tok", &req).unwrap();
    assert_eq!(resp.has_more, false);
    assert!(resp.messages.is_empty());
}

#[test]
fn test_invite_and_kick() {
    let body = b"{\"ok\":true,\"channel\":{\"id\":\"C1\"}}";
    let client = CannedTransport::replying(body);
    let req = channels::InviteRequest { channel: "C1".to_string(), user: "U1".to_string() };
    assert!(channels::invite(&client, "tok", &req).is_ok());

    let client = CannedTransport::replying(b"{\"ok\":true}");
    let req = channels::KickRequest { channel: "C1".to_string(), user: "U1".to_string() };
    assert!(channels::kick(&client, "tok", &req).is_ok());
    assert_eq!(
        client.seen_params.borrow().clone(),
        vec![
            ("token".to_string(), "tok".to_string()),
            ("channel".to_string(), "C1".to_string()),
            ("user".to_string(), "U1".to_string()),
        ]
    );
}

#[test]
fn test_channel_info() {
    let body = b"{\"ok\":true,\"channel\":{\"id\":\"C1\",\"name\":\"general\",\"is_archived\":false}}";
    let client = CannedTransport::replying(body);
    let req = channels::InfoRequest { channel: "C1".to_string(), include_locale: None };
    let resp = channels::info(&client, "tok", &req).unwrap();
    assert_eq!(resp.channel.id, Some("C1".to_string()));
}

#[test]
fn test_team_info() {
    let body = b"{\"ok\":true,\"team\":{\"id\":\"T1\",\"name\":\"t\",\"domain\":\"example\"}}";
    let client = CannedTransport::replying(body);
    let resp = team::info(&client, "tok").unwrap();
    let t = resp.team.unwrap();
    assert_eq!(t.domain, Some("example".to_string()));
}

#[test]
fn test_integration_logs() {
    let body = b"{\"ok\":true,\"logs\":[{\"app_id\":\"A1\",\"change_type\":\"added\"}],\"paging\":{\"page\":1}}";
    let client = CannedTransport::replying(body);
    let req = team::IntegrationLogsRequest::default();
    let resp = team::integration_logs(&client, "tok", &req).unwrap();
    let logs = resp.logs.unwrap();
    assert_eq!(logs[0].app_id, Some("A1".to_string()));
    assert_eq!(resp.paging.unwrap().page, Some(1));
}

#[test]
fn test_usergroup_members() {
    let body = b"{\"ok\":true,\"users\":[\"U1\",\"U2\"]}";
    let client = CannedTransport::replying(body);
    let req = usergroups_users::ListRequest {
        usergroup: "S1".to_string(),
        include_disabled: Some(true),
    };
    let resp = usergroups_users::list(&client, "tok", &req).unwrap();
    assert_eq!(resp.users.unwrap(), vec!["U1".to_string(), "U2".to_string()]);

    let body = b"{\"ok\":true,\"usergroup\":{\"id\":\"S1\",\"name\":\"admins\"}}";
    let client = CannedTransport::replying(body);
    let req = usergroups_users::UpdateRequest {
        usergroup: "S1".to_string(),
        users: "U1,U2".to_string(),
        include_count: None,
    };
    let resp = usergroups_users::update(&client, "tok", &req).unwrap();
    assert_eq!(resp.usergroup.unwrap().name, Some("admins".to_string()));
}

#[test]
fn test_user_identity_and_info() {
    let body = b"{\"ok\":true,\"team\":{\"id\":\"T1\"},\"user\":{\"id\":\"U1\",\"name\":\"ada\"}}";
    let client = CannedTransport::replying(body);
    let resp = users::identity(&client, "tok").unwrap();
    assert_eq!(resp.user.unwrap().name, Some("ada".to_string()));

    let body = b"{\"ok\":true,\"user\":{\"id\":\"U1\"}}";
    let client = CannedTransport::replying(body);
    let req = users::InfoRequest { user: "U1".to_string() };
    let resp = users::info(&client, "tok", &req).unwrap();
    assert_eq!(resp.user.unwrap().id, Some("U1".to_string()));
}

#[test]
fn test_user_prefs() {
    let body = b"{\"ok\":true,\"prefs\":{\"muted_channels\":[\"C1\",\"C2\"]}}";
    let client = CannedTransport::replying(body);
    assert!(users::prefs_get(&client, "tok").is_ok());
}

#[test]
fn test_set_active_acknowledgement() {
    let client = CannedTransport::replying(b"{\"ok\":true}");
    assert!(users::set_active(&client, "tok").is_ok());
    // the bare acknowledgement is strict: an extra field breaks it
    let client = CannedTransport::replying(b"{\"ok\":true,\"extra\":1}");
    assert!(users::set_active(&client, "tok").is_err());
}

#[test]
fn test_auth_revoke_error_envelope() {
    let client = CannedTransport::replying(b"{\"ok\":false,\"error\":\"token_revoked\"}");
    let req = auth::RevokeRequest { test: None };
    match auth::revoke(&client, "tok", &req) {
        Err(slack_api::requests::Error::Slack(c)) => assert_eq!(c, "token_revoked"),
        _ => panic!("expected the error code"),
    }
}
