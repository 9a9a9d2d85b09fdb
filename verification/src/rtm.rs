//! Real Time Messaging session endpoints: the lightweight connect
//! handshake, the full session-start snapshot, and the session-start error
//! taxonomy.

use vstd::prelude::*;
use crate::json::{Json, JsonV};
use crate::decode::{
    FromJson, DecodeErr, decode_failure, keys_ok, keys_view, sp_keys_ok, sp_lookup, lookup,
    sp_req_field, sp_opt_field, sp_opt_vec, req_field, opt_field, opt_vec, opt_view,
    opt_vec_view, decode_response, DecodeFailure, sp_response, VerdictV,
};
use vstd::utf8::decode_utf8;
use crate::requests::{
    Transport, Error, ToParams, call_contract, call_method, bool_tf, bool_01, bool_string,
    bool01_string, get_slack_url_for_method, sent_params,
};
use crate::codec::pair_views;
use crate::text::str_eq;
use crate::types::{Bot, BotV, Channel, ChannelV, Group, GroupV, Im, ImV, Mpim, MpimV, Team, TeamV, User, UserV};
use vstd::string::StringSliceAdditionalSpecFns;

verus! {

/// Asks for a Real Time Messaging session URL.
#[derive(Clone, Default, Debug)]
pub struct ConnectRequest {
    pub batch_presence_aware: Option<bool>,
    pub presence_sub: Option<bool>,
}

impl ToParams for ConnectRequest {
    open spec fn spec_params(&self) -> Seq<(Seq<char>, Seq<char>)> {
        (match self.batch_presence_aware {
                    Some(b) => seq![(("batch_presence_aware")@, bool_tf(b))],
                    None => seq![],
            }) + (match self.presence_sub {
                    Some(b) => seq![(("presence_sub")@, bool_tf(b))],
                    None => seq![],
            })
    }

    fn to_params(&self) -> (r: Vec<(String, String)>) {
        let mut out: Vec<(String, String)> = Vec::new();
        match self.batch_presence_aware {
            Some(b) => {
                out.push(("batch_presence_aware".to_owned(), bool_string(b)));
            },
            None => {},
        }
        match self.presence_sub {
            Some(b) => {
                out.push(("presence_sub".to_owned(), bool_string(b)));
            },
            None => {},
        }
        proof {
            assert(pair_views(out@) =~= self.spec_params());
        }
        out
    }
}

/// The connecting user, as the session handshake reports it.
#[derive(Clone, Debug)]
pub struct ConnectResponseSelf {
    pub id: String,
    pub name: String,
}

/// The view of a `ConnectResponseSelf`.
pub struct ConnectResponseSelfV {
    pub id: Seq<char>,
    pub name: Seq<char>,
}

impl View for ConnectResponseSelf {
    type V = ConnectResponseSelfV;

    open spec fn view(&self) -> ConnectResponseSelfV {
        ConnectResponseSelfV {
            id: self.id@,
            name: self.name@,
        }
    }
}

impl FromJson for ConnectResponseSelf {
    open spec fn from_json_spec(j: JsonV) -> Option<ConnectResponseSelfV> {
        match j {
            JsonV::Obj(es) => if sp_keys_ok(es, seq![("id").spec_bytes(), ("name").spec_bytes()]) {
                    match sp_req_field::<String>(es, ("id").spec_bytes()) {
                        Some(id) => match sp_req_field::<String>(es, ("name").spec_bytes()) {
                            Some(name) => Some(ConnectResponseSelfV { id, name }),
                            None => None,
                        },
                        None => None,
                    }
                } else {
                    None
                },
            _ => None,
        }
    }

    fn from_json(j: &Json) -> (r: Result<Self, DecodeErr>) {
        broadcast use crate::json::lemma_view_obj;

        let es = match j {
            Json::Obj(es) => es,
            _ => {
                return Err(decode_failure());
            },
        };
        let mut allowed: Vec<&str> = Vec::new();
        allowed.push("id");
        allowed.push("name");
        proof {
            assert(keys_view(allowed@) =~= seq![("id").spec_bytes(), ("name").spec_bytes()]);
        }
        if !keys_ok(es, &allowed) {
            return Err(decode_failure());
        }
        let id = match req_field::<String>(es, "id") {
            Ok(v) => v,
            Err(e) => {
                return Err(e);
            },
        };
        let name = match req_field::<String>(es, "name") {
            Ok(v) => v,
            Err(e) => {
                return Err(e);
            },
        };
        Ok(ConnectResponseSelf { id, name })
    }
}

/// The team, as the session handshake reports it.
#[derive(Clone, Debug)]
pub struct ConnectResponseTeam {
    pub domain: Option<String>,
    pub enterprise_id: Option<String>,
    pub enterprise_name: Option<String>,
    pub id: Option<String>,
    pub name: String,
}

/// The view of a `ConnectResponseTeam`.
pub struct ConnectResponseTeamV {
    pub domain: Option<Seq<char>>,
    pub enterprise_id: Option<Seq<char>>,
    pub enterprise_name: Option<Seq<char>>,
    pub id: Option<Seq<char>>,
    pub name: Seq<char>,
}

impl View for ConnectResponseTeam {
    type V = ConnectResponseTeamV;

    open spec fn view(&self) -> ConnectResponseTeamV {
        ConnectResponseTeamV {
            domain: opt_view(self.domain),
            enterprise_id: opt_view(self.enterprise_id),
            enterprise_name: opt_view(self.enterprise_name),
            id: opt_view(self.id),
            name: self.name@,
        }
    }
}

impl FromJson for ConnectResponseTeam {
    open spec fn from_json_spec(j: JsonV) -> Option<ConnectResponseTeamV> {
        match j {
            JsonV::Obj(es) => if sp_keys_ok(es, seq![("domain").spec_bytes(), ("enterprise_id").spec_bytes(), ("enterprise_name").spec_bytes(), ("id").spec_bytes(), ("name").spec_bytes()]) {
                    match sp_opt_field::<String>(es, ("domain").spec_bytes()) {
                        Some(domain) => match sp_opt_field::<String>(es, ("enterprise_id").spec_bytes()) {
                            Some(enterprise_id) => match sp_opt_field::<String>(es, ("enterprise_name").spec_bytes()) {
                                Some(enterprise_name) => match sp_opt_field::<String>(es, ("id").spec_bytes()) {
                                    Some(id) => match sp_req_field::<String>(es, ("name").spec_bytes()) {
                                        Some(name) => Some(ConnectResponseTeamV { domain, enterprise_id, enterprise_name, id, name }),
                                        None => None,
                                    },
                                    None => None,
                                },
                                None => None,
                            },
                            None => None,
                        },
                        None => None,
                    }
                } else {
                    None
                },
            _ => None,
        }
    }

    fn from_json(j: &Json) -> (r: Result<Self, DecodeErr>) {
        broadcast use crate::json::lemma_view_obj;

        let es = match j {
            Json::Obj(es) => es,
            _ => {
                return Err(decode_failure());
            },
        };
        let mut allowed: Vec<&str> = Vec::new();
        allowed.push("domain");
        allowed.push("enterprise_id");
        allowed.push("enterprise_name");
        allowed.push("id");
        allowed.push("name");
        proof {
            assert(keys_view(allowed@) =~= seq![("domain").spec_bytes(), ("enterprise_id").spec_bytes(), ("enterprise_name").spec_bytes(), ("id").spec_bytes(), ("name").spec_bytes()]);
        }
        if !keys_ok(es, &allowed) {
            return Err(decode_failure());
        }
        let domain = match opt_field::<String>(es, "domain") {
            Ok(v) => v,
            Err(e) => {
                return Err(e);
            },
        };
        let enterprise_id = match opt_field::<String>(es, "enterprise_id") {
            Ok(v) => v,
            Err(e) => {
                return Err(e);
            },
        };
        let enterprise_name = match opt_field::<String>(es, "enterprise_name") {
            Ok(v) => v,
            Err(e) => {
                return Err(e);
            },
        };
        let id = match opt_field::<String>(es, "id") {
            Ok(v) => v,
            Err(e) => {
                return Err(e);
            },
        };
        let name = match req_field::<String>(es, "name") {
            Ok(v) => v,
            Err(e) => {
                return Err(e);
            },
        };
        Ok(ConnectResponseTeam { domain, enterprise_id, enterprise_name, id, name })
    }
}

/// A fresh session: who connected, to which team, and the socket URL.
#[derive(Clone, Debug)]
pub struct ConnectResponse {
    ok: bool,
    pub slf: ConnectResponseSelf,
    pub team: ConnectResponseTeam,
    pub url: String,
}

/// The view of a `ConnectResponse`.
pub struct ConnectResponseV {
    pub ok: bool,
    pub slf: ConnectResponseSelfV,
    pub team: ConnectResponseTeamV,
    pub url: Seq<char>,
}

impl View for ConnectResponse {
    type V = ConnectResponseV;

    closed spec fn view(&self) -> ConnectResponseV {
        ConnectResponseV {
            ok: self.ok,
            slf: self.slf@,
            team: self.team@,
            url: self.url@,
        }
    }
}

impl FromJson for ConnectResponse {
    open spec fn from_json_spec(j: JsonV) -> Option<ConnectResponseV> {
        match j {
            JsonV::Obj(es) => if sp_keys_ok(es, seq![("ok").spec_bytes(), ("self").spec_bytes(), ("team").spec_bytes(), ("url").spec_bytes()]) {
                    match sp_req_field::<bool>(es, ("ok").spec_bytes()) {
                        Some(ok) => match sp_req_field::<ConnectResponseSelf>(es, ("self").spec_bytes()) {
                            Some(slf) => match sp_req_field::<ConnectResponseTeam>(es, ("team").spec_bytes()) {
                                Some(team) => match sp_req_field::<String>(es, ("url").spec_bytes()) {
                                    Some(url) => Some(ConnectResponseV { ok, slf, team, url }),
                                    None => None,
                                },
                                None => None,
                            },
                            None => None,
                        },
                        None => None,
                    }
                } else {
                    None
                },
            _ => None,
        }
    }

    fn from_json(j: &Json) -> (r: Result<Self, DecodeErr>) {
        broadcast use crate::json::lemma_view_obj;

        let es = match j {
            Json::Obj(es) => es,
            _ => {
                return Err(decode_failure());
            },
        };
        let mut allowed: Vec<&str> = Vec::new();
        allowed.push("ok");
        allowed.push("self");
        allowed.push("team");
        allowed.push("url");
        proof {
            assert(keys_view(allowed@) =~= seq![("ok").spec_bytes(), ("self").spec_bytes(), ("team").spec_bytes(), ("url").spec_bytes()]);
        }
        if !keys_ok(es, &allowed) {
            return Err(decode_failure());
        }
        let ok = match req_field::<bool>(es, "ok") {
            Ok(v) => v,
            Err(e) => {
                return Err(e);
            },
        };
        let slf = match req_field::<ConnectResponseSelf>(es, "self") {
            Ok(v) => v,
            Err(e) => {
                return Err(e);
            },
        };
        let team = match req_field::<ConnectResponseTeam>(es, "team") {
            Ok(v) => v,
            Err(e) => {
                return Err(e);
            },
        };
        let url = match req_field::<String>(es, "url") {
            Ok(v) => v,
            Err(e) => {
                return Err(e);
            },
        };
        Ok(ConnectResponse { ok, slf, team, url })
    }
}

/// Starts a Real Time Messaging session.
///
/// Wraps the remote method `rtm.connect`.
pub fn connect<C: Transport>(client: &C, token: &str, req: &ConnectRequest) -> (r: Result<
    ConnectResponse,
    Error<<C as Transport>::E>,
>)
    ensures
        call_contract::<ConnectResponse, <C as Transport>::E>(r),
{
    proof {
        reveal_strlit("rtm.connect");
    }
    call_method(client, token, "rtm.connect", req)
}

/// Asks for a full Real Time Messaging session snapshot; this method spells its booleans 1/0 on the wire.
#[derive(Clone, Default, Debug)]
pub struct StartRequest {
    pub no_unreads: Option<bool>,
    pub mpim_aware: Option<bool>,
    pub no_latest: Option<bool>,
    pub batch_presence_aware: Option<bool>,
    pub include_locale: Option<bool>,
}

impl ToParams for StartRequest {
    open spec fn spec_params(&self) -> Seq<(Seq<char>, Seq<char>)> {
        (match self.no_unreads {
                    Some(b) => seq![(("no_unreads")@, bool_01(b))],
                    None => seq![],
            }) + (match self.mpim_aware {
                    Some(b) => seq![(("mpim_aware")@, bool_01(b))],
                    None => seq![],
            }) + (match self.no_latest {
                    Some(b) => seq![(("no_latest")@, bool_01(b))],
                    None => seq![],
            }) + (match self.batch_presence_aware {
                    Some(b) => seq![(("batch_presence_aware")@, bool_01(b))],
                    None => seq![],
            }) + (match self.include_locale {
                    Some(b) => seq![(("include_locale")@, bool_01(b))],
                    None => seq![],
            })
    }

    fn to_params(&self) -> (r: Vec<(String, String)>) {
        let mut out: Vec<(String, String)> = Vec::new();
        match self.no_unreads {
            Some(b) => {
                out.push(("no_unreads".to_owned(), bool01_string(b)));
            },
            None => {},
        }
        match self.mpim_aware {
            Some(b) => {
                out.push(("mpim_aware".to_owned(), bool01_string(b)));
            },
            None => {},
        }
        match self.no_latest {
            Some(b) => {
                out.push(("no_latest".to_owned(), bool01_string(b)));
            },
            None => {},
        }
        match self.batch_presence_aware {
            Some(b) => {
                out.push(("batch_presence_aware".to_owned(), bool01_string(b)));
            },
            None => {},
        }
        match self.include_locale {
            Some(b) => {
                out.push(("include_locale".to_owned(), bool01_string(b)));
            },
            None => {},
        }
        proof {
            assert(pair_views(out@) =~= self.spec_params());
        }
        out
    }
}

/// The session snapshot; the ok flag defaults to false when absent, and the error field carries the failure code of an ok-false reply.
#[derive(Clone, Debug)]
pub struct StartResponse {
    pub bots: Option<Vec<Bot>>,
    pub channels: Option<Vec<Channel>>,
    error: Option<String>,
    pub groups: Option<Vec<Group>>,
    pub ims: Option<Vec<Im>>,
    pub mpims: Option<Vec<Mpim>>,
    ok: bool,
    pub slf: Option<User>,
    pub team: Option<Team>,
    pub url: Option<String>,
    pub users: Option<Vec<User>>,
}

/// The view of a `StartResponse`.
pub struct StartResponseV {
    pub bots: Option<Seq<BotV>>,
    pub channels: Option<Seq<ChannelV>>,
    pub error: Option<Seq<char>>,
    pub groups: Option<Seq<GroupV>>,
    pub ims: Option<Seq<ImV>>,
    pub mpims: Option<Seq<MpimV>>,
    pub ok: bool,
    pub slf: Option<UserV>,
    pub team: Option<TeamV>,
    pub url: Option<Seq<char>>,
    pub users: Option<Seq<UserV>>,
}

impl View for StartResponse {
    type V = StartResponseV;

    closed spec fn view(&self) -> StartResponseV {
        StartResponseV {
            bots: opt_vec_view(self.bots),
            channels: opt_vec_view(self.channels),
            error: opt_view(self.error),
            groups: opt_vec_view(self.groups),
            ims: opt_vec_view(self.ims),
            mpims: opt_vec_view(self.mpims),
            ok: self.ok,
            slf: opt_view(self.slf),
            team: opt_view(self.team),
            url: opt_view(self.url),
            users: opt_vec_view(self.users),
        }
    }
}

impl FromJson for StartResponse {
    open spec fn from_json_spec(j: JsonV) -> Option<StartResponseV> {
        match j {
            JsonV::Obj(es) => if sp_keys_ok(es, seq![("bots").spec_bytes(), ("channels").spec_bytes(), ("error").spec_bytes(), ("groups").spec_bytes(), ("ims").spec_bytes(), ("mpims").spec_bytes(), ("ok").spec_bytes(), ("self").spec_bytes(), ("team").spec_bytes(), ("url").spec_bytes(), ("users").spec_bytes()]) {
                    match sp_opt_vec::<Bot>(es, ("bots").spec_bytes()) {
                        Some(bots) => match sp_opt_vec::<Channel>(es, ("channels").spec_bytes()) {
                            Some(channels) => match sp_opt_field::<String>(es, ("error").spec_bytes()) {
                                Some(error) => match sp_opt_vec::<Group>(es, ("groups").spec_bytes()) {
                                    Some(groups) => match sp_opt_vec::<Im>(es, ("ims").spec_bytes()) {
                                        Some(ims) => match sp_opt_vec::<Mpim>(es, ("mpims").spec_bytes()) {
                                            Some(mpims) => match sp_lookup(es, ("ok").spec_bytes()) {
                                                None => { let ok = false; match sp_opt_field::<User>(es, ("self").spec_bytes()) {
                                                        Some(slf) => match sp_opt_field::<Team>(es, ("team").spec_bytes()) {
                                                            Some(team) => match sp_opt_field::<String>(es, ("url").spec_bytes()) {
                                                                Some(url) => match sp_opt_vec::<User>(es, ("users").spec_bytes()) {
                                                                    Some(users) => Some(StartResponseV { bots, channels, error, groups, ims, mpims, ok, slf, team, url, users }),
                                                                    None => None,
                                                                },
                                                                None => None,
                                                            },
                                                            None => None,
                                                        },
                                                        None => None,
                                                    } },
                                                Some(JsonV::Bool(b)) => { let ok = b; match sp_opt_field::<User>(es, ("self").spec_bytes()) {
                                                        Some(slf) => match sp_opt_field::<Team>(es, ("team").spec_bytes()) {
                                                            Some(team) => match sp_opt_field::<String>(es, ("url").spec_bytes()) {
                                                                Some(url) => match sp_opt_vec::<User>(es, ("users").spec_bytes()) {
                                                                    Some(users) => Some(StartResponseV { bots, channels, error, groups, ims, mpims, ok, slf, team, url, users }),
                                                                    None => None,
                                                                },
                                                                None => None,
                                                            },
                                                            None => None,
                                                        },
                                                        None => None,
                                                    } },
                                                Some(_) => None,
                                            },
                                            None => None,
                                        },
                                        None => None,
                                    },
                                    None => None,
                                },
                                None => None,
                            },
                            None => None,
                        },
                        None => None,
                    }
                } else {
                    None
                },
            _ => None,
        }
    }

    fn from_json(j: &Json) -> (r: Result<Self, DecodeErr>) {
        broadcast use crate::json::lemma_view_obj;

        let es = match j {
            Json::Obj(es) => es,
            _ => {
                return Err(decode_failure());
            },
        };
        let mut allowed: Vec<&str> = Vec::new();
        allowed.push("bots");
        allowed.push("channels");
        allowed.push("error");
        allowed.push("groups");
        allowed.push("ims");
        allowed.push("mpims");
        allowed.push("ok");
        allowed.push("self");
        allowed.push("team");
        allowed.push("url");
        allowed.push("users");
        proof {
            assert(keys_view(allowed@) =~= seq![("bots").spec_bytes(), ("channels").spec_bytes(), ("error").spec_bytes(), ("groups").spec_bytes(), ("ims").spec_bytes(), ("mpims").spec_bytes(), ("ok").spec_bytes(), ("self").spec_bytes(), ("team").spec_bytes(), ("url").spec_bytes(), ("users").spec_bytes()]);
        }
        if !keys_ok(es, &allowed) {
            return Err(decode_failure());
        }
        let bots = match opt_vec::<Bot>(es, "bots") {
            Ok(v) => v,
            Err(e) => {
                return Err(e);
            },
        };
        let channels = match opt_vec::<Channel>(es, "channels") {
            Ok(v) => v,
            Err(e) => {
                return Err(e);
            },
        };
        let error = match opt_field::<String>(es, "error") {
            Ok(v) => v,
            Err(e) => {
                return Err(e);
            },
        };
        let groups = match opt_vec::<Group>(es, "groups") {
            Ok(v) => v,
            Err(e) => {
                return Err(e);
            },
        };
        let ims = match opt_vec::<Im>(es, "ims") {
            Ok(v) => v,
            Err(e) => {
                return Err(e);
            },
        };
        let mpims = match opt_vec::<Mpim>(es, "mpims") {
            Ok(v) => v,
            Err(e) => {
                return Err(e);
            },
        };
        let ok = match lookup(es, "ok".as_bytes()) {
            None => false,
            Some(vj) => match vj {
                Json::Bool(b) => *b,
                _ => {
                    return Err(decode_failure());
                },
            },
        };
        let slf = match opt_field::<User>(es, "self") {
            Ok(v) => v,
            Err(e) => {
                return Err(e);
            },
        };
        let team = match opt_field::<Team>(es, "team") {
            Ok(v) => v,
            Err(e) => {
                return Err(e);
            },
        };
        let url = match opt_field::<String>(es, "url") {
            Ok(v) => v,
            Err(e) => {
                return Err(e);
            },
        };
        let users = match opt_vec::<User>(es, "users") {
            Ok(v) => v,
            Err(e) => {
                return Err(e);
            },
        };
        Ok(StartResponse { bots, channels, error, groups, ims, mpims, ok, slf, team, url, users })
    }
}

/// The failure taxonomy of the session-start family: the documented remote
/// failure reasons as named variants, plus the catch-all kinds every call
/// can produce.
#[derive(Debug)]
pub enum StartError<E> {
    /// Team is being migrated between servers.
    MigrationInProgress,
    /// No authentication token provided.
    NotAuthed,
    /// Invalid authentication token.
    InvalidAuth,
    /// Authentication token is for a deleted user or team.
    AccountInactive,
    /// The method was passed an argument whose name falls outside the
    /// bounds of common decency.
    InvalidArgName,
    /// The method was passed a PHP-style array argument.
    InvalidArrayArg,
    /// The charset specified in the Content-Type header was invalid.
    InvalidCharset,
    /// The form data was either missing or syntactically invalid.
    InvalidFormData,
    /// The specified Content-Type was invalid.
    InvalidPostType,
    /// The request did not include a Content-Type header.
    MissingPostType,
    /// The team is undergoing migration to an Enterprise Organization.
    TeamAddedToOrg,
    /// The POST data was either missing or truncated.
    RequestTimeout,
    /// The reply was not parseable as the expected object.
    MalformedResponse(String),
    /// The reply carried an error code unknown to this library, preserved
    /// verbatim.
    Unknown(String),
    /// The transport failed to carry the request.
    Client(E),
}

/// Whether `code` is one of the documented failure reasons of this family.
pub open spec fn is_known_code(code: Seq<char>) -> bool {
    ||| code == ("migration_in_progress")@
    ||| code == ("not_authed")@
    ||| code == ("invalid_auth")@
    ||| code == ("account_inactive")@
    ||| code == ("invalid_arg_name")@
    ||| code == ("invalid_array_arg")@
    ||| code == ("invalid_charset")@
    ||| code == ("invalid_form_data")@
    ||| code == ("invalid_post_type")@
    ||| code == ("missing_post_type")@
    ||| code == ("team_added_to_org")@
    ||| code == ("request_timeout")@
}

/// Whether `e` is the classification of the raw failure code `code`: each
/// documented code maps to its own variant, and any other code is kept
/// verbatim under `Unknown`.
pub open spec fn classifies<E>(e: StartError<E>, code: Seq<char>) -> bool {
    match e {
        StartError::MigrationInProgress => code == ("migration_in_progress")@,
        StartError::NotAuthed => code == ("not_authed")@,
        StartError::InvalidAuth => code == ("invalid_auth")@,
        StartError::AccountInactive => code == ("account_inactive")@,
        StartError::InvalidArgName => code == ("invalid_arg_name")@,
        StartError::InvalidArrayArg => code == ("invalid_array_arg")@,
        StartError::InvalidCharset => code == ("invalid_charset")@,
        StartError::InvalidFormData => code == ("invalid_form_data")@,
        StartError::InvalidPostType => code == ("invalid_post_type")@,
        StartError::MissingPostType => code == ("missing_post_type")@,
        StartError::TeamAddedToOrg => code == ("team_added_to_org")@,
        StartError::RequestTimeout => code == ("request_timeout")@,
        StartError::Unknown(s) => s@ == code && !is_known_code(code),
        StartError::MalformedResponse(_) => false,
        StartError::Client(_) => false,
    }
}


/// The exact wording `description` returns for each failure: the documented
/// code and its explanation for a named variant, the carried text for the
/// catch-all kinds.
pub open spec fn sp_description<E>(e: StartError<E>) -> Seq<char> {
    match e {
        StartError::MigrationInProgress => ("migration_in_progress: Team is being migrated between servers.")@,
        StartError::NotAuthed => ("not_authed: No authentication token provided.")@,
        StartError::InvalidAuth => ("invalid_auth: Invalid authentication token.")@,
        StartError::AccountInactive => ("account_inactive: Authentication token is for a deleted user or team.")@,
        StartError::InvalidArgName => ("invalid_arg_name: The method was passed an argument whose name falls outside the bounds of common decency.")@,
        StartError::InvalidArrayArg => ("invalid_array_arg: The method was passed a PHP-style array argument (e.g. with a name like foo[7]). These are never valid with the Slack API.")@,
        StartError::InvalidCharset => ("invalid_charset: The method was called via a POST request, but the charset specified in the Content-Type header was invalid. Valid charset names are: utf-8 iso-8859-1.")@,
        StartError::InvalidFormData => ("invalid_form_data: The method was called via a POST request with Content-Type application/x-www-form-urlencoded or multipart/form-data, but the form data was either missing or syntactically invalid.")@,
        StartError::InvalidPostType => ("invalid_post_type: The method was called via a POST request, but the specified Content-Type was invalid. Valid types are: application/x-www-form-urlencoded multipart/form-data text/plain.")@,
        StartError::MissingPostType => ("missing_post_type: The method was called via a POST request and included a data payload, but the request did not include a Content-Type header.")@,
        StartError::TeamAddedToOrg => ("team_added_to_org: The team associated with your request is currently undergoing migration to an Enterprise Organization. Web API and other platform operations will be intermittently unavailable until the transition is complete.")@,
        StartError::RequestTimeout => ("request_timeout: The method was called via a POST request, but the POST data was either missing or truncated.")@,
        StartError::MalformedResponse(m) => m@,
        StartError::Unknown(s) => s@,
        StartError::Client(_) => ("the transport failed to carry the request")@,
    }
}

impl<E> StartError<E> {
    /// Classifies a raw failure code against the documented set; an
    /// undocumented code is preserved verbatim.
    pub fn from_code(code: &str) -> (r: StartError<E>)
        ensures
            classifies(r, code@),
    {
        if str_eq(code, "migration_in_progress") {
            StartError::MigrationInProgress
        } else if str_eq(code, "not_authed") {
            StartError::NotAuthed
        } else if str_eq(code, "invalid_auth") {
            StartError::InvalidAuth
        } else if str_eq(code, "account_inactive") {
            StartError::AccountInactive
        } else if str_eq(code, "invalid_arg_name") {
            StartError::InvalidArgName
        } else if str_eq(code, "invalid_array_arg") {
            StartError::InvalidArrayArg
        } else if str_eq(code, "invalid_charset") {
            StartError::InvalidCharset
        } else if str_eq(code, "invalid_form_data") {
            StartError::InvalidFormData
        } else if str_eq(code, "invalid_post_type") {
            StartError::InvalidPostType
        } else if str_eq(code, "missing_post_type") {
            StartError::MissingPostType
        } else if str_eq(code, "team_added_to_org") {
            StartError::TeamAddedToOrg
        } else if str_eq(code, "request_timeout") {
            StartError::RequestTimeout
        } else {
            StartError::Unknown(code.to_owned())
        }
    }

    /// A human-readable account of the failure.
    pub fn description(&self) -> (r: String)
        ensures
            r@ == sp_description(*self),
    {
        match self {
            StartError::MigrationInProgress => "migration_in_progress: Team is being migrated between servers.".to_owned(),
            StartError::NotAuthed => "not_authed: No authentication token provided.".to_owned(),
            StartError::InvalidAuth => "invalid_auth: Invalid authentication token.".to_owned(),
            StartError::AccountInactive => "account_inactive: Authentication token is for a deleted user or team.".to_owned(),
            StartError::InvalidArgName => "invalid_arg_name: The method was passed an argument whose name falls outside the bounds of common decency.".to_owned(),
            StartError::InvalidArrayArg => "invalid_array_arg: The method was passed a PHP-style array argument (e.g. with a name like foo[7]). These are never valid with the Slack API.".to_owned(),
            StartError::InvalidCharset => "invalid_charset: The method was called via a POST request, but the charset specified in the Content-Type header was invalid. Valid charset names are: utf-8 iso-8859-1.".to_owned(),
            StartError::InvalidFormData => "invalid_form_data: The method was called via a POST request with Content-Type application/x-www-form-urlencoded or multipart/form-data, but the form data was either missing or syntactically invalid.".to_owned(),
            StartError::InvalidPostType => "invalid_post_type: The method was called via a POST request, but the specified Content-Type was invalid. Valid types are: application/x-www-form-urlencoded multipart/form-data text/plain.".to_owned(),
            StartError::MissingPostType => "missing_post_type: The method was called via a POST request and included a data payload, but the request did not include a Content-Type header.".to_owned(),
            StartError::TeamAddedToOrg => "team_added_to_org: The team associated with your request is currently undergoing migration to an Enterprise Organization. Web API and other platform operations will be intermittently unavailable until the transition is complete.".to_owned(),
            StartError::RequestTimeout => "request_timeout: The method was called via a POST request, but the POST data was either missing or truncated.".to_owned(),
            StartError::MalformedResponse(m) => m.clone(),
            StartError::Unknown(s) => s.clone(),
            StartError::Client(_) => "the transport failed to carry the request".to_owned(),
        }
    }
}

/// A known code classifies to its named variant, never to `Unknown`; an
/// unknown code classifies to `Unknown` with the string preserved
/// unchanged.
pub proof fn lemma_code_taxonomy<E>(e: StartError<E>, code: Seq<char>)
    requires
        classifies(e, code),
    ensures
        is_known_code(code) ==> !(e matches StartError::Unknown(_)),
        !is_known_code(code) ==> (e matches StartError::Unknown(s) && s@ == code),
{
}

/// The failure code a session snapshot reports (the empty string when an
/// ok-false reply carries none).
pub open spec fn err_code_of(sv: StartResponseV) -> Seq<char> {
    match sv.error {
        Some(c) => c,
        None => ("")@,
    }
}

impl StartResponse {
    /// Folds the ok flag into a result: an ok-true snapshot passes through
    /// unchanged, and an ok-false one becomes the classification of its
    /// failure code.
    pub fn into_result<E>(self) -> (r: Result<StartResponse, StartError<E>>)
        ensures
            (match r {
                Ok(v) => self@.ok && v == self,
                Err(e) => !self@.ok && classifies(e, err_code_of(self@)),
            }),
    {
        if self.ok {
            Ok(self)
        } else {
            match &self.error {
                Some(c) => {
                    let e = StartError::from_code(c.as_str());
                    Err(e)
                },
                None => {
                    let e = StartError::from_code("");
                    Err(e)
                },
            }
        }
    }
}

/// Starts a Real Time Messaging session and returns the full snapshot.
///
/// Wraps the remote method `rtm.start`: one round-trip; the reply goes
/// through the same two-stage rule as every call — strict snapshot decode
/// first, then the minimal error envelope, whose code is classified — and
/// a reply matching neither shape is malformed. An ok-false snapshot is
/// folded into the classification of its failure code.
pub fn start<C: Transport>(client: &C, token: &str, request: &StartRequest) -> (r: Result<
    StartResponse,
    StartError<<C as Transport>::E>,
>)
    ensures
        (match r {
            Ok(v) => v@.ok && (exists|body: Seq<u8>|
                (#[trigger] sp_response::<StartResponse>(body)) == VerdictV::Success::<
                    StartResponseV,
                >(v@)),
            Err(StartError::Client(_)) => true,
            Err(StartError::MalformedResponse(_)) => exists|body: Seq<u8>|
                (#[trigger] sp_response::<StartResponse>(body)) is Malformed,
            Err(e) => exists|body: Seq<u8>|
                {
                    ||| ((#[trigger] sp_response::<StartResponse>(body)) matches VerdictV::Success(
                        sv,
                    ) && !sv.ok && classifies(e, err_code_of(sv)))
                    ||| (sp_response::<StartResponse>(body) matches VerdictV::Failure(code)
                        && classifies(e, decode_utf8(code)))
                },
        }),
{
    let url = get_slack_url_for_method("rtm.start");
    let params = sent_params(token, request);
    match client.send(&url, &params) {
        Err(e) => Err(StartError::Client(e)),
        Ok(body) => {
            let ghost bb = body@;
            match decode_response::<StartResponse>(body.as_slice()) {
                Ok(resp) => {
                    proof {
                        assert(sp_response::<StartResponse>(bb) == VerdictV::Success::<
                            StartResponseV,
                        >(resp@));
                    }
                    resp.into_result()
                },
                Err(DecodeFailure::ErrorCode(c)) => {
                    let e = StartError::from_code(c.as_str());
                    proof {
                        assert(sp_response::<StartResponse>(bb) matches VerdictV::Failure(code)
                            && classifies(e, decode_utf8(code)));
                    }
                    Err(e)
                },
                Err(DecodeFailure::Malformed(m)) => {
                    proof {
                        assert(sp_response::<StartResponse>(bb) is Malformed);
                    }
                    Err(StartError::MalformedResponse(m))
                },
            }
        },
    }
}

} // verus!
