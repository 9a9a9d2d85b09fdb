//! Endpoints about the members of a team.

use vstd::prelude::*;
use crate::json::{Json, JsonV};
use crate::decode::{
    FromJson, DecodeErr, decode_failure, keys_ok, keys_view, sp_keys_ok, sp_lookup, lookup,
    sp_req_field, sp_opt_field, sp_req_vec, sp_opt_vec, req_field, opt_field, req_vec, opt_vec,
    opt_view, opt_vec_view, vec_views,
};
use crate::requests::{
    Transport, Error, ToParams, call_contract, call_method, EmptyRequest, bool_tf, bool_string,
};
use crate::codec::pair_views;
use crate::text::{dec_chars, u64_string};
use crate::types::{UserId, ChannelId, Cursor, Team, TeamV, User, UserV, Paging, PagingV, OkResponse};
use crate::timestamp::{Timestamp, TimestampV};
use vstd::string::StringSliceAdditionalSpecFns;

verus! {

/// Asks for a user's presence.
#[derive(Clone, Debug)]
pub struct GetPresenceRequest {
    pub user: UserId,
}

impl ToParams for GetPresenceRequest {
    open spec fn spec_params(&self) -> Seq<(Seq<char>, Seq<char>)> {
        seq![(("user")@, self.user@)]
    }

    fn to_params(&self) -> (r: Vec<(String, String)>) {
        let mut out: Vec<(String, String)> = Vec::new();
        out.push(("user".to_owned(), self.user.clone()));
        proof {
            assert(pair_views(out@) =~= self.spec_params());
        }
        out
    }
}

/// A user's presence, if the service knows it.
#[derive(Clone, Debug)]
pub struct GetPresenceResponse {
    ok: bool,
    pub presence: Option<String>,
}

/// The view of a `GetPresenceResponse`.
pub struct GetPresenceResponseV {
    pub ok: bool,
    pub presence: Option<Seq<char>>,
}

impl View for GetPresenceResponse {
    type V = GetPresenceResponseV;

    closed spec fn view(&self) -> GetPresenceResponseV {
        GetPresenceResponseV {
            ok: self.ok,
            presence: opt_view(self.presence),
        }
    }
}

impl FromJson for GetPresenceResponse {
    open spec fn from_json_spec(j: JsonV) -> Option<GetPresenceResponseV> {
        match j {
            JsonV::Obj(es) => if sp_keys_ok(es, seq![("ok").spec_bytes(), ("presence").spec_bytes()]) {
                    match sp_req_field::<bool>(es, ("ok").spec_bytes()) {
                        Some(ok) => match sp_opt_field::<String>(es, ("presence").spec_bytes()) {
                            Some(presence) => Some(GetPresenceResponseV { ok, presence }),
                            None => None,
                        },
                        None => None,
                    }
                } else {
                    None
                },
            _ => None,
        }
    }

    fn from_json(j: &Json) -> (r: Result<Self, DecodeErr>) {
        broadcast use crate::json::lemma_view_obj;

        let es = match j {
            Json::Obj(es) => es,
            _ => {
                return Err(decode_failure());
            },
        };
        let mut allowed: Vec<&str> = Vec::new();
        allowed.push("ok");
        allowed.push("presence");
        proof {
            assert(keys_view(allowed@) =~= seq![("ok").spec_bytes(), ("presence").spec_bytes()]);
        }
        if !keys_ok(es, &allowed) {
            return Err(decode_failure());
        }
        let ok = match req_field::<bool>(es, "ok") {
            Ok(v) => v,
            Err(e) => {
                return Err(e);
            },
        };
        let presence = match opt_field::<String>(es, "presence") {
            Ok(v) => v,
            Err(e) => {
                return Err(e);
            },
        };
        Ok(GetPresenceResponse { ok, presence })
    }
}

/// Gets user presence information.
///
/// Wraps the remote method `users.getPresence`.
pub fn get_presence<C: Transport>(client: &C, token: &str, req: &GetPresenceRequest) -> (r: Result<
    GetPresenceResponse,
    Error<<C as Transport>::E>,
>)
    ensures
        call_contract::<GetPresenceResponse, <C as Transport>::E>(r),
{
    proof {
        reveal_strlit("users.getPresence");
    }
    call_method(client, token, "users.getPresence", req)
}

/// The caller's own identity.
#[derive(Clone, Debug)]
pub struct IdentityResponse {
    ok: bool,
    pub team: Option<Team>,
    pub user: Option<User>,
}

/// The view of a `IdentityResponse`.
pub struct IdentityResponseV {
    pub ok: bool,
    pub team: Option<TeamV>,
    pub user: Option<UserV>,
}

impl View for IdentityResponse {
    type V = IdentityResponseV;

    closed spec fn view(&self) -> IdentityResponseV {
        IdentityResponseV {
            ok: self.ok,
            team: opt_view(self.team),
            user: opt_view(self.user),
        }
    }
}

impl FromJson for IdentityResponse {
    open spec fn from_json_spec(j: JsonV) -> Option<IdentityResponseV> {
        match j {
            JsonV::Obj(es) => if sp_keys_ok(es, seq![("ok").spec_bytes(), ("team").spec_bytes(), ("user").spec_bytes()]) {
                    match sp_req_field::<bool>(es, ("ok").spec_bytes()) {
                        Some(ok) => match sp_opt_field::<Team>(es, ("team").spec_bytes()) {
                            Some(team) => match sp_opt_field::<User>(es, ("user").spec_bytes()) {
                                Some(user) => Some(IdentityResponseV { ok, team, user }),
                                None => None,
                            },
                            None => None,
                        },
                        None => None,
                    }
                } else {
                    None
                },
            _ => None,
        }
    }

    fn from_json(j: &Json) -> (r: Result<Self, DecodeErr>) {
        broadcast use crate::json::lemma_view_obj;

        let es = match j {
            Json::Obj(es) => es,
            _ => {
                return Err(decode_failure());
            },
        };
        let mut allowed: Vec<&str> = Vec::new();
        allowed.push("ok");
        allowed.push("team");
        allowed.push("user");
        proof {
            assert(keys_view(allowed@) =~= seq![("ok").spec_bytes(), ("team").spec_bytes(), ("user").spec_bytes()]);
        }
        if !keys_ok(es, &allowed) {
            return Err(decode_failure());
        }
        let ok = match req_field::<bool>(es, "ok") {
            Ok(v) => v,
            Err(e) => {
                return Err(e);
            },
        };
        let team = match opt_field::<Team>(es, "team") {
            Ok(v) => v,
            Err(e) => {
                return Err(e);
            },
        };
        let user = match opt_field::<User>(es, "user") {
            Ok(v) => v,
            Err(e) => {
                return Err(e);
            },
        };
        Ok(IdentityResponse { ok, team, user })
    }
}

/// Gets the calling user's identity.
///
/// Wraps the remote method `users.identity`.
pub fn identity<C: Transport>(client: &C, token: &str) -> (r: Result<
    IdentityResponse,
    Error<<C as Transport>::E>,
>)
    ensures
        call_contract::<IdentityResponse, <C as Transport>::E>(r),
{
    proof {
        reveal_strlit("users.identity");
    }
    call_method(client, token, "users.identity", &EmptyRequest {})
}

/// Asks for information about one user.
#[derive(Clone, Debug)]
pub struct InfoRequest {
    pub user: UserId,
}

impl ToParams for InfoRequest {
    open spec fn spec_params(&self) -> Seq<(Seq<char>, Seq<char>)> {
        seq![(("user")@, self.user@)]
    }

    fn to_params(&self) -> (r: Vec<(String, String)>) {
        let mut out: Vec<(String, String)> = Vec::new();
        out.push(("user".to_owned(), self.user.clone()));
        proof {
            assert(pair_views(out@) =~= self.spec_params());
        }
        out
    }
}

/// Information about one user.
#[derive(Clone, Debug)]
pub struct InfoResponse {
    ok: bool,
    pub user: Option<User>,
}

/// The view of a `InfoResponse`.
pub struct InfoResponseV {
    pub ok: bool,
    pub user: Option<UserV>,
}

impl View for InfoResponse {
    type V = InfoResponseV;

    closed spec fn view(&self) -> InfoResponseV {
        InfoResponseV {
            ok: self.ok,
            user: opt_view(self.user),
        }
    }
}

impl FromJson for InfoResponse {
    open spec fn from_json_spec(j: JsonV) -> Option<InfoResponseV> {
        match j {
            JsonV::Obj(es) => if sp_keys_ok(es, seq![("ok").spec_bytes(), ("user").spec_bytes()]) {
                    match sp_req_field::<bool>(es, ("ok").spec_bytes()) {
                        Some(ok) => match sp_opt_field::<User>(es, ("user").spec_bytes()) {
                            Some(user) => Some(InfoResponseV { ok, user }),
                            None => None,
                        },
                        None => None,
                    }
                } else {
                    None
                },
            _ => None,
        }
    }

    fn from_json(j: &Json) -> (r: Result<Self, DecodeErr>) {
        broadcast use crate::json::lemma_view_obj;

        let es = match j {
            Json::Obj(es) => es,
            _ => {
                return Err(decode_failure());
            },
        };
        let mut allowed: Vec<&str> = Vec::new();
        allowed.push("ok");
        allowed.push("user");
        proof {
            assert(keys_view(allowed@) =~= seq![("ok").spec_bytes(), ("user").spec_bytes()]);
        }
        if !keys_ok(es, &allowed) {
            return Err(decode_failure());
        }
        let ok = match req_field::<bool>(es, "ok") {
            Ok(v) => v,
            Err(e) => {
                return Err(e);
            },
        };
        let user = match opt_field::<User>(es, "user") {
            Ok(v) => v,
            Err(e) => {
                return Err(e);
            },
        };
        Ok(InfoResponse { ok, user })
    }
}

/// Gets information about a user.
///
/// Wraps the remote method `users.info`.
pub fn info<C: Transport>(client: &C, token: &str, req: &InfoRequest) -> (r: Result<
    InfoResponse,
    Error<<C as Transport>::E>,
>)
    ensures
        call_contract::<InfoResponse, <C as Transport>::E>(r),
{
    proof {
        reveal_strlit("users.info");
    }
    call_method(client, token, "users.info", req)
}

/// Asks for the team's member listing, optionally paginated.
#[derive(Clone, Default, Debug)]
pub struct ListRequest {
    pub presence: Option<bool>,
    pub cursor: Option<Cursor>,
    pub limit: Option<usize>,
    pub include_locale: Option<bool>,
}

impl ToParams for ListRequest {
    open spec fn spec_params(&self) -> Seq<(Seq<char>, Seq<char>)> {
        (match self.presence {
                    Some(b) => seq![(("presence")@, bool_tf(b))],
                    None => seq![],
            }) + (match self.cursor {
                    Some(s) => seq![(("cursor")@, s@)],
                    None => seq![],
            }) + (match self.limit {
                    Some(n) => seq![(("limit")@, dec_chars(n as int))],
                    None => seq![],
            }) + (match self.include_locale {
                    Some(b) => seq![(("include_locale")@, bool_tf(b))],
                    None => seq![],
            })
    }

    fn to_params(&self) -> (r: Vec<(String, String)>) {
        let mut out: Vec<(String, String)> = Vec::new();
        match self.presence {
            Some(b) => {
                out.push(("presence".to_owned(), bool_string(b)));
            },
            None => {},
        }
        match &self.cursor {
            Some(s) => {
                out.push(("cursor".to_owned(), s.clone()));
            },
            None => {},
        }
        match self.limit {
            Some(n) => {
                out.push(("limit".to_owned(), u64_string(n as u64)));
            },
            None => {},
        }
        match self.include_locale {
            Some(b) => {
                out.push(("include_locale".to_owned(), bool_string(b)));
            },
            None => {},
        }
        proof {
            assert(pair_views(out@) =~= self.spec_params());
        }
        out
    }
}

/// The team's member listing.
#[derive(Clone, Debug)]
pub struct ListResponse {
    ok: bool,
    pub members: Vec<User>,
    pub cache_ts: Option<Timestamp>,
    pub response_metadata: Option<Paging>,
    pub is_limited: Option<bool>,
}

/// The view of a `ListResponse`.
pub struct ListResponseV {
    pub ok: bool,
    pub members: Seq<UserV>,
    pub cache_ts: Option<TimestampV>,
    pub response_metadata: Option<PagingV>,
    pub is_limited: Option<bool>,
}

impl View for ListResponse {
    type V = ListResponseV;

    closed spec fn view(&self) -> ListResponseV {
        ListResponseV {
            ok: self.ok,
            members: vec_views(self.members@),
            cache_ts: opt_view(self.cache_ts),
            response_metadata: opt_view(self.response_metadata),
            is_limited: opt_view(self.is_limited),
        }
    }
}

impl FromJson for ListResponse {
    open spec fn from_json_spec(j: JsonV) -> Option<ListResponseV> {
        match j {
            JsonV::Obj(es) => if sp_keys_ok(es, seq![("ok").spec_bytes(), ("members").spec_bytes(), ("cache_ts").spec_bytes(), ("response_metadata").spec_bytes(), ("is_limited").spec_bytes()]) {
                    match sp_req_field::<bool>(es, ("ok").spec_bytes()) {
                        Some(ok) => match sp_req_vec::<User>(es, ("members").spec_bytes()) {
                            Some(members) => match sp_opt_field::<Timestamp>(es, ("cache_ts").spec_bytes()) {
                                Some(cache_ts) => match sp_opt_field::<Paging>(es, ("response_metadata").spec_bytes()) {
                                    Some(response_metadata) => match sp_opt_field::<bool>(es, ("is_limited").spec_bytes()) {
                                        Some(is_limited) => Some(ListResponseV { ok, members, cache_ts, response_metadata, is_limited }),
                                        None => None,
                                    },
                                    None => None,
                                },
                                None => None,
                            },
                            None => None,
                        },
                        None => None,
                    }
                } else {
                    None
                },
            _ => None,
        }
    }

    fn from_json(j: &Json) -> (r: Result<Self, DecodeErr>) {
        broadcast use crate::json::lemma_view_obj;

        let es = match j {
            Json::Obj(es) => es,
            _ => {
                return Err(decode_failure());
            },
        };
        let mut allowed: Vec<&str> = Vec::new();
        allowed.push("ok");
        allowed.push("members");
        allowed.push("cache_ts");
        allowed.push("response_metadata");
        allowed.push("is_limited");
        proof {
            assert(keys_view(allowed@) =~= seq![("ok").spec_bytes(), ("members").spec_bytes(), ("cache_ts").spec_bytes(), ("response_metadata").spec_bytes(), ("is_limited").spec_bytes()]);
        }
        if !keys_ok(es, &allowed) {
            return Err(decode_failure());
        }
        let ok = match req_field::<bool>(es, "ok") {
            Ok(v) => v,
            Err(e) => {
                return Err(e);
            },
        };
        let members = match req_vec::<User>(es, "members") {
            Ok(v) => v,
            Err(e) => {
                return Err(e);
            },
        };
        let cache_ts = match opt_field::<Timestamp>(es, "cache_ts") {
            Ok(v) => v,
            Err(e) => {
                return Err(e);
            },
        };
        let response_metadata = match opt_field::<Paging>(es, "response_metadata") {
            Ok(v) => v,
            Err(e) => {
                return Err(e);
            },
        };
        let is_limited = match opt_field::<bool>(es, "is_limited") {
            Ok(v) => v,
            Err(e) => {
                return Err(e);
            },
        };
        Ok(ListResponse { ok, members, cache_ts, response_metadata, is_limited })
    }
}

/// Lists all users in the team.
///
/// Wraps the remote method `users.list`.
pub fn list<C: Transport>(client: &C, token: &str, req: &ListRequest) -> (r: Result<
    ListResponse,
    Error<<C as Transport>::E>,
>)
    ensures
        call_contract::<ListResponse, <C as Transport>::E>(r),
{
    proof {
        reveal_strlit("users.list");
    }
    call_method(client, token, "users.list", req)
}

/// A user's preferences.
#[derive(Clone, Debug)]
pub struct UserPrefs {
    muted_channels: Vec<ChannelId>,
}

/// The view of a `UserPrefs`.
pub struct UserPrefsV {
    pub muted_channels: Seq<Seq<char>>,
}

impl View for UserPrefs {
    type V = UserPrefsV;

    closed spec fn view(&self) -> UserPrefsV {
        UserPrefsV {
            muted_channels: vec_views(self.muted_channels@),
        }
    }
}

impl FromJson for UserPrefs {
    open spec fn from_json_spec(j: JsonV) -> Option<UserPrefsV> {
        match j {
            JsonV::Obj(es) => if sp_keys_ok(es, seq![("muted_channels").spec_bytes()]) {
                    match sp_req_vec::<ChannelId>(es, ("muted_channels").spec_bytes()) {
                        Some(muted_channels) => Some(UserPrefsV { muted_channels }),
                        None => None,
                    }
                } else {
                    None
                },
            _ => None,
        }
    }

    fn from_json(j: &Json) -> (r: Result<Self, DecodeErr>) {
        broadcast use crate::json::lemma_view_obj;

        let es = match j {
            Json::Obj(es) => es,
            _ => {
                return Err(decode_failure());
            },
        };
        let mut allowed: Vec<&str> = Vec::new();
        allowed.push("muted_channels");
        proof {
            assert(keys_view(allowed@) =~= seq![("muted_channels").spec_bytes()]);
        }
        if !keys_ok(es, &allowed) {
            return Err(decode_failure());
        }
        let muted_channels = match req_vec::<ChannelId>(es, "muted_channels") {
            Ok(v) => v,
            Err(e) => {
                return Err(e);
            },
        };
        Ok(UserPrefs { muted_channels })
    }
}

/// The calling user's preferences.
#[derive(Clone, Debug)]
pub struct PrefsResponse {
    ok: bool,
    pub prefs: UserPrefs,
}

/// The view of a `PrefsResponse`.
pub struct PrefsResponseV {
    pub ok: bool,
    pub prefs: UserPrefsV,
}

impl View for PrefsResponse {
    type V = PrefsResponseV;

    closed spec fn view(&self) -> PrefsResponseV {
        PrefsResponseV {
            ok: self.ok,
            prefs: self.prefs@,
        }
    }
}

impl FromJson for PrefsResponse {
    open spec fn from_json_spec(j: JsonV) -> Option<PrefsResponseV> {
        match j {
            JsonV::Obj(es) => if sp_keys_ok(es, seq![("ok").spec_bytes(), ("prefs").spec_bytes()]) {
                    match sp_req_field::<bool>(es, ("ok").spec_bytes()) {
                        Some(ok) => match sp_req_field::<UserPrefs>(es, ("prefs").spec_bytes()) {
                            Some(prefs) => Some(PrefsResponseV { ok, prefs }),
                            None => None,
                        },
                        None => None,
                    }
                } else {
                    None
                },
            _ => None,
        }
    }

    fn from_json(j: &Json) -> (r: Result<Self, DecodeErr>) {
        broadcast use crate::json::lemma_view_obj;

        let es = match j {
            Json::Obj(es) => es,
            _ => {
                return Err(decode_failure());
            },
        };
        let mut allowed: Vec<&str> = Vec::new();
        allowed.push("ok");
        allowed.push("prefs");
        proof {
            assert(keys_view(allowed@) =~= seq![("ok").spec_bytes(), ("prefs").spec_bytes()]);
        }
        if !keys_ok(es, &allowed) {
            return Err(decode_failure());
        }
        let ok = match req_field::<bool>(es, "ok") {
            Ok(v) => v,
            Err(e) => {
                return Err(e);
            },
        };
        let prefs = match req_field::<UserPrefs>(es, "prefs") {
            Ok(v) => v,
            Err(e) => {
                return Err(e);
            },
        };
        Ok(PrefsResponse { ok, prefs })
    }
}

/// Gets the calling user's preferences.
///
/// Wraps the remote method `users.prefs.get`.
pub fn prefs_get<C: Transport>(client: &C, token: &str) -> (r: Result<
    PrefsResponse,
    Error<<C as Transport>::E>,
>)
    ensures
        call_contract::<PrefsResponse, <C as Transport>::E>(r),
{
    proof {
        reveal_strlit("users.prefs.get");
    }
    call_method(client, token, "users.prefs.get", &EmptyRequest {})
}

/// Marks the calling user as active.
///
/// Wraps the remote method `users.setActive`.
pub fn set_active<C: Transport>(client: &C, token: &str) -> (r: Result<
    OkResponse,
    Error<<C as Transport>::E>,
>)
    ensures
        call_contract::<OkResponse, <C as Transport>::E>(r),
{
    proof {
        reveal_strlit("users.setActive");
    }
    call_method(client, token, "users.setActive", &EmptyRequest {})
}

/// Deletes the user profile photo.
///
/// Wraps the remote method `users.deletePhoto`.
pub fn delete_photo<C: Transport>(client: &C, token: &str) -> (r: Result<
    OkResponse,
    Error<<C as Transport>::E>,
>)
    ensures
        call_contract::<OkResponse, <C as Transport>::E>(r),
{
    proof {
        reveal_strlit("users.deletePhoto");
    }
    call_method(client, token, "users.deletePhoto", &EmptyRequest {})
}

/// A presence value a user can ask for.
#[derive(Clone, Debug)]
pub enum Presence {
    Auto,
    Away,
}

/// The wire word of a presence value.
pub open spec fn presence_word(p: Presence) -> Seq<char> {
    match p {
        Presence::Auto => ("auto")@,
        Presence::Away => ("away")@,
    }
}

/// Asks to set the calling user's presence.
#[derive(Clone, Debug)]
pub struct SetPresenceRequest {
    /// Either auto or away.
    pub presence: Presence,
}

impl ToParams for SetPresenceRequest {
    open spec fn spec_params(&self) -> Seq<(Seq<char>, Seq<char>)> {
        seq![(("presence")@, presence_word(self.presence))]
    }

    fn to_params(&self) -> (r: Vec<(String, String)>) {
        let mut out: Vec<(String, String)> = Vec::new();
        let word = match self.presence {
            Presence::Auto => "auto".to_owned(),
            Presence::Away => "away".to_owned(),
        };
        out.push(("presence".to_owned(), word));
        proof {
            assert(pair_views(out@) =~= self.spec_params());
        }
        out
    }
}

/// Manually sets user presence.
///
/// Wraps the remote method `users.setPresence`.
pub fn set_presence<C: Transport>(client: &C, token: &str, req: &SetPresenceRequest) -> (r: Result<
    OkResponse,
    Error<<C as Transport>::E>,
>)
    ensures
        call_contract::<OkResponse, <C as Transport>::E>(r),
{
    proof {
        reveal_strlit("users.setPresence");
    }
    call_method(client, token, "users.setPresence", req)
}

} // verus!
