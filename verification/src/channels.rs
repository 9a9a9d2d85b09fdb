//! Channel management endpoints: info, creation, membership, topics and
//! read cursors.

use vstd::prelude::*;
use crate::json::{Json, JsonV};
use crate::decode::{
    FromJson, DecodeErr, decode_failure, keys_ok, keys_view, sp_keys_ok, sp_req_field,
    sp_opt_field, sp_req_vec, req_field, opt_field, req_vec, opt_view, vec_views,
};
use crate::requests::{
    Transport, Error, ToParams, call_contract, call_method, bool_tf, bool_string,
};
use crate::codec::pair_views;
use crate::text::{dec_chars, u64_string};
use crate::types::{UserId, ChannelId, Channel, ChannelV, Message, MessageV};
use crate::timestamp::{Timestamp, TimestampV};
use vstd::string::StringSliceAdditionalSpecFns;

verus! {

/// Asks to archive a channel.
#[derive(Clone, Default, Debug)]
pub struct ArchiveRequest {
    pub channel: ChannelId,
}

impl ToParams for ArchiveRequest {
    open spec fn spec_params(&self) -> Seq<(Seq<char>, Seq<char>)> {
        seq![(("channel")@, self.channel@)]
    }

    fn to_params(&self) -> (r: Vec<(String, String)>) {
        let mut out: Vec<(String, String)> = Vec::new();
        out.push(("channel".to_owned(), self.channel.clone()));
        proof {
            assert(pair_views(out@) =~= self.spec_params());
        }
        out
    }
}

/// The reply to an archive request.
#[derive(Clone, Debug)]
pub struct ArchiveResponse {
    ok: bool,
}

/// The view of a `ArchiveResponse`.
pub struct ArchiveResponseV {
    pub ok: bool,
}

impl View for ArchiveResponse {
    type V = ArchiveResponseV;

    closed spec fn view(&self) -> ArchiveResponseV {
        ArchiveResponseV {
            ok: self.ok,
        }
    }
}

impl FromJson for ArchiveResponse {
    open spec fn from_json_spec(j: JsonV) -> Option<ArchiveResponseV> {
        match j {
            JsonV::Obj(es) => if sp_keys_ok(es, seq![("ok").spec_bytes()]) {
                    match sp_req_field::<bool>(es, ("ok").spec_bytes()) {
                        Some(ok) => Some(ArchiveResponseV { ok }),
                        None => None,
                    }
                } else {
                    None
                },
            _ => None,
        }
    }

    fn from_json(j: &Json) -> (r: Result<Self, DecodeErr>) {
        broadcast use crate::json::lemma_view_obj;

        let es = match j {
            Json::Obj(es) => es,
            _ => {
                return Err(decode_failure());
            },
        };
        let mut allowed: Vec<&str> = Vec::new();
        allowed.push("ok");
        proof {
            assert(keys_view(allowed@) =~= seq![("ok").spec_bytes()]);
        }
        if !keys_ok(es, &allowed) {
            return Err(decode_failure());
        }
        let ok = match req_field::<bool>(es, "ok") {
            Ok(v) => v,
            Err(e) => {
                return Err(e);
            },
        };
        Ok(ArchiveResponse { ok })
    }
}

/// Archives a channel.
///
/// Wraps the remote method `channels.archive`.
pub fn archive<C: Transport>(client: &C, token: &str, req: &ArchiveRequest) -> (r: Result<
    ArchiveResponse,
    Error<<C as Transport>::E>,
>)
    ensures
        call_contract::<ArchiveResponse, <C as Transport>::E>(r),
{
    proof {
        reveal_strlit("channels.archive");
    }
    call_method(client, token, "channels.archive", req)
}

/// Asks to create a channel.
#[derive(Clone, Default, Debug)]
pub struct CreateRequest {
    pub name: String,
    pub validate: Option<bool>,
}

impl ToParams for CreateRequest {
    open spec fn spec_params(&self) -> Seq<(Seq<char>, Seq<char>)> {
        seq![(("name")@, self.name@)] + (match self.validate {
                    Some(b) => seq![(("validate")@, bool_tf(b))],
                    None => seq![],
            })
    }

    fn to_params(&self) -> (r: Vec<(String, String)>) {
        let mut out: Vec<(String, String)> = Vec::new();
        out.push(("name".to_owned(), self.name.clone()));
        match self.validate {
            Some(b) => {
                out.push(("validate".to_owned(), bool_string(b)));
            },
            None => {},
        }
        proof {
            assert(pair_views(out@) =~= self.spec_params());
        }
        out
    }
}

/// The created channel.
#[derive(Clone, Debug)]
pub struct CreateResponse {
    ok: bool,
    pub channel: Channel,
}

/// The view of a `CreateResponse`.
pub struct CreateResponseV {
    pub ok: bool,
    pub channel: ChannelV,
}

impl View for CreateResponse {
    type V = CreateResponseV;

    closed spec fn view(&self) -> CreateResponseV {
        CreateResponseV {
            ok: self.ok,
            channel: self.channel@,
        }
    }
}

impl FromJson for CreateResponse {
    open spec fn from_json_spec(j: JsonV) -> Option<CreateResponseV> {
        match j {
            JsonV::Obj(es) => if sp_keys_ok(es, seq![("ok").spec_bytes(), ("channel").spec_bytes()]) {
                    match sp_req_field::<bool>(es, ("ok").spec_bytes()) {
                        Some(ok) => match sp_req_field::<Channel>(es, ("channel").spec_bytes()) {
                            Some(channel) => Some(CreateResponseV { ok, channel }),
                            None => None,
                        },
                        None => None,
                    }
                } else {
                    None
                },
            _ => None,
        }
    }

    fn from_json(j: &Json) -> (r: Result<Self, DecodeErr>) {
        broadcast use crate::json::lemma_view_obj;

        let es = match j {
            Json::Obj(es) => es,
            _ => {
                return Err(decode_failure());
            },
        };
        let mut allowed: Vec<&str> = Vec::new();
        allowed.push("ok");
        allowed.push("channel");
        proof {
            assert(keys_view(allowed@) =~= seq![("ok").spec_bytes(), ("channel").spec_bytes()]);
        }
        if !keys_ok(es, &allowed) {
            return Err(decode_failure());
        }
        let ok = match req_field::<bool>(es, "ok") {
            Ok(v) => v,
            Err(e) => {
                return Err(e);
            },
        };
        let channel = match req_field::<Channel>(es, "channel") {
            Ok(v) => v,
            Err(e) => {
                return Err(e);
            },
        };
        Ok(CreateResponse { ok, channel })
    }
}

/// Creates a channel.
///
/// Wraps the remote method `channels.create`.
pub fn create<C: Transport>(client: &C, token: &str, req: &CreateRequest) -> (r: Result<
    CreateResponse,
    Error<<C as Transport>::E>,
>)
    ensures
        call_contract::<CreateResponse, <C as Transport>::E>(r),
{
    proof {
        reveal_strlit("channels.create");
    }
    call_method(client, token, "channels.create", req)
}

/// Asks for a channel's message history.
#[derive(Clone, Default, Debug)]
pub struct HistoryRequest {
    pub channel: ChannelId,
    pub latest: Option<String>,
    pub oldest: Option<String>,
    pub inclusive: Option<bool>,
    pub count: Option<u32>,
    pub unreads: Option<bool>,
}

impl ToParams for HistoryRequest {
    open spec fn spec_params(&self) -> Seq<(Seq<char>, Seq<char>)> {
        seq![(("channel")@, self.channel@)] + (match self.latest {
                    Some(s) => seq![(("latest")@, s@)],
                    None => seq![],
            }) + (match self.oldest {
                    Some(s) => seq![(("oldest")@, s@)],
                    None => seq![],
            }) + (match self.inclusive {
                    Some(b) => seq![(("inclusive")@, bool_tf(b))],
                    None => seq![],
            }) + (match self.count {
                    Some(n) => seq![(("count")@, dec_chars(n as int))],
                    None => seq![],
            }) + (match self.unreads {
                    Some(b) => seq![(("unreads")@, bool_tf(b))],
                    None => seq![],
            })
    }

    fn to_params(&self) -> (r: Vec<(String, String)>) {
        let mut out: Vec<(String, String)> = Vec::new();
        out.push(("channel".to_owned(), self.channel.clone()));
        match &self.latest {
            Some(s) => {
                out.push(("latest".to_owned(), s.clone()));
            },
            None => {},
        }
        match &self.oldest {
            Some(s) => {
                out.push(("oldest".to_owned(), s.clone()));
            },
            None => {},
        }
        match self.inclusive {
            Some(b) => {
                out.push(("inclusive".to_owned(), bool_string(b)));
            },
            None => {},
        }
        match self.count {
            Some(n) => {
                out.push(("count".to_owned(), u64_string(n as u64)));
            },
            None => {},
        }
        match self.unreads {
            Some(b) => {
                out.push(("unreads".to_owned(), bool_string(b)));
            },
            None => {},
        }
        proof {
            assert(pair_views(out@) =~= self.spec_params());
        }
        out
    }
}

/// A slice of a channel's history.
#[derive(Clone, Debug)]
pub struct HistoryResponse {
    ok: bool,
    pub has_more: Option<bool>,
    pub latest: Option<Timestamp>,
    pub messages: Vec<Message>,
    pub is_limited: Option<bool>,
}

/// The view of a `HistoryResponse`.
pub struct HistoryResponseV {
    pub ok: bool,
    pub has_more: Option<bool>,
    pub latest: Option<TimestampV>,
    pub messages: Seq<MessageV>,
    pub is_limited: Option<bool>,
}

impl View for HistoryResponse {
    type V = HistoryResponseV;

    closed spec fn view(&self) -> HistoryResponseV {
        HistoryResponseV {
            ok: self.ok,
            has_more: opt_view(self.has_more),
            latest: opt_view(self.latest),
            messages: vec_views(self.messages@),
            is_limited: opt_view(self.is_limited),
        }
    }
}

impl FromJson for HistoryResponse {
    open spec fn from_json_spec(j: JsonV) -> Option<HistoryResponseV> {
        match j {
            JsonV::Obj(es) => if sp_keys_ok(es, seq![("ok").spec_bytes(), ("has_more").spec_bytes(), ("latest").spec_bytes(), ("messages").spec_bytes(), ("is_limited").spec_bytes()]) {
                    match sp_req_field::<bool>(es, ("ok").spec_bytes()) {
                        Some(ok) => match sp_opt_field::<bool>(es, ("has_more").spec_bytes()) {
                            Some(has_more) => match sp_opt_field::<Timestamp>(es, ("latest").spec_bytes()) {
                                Some(latest) => match sp_req_vec::<Message>(es, ("messages").spec_bytes()) {
                                    Some(messages) => match sp_opt_field::<bool>(es, ("is_limited").spec_bytes()) {
                                        Some(is_limited) => Some(HistoryResponseV { ok, has_more, latest, messages, is_limited }),
                                        None => None,
                                    },
                                    None => None,
                                },
                                None => None,
                            },
                            None => None,
                        },
                        None => None,
                    }
                } else {
                    None
                },
            _ => None,
        }
    }

    fn from_json(j: &Json) -> (r: Result<Self, DecodeErr>) {
        broadcast use crate::json::lemma_view_obj;

        let es = match j {
            Json::Obj(es) => es,
            _ => {
                return Err(decode_failure());
            },
        };
        let mut allowed: Vec<&str> = Vec::new();
        allowed.push("ok");
        allowed.push("has_more");
        allowed.push("latest");
        allowed.push("messages");
        allowed.push("is_limited");
        proof {
            assert(keys_view(allowed@) =~= seq![("ok").spec_bytes(), ("has_more").spec_bytes(), ("latest").spec_bytes(), ("messages").spec_bytes(), ("is_limited").spec_bytes()]);
        }
        if !keys_ok(es, &allowed) {
            return Err(decode_failure());
        }
        let ok = match req_field::<bool>(es, "ok") {
            Ok(v) => v,
            Err(e) => {
                return Err(e);
            },
        };
        let has_more = match opt_field::<bool>(es, "has_more") {
            Ok(v) => v,
            Err(e) => {
                return Err(e);
            },
        };
        let latest = match opt_field::<Timestamp>(es, "latest") {
            Ok(v) => v,
            Err(e) => {
                return Err(e);
            },
        };
        let messages = match req_vec::<Message>(es, "messages") {
            Ok(v) => v,
            Err(e) => {
                return Err(e);
            },
        };
        let is_limited = match opt_field::<bool>(es, "is_limited") {
            Ok(v) => v,
            Err(e) => {
                return Err(e);
            },
        };
        Ok(HistoryResponse { ok, has_more, latest, messages, is_limited })
    }
}

/// Fetches history of messages and events from a channel.
///
/// Wraps the remote method `channels.history`.
pub fn history<C: Transport>(client: &C, token: &str, req: &HistoryRequest) -> (r: Result<
    HistoryResponse,
    Error<<C as Transport>::E>,
>)
    ensures
        call_contract::<HistoryResponse, <C as Transport>::E>(r),
{
    proof {
        reveal_strlit("channels.history");
    }
    call_method(client, token, "channels.history", req)
}

/// Asks for information about one channel.
#[derive(Clone, Default, Debug)]
pub struct InfoRequest {
    pub channel: ChannelId,
    pub include_locale: Option<bool>,
}

impl ToParams for InfoRequest {
    open spec fn spec_params(&self) -> Seq<(Seq<char>, Seq<char>)> {
        seq![(("channel")@, self.channel@)] + (match self.include_locale {
                    Some(b) => seq![(("include_locale")@, bool_tf(b))],
                    None => seq![],
            })
    }

    fn to_params(&self) -> (r: Vec<(String, String)>) {
        let mut out: Vec<(String, String)> = Vec::new();
        out.push(("channel".to_owned(), self.channel.clone()));
        match self.include_locale {
            Some(b) => {
                out.push(("include_locale".to_owned(), bool_string(b)));
            },
            None => {},
        }
        proof {
            assert(pair_views(out@) =~= self.spec_params());
        }
        out
    }
}

/// Information about one channel.
#[derive(Clone, Debug)]
pub struct InfoResponse {
    ok: bool,
    pub channel: Channel,
}

/// The view of a `InfoResponse`.
pub struct InfoResponseV {
    pub ok: bool,
    pub channel: ChannelV,
}

impl View for InfoResponse {
    type V = InfoResponseV;

    closed spec fn view(&self) -> InfoResponseV {
        InfoResponseV {
            ok: self.ok,
            channel: self.channel@,
        }
    }
}

impl FromJson for InfoResponse {
    open spec fn from_json_spec(j: JsonV) -> Option<InfoResponseV> {
        match j {
            JsonV::Obj(es) => if sp_keys_ok(es, seq![("ok").spec_bytes(), ("channel").spec_bytes()]) {
                    match sp_req_field::<bool>(es, ("ok").spec_bytes()) {
                        Some(ok) => match sp_req_field::<Channel>(es, ("channel").spec_bytes()) {
                            Some(channel) => Some(InfoResponseV { ok, channel }),
                            None => None,
                        },
                        None => None,
                    }
                } else {
                    None
                },
            _ => None,
        }
    }

    fn from_json(j: &Json) -> (r: Result<Self, DecodeErr>) {
        broadcast use crate::json::lemma_view_obj;

        let es = match j {
            Json::Obj(es) => es,
            _ => {
                return Err(decode_failure());
            },
        };
        let mut allowed: Vec<&str> = Vec::new();
        allowed.push("ok");
        allowed.push("channel");
        proof {
            assert(keys_view(allowed@) =~= seq![("ok").spec_bytes(), ("channel").spec_bytes()]);
        }
        if !keys_ok(es, &allowed) {
            return Err(decode_failure());
        }
        let ok = match req_field::<bool>(es, "ok") {
            Ok(v) => v,
            Err(e) => {
                return Err(e);
            },
        };
        let channel = match req_field::<Channel>(es, "channel") {
            Ok(v) => v,
            Err(e) => {
                return Err(e);
            },
        };
        Ok(InfoResponse { ok, channel })
    }
}

/// Gets information about a channel.
///
/// Wraps the remote method `channels.info`.
pub fn info<C: Transport>(client: &C, token: &str, req: &InfoRequest) -> (r: Result<
    InfoResponse,
    Error<<C as Transport>::E>,
>)
    ensures
        call_contract::<InfoResponse, <C as Transport>::E>(r),
{
    proof {
        reveal_strlit("channels.info");
    }
    call_method(client, token, "channels.info", req)
}

/// Asks to invite a user to a channel.
#[derive(Clone, Default, Debug)]
pub struct InviteRequest {
    pub channel: ChannelId,
    pub user: UserId,
}

impl ToParams for InviteRequest {
    open spec fn spec_params(&self) -> Seq<(Seq<char>, Seq<char>)> {
        seq![(("channel")@, self.channel@)] + seq![(("user")@, self.user@)]
    }

    fn to_params(&self) -> (r: Vec<(String, String)>) {
        let mut out: Vec<(String, String)> = Vec::new();
        out.push(("channel".to_owned(), self.channel.clone()));
        out.push(("user".to_owned(), self.user.clone()));
        proof {
            assert(pair_views(out@) =~= self.spec_params());
        }
        out
    }
}

/// The channel after the invitation.
#[derive(Clone, Debug)]
pub struct InviteResponse {
    ok: bool,
    pub channel: Channel,
}

/// The view of a `InviteResponse`.
pub struct InviteResponseV {
    pub ok: bool,
    pub channel: ChannelV,
}

impl View for InviteResponse {
    type V = InviteResponseV;

    closed spec fn view(&self) -> InviteResponseV {
        InviteResponseV {
            ok: self.ok,
            channel: self.channel@,
        }
    }
}

impl FromJson for InviteResponse {
    open spec fn from_json_spec(j: JsonV) -> Option<InviteResponseV> {
        match j {
            JsonV::Obj(es) => if sp_keys_ok(es, seq![("ok").spec_bytes(), ("channel").spec_bytes()]) {
                    match sp_req_field::<bool>(es, ("ok").spec_bytes()) {
                        Some(ok) => match sp_req_field::<Channel>(es, ("channel").spec_bytes()) {
                            Some(channel) => Some(InviteResponseV { ok, channel }),
                            None => None,
                        },
                        None => None,
                    }
                } else {
                    None
                },
            _ => None,
        }
    }

    fn from_json(j: &Json) -> (r: Result<Self, DecodeErr>) {
        broadcast use crate::json::lemma_view_obj;

        let es = match j {
            Json::Obj(es) => es,
            _ => {
                return Err(decode_failure());
            },
        };
        let mut allowed: Vec<&str> = Vec::new();
        allowed.push("ok");
        allowed.push("channel");
        proof {
            assert(keys_view(allowed@) =~= seq![("ok").spec_bytes(), ("channel").spec_bytes()]);
        }
        if !keys_ok(es, &allowed) {
            return Err(decode_failure());
        }
        let ok = match req_field::<bool>(es, "ok") {
            Ok(v) => v,
            Err(e) => {
                return Err(e);
            },
        };
        let channel = match req_field::<Channel>(es, "channel") {
            Ok(v) => v,
            Err(e) => {
                return Err(e);
            },
        };
        Ok(InviteResponse { ok, channel })
    }
}

/// Invites a user to a channel.
///
/// Wraps the remote method `channels.invite`.
pub fn invite<C: Transport>(client: &C, token: &str, req: &InviteRequest) -> (r: Result<
    InviteResponse,
    Error<<C as Transport>::E>,
>)
    ensures
        call_contract::<InviteResponse, <C as Transport>::E>(r),
{
    proof {
        reveal_strlit("channels.invite");
    }
    call_method(client, token, "channels.invite", req)
}

/// Asks to join (or create and join) a channel.
#[derive(Clone, Default, Debug)]
pub struct JoinRequest {
    pub name: String,
    pub validate: Option<bool>,
}

impl ToParams for JoinRequest {
    open spec fn spec_params(&self) -> Seq<(Seq<char>, Seq<char>)> {
        seq![(("name")@, self.name@)] + (match self.validate {
                    Some(b) => seq![(("validate")@, bool_tf(b))],
                    None => seq![],
            })
    }

    fn to_params(&self) -> (r: Vec<(String, String)>) {
        let mut out: Vec<(String, String)> = Vec::new();
        out.push(("name".to_owned(), self.name.clone()));
        match self.validate {
            Some(b) => {
                out.push(("validate".to_owned(), bool_string(b)));
            },
            None => {},
        }
        proof {
            assert(pair_views(out@) =~= self.spec_params());
        }
        out
    }
}

/// The joined channel.
#[derive(Clone, Debug)]
pub struct JoinResponse {
    ok: bool,
    pub channel: Channel,
    pub already_in_channel: Option<bool>,
}

/// The view of a `JoinResponse`.
pub struct JoinResponseV {
    pub ok: bool,
    pub channel: ChannelV,
    pub already_in_channel: Option<bool>,
}

impl View for JoinResponse {
    type V = JoinResponseV;

    closed spec fn view(&self) -> JoinResponseV {
        JoinResponseV {
            ok: self.ok,
            channel: self.channel@,
            already_in_channel: opt_view(self.already_in_channel),
        }
    }
}

impl FromJson for JoinResponse {
    open spec fn from_json_spec(j: JsonV) -> Option<JoinResponseV> {
        match j {
            JsonV::Obj(es) => if sp_keys_ok(es, seq![("ok").spec_bytes(), ("channel").spec_bytes(), ("already_in_channel").spec_bytes()]) {
                    match sp_req_field::<bool>(es, ("ok").spec_bytes()) {
                        Some(ok) => match sp_req_field::<Channel>(es, ("channel").spec_bytes()) {
                            Some(channel) => match sp_opt_field::<bool>(es, ("already_in_channel").spec_bytes()) {
                                Some(already_in_channel) => Some(JoinResponseV { ok, channel, already_in_channel }),
                                None => None,
                            },
                            None => None,
                        },
                        None => None,
                    }
                } else {
                    None
                },
            _ => None,
        }
    }

    fn from_json(j: &Json) -> (r: Result<Self, DecodeErr>) {
        broadcast use crate::json::lemma_view_obj;

        let es = match j {
            Json::Obj(es) => es,
            _ => {
                return Err(decode_failure());
            },
        };
        let mut allowed: Vec<&str> = Vec::new();
        allowed.push("ok");
        allowed.push("channel");
        allowed.push("already_in_channel");
        proof {
            assert(keys_view(allowed@) =~= seq![("ok").spec_bytes(), ("channel").spec_bytes(), ("already_in_channel").spec_bytes()]);
        }
        if !keys_ok(es, &allowed) {
            return Err(decode_failure());
        }
        let ok = match req_field::<bool>(es, "ok") {
            Ok(v) => v,
            Err(e) => {
                return Err(e);
            },
        };
        let channel = match req_field::<Channel>(es, "channel") {
            Ok(v) => v,
            Err(e) => {
                return Err(e);
            },
        };
        let already_in_channel = match opt_field::<bool>(es, "already_in_channel") {
            Ok(v) => v,
            Err(e) => {
                return Err(e);
            },
        };
        Ok(JoinResponse { ok, channel, already_in_channel })
    }
}

/// Joins a channel, creating it if needed.
///
/// Wraps the remote method `channels.join`.
pub fn join<C: Transport>(client: &C, token: &str, req: &JoinRequest) -> (r: Result<
    JoinResponse,
    Error<<C as Transport>::E>,
>)
    ensures
        call_contract::<JoinResponse, <C as Transport>::E>(r),
{
    proof {
        reveal_strlit("channels.join");
    }
    call_method(client, token, "channels.join", req)
}

/// Asks to remove a user from a channel.
#[derive(Clone, Default, Debug)]
pub struct KickRequest {
    pub channel: ChannelId,
    pub user: UserId,
}

impl ToParams for KickRequest {
    open spec fn spec_params(&self) -> Seq<(Seq<char>, Seq<char>)> {
        seq![(("channel")@, self.channel@)] + seq![(("user")@, self.user@)]
    }

    fn to_params(&self) -> (r: Vec<(String, String)>) {
        let mut out: Vec<(String, String)> = Vec::new();
        out.push(("channel".to_owned(), self.channel.clone()));
        out.push(("user".to_owned(), self.user.clone()));
        proof {
            assert(pair_views(out@) =~= self.spec_params());
        }
        out
    }
}

/// The reply to a kick request.
#[derive(Clone, Debug)]
pub struct KickResponse {
    ok: bool,
}

/// The view of a `KickResponse`.
pub struct KickResponseV {
    pub ok: bool,
}

impl View for KickResponse {
    type V = KickResponseV;

    closed spec fn view(&self) -> KickResponseV {
        KickResponseV {
            ok: self.ok,
        }
    }
}

impl FromJson for KickResponse {
    open spec fn from_json_spec(j: JsonV) -> Option<KickResponseV> {
        match j {
            JsonV::Obj(es) => if sp_keys_ok(es, seq![("ok").spec_bytes()]) {
                    match sp_req_field::<bool>(es, ("ok").spec_bytes()) {
                        Some(ok) => Some(KickResponseV { ok }),
                        None => None,
                    }
                } else {
                    None
                },
            _ => None,
        }
    }

    fn from_json(j: &Json) -> (r: Result<Self, DecodeErr>) {
        broadcast use crate::json::lemma_view_obj;

        let es = match j {
            Json::Obj(es) => es,
            _ => {
                return Err(decode_failure());
            },
        };
        let mut allowed: Vec<&str> = Vec::new();
        allowed.push("ok");
        proof {
            assert(keys_view(allowed@) =~= seq![("ok").spec_bytes()]);
        }
        if !keys_ok(es, &allowed) {
            return Err(decode_failure());
        }
        let ok = match req_field::<bool>(es, "ok") {
            Ok(v) => v,
            Err(e) => {
                return Err(e);
            },
        };
        Ok(KickResponse { ok })
    }
}

/// Removes a user from a channel.
///
/// Wraps the remote method `channels.kick`.
pub fn kick<C: Transport>(client: &C, token: &str, req: &KickRequest) -> (r: Result<
    KickResponse,
    Error<<C as Transport>::E>,
>)
    ensures
        call_contract::<KickResponse, <C as Transport>::E>(r),
{
    proof {
        reveal_strlit("channels.kick");
    }
    call_method(client, token, "channels.kick", req)
}

/// Asks to leave a channel.
#[derive(Clone, Default, Debug)]
pub struct LeaveRequest {
    pub channel: ChannelId,
}

impl ToParams for LeaveRequest {
    open spec fn spec_params(&self) -> Seq<(Seq<char>, Seq<char>)> {
        seq![(("channel")@, self.channel@)]
    }

    fn to_params(&self) -> (r: Vec<(String, String)>) {
        let mut out: Vec<(String, String)> = Vec::new();
        out.push(("channel".to_owned(), self.channel.clone()));
        proof {
            assert(pair_views(out@) =~= self.spec_params());
        }
        out
    }
}

/// The reply to a leave request.
#[derive(Clone, Debug)]
pub struct LeaveResponse {
    ok: bool,
    not_in_channel: Option<bool>,
}

/// The view of a `LeaveResponse`.
pub struct LeaveResponseV {
    pub ok: bool,
    pub not_in_channel: Option<bool>,
}

impl View for LeaveResponse {
    type V = LeaveResponseV;

    closed spec fn view(&self) -> LeaveResponseV {
        LeaveResponseV {
            ok: self.ok,
            not_in_channel: opt_view(self.not_in_channel),
        }
    }
}

impl FromJson for LeaveResponse {
    open spec fn from_json_spec(j: JsonV) -> Option<LeaveResponseV> {
        match j {
            JsonV::Obj(es) => if sp_keys_ok(es, seq![("ok").spec_bytes(), ("not_in_channel").spec_bytes()]) {
                    match sp_req_field::<bool>(es, ("ok").spec_bytes()) {
                        Some(ok) => match sp_opt_field::<bool>(es, ("not_in_channel").spec_bytes()) {
                            Some(not_in_channel) => Some(LeaveResponseV { ok, not_in_channel }),
                            None => None,
                        },
                        None => None,
                    }
                } else {
                    None
                },
            _ => None,
        }
    }

    fn from_json(j: &Json) -> (r: Result<Self, DecodeErr>) {
        broadcast use crate::json::lemma_view_obj;

        let es = match j {
            Json::Obj(es) => es,
            _ => {
                return Err(decode_failure());
            },
        };
        let mut allowed: Vec<&str> = Vec::new();
        allowed.push("ok");
        allowed.push("not_in_channel");
        proof {
            assert(keys_view(allowed@) =~= seq![("ok").spec_bytes(), ("not_in_channel").spec_bytes()]);
        }
        if !keys_ok(es, &allowed) {
            return Err(decode_failure());
        }
        let ok = match req_field::<bool>(es, "ok") {
            Ok(v) => v,
            Err(e) => {
                return Err(e);
            },
        };
        let not_in_channel = match opt_field::<bool>(es, "not_in_channel") {
            Ok(v) => v,
            Err(e) => {
                return Err(e);
            },
        };
        Ok(LeaveResponse { ok, not_in_channel })
    }
}

/// Leaves a channel.
///
/// Wraps the remote method `channels.leave`.
pub fn leave<C: Transport>(client: &C, token: &str, req: &LeaveRequest) -> (r: Result<
    LeaveResponse,
    Error<<C as Transport>::E>,
>)
    ensures
        call_contract::<LeaveResponse, <C as Transport>::E>(r),
{
    proof {
        reveal_strlit("channels.leave");
    }
    call_method(client, token, "channels.leave", req)
}

/// Asks for the channel listing.
#[derive(Clone, Default, Debug)]
pub struct ListRequest {
    pub exclude_archived: Option<bool>,
    pub exclude_members: Option<bool>,
    pub cursor: Option<String>,
    pub limit: Option<usize>,
}

impl ToParams for ListRequest {
    open spec fn spec_params(&self) -> Seq<(Seq<char>, Seq<char>)> {
        (match self.exclude_archived {
                    Some(b) => seq![(("exclude_archived")@, bool_tf(b))],
                    None => seq![],
            }) + (match self.exclude_members {
                    Some(b) => seq![(("exclude_members")@, bool_tf(b))],
                    None => seq![],
            }) + (match self.cursor {
                    Some(s) => seq![(("cursor")@, s@)],
                    None => seq![],
            }) + (match self.limit {
                    Some(n) => seq![(("limit")@, dec_chars(n as int))],
                    None => seq![],
            })
    }

    fn to_params(&self) -> (r: Vec<(String, String)>) {
        let mut out: Vec<(String, String)> = Vec::new();
        match self.exclude_archived {
            Some(b) => {
                out.push(("exclude_archived".to_owned(), bool_string(b)));
            },
            None => {},
        }
        match self.exclude_members {
            Some(b) => {
                out.push(("exclude_members".to_owned(), bool_string(b)));
            },
            None => {},
        }
        match &self.cursor {
            Some(s) => {
                out.push(("cursor".to_owned(), s.clone()));
            },
            None => {},
        }
        match self.limit {
            Some(n) => {
                out.push(("limit".to_owned(), u64_string(n as u64)));
            },
            None => {},
        }
        proof {
            assert(pair_views(out@) =~= self.spec_params());
        }
        out
    }
}

/// Listing metadata: the cursor for the next page, if any.
#[derive(Clone, Debug)]
pub struct ResponseMetadata {
    next_cursor: Option<String>,
}

/// The view of a `ResponseMetadata`.
pub struct ResponseMetadataV {
    pub next_cursor: Option<Seq<char>>,
}

impl View for ResponseMetadata {
    type V = ResponseMetadataV;

    closed spec fn view(&self) -> ResponseMetadataV {
        ResponseMetadataV {
            next_cursor: opt_view(self.next_cursor),
        }
    }
}

impl FromJson for ResponseMetadata {
    open spec fn from_json_spec(j: JsonV) -> Option<ResponseMetadataV> {
        match j {
            JsonV::Obj(es) => match sp_opt_field::<String>(es, ("next_cursor").spec_bytes()) {
                    Some(next_cursor) => Some(ResponseMetadataV { next_cursor }),
                    None => None,
                },
            _ => None,
        }
    }

    fn from_json(j: &Json) -> (r: Result<Self, DecodeErr>) {
        broadcast use crate::json::lemma_view_obj;

        let es = match j {
            Json::Obj(es) => es,
            _ => {
                return Err(decode_failure());
            },
        };
        let next_cursor = match opt_field::<String>(es, "next_cursor") {
            Ok(v) => v,
            Err(e) => {
                return Err(e);
            },
        };
        Ok(ResponseMetadata { next_cursor })
    }
}

/// The channel listing.
#[derive(Clone, Debug)]
pub struct ListResponse {
    ok: bool,
    pub channels: Vec<Channel>,
    pub response_metadata: Option<ResponseMetadata>,
}

/// The view of a `ListResponse`.
pub struct ListResponseV {
    pub ok: bool,
    pub channels: Seq<ChannelV>,
    pub response_metadata: Option<ResponseMetadataV>,
}

impl View for ListResponse {
    type V = ListResponseV;

    closed spec fn view(&self) -> ListResponseV {
        ListResponseV {
            ok: self.ok,
            channels: vec_views(self.channels@),
            response_metadata: opt_view(self.response_metadata),
        }
    }
}

impl FromJson for ListResponse {
    open spec fn from_json_spec(j: JsonV) -> Option<ListResponseV> {
        match j {
            JsonV::Obj(es) => if sp_keys_ok(es, seq![("ok").spec_bytes(), ("channels").spec_bytes(), ("response_metadata").spec_bytes()]) {
                    match sp_req_field::<bool>(es, ("ok").spec_bytes()) {
                        Some(ok) => match sp_req_vec::<Channel>(es, ("channels").spec_bytes()) {
                            Some(channels) => match sp_opt_field::<ResponseMetadata>(es, ("response_metadata").spec_bytes()) {
                                Some(response_metadata) => Some(ListResponseV { ok, channels, response_metadata }),
                                None => None,
                            },
                            None => None,
                        },
                        None => None,
                    }
                } else {
                    None
                },
            _ => None,
        }
    }

    fn from_json(j: &Json) -> (r: Result<Self, DecodeErr>) {
        broadcast use crate::json::lemma_view_obj;

        let es = match j {
            Json::Obj(es) => es,
            _ => {
                return Err(decode_failure());
            },
        };
        let mut allowed: Vec<&str> = Vec::new();
        allowed.push("ok");
        allowed.push("channels");
        allowed.push("response_metadata");
        proof {
            assert(keys_view(allowed@) =~= seq![("ok").spec_bytes(), ("channels").spec_bytes(), ("response_metadata").spec_bytes()]);
        }
        if !keys_ok(es, &allowed) {
            return Err(decode_failure());
        }
        let ok = match req_field::<bool>(es, "ok") {
            Ok(v) => v,
            Err(e) => {
                return Err(e);
            },
        };
        let channels = match req_vec::<Channel>(es, "channels") {
            Ok(v) => v,
            Err(e) => {
                return Err(e);
            },
        };
        let response_metadata = match opt_field::<ResponseMetadata>(es, "response_metadata") {
            Ok(v) => v,
            Err(e) => {
                return Err(e);
            },
        };
        Ok(ListResponse { ok, channels, response_metadata })
    }
}

/// Lists all channels in the team.
///
/// Wraps the remote method `channels.list`.
pub fn list<C: Transport>(client: &C, token: &str, req: &ListRequest) -> (r: Result<
    ListResponse,
    Error<<C as Transport>::E>,
>)
    ensures
        call_contract::<ListResponse, <C as Transport>::E>(r),
{
    proof {
        reveal_strlit("channels.list");
    }
    call_method(client, token, "channels.list", req)
}

/// Asks to move the read cursor of a channel.
#[derive(Clone, Default, Debug)]
pub struct MarkRequest {
    pub channel: ChannelId,
    pub ts: String,
}

impl ToParams for MarkRequest {
    open spec fn spec_params(&self) -> Seq<(Seq<char>, Seq<char>)> {
        seq![(("channel")@, self.channel@)] + seq![(("ts")@, self.ts@)]
    }

    fn to_params(&self) -> (r: Vec<(String, String)>) {
        let mut out: Vec<(String, String)> = Vec::new();
        out.push(("channel".to_owned(), self.channel.clone()));
        out.push(("ts".to_owned(), self.ts.clone()));
        proof {
            assert(pair_views(out@) =~= self.spec_params());
        }
        out
    }
}

/// The reply to a mark request.
#[derive(Clone, Debug)]
pub struct MarkResponse {
    ok: bool,
}

/// The view of a `MarkResponse`.
pub struct MarkResponseV {
    pub ok: bool,
}

impl View for MarkResponse {
    type V = MarkResponseV;

    closed spec fn view(&self) -> MarkResponseV {
        MarkResponseV {
            ok: self.ok,
        }
    }
}

impl FromJson for MarkResponse {
    open spec fn from_json_spec(j: JsonV) -> Option<MarkResponseV> {
        match j {
            JsonV::Obj(es) => if sp_keys_ok(es, seq![("ok").spec_bytes()]) {
                    match sp_req_field::<bool>(es, ("ok").spec_bytes()) {
                        Some(ok) => Some(MarkResponseV { ok }),
                        None => None,
                    }
                } else {
                    None
                },
            _ => None,
        }
    }

    fn from_json(j: &Json) -> (r: Result<Self, DecodeErr>) {
        broadcast use crate::json::lemma_view_obj;

        let es = match j {
            Json::Obj(es) => es,
            _ => {
                return Err(decode_failure());
            },
        };
        let mut allowed: Vec<&str> = Vec::new();
        allowed.push("ok");
        proof {
            assert(keys_view(allowed@) =~= seq![("ok").spec_bytes()]);
        }
        if !keys_ok(es, &allowed) {
            return Err(decode_failure());
        }
        let ok = match req_field::<bool>(es, "ok") {
            Ok(v) => v,
            Err(e) => {
                return Err(e);
            },
        };
        Ok(MarkResponse { ok })
    }
}

/// Sets the read cursor in a channel.
///
/// Wraps the remote method `channels.mark`.
pub fn mark<C: Transport>(client: &C, token: &str, req: &MarkRequest) -> (r: Result<
    MarkResponse,
    Error<<C as Transport>::E>,
>)
    ensures
        call_contract::<MarkResponse, <C as Transport>::E>(r),
{
    proof {
        reveal_strlit("channels.mark");
    }
    call_method(client, token, "channels.mark", req)
}

/// Asks to rename a channel.
#[derive(Clone, Default, Debug)]
pub struct RenameRequest {
    pub channel: ChannelId,
    pub name: String,
    pub validate: Option<bool>,
}

impl ToParams for RenameRequest {
    open spec fn spec_params(&self) -> Seq<(Seq<char>, Seq<char>)> {
        seq![(("channel")@, self.channel@)] + seq![(("name")@, self.name@)] + (match self.validate {
                    Some(b) => seq![(("validate")@, bool_tf(b))],
                    None => seq![],
            })
    }

    fn to_params(&self) -> (r: Vec<(String, String)>) {
        let mut out: Vec<(String, String)> = Vec::new();
        out.push(("channel".to_owned(), self.channel.clone()));
        out.push(("name".to_owned(), self.name.clone()));
        match self.validate {
            Some(b) => {
                out.push(("validate".to_owned(), bool_string(b)));
            },
            None => {},
        }
        proof {
            assert(pair_views(out@) =~= self.spec_params());
        }
        out
    }
}

/// The channel under its new name.
#[derive(Clone, Debug)]
pub struct RenameResponse {
    ok: bool,
    pub channel: Channel,
}

/// The view of a `RenameResponse`.
pub struct RenameResponseV {
    pub ok: bool,
    pub channel: ChannelV,
}

impl View for RenameResponse {
    type V = RenameResponseV;

    closed spec fn view(&self) -> RenameResponseV {
        RenameResponseV {
            ok: self.ok,
            channel: self.channel@,
        }
    }
}

impl FromJson for RenameResponse {
    open spec fn from_json_spec(j: JsonV) -> Option<RenameResponseV> {
        match j {
            JsonV::Obj(es) => if sp_keys_ok(es, seq![("ok").spec_bytes(), ("channel").spec_bytes()]) {
                    match sp_req_field::<bool>(es, ("ok").spec_bytes()) {
                        Some(ok) => match sp_req_field::<Channel>(es, ("channel").spec_bytes()) {
                            Some(channel) => Some(RenameResponseV { ok, channel }),
                            None => None,
                        },
                        None => None,
                    }
                } else {
                    None
                },
            _ => None,
        }
    }

    fn from_json(j: &Json) -> (r: Result<Self, DecodeErr>) {
        broadcast use crate::json::lemma_view_obj;

        let es = match j {
            Json::Obj(es) => es,
            _ => {
                return Err(decode_failure());
            },
        };
        let mut allowed: Vec<&str> = Vec::new();
        allowed.push("ok");
        allowed.push("channel");
        proof {
            assert(keys_view(allowed@) =~= seq![("ok").spec_bytes(), ("channel").spec_bytes()]);
        }
        if !keys_ok(es, &allowed) {
            return Err(decode_failure());
        }
        let ok = match req_field::<bool>(es, "ok") {
            Ok(v) => v,
            Err(e) => {
                return Err(e);
            },
        };
        let channel = match req_field::<Channel>(es, "channel") {
            Ok(v) => v,
            Err(e) => {
                return Err(e);
            },
        };
        Ok(RenameResponse { ok, channel })
    }
}

/// Renames a channel.
///
/// Wraps the remote method `channels.rename`.
pub fn rename<C: Transport>(client: &C, token: &str, req: &RenameRequest) -> (r: Result<
    RenameResponse,
    Error<<C as Transport>::E>,
>)
    ensures
        call_contract::<RenameResponse, <C as Transport>::E>(r),
{
    proof {
        reveal_strlit("channels.rename");
    }
    call_method(client, token, "channels.rename", req)
}

/// Asks for a thread of messages.
#[derive(Clone, Default, Debug)]
pub struct RepliesRequest {
    pub channel: ChannelId,
    pub thread_ts: String,
}

impl ToParams for RepliesRequest {
    open spec fn spec_params(&self) -> Seq<(Seq<char>, Seq<char>)> {
        seq![(("channel")@, self.channel@)] + seq![(("thread_ts")@, self.thread_ts@)]
    }

    fn to_params(&self) -> (r: Vec<(String, String)>) {
        let mut out: Vec<(String, String)> = Vec::new();
        out.push(("channel".to_owned(), self.channel.clone()));
        out.push(("thread_ts".to_owned(), self.thread_ts.clone()));
        proof {
            assert(pair_views(out@) =~= self.spec_params());
        }
        out
    }
}

/// A thread of messages.
#[derive(Clone, Debug)]
pub struct RepliesResponse {
    ok: bool,
    pub has_more: bool,
    pub messages: Vec<Message>,
}

/// The view of a `RepliesResponse`.
pub struct RepliesResponseV {
    pub ok: bool,
    pub has_more: bool,
    pub messages: Seq<MessageV>,
}

impl View for RepliesResponse {
    type V = RepliesResponseV;

    closed spec fn view(&self) -> RepliesResponseV {
        RepliesResponseV {
            ok: self.ok,
            has_more: self.has_more,
            messages: vec_views(self.messages@),
        }
    }
}

impl FromJson for RepliesResponse {
    open spec fn from_json_spec(j: JsonV) -> Option<RepliesResponseV> {
        match j {
            JsonV::Obj(es) => if sp_keys_ok(es, seq![("ok").spec_bytes(), ("has_more").spec_bytes(), ("messages").spec_bytes()]) {
                    match sp_req_field::<bool>(es, ("ok").spec_bytes()) {
                        Some(ok) => match sp_req_field::<bool>(es, ("has_more").spec_bytes()) {
                            Some(has_more) => match sp_req_vec::<Message>(es, ("messages").spec_bytes()) {
                                Some(messages) => Some(RepliesResponseV { ok, has_more, messages }),
                                None => None,
                            },
                            None => None,
                        },
                        None => None,
                    }
                } else {
                    None
                },
            _ => None,
        }
    }

    fn from_json(j: &Json) -> (r: Result<Self, DecodeErr>) {
        broadcast use crate::json::lemma_view_obj;

        let es = match j {
            Json::Obj(es) => es,
            _ => {
                return Err(decode_failure());
            },
        };
        let mut allowed: Vec<&str> = Vec::new();
        allowed.push("ok");
        allowed.push("has_more");
        allowed.push("messages");
        proof {
            assert(keys_view(allowed@) =~= seq![("ok").spec_bytes(), ("has_more").spec_bytes(), ("messages").spec_bytes()]);
        }
        if !keys_ok(es, &allowed) {
            return Err(decode_failure());
        }
        let ok = match req_field::<bool>(es, "ok") {
            Ok(v) => v,
            Err(e) => {
                return Err(e);
            },
        };
        let has_more = match req_field::<bool>(es, "has_more") {
            Ok(v) => v,
            Err(e) => {
                return Err(e);
            },
        };
        let messages = match req_vec::<Message>(es, "messages") {
            Ok(v) => v,
            Err(e) => {
                return Err(e);
            },
        };
        Ok(RepliesResponse { ok, has_more, messages })
    }
}

/// Retrieves a thread of messages posted to a channel.
///
/// Wraps the remote method `channels.replies`.
pub fn replies<C: Transport>(client: &C, token: &str, req: &RepliesRequest) -> (r: Result<
    RepliesResponse,
    Error<<C as Transport>::E>,
>)
    ensures
        call_contract::<RepliesResponse, <C as Transport>::E>(r),
{
    proof {
        reveal_strlit("channels.replies");
    }
    call_method(client, token, "channels.replies", req)
}

/// Asks to set a channel's purpose.
#[derive(Clone, Default, Debug)]
pub struct SetPurposeRequest {
    pub channel: ChannelId,
    pub purpose: String,
}

impl ToParams for SetPurposeRequest {
    open spec fn spec_params(&self) -> Seq<(Seq<char>, Seq<char>)> {
        seq![(("channel")@, self.channel@)] + seq![(("purpose")@, self.purpose@)]
    }

    fn to_params(&self) -> (r: Vec<(String, String)>) {
        let mut out: Vec<(String, String)> = Vec::new();
        out.push(("channel".to_owned(), self.channel.clone()));
        out.push(("purpose".to_owned(), self.purpose.clone()));
        proof {
            assert(pair_views(out@) =~= self.spec_params());
        }
        out
    }
}

/// The purpose as the service stored it.
#[derive(Clone, Debug)]
pub struct SetPurposeResponse {
    ok: bool,
    pub purpose: String,
}

/// The view of a `SetPurposeResponse`.
pub struct SetPurposeResponseV {
    pub ok: bool,
    pub purpose: Seq<char>,
}

impl View for SetPurposeResponse {
    type V = SetPurposeResponseV;

    closed spec fn view(&self) -> SetPurposeResponseV {
        SetPurposeResponseV {
            ok: self.ok,
            purpose: self.purpose@,
        }
    }
}

impl FromJson for SetPurposeResponse {
    open spec fn from_json_spec(j: JsonV) -> Option<SetPurposeResponseV> {
        match j {
            JsonV::Obj(es) => if sp_keys_ok(es, seq![("ok").spec_bytes(), ("purpose").spec_bytes()]) {
                    match sp_req_field::<bool>(es, ("ok").spec_bytes()) {
                        Some(ok) => match sp_req_field::<String>(es, ("purpose").spec_bytes()) {
                            Some(purpose) => Some(SetPurposeResponseV { ok, purpose }),
                            None => None,
                        },
                        None => None,
                    }
                } else {
                    None
                },
            _ => None,
        }
    }

    fn from_json(j: &Json) -> (r: Result<Self, DecodeErr>) {
        broadcast use crate::json::lemma_view_obj;

        let es = match j {
            Json::Obj(es) => es,
            _ => {
                return Err(decode_failure());
            },
        };
        let mut allowed: Vec<&str> = Vec::new();
        allowed.push("ok");
        allowed.push("purpose");
        proof {
            assert(keys_view(allowed@) =~= seq![("ok").spec_bytes(), ("purpose").spec_bytes()]);
        }
        if !keys_ok(es, &allowed) {
            return Err(decode_failure());
        }
        let ok = match req_field::<bool>(es, "ok") {
            Ok(v) => v,
            Err(e) => {
                return Err(e);
            },
        };
        let purpose = match req_field::<String>(es, "purpose") {
            Ok(v) => v,
            Err(e) => {
                return Err(e);
            },
        };
        Ok(SetPurposeResponse { ok, purpose })
    }
}

/// Sets the purpose for a channel.
///
/// Wraps the remote method `channels.setPurpose`.
pub fn set_purpose<C: Transport>(client: &C, token: &str, req: &SetPurposeRequest) -> (r: Result<
    SetPurposeResponse,
    Error<<C as Transport>::E>,
>)
    ensures
        call_contract::<SetPurposeResponse, <C as Transport>::E>(r),
{
    proof {
        reveal_strlit("channels.setPurpose");
    }
    call_method(client, token, "channels.setPurpose", req)
}

/// Asks to set a channel's topic.
#[derive(Clone, Default, Debug)]
pub struct SetTopicRequest {
    pub channel: ChannelId,
    pub topic: String,
}

impl ToParams for SetTopicRequest {
    open spec fn spec_params(&self) -> Seq<(Seq<char>, Seq<char>)> {
        seq![(("channel")@, self.channel@)] + seq![(("topic")@, self.topic@)]
    }

    fn to_params(&self) -> (r: Vec<(String, String)>) {
        let mut out: Vec<(String, String)> = Vec::new();
        out.push(("channel".to_owned(), self.channel.clone()));
        out.push(("topic".to_owned(), self.topic.clone()));
        proof {
            assert(pair_views(out@) =~= self.spec_params());
        }
        out
    }
}

/// The topic as the service stored it.
#[derive(Clone, Debug)]
pub struct SetTopicResponse {
    ok: bool,
    pub topic: String,
}

/// The view of a `SetTopicResponse`.
pub struct SetTopicResponseV {
    pub ok: bool,
    pub topic: Seq<char>,
}

impl View for SetTopicResponse {
    type V = SetTopicResponseV;

    closed spec fn view(&self) -> SetTopicResponseV {
        SetTopicResponseV {
            ok: self.ok,
            topic: self.topic@,
        }
    }
}

impl FromJson for SetTopicResponse {
    open spec fn from_json_spec(j: JsonV) -> Option<SetTopicResponseV> {
        match j {
            JsonV::Obj(es) => if sp_keys_ok(es, seq![("ok").spec_bytes(), ("topic").spec_bytes()]) {
                    match sp_req_field::<bool>(es, ("ok").spec_bytes()) {
                        Some(ok) => match sp_req_field::<String>(es, ("topic").spec_bytes()) {
                            Some(topic) => Some(SetTopicResponseV { ok, topic }),
                            None => None,
                        },
                        None => None,
                    }
                } else {
                    None
                },
            _ => None,
        }
    }

    fn from_json(j: &Json) -> (r: Result<Self, DecodeErr>) {
        broadcast use crate::json::lemma_view_obj;

        let es = match j {
            Json::Obj(es) => es,
            _ => {
                return Err(decode_failure());
            },
        };
        let mut allowed: Vec<&str> = Vec::new();
        allowed.push("ok");
        allowed.push("topic");
        proof {
            assert(keys_view(allowed@) =~= seq![("ok").spec_bytes(), ("topic").spec_bytes()]);
        }
        if !keys_ok(es, &allowed) {
            return Err(decode_failure());
        }
        let ok = match req_field::<bool>(es, "ok") {
            Ok(v) => v,
            Err(e) => {
                return Err(e);
            },
        };
        let topic = match req_field::<String>(es, "topic") {
            Ok(v) => v,
            Err(e) => {
                return Err(e);
            },
        };
        Ok(SetTopicResponse { ok, topic })
    }
}

/// Sets the topic for a channel.
///
/// Wraps the remote method `channels.setTopic`.
pub fn set_topic<C: Transport>(client: &C, token: &str, req: &SetTopicRequest) -> (r: Result<
    SetTopicResponse,
    Error<<C as Transport>::E>,
>)
    ensures
        call_contract::<SetTopicResponse, <C as Transport>::E>(r),
{
    proof {
        reveal_strlit("channels.setTopic");
    }
    call_method(client, token, "channels.setTopic", req)
}

/// Asks to unarchive a channel.
#[derive(Clone, Default, Debug)]
pub struct UnarchiveRequest {
    pub channel: ChannelId,
}

impl ToParams for UnarchiveRequest {
    open spec fn spec_params(&self) -> Seq<(Seq<char>, Seq<char>)> {
        seq![(("channel")@, self.channel@)]
    }

    fn to_params(&self) -> (r: Vec<(String, String)>) {
        let mut out: Vec<(String, String)> = Vec::new();
        out.push(("channel".to_owned(), self.channel.clone()));
        proof {
            assert(pair_views(out@) =~= self.spec_params());
        }
        out
    }
}

/// The reply to an unarchive request.
#[derive(Clone, Debug)]
pub struct UnarchiveResponse {
    ok: bool,
}

/// The view of a `UnarchiveResponse`.
pub struct UnarchiveResponseV {
    pub ok: bool,
}

impl View for UnarchiveResponse {
    type V = UnarchiveResponseV;

    closed spec fn view(&self) -> UnarchiveResponseV {
        UnarchiveResponseV {
            ok: self.ok,
        }
    }
}

impl FromJson for UnarchiveResponse {
    open spec fn from_json_spec(j: JsonV) -> Option<UnarchiveResponseV> {
        match j {
            JsonV::Obj(es) => if sp_keys_ok(es, seq![("ok").spec_bytes()]) {
                    match sp_req_field::<bool>(es, ("ok").spec_bytes()) {
                        Some(ok) => Some(UnarchiveResponseV { ok }),
                        None => None,
                    }
                } else {
                    None
                },
            _ => None,
        }
    }

    fn from_json(j: &Json) -> (r: Result<Self, DecodeErr>) {
        broadcast use crate::json::lemma_view_obj;

        let es = match j {
            Json::Obj(es) => es,
            _ => {
                return Err(decode_failure());
            },
        };
        let mut allowed: Vec<&str> = Vec::new();
        allowed.push("ok");
        proof {
            assert(keys_view(allowed@) =~= seq![("ok").spec_bytes()]);
        }
        if !keys_ok(es, &allowed) {
            return Err(decode_failure());
        }
        let ok = match req_field::<bool>(es, "ok") {
            Ok(v) => v,
            Err(e) => {
                return Err(e);
            },
        };
        Ok(UnarchiveResponse { ok })
    }
}

/// Unarchives a channel.
///
/// Wraps the remote method `channels.unarchive`.
pub fn unarchive<C: Transport>(client: &C, token: &str, req: &UnarchiveRequest) -> (r: Result<
    UnarchiveResponse,
    Error<<C as Transport>::E>,
>)
    ensures
        call_contract::<UnarchiveResponse, <C as Transport>::E>(r),
{
    proof {
        reveal_strlit("channels.unarchive");
    }
    call_method(client, token, "channels.unarchive", req)
}

} // verus!
