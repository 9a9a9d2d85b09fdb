//! Team-wide endpoints: billing, team information and integration logs.
//! The access-log listing itself carries floating-point fields and stays
//! outside this crate; its request record is kept for callers.

use vstd::prelude::*;
use crate::json::{Json, JsonV};
use crate::decode::{
    FromJson, DecodeErr, decode_failure, keys_ok, keys_view, sp_keys_ok, sp_lookup, lookup,
    sp_req_field, sp_opt_field, sp_opt_vec, req_field, opt_field, opt_vec, opt_view,
    opt_vec_view,
};
use crate::requests::{Transport, Error, ToParams, call_contract, call_method, EmptyRequest};
use crate::codec::pair_views;
use crate::text::{dec_chars, u64_string};
use crate::types::{UserId, AppId, Team, TeamV, Paging, PagingV};
use crate::codec::{MapDecode, BoolMap, BoolMapV};
use vstd::string::StringSliceAdditionalSpecFns;

verus! {

/// Asks for the team's access logs, paginated.
#[derive(Clone, Default, Debug)]
pub struct AccessLogsRequest {
    pub count: Option<u32>,
    pub page: Option<u32>,
    pub before: Option<u32>,
}

impl ToParams for AccessLogsRequest {
    open spec fn spec_params(&self) -> Seq<(Seq<char>, Seq<char>)> {
        (match self.count {
                    Some(n) => seq![(("count")@, dec_chars(n as int))],
                    None => seq![],
            }) + (match self.page {
                    Some(n) => seq![(("page")@, dec_chars(n as int))],
                    None => seq![],
            }) + (match self.before {
                    Some(n) => seq![(("before")@, dec_chars(n as int))],
                    None => seq![],
            })
    }

    fn to_params(&self) -> (r: Vec<(String, String)>) {
        let mut out: Vec<(String, String)> = Vec::new();
        match self.count {
            Some(n) => {
                out.push(("count".to_owned(), u64_string(n as u64)));
            },
            None => {},
        }
        match self.page {
            Some(n) => {
                out.push(("page".to_owned(), u64_string(n as u64)));
            },
            None => {},
        }
        match self.before {
            Some(n) => {
                out.push(("before".to_owned(), u64_string(n as u64)));
            },
            None => {},
        }
        proof {
            assert(pair_views(out@) =~= self.spec_params());
        }
        out
    }
}

/// Asks for billing status, optionally of one user.
#[derive(Clone, Default, Debug)]
pub struct BillableInfoRequest {
    pub user: Option<UserId>,
}

impl ToParams for BillableInfoRequest {
    open spec fn spec_params(&self) -> Seq<(Seq<char>, Seq<char>)> {
        (match self.user {
                    Some(s) => seq![(("user")@, s@)],
                    None => seq![],
            })
    }

    fn to_params(&self) -> (r: Vec<(String, String)>) {
        let mut out: Vec<(String, String)> = Vec::new();
        match &self.user {
            Some(s) => {
                out.push(("user".to_owned(), s.clone()));
            },
            None => {},
        }
        proof {
            assert(pair_views(out@) =~= self.spec_params());
        }
        out
    }
}

/// Billing status per user identifier.
#[derive(Clone, Debug)]
pub struct BillableInfoResponse {
    ok: bool,
    pub billable_info: BoolMap,
}

/// The view of a `BillableInfoResponse`.
pub struct BillableInfoResponseV {
    pub ok: bool,
    pub billable_info: BoolMapV,
}

impl View for BillableInfoResponse {
    type V = BillableInfoResponseV;

    closed spec fn view(&self) -> BillableInfoResponseV {
        BillableInfoResponseV {
            ok: self.ok,
            billable_info: self.billable_info@,
        }
    }
}

impl FromJson for BillableInfoResponse {
    open spec fn from_json_spec(j: JsonV) -> Option<BillableInfoResponseV> {
        match j {
            JsonV::Obj(es) => if sp_keys_ok(es, seq![("ok").spec_bytes(), ("billable_info").spec_bytes()]) {
                    match sp_req_field::<bool>(es, ("ok").spec_bytes()) {
                        Some(ok) => match sp_lookup(es, ("billable_info").spec_bytes()) {
                            Some(JsonV::Obj(aes)) => match BoolMap::from_entries_spec(aes) {
                                Some(billable_info) => Some(BillableInfoResponseV { ok, billable_info }),
                                None => None,
                            },
                            _ => None,
                        },
                        None => None,
                    }
                } else {
                    None
                },
            _ => None,
        }
    }

    fn from_json(j: &Json) -> (r: Result<Self, DecodeErr>) {
        broadcast use crate::json::lemma_view_obj;

        let es = match j {
            Json::Obj(es) => es,
            _ => {
                return Err(decode_failure());
            },
        };
        let mut allowed: Vec<&str> = Vec::new();
        allowed.push("ok");
        allowed.push("billable_info");
        proof {
            assert(keys_view(allowed@) =~= seq![("ok").spec_bytes(), ("billable_info").spec_bytes()]);
        }
        if !keys_ok(es, &allowed) {
            return Err(decode_failure());
        }
        let ok = match req_field::<bool>(es, "ok") {
            Ok(v) => v,
            Err(e) => {
                return Err(e);
            },
        };
        let billable_info = match lookup(es, "billable_info".as_bytes()) {
            Some(vj) => match vj {
                Json::Obj(aes) => match BoolMap::decode_from_map(aes) {
                    Ok(v) => v,
                    Err(e) => {
                        return Err(e);
                    },
                },
                _ => {
                    return Err(decode_failure());
                },
            },
            None => {
                return Err(decode_failure());
            },
        };
        Ok(BillableInfoResponse { ok, billable_info })
    }
}

/// Gets billable users information for the current team.
///
/// Wraps the remote method `team.billableInfo`.
pub fn billable_info<C: Transport>(client: &C, token: &str, req: &BillableInfoRequest) -> (r: Result<
    BillableInfoResponse,
    Error<<C as Transport>::E>,
>)
    ensures
        call_contract::<BillableInfoResponse, <C as Transport>::E>(r),
{
    proof {
        reveal_strlit("team.billableInfo");
    }
    call_method(client, token, "team.billableInfo", req)
}

/// Information about the current team.
#[derive(Clone, Debug)]
pub struct InfoResponse {
    ok: bool,
    pub team: Option<Team>,
}

/// The view of a `InfoResponse`.
pub struct InfoResponseV {
    pub ok: bool,
    pub team: Option<TeamV>,
}

impl View for InfoResponse {
    type V = InfoResponseV;

    closed spec fn view(&self) -> InfoResponseV {
        InfoResponseV {
            ok: self.ok,
            team: opt_view(self.team),
        }
    }
}

impl FromJson for InfoResponse {
    open spec fn from_json_spec(j: JsonV) -> Option<InfoResponseV> {
        match j {
            JsonV::Obj(es) => if sp_keys_ok(es, seq![("ok").spec_bytes(), ("team").spec_bytes()]) {
                    match sp_req_field::<bool>(es, ("ok").spec_bytes()) {
                        Some(ok) => match sp_opt_field::<Team>(es, ("team").spec_bytes()) {
                            Some(team) => Some(InfoResponseV { ok, team }),
                            None => None,
                        },
                        None => None,
                    }
                } else {
                    None
                },
            _ => None,
        }
    }

    fn from_json(j: &Json) -> (r: Result<Self, DecodeErr>) {
        broadcast use crate::json::lemma_view_obj;

        let es = match j {
            Json::Obj(es) => es,
            _ => {
                return Err(decode_failure());
            },
        };
        let mut allowed: Vec<&str> = Vec::new();
        allowed.push("ok");
        allowed.push("team");
        proof {
            assert(keys_view(allowed@) =~= seq![("ok").spec_bytes(), ("team").spec_bytes()]);
        }
        if !keys_ok(es, &allowed) {
            return Err(decode_failure());
        }
        let ok = match req_field::<bool>(es, "ok") {
            Ok(v) => v,
            Err(e) => {
                return Err(e);
            },
        };
        let team = match opt_field::<Team>(es, "team") {
            Ok(v) => v,
            Err(e) => {
                return Err(e);
            },
        };
        Ok(InfoResponse { ok, team })
    }
}

/// Gets information about the current team.
///
/// Wraps the remote method `team.info`.
pub fn info<C: Transport>(client: &C, token: &str) -> (r: Result<
    InfoResponse,
    Error<<C as Transport>::E>,
>)
    ensures
        call_contract::<InfoResponse, <C as Transport>::E>(r),
{
    proof {
        reveal_strlit("team.info");
    }
    call_method(client, token, "team.info", &EmptyRequest {})
}

/// Asks for the team's integration logs, filtered and paginated.
#[derive(Clone, Default, Debug)]
pub struct IntegrationLogsRequest {
    pub service_id: Option<String>,
    pub app_id: Option<AppId>,
    pub user: Option<UserId>,
    pub change_type: Option<String>,
    pub count: Option<u32>,
    pub page: Option<u32>,
}

impl ToParams for IntegrationLogsRequest {
    open spec fn spec_params(&self) -> Seq<(Seq<char>, Seq<char>)> {
        (match self.service_id {
                    Some(s) => seq![(("service_id")@, s@)],
                    None => seq![],
            }) + (match self.app_id {
                    Some(s) => seq![(("app_id")@, s@)],
                    None => seq![],
            }) + (match self.user {
                    Some(s) => seq![(("user")@, s@)],
                    None => seq![],
            }) + (match self.change_type {
                    Some(s) => seq![(("change_type")@, s@)],
                    None => seq![],
            }) + (match self.count {
                    Some(n) => seq![(("count")@, dec_chars(n as int))],
                    None => seq![],
            }) + (match self.page {
                    Some(n) => seq![(("page")@, dec_chars(n as int))],
                    None => seq![],
            })
    }

    fn to_params(&self) -> (r: Vec<(String, String)>) {
        let mut out: Vec<(String, String)> = Vec::new();
        match &self.service_id {
            Some(s) => {
                out.push(("service_id".to_owned(), s.clone()));
            },
            None => {},
        }
        match &self.app_id {
            Some(s) => {
                out.push(("app_id".to_owned(), s.clone()));
            },
            None => {},
        }
        match &self.user {
            Some(s) => {
                out.push(("user".to_owned(), s.clone()));
            },
            None => {},
        }
        match &self.change_type {
            Some(s) => {
                out.push(("change_type".to_owned(), s.clone()));
            },
            None => {},
        }
        match self.count {
            Some(n) => {
                out.push(("count".to_owned(), u64_string(n as u64)));
            },
            None => {},
        }
        match self.page {
            Some(n) => {
                out.push(("page".to_owned(), u64_string(n as u64)));
            },
            None => {},
        }
        proof {
            assert(pair_views(out@) =~= self.spec_params());
        }
        out
    }
}

/// One integration log line.
#[derive(Clone, Debug)]
pub struct IntegrationLogsResponseLog {
    pub app_id: Option<String>,
    pub app_type: Option<String>,
    pub change_type: Option<String>,
    pub channel: Option<String>,
    pub date: Option<String>,
    pub reason: Option<String>,
    pub scope: Option<String>,
    pub service_id: Option<String>,
    pub service_type: Option<String>,
    pub user_id: Option<String>,
    pub user_name: Option<String>,
}

/// The view of a `IntegrationLogsResponseLog`.
pub struct IntegrationLogsResponseLogV {
    pub app_id: Option<Seq<char>>,
    pub app_type: Option<Seq<char>>,
    pub change_type: Option<Seq<char>>,
    pub channel: Option<Seq<char>>,
    pub date: Option<Seq<char>>,
    pub reason: Option<Seq<char>>,
    pub scope: Option<Seq<char>>,
    pub service_id: Option<Seq<char>>,
    pub service_type: Option<Seq<char>>,
    pub user_id: Option<Seq<char>>,
    pub user_name: Option<Seq<char>>,
}

impl View for IntegrationLogsResponseLog {
    type V = IntegrationLogsResponseLogV;

    open spec fn view(&self) -> IntegrationLogsResponseLogV {
        IntegrationLogsResponseLogV {
            app_id: opt_view(self.app_id),
            app_type: opt_view(self.app_type),
            change_type: opt_view(self.change_type),
            channel: opt_view(self.channel),
            date: opt_view(self.date),
            reason: opt_view(self.reason),
            scope: opt_view(self.scope),
            service_id: opt_view(self.service_id),
            service_type: opt_view(self.service_type),
            user_id: opt_view(self.user_id),
            user_name: opt_view(self.user_name),
        }
    }
}

impl FromJson for IntegrationLogsResponseLog {
    open spec fn from_json_spec(j: JsonV) -> Option<IntegrationLogsResponseLogV> {
        match j {
            JsonV::Obj(es) => if sp_keys_ok(es, seq![("app_id").spec_bytes(), ("app_type").spec_bytes(), ("change_type").spec_bytes(), ("channel").spec_bytes(), ("date").spec_bytes(), ("reason").spec_bytes(), ("scope").spec_bytes(), ("service_id").spec_bytes(), ("service_type").spec_bytes(), ("user_id").spec_bytes(), ("user_name").spec_bytes()]) {
                    match sp_opt_field::<String>(es, ("app_id").spec_bytes()) {
                        Some(app_id) => match sp_opt_field::<String>(es, ("app_type").spec_bytes()) {
                            Some(app_type) => match sp_opt_field::<String>(es, ("change_type").spec_bytes()) {
                                Some(change_type) => match sp_opt_field::<String>(es, ("channel").spec_bytes()) {
                                    Some(channel) => match sp_opt_field::<String>(es, ("date").spec_bytes()) {
                                        Some(date) => match sp_opt_field::<String>(es, ("reason").spec_bytes()) {
                                            Some(reason) => match sp_opt_field::<String>(es, ("scope").spec_bytes()) {
                                                Some(scope) => match sp_opt_field::<String>(es, ("service_id").spec_bytes()) {
                                                    Some(service_id) => match sp_opt_field::<String>(es, ("service_type").spec_bytes()) {
                                                        Some(service_type) => match sp_opt_field::<String>(es, ("user_id").spec_bytes()) {
                                                            Some(user_id) => match sp_opt_field::<String>(es, ("user_name").spec_bytes()) {
                                                                Some(user_name) => Some(IntegrationLogsResponseLogV { app_id, app_type, change_type, channel, date, reason, scope, service_id, service_type, user_id, user_name }),
                                                                None => None,
                                                            },
                                                            None => None,
                                                        },
                                                        None => None,
                                                    },
                                                    None => None,
                                                },
                                                None => None,
                                            },
                                            None => None,
                                        },
                                        None => None,
                                    },
                                    None => None,
                                },
                                None => None,
                            },
                            None => None,
                        },
                        None => None,
                    }
                } else {
                    None
                },
            _ => None,
        }
    }

    fn from_json(j: &Json) -> (r: Result<Self, DecodeErr>) {
        broadcast use crate::json::lemma_view_obj;

        let es = match j {
            Json::Obj(es) => es,
            _ => {
                return Err(decode_failure());
            },
        };
        let mut allowed: Vec<&str> = Vec::new();
        allowed.push("app_id");
        allowed.push("app_type");
        allowed.push("change_type");
        allowed.push("channel");
        allowed.push("date");
        allowed.push("reason");
        allowed.push("scope");
        allowed.push("service_id");
        allowed.push("service_type");
        allowed.push("user_id");
        allowed.push("user_name");
        proof {
            assert(keys_view(allowed@) =~= seq![("app_id").spec_bytes(), ("app_type").spec_bytes(), ("change_type").spec_bytes(), ("channel").spec_bytes(), ("date").spec_bytes(), ("reason").spec_bytes(), ("scope").spec_bytes(), ("service_id").spec_bytes(), ("service_type").spec_bytes(), ("user_id").spec_bytes(), ("user_name").spec_bytes()]);
        }
        if !keys_ok(es, &allowed) {
            return Err(decode_failure());
        }
        let app_id = match opt_field::<String>(es, "app_id") {
            Ok(v) => v,
            Err(e) => {
                return Err(e);
            },
        };
        let app_type = match opt_field::<String>(es, "app_type") {
            Ok(v) => v,
            Err(e) => {
                return Err(e);
            },
        };
        let change_type = match opt_field::<String>(es, "change_type") {
            Ok(v) => v,
            Err(e) => {
                return Err(e);
            },
        };
        let channel = match opt_field::<String>(es, "channel") {
            Ok(v) => v,
            Err(e) => {
                return Err(e);
            },
        };
        let date = match opt_field::<String>(es, "date") {
            Ok(v) => v,
            Err(e) => {
                return Err(e);
            },
        };
        let reason = match opt_field::<String>(es, "reason") {
            Ok(v) => v,
            Err(e) => {
                return Err(e);
            },
        };
        let scope = match opt_field::<String>(es, "scope") {
            Ok(v) => v,
            Err(e) => {
                return Err(e);
            },
        };
        let service_id = match opt_field::<String>(es, "service_id") {
            Ok(v) => v,
            Err(e) => {
                return Err(e);
            },
        };
        let service_type = match opt_field::<String>(es, "service_type") {
            Ok(v) => v,
            Err(e) => {
                return Err(e);
            },
        };
        let user_id = match opt_field::<String>(es, "user_id") {
            Ok(v) => v,
            Err(e) => {
                return Err(e);
            },
        };
        let user_name = match opt_field::<String>(es, "user_name") {
            Ok(v) => v,
            Err(e) => {
                return Err(e);
            },
        };
        Ok(IntegrationLogsResponseLog { app_id, app_type, change_type, channel, date, reason, scope, service_id, service_type, user_id, user_name })
    }
}

/// The team's integration logs.
#[derive(Clone, Debug)]
pub struct IntegrationLogsResponse {
    ok: bool,
    pub logs: Option<Vec<IntegrationLogsResponseLog>>,
    pub paging: Option<Paging>,
}

/// The view of a `IntegrationLogsResponse`.
pub struct IntegrationLogsResponseV {
    pub ok: bool,
    pub logs: Option<Seq<IntegrationLogsResponseLogV>>,
    pub paging: Option<PagingV>,
}

impl View for IntegrationLogsResponse {
    type V = IntegrationLogsResponseV;

    closed spec fn view(&self) -> IntegrationLogsResponseV {
        IntegrationLogsResponseV {
            ok: self.ok,
            logs: opt_vec_view(self.logs),
            paging: opt_view(self.paging),
        }
    }
}

impl FromJson for IntegrationLogsResponse {
    open spec fn from_json_spec(j: JsonV) -> Option<IntegrationLogsResponseV> {
        match j {
            JsonV::Obj(es) => if sp_keys_ok(es, seq![("ok").spec_bytes(), ("logs").spec_bytes(), ("paging").spec_bytes()]) {
                    match sp_req_field::<bool>(es, ("ok").spec_bytes()) {
                        Some(ok) => match sp_opt_vec::<IntegrationLogsResponseLog>(es, ("logs").spec_bytes()) {
                            Some(logs) => match sp_opt_field::<Paging>(es, ("paging").spec_bytes()) {
                                Some(paging) => Some(IntegrationLogsResponseV { ok, logs, paging }),
                                None => None,
                            },
                            None => None,
                        },
                        None => None,
                    }
                } else {
                    None
                },
            _ => None,
        }
    }

    fn from_json(j: &Json) -> (r: Result<Self, DecodeErr>) {
        broadcast use crate::json::lemma_view_obj;

        let es = match j {
            Json::Obj(es) => es,
            _ => {
                return Err(decode_failure());
            },
        };
        let mut allowed: Vec<&str> = Vec::new();
        allowed.push("ok");
        allowed.push("logs");
        allowed.push("paging");
        proof {
            assert(keys_view(allowed@) =~= seq![("ok").spec_bytes(), ("logs").spec_bytes(), ("paging").spec_bytes()]);
        }
        if !keys_ok(es, &allowed) {
            return Err(decode_failure());
        }
        let ok = match req_field::<bool>(es, "ok") {
            Ok(v) => v,
            Err(e) => {
                return Err(e);
            },
        };
        let logs = match opt_vec::<IntegrationLogsResponseLog>(es, "logs") {
            Ok(v) => v,
            Err(e) => {
                return Err(e);
            },
        };
        let paging = match opt_field::<Paging>(es, "paging") {
            Ok(v) => v,
            Err(e) => {
                return Err(e);
            },
        };
        Ok(IntegrationLogsResponse { ok, logs, paging })
    }
}

/// Gets the integration logs for the current team.
///
/// Wraps the remote method `team.integrationLogs`.
pub fn integration_logs<C: Transport>(client: &C, token: &str, req: &IntegrationLogsRequest) -> (r: Result<
    IntegrationLogsResponse,
    Error<<C as Transport>::E>,
>)
    ensures
        call_contract::<IntegrationLogsResponse, <C as Transport>::E>(r),
{
    proof {
        reveal_strlit("team.integrationLogs");
    }
    call_method(client, token, "team.integrationLogs", req)
}

} // verus!
