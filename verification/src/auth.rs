//! Token management endpoints.

use vstd::prelude::*;
use crate::json::{Json, JsonV};
use crate::decode::{
    FromJson, DecodeErr, decode_failure, keys_ok, keys_view, sp_keys_ok, sp_req_bool,
    sp_req_field, req_bool, req_field,
};
use crate::requests::{Transport, Error, ToParams, call_contract, call_method, EmptyRequest};
use crate::codec::pair_views;
use crate::types::{TeamId, UserId};
use vstd::string::StringSliceAdditionalSpecFns;

verus! {

/// Asks for a token to be revoked.
#[derive(Clone, Default, Debug)]
pub struct RevokeRequest {
    /// Setting this to true triggers a testing mode where the token is not
    /// actually revoked.
    pub test: Option<bool>,
}

impl ToParams for RevokeRequest {
    open spec fn spec_params(&self) -> Seq<(Seq<char>, Seq<char>)> {
        match self.test {
            Some(b) => seq![(("test")@, crate::requests::bool_tf(b))],
            None => seq![],
        }
    }

    fn to_params(&self) -> (r: Vec<(String, String)>) {
        let mut out: Vec<(String, String)> = Vec::new();
        match self.test {
            Some(b) => {
                out.push(("test".to_owned(), crate::requests::bool_string(b)));
            },
            None => {},
        }
        proof {
            assert(pair_views(out@) =~= self.spec_params());
        }
        out
    }
}

/// The reply to a revocation.
#[derive(Clone, Debug)]
pub struct RevokeResponse {
    ok: bool,
    pub revoked: bool,
}

/// The view of a `RevokeResponse`.
pub struct RevokeResponseV {
    pub ok: bool,
    pub revoked: bool,
}

impl View for RevokeResponse {
    type V = RevokeResponseV;

    closed spec fn view(&self) -> RevokeResponseV {
        RevokeResponseV { ok: self.ok, revoked: self.revoked }
    }
}

impl FromJson for RevokeResponse {
    open spec fn from_json_spec(j: JsonV) -> Option<RevokeResponseV> {
        match j {
            JsonV::Obj(es) => if sp_keys_ok(es, seq![("ok").spec_bytes(), ("revoked").spec_bytes()]) {
                match sp_req_bool(es, ("ok").spec_bytes()) {
                    Some(ok) => match sp_req_bool(es, ("revoked").spec_bytes()) {
                        Some(revoked) => Some(RevokeResponseV { ok, revoked }),
                        None => None,
                    },
                    None => None,
                }
            } else {
                None
            },
            _ => None,
        }
    }

    fn from_json(j: &Json) -> (r: Result<Self, DecodeErr>) {
        broadcast use crate::json::lemma_view_obj;

        let es = match j {
            Json::Obj(es) => es,
            _ => {
                return Err(decode_failure());
            },
        };
        let mut allowed: Vec<&str> = Vec::new();
        allowed.push("ok");
        allowed.push("revoked");
        proof {
            assert(keys_view(allowed@) =~= seq![("ok").spec_bytes(), ("revoked").spec_bytes()]);
        }
        if !keys_ok(es, &allowed) {
            return Err(decode_failure());
        }
        let ok = match req_bool(es, "ok") {
            Ok(b) => b,
            Err(e) => {
                return Err(e);
            },
        };
        let revoked = match req_bool(es, "revoked") {
            Ok(b) => b,
            Err(e) => {
                return Err(e);
            },
        };
        Ok(RevokeResponse { ok, revoked })
    }
}

/// Revokes a token.
///
/// Wraps the remote method `auth.revoke`.
pub fn revoke<C: Transport>(client: &C, token: &str, req: &RevokeRequest) -> (r: Result<
    RevokeResponse,
    Error<<C as Transport>::E>,
>)
    ensures
        call_contract::<RevokeResponse, <C as Transport>::E>(r),
{
    proof {
        reveal_strlit("auth.revoke");
    }
    call_method(client, token, "auth.revoke", req)
}

/// The reply to an identity check.
#[derive(Clone, Debug)]
pub struct TestResponse {
    ok: bool,
    pub team: String,
    pub team_id: TeamId,
    pub url: String,
    pub user: String,
    pub user_id: UserId,
}

/// The view of an identity check reply.
pub struct TestResponseV {
    pub ok: bool,
    pub team: Seq<char>,
    pub team_id: Seq<char>,
    pub url: Seq<char>,
    pub user: Seq<char>,
    pub user_id: Seq<char>,
}

impl View for TestResponse {
    type V = TestResponseV;

    closed spec fn view(&self) -> TestResponseV {
        TestResponseV {
            ok: self.ok,
            team: self.team@,
            team_id: self.team_id@,
            url: self.url@,
            user: self.user@,
            user_id: self.user_id@,
        }
    }
}

impl FromJson for TestResponse {
    open spec fn from_json_spec(j: JsonV) -> Option<TestResponseV> {
        match j {
            JsonV::Obj(es) => if sp_keys_ok(
                es,
                seq![
                    ("ok").spec_bytes(),
                    ("team").spec_bytes(),
                    ("team_id").spec_bytes(),
                    ("url").spec_bytes(),
                    ("user").spec_bytes(),
                    ("user_id").spec_bytes(),
                ],
            ) {
                match sp_req_bool(es, ("ok").spec_bytes()) {
                    Some(ok) => match sp_req_field::<String>(es, ("team").spec_bytes()) {
                        Some(team) => match sp_req_field::<String>(es, ("team_id").spec_bytes()) {
                            Some(team_id) => match sp_req_field::<String>(es, ("url").spec_bytes()) {
                                Some(url) => match sp_req_field::<String>(
                                    es,
                                    ("user").spec_bytes(),
                                ) {
                                    Some(user) => match sp_req_field::<String>(
                                        es,
                                        ("user_id").spec_bytes(),
                                    ) {
                                        Some(user_id) => Some(
                                            TestResponseV { ok, team, team_id, url, user, user_id },
                                        ),
                                        None => None,
                                    },
                                    None => None,
                                },
                                None => None,
                            },
                            None => None,
                        },
                        None => None,
                    },
                    None => None,
                }
            } else {
                None
            },
            _ => None,
        }
    }

    fn from_json(j: &Json) -> (r: Result<Self, DecodeErr>) {
        broadcast use crate::json::lemma_view_obj;

        let es = match j {
            Json::Obj(es) => es,
            _ => {
                return Err(decode_failure());
            },
        };
        let mut allowed: Vec<&str> = Vec::new();
        allowed.push("ok");
        allowed.push("team");
        allowed.push("team_id");
        allowed.push("url");
        allowed.push("user");
        allowed.push("user_id");
        proof {
            assert(keys_view(allowed@) =~= seq![
                ("ok").spec_bytes(),
                ("team").spec_bytes(),
                ("team_id").spec_bytes(),
                ("url").spec_bytes(),
                ("user").spec_bytes(),
                ("user_id").spec_bytes(),
            ]);
        }
        if !keys_ok(es, &allowed) {
            return Err(decode_failure());
        }
        let ok = match req_bool(es, "ok") {
            Ok(b) => b,
            Err(e) => {
                return Err(e);
            },
        };
        let team = match req_field::<String>(es, "team") {
            Ok(v) => v,
            Err(e) => {
                return Err(e);
            },
        };
        let team_id = match req_field::<String>(es, "team_id") {
            Ok(v) => v,
            Err(e) => {
                return Err(e);
            },
        };
        let url = match req_field::<String>(es, "url") {
            Ok(v) => v,
            Err(e) => {
                return Err(e);
            },
        };
        let user = match req_field::<String>(es, "user") {
            Ok(v) => v,
            Err(e) => {
                return Err(e);
            },
        };
        let user_id = match req_field::<String>(es, "user_id") {
            Ok(v) => v,
            Err(e) => {
                return Err(e);
            },
        };
        Ok(TestResponse { ok, team, team_id, url, user, user_id })
    }
}

/// Checks authentication and identity.
///
/// Wraps the remote method `auth.test`.
pub fn test<C: Transport>(client: &C, token: &str) -> (r: Result<
    TestResponse,
    Error<<C as Transport>::E>,
>)
    ensures
        call_contract::<TestResponse, <C as Transport>::E>(r),
{
    proof {
        reveal_strlit("auth.test");
    }
    call_method(client, token, "auth.test", &EmptyRequest {})
}

} // verus!
