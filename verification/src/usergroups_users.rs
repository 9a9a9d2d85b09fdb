//! User-group membership endpoints.

use vstd::prelude::*;
use crate::json::{Json, JsonV};
use crate::decode::{
    FromJson, DecodeErr, decode_failure, keys_ok, keys_view, sp_keys_ok, sp_req_field,
    sp_opt_field, sp_opt_vec, req_field, opt_field, opt_vec, opt_view, opt_vec_view,
};
use crate::requests::{
    Transport, Error, ToParams, call_contract, call_method, bool_tf, bool_string,
};
use crate::codec::pair_views;
use crate::types::{UserId, UsergroupId, Usergroup, UsergroupV};
use vstd::string::StringSliceAdditionalSpecFns;

verus! {

/// Asks for the members of a user group.
#[derive(Clone, Debug)]
pub struct ListRequest {
    pub usergroup: UsergroupId,
    pub include_disabled: Option<bool>,
}

impl ToParams for ListRequest {
    open spec fn spec_params(&self) -> Seq<(Seq<char>, Seq<char>)> {
        seq![(("usergroup")@, self.usergroup@)] + (match self.include_disabled {
                    Some(b) => seq![(("include_disabled")@, bool_tf(b))],
                    None => seq![],
            })
    }

    fn to_params(&self) -> (r: Vec<(String, String)>) {
        let mut out: Vec<(String, String)> = Vec::new();
        out.push(("usergroup".to_owned(), self.usergroup.clone()));
        match self.include_disabled {
            Some(b) => {
                out.push(("include_disabled".to_owned(), bool_string(b)));
            },
            None => {},
        }
        proof {
            assert(pair_views(out@) =~= self.spec_params());
        }
        out
    }
}

/// The members of a user group.
#[derive(Clone, Debug)]
pub struct ListResponse {
    ok: bool,
    pub users: Option<Vec<UserId>>,
}

/// The view of a `ListResponse`.
pub struct ListResponseV {
    pub ok: bool,
    pub users: Option<Seq<Seq<char>>>,
}

impl View for ListResponse {
    type V = ListResponseV;

    closed spec fn view(&self) -> ListResponseV {
        ListResponseV {
            ok: self.ok,
            users: opt_vec_view(self.users),
        }
    }
}

impl FromJson for ListResponse {
    open spec fn from_json_spec(j: JsonV) -> Option<ListResponseV> {
        match j {
            JsonV::Obj(es) => if sp_keys_ok(es, seq![("ok").spec_bytes(), ("users").spec_bytes()]) {
                    match sp_req_field::<bool>(es, ("ok").spec_bytes()) {
                        Some(ok) => match sp_opt_vec::<UserId>(es, ("users").spec_bytes()) {
                            Some(users) => Some(ListResponseV { ok, users }),
                            None => None,
                        },
                        None => None,
                    }
                } else {
                    None
                },
            _ => None,
        }
    }

    fn from_json(j: &Json) -> (r: Result<Self, DecodeErr>) {
        broadcast use crate::json::lemma_view_obj;

        let es = match j {
            Json::Obj(es) => es,
            _ => {
                return Err(decode_failure());
            },
        };
        let mut allowed: Vec<&str> = Vec::new();
        allowed.push("ok");
        allowed.push("users");
        proof {
            assert(keys_view(allowed@) =~= seq![("ok").spec_bytes(), ("users").spec_bytes()]);
        }
        if !keys_ok(es, &allowed) {
            return Err(decode_failure());
        }
        let ok = match req_field::<bool>(es, "ok") {
            Ok(v) => v,
            Err(e) => {
                return Err(e);
            },
        };
        let users = match opt_vec::<UserId>(es, "users") {
            Ok(v) => v,
            Err(e) => {
                return Err(e);
            },
        };
        Ok(ListResponse { ok, users })
    }
}

/// Lists all users in a user group.
///
/// Wraps the remote method `usergroups.users.list`.
pub fn list<C: Transport>(client: &C, token: &str, req: &ListRequest) -> (r: Result<
    ListResponse,
    Error<<C as Transport>::E>,
>)
    ensures
        call_contract::<ListResponse, <C as Transport>::E>(r),
{
    proof {
        reveal_strlit("usergroups.users.list");
    }
    call_method(client, token, "usergroups.users.list", req)
}

/// Asks to replace the member list of a user group.
#[derive(Clone, Debug)]
pub struct UpdateRequest {
    pub usergroup: UsergroupId,
    pub users: String,
    pub include_count: Option<bool>,
}

impl ToParams for UpdateRequest {
    open spec fn spec_params(&self) -> Seq<(Seq<char>, Seq<char>)> {
        seq![(("usergroup")@, self.usergroup@)] + seq![(("users")@, self.users@)] + (match self.include_count {
                    Some(b) => seq![(("include_count")@, bool_tf(b))],
                    None => seq![],
            })
    }

    fn to_params(&self) -> (r: Vec<(String, String)>) {
        let mut out: Vec<(String, String)> = Vec::new();
        out.push(("usergroup".to_owned(), self.usergroup.clone()));
        out.push(("users".to_owned(), self.users.clone()));
        match self.include_count {
            Some(b) => {
                out.push(("include_count".to_owned(), bool_string(b)));
            },
            None => {},
        }
        proof {
            assert(pair_views(out@) =~= self.spec_params());
        }
        out
    }
}

/// The user group after the update.
#[derive(Clone, Debug)]
pub struct UpdateResponse {
    ok: bool,
    pub usergroup: Option<Usergroup>,
}

/// The view of a `UpdateResponse`.
pub struct UpdateResponseV {
    pub ok: bool,
    pub usergroup: Option<UsergroupV>,
}

impl View for UpdateResponse {
    type V = UpdateResponseV;

    closed spec fn view(&self) -> UpdateResponseV {
        UpdateResponseV {
            ok: self.ok,
            usergroup: opt_view(self.usergroup),
        }
    }
}

impl FromJson for UpdateResponse {
    open spec fn from_json_spec(j: JsonV) -> Option<UpdateResponseV> {
        match j {
            JsonV::Obj(es) => if sp_keys_ok(es, seq![("ok").spec_bytes(), ("usergroup").spec_bytes()]) {
                    match sp_req_field::<bool>(es, ("ok").spec_bytes()) {
                        Some(ok) => match sp_opt_field::<Usergroup>(es, ("usergroup").spec_bytes()) {
                            Some(usergroup) => Some(UpdateResponseV { ok, usergroup }),
                            None => None,
                        },
                        None => None,
                    }
                } else {
                    None
                },
            _ => None,
        }
    }

    fn from_json(j: &Json) -> (r: Result<Self, DecodeErr>) {
        broadcast use crate::json::lemma_view_obj;

        let es = match j {
            Json::Obj(es) => es,
            _ => {
                return Err(decode_failure());
            },
        };
        let mut allowed: Vec<&str> = Vec::new();
        allowed.push("ok");
        allowed.push("usergroup");
        proof {
            assert(keys_view(allowed@) =~= seq![("ok").spec_bytes(), ("usergroup").spec_bytes()]);
        }
        if !keys_ok(es, &allowed) {
            return Err(decode_failure());
        }
        let ok = match req_field::<bool>(es, "ok") {
            Ok(v) => v,
            Err(e) => {
                return Err(e);
            },
        };
        let usergroup = match opt_field::<Usergroup>(es, "usergroup") {
            Ok(v) => v,
            Err(e) => {
                return Err(e);
            },
        };
        Ok(UpdateResponse { ok, usergroup })
    }
}

/// Updates the list of users for a user group.
///
/// Wraps the remote method `usergroups.users.update`.
pub fn update<C: Transport>(client: &C, token: &str, req: &UpdateRequest) -> (r: Result<
    UpdateResponse,
    Error<<C as Transport>::E>,
>)
    ensures
        call_contract::<UpdateResponse, <C as Transport>::E>(r),
{
    proof {
        reveal_strlit("usergroups.users.update");
    }
    call_method(client, token, "usergroups.users.update", req)
}

} // verus!
