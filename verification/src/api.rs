//! The connectivity-check endpoint.

use vstd::prelude::*;
use crate::json::{Json, JsonV};
use crate::decode::{
    FromJson, DecodeErr, decode_failure, keys_ok, keys_view, sp_keys_ok, sp_lookup, lookup,
    sp_req_field, req_field,
};
use crate::requests::{Transport, Error, ToParams, call_contract, call_method};
use crate::codec::{MapDecode, StringMap, StringMapV, pair_views};
use vstd::string::StringSliceAdditionalSpecFns;

verus! {

/// Exercises the API plumbing: both fields are optional and are echoed back.
#[derive(Clone, Default, Debug)]
pub struct TestRequest {
    pub error: Option<String>,
    pub foo: Option<String>,
}

impl ToParams for TestRequest {
    open spec fn spec_params(&self) -> Seq<(Seq<char>, Seq<char>)> {
        (match self.error {
                    Some(s) => seq![(("error")@, s@)],
                    None => seq![],
            }) + (match self.foo {
                    Some(s) => seq![(("foo")@, s@)],
                    None => seq![],
            })
    }

    fn to_params(&self) -> (r: Vec<(String, String)>) {
        let mut out: Vec<(String, String)> = Vec::new();
        match &self.error {
            Some(s) => {
                out.push(("error".to_owned(), s.clone()));
            },
            None => {},
        }
        match &self.foo {
            Some(s) => {
                out.push(("foo".to_owned(), s.clone()));
            },
            None => {},
        }
        proof {
            assert(pair_views(out@) =~= self.spec_params());
        }
        out
    }
}

/// The echo reply: the arguments the service saw, keyed by name.
#[derive(Clone, Debug)]
pub struct TestResponse {
    ok: bool,
    pub args: StringMap,
}

/// The view of a `TestResponse`.
pub struct TestResponseV {
    pub ok: bool,
    pub args: StringMapV,
}

impl View for TestResponse {
    type V = TestResponseV;

    closed spec fn view(&self) -> TestResponseV {
        TestResponseV {
            ok: self.ok,
            args: self.args@,
        }
    }
}

impl FromJson for TestResponse {
    open spec fn from_json_spec(j: JsonV) -> Option<TestResponseV> {
        match j {
            JsonV::Obj(es) => if sp_keys_ok(es, seq![("ok").spec_bytes(), ("args").spec_bytes()]) {
                    match sp_req_field::<bool>(es, ("ok").spec_bytes()) {
                        Some(ok) => match sp_lookup(es, ("args").spec_bytes()) {
                            Some(JsonV::Obj(aes)) => match StringMap::from_entries_spec(aes) {
                                Some(args) => Some(TestResponseV { ok, args }),
                                None => None,
                            },
                            _ => None,
                        },
                        None => None,
                    }
                } else {
                    None
                },
            _ => None,
        }
    }

    fn from_json(j: &Json) -> (r: Result<Self, DecodeErr>) {
        broadcast use crate::json::lemma_view_obj;

        let es = match j {
            Json::Obj(es) => es,
            _ => {
                return Err(decode_failure());
            },
        };
        let mut allowed: Vec<&str> = Vec::new();
        allowed.push("ok");
        allowed.push("args");
        proof {
            assert(keys_view(allowed@) =~= seq![("ok").spec_bytes(), ("args").spec_bytes()]);
        }
        if !keys_ok(es, &allowed) {
            return Err(decode_failure());
        }
        let ok = match req_field::<bool>(es, "ok") {
            Ok(v) => v,
            Err(e) => {
                return Err(e);
            },
        };
        let args = match lookup(es, "args".as_bytes()) {
            Some(vj) => match vj {
                Json::Obj(aes) => match StringMap::decode_from_map(aes) {
                    Ok(v) => v,
                    Err(e) => {
                        return Err(e);
                    },
                },
                _ => {
                    return Err(decode_failure());
                },
            },
            None => {
                return Err(decode_failure());
            },
        };
        Ok(TestResponse { ok, args })
    }
}

/// Checks API calling code.
///
/// Wraps the remote method `api.test`.
pub fn test<C: Transport>(client: &C, token: &str, req: &TestRequest) -> (r: Result<
    TestResponse,
    Error<<C as Transport>::E>,
>)
    ensures
        call_contract::<TestResponse, <C as Transport>::E>(r),
{
    proof {
        reveal_strlit("api.test");
    }
    call_method(client, token, "api.test", req)
}


/// A request field with no value is omitted from the wire parameters
/// entirely; with one field present and one absent, the parameter set holds
/// exactly the present field's key and value.
pub proof fn lemma_absent_field_omitted(req: TestRequest)
    requires
        req.error is None,
        req.foo matches Some(f),
    ensures
        req.spec_params() == seq![(("foo")@, req.foo->Some_0@)],
{
    assert(req.spec_params() =~= seq![(("foo")@, req.foo->Some_0@)]);
}

/// Symmetrically, with the other field present.
pub proof fn lemma_present_field_kept(req: TestRequest)
    requires
        req.error matches Some(e),
        req.foo is None,
    ensures
        req.spec_params() == seq![(("error")@, req.error->Some_0@)],
{
    assert(req.spec_params() =~= seq![(("error")@, req.error->Some_0@)]);
}


/// End to end at the dispatcher: the parameter set of a call whose request
/// has one optional field present and one absent holds exactly the token
/// and the present field's key.
pub proof fn lemma_dispatch_param_set(token: Seq<char>, req: TestRequest)
    requires
        req.error is None,
        req.foo matches Some(f),
    ensures
        crate::requests::sp_sent_params(token, req) == seq![
            (("token")@, token),
            (("foo")@, req.foo->Some_0@),
        ],
{
    lemma_absent_field_omitted(req);
    assert(crate::requests::sp_sent_params(token, req) =~= seq![
        (("token")@, token),
        (("foo")@, req.foo->Some_0@),
    ]);
}

} // verus!
