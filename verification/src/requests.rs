//! The call dispatcher: the transport capability, the wire parameter
//! encoding of request records, the per-family error type, and the one
//! generic routine that performs a remote call and decodes its reply.

use vstd::prelude::*;
use crate::decode::{FromJson, DecodeFailure, decode_response, sp_response, VerdictV};
use vstd::utf8::decode_utf8;
use vstd::string::StringSliceAdditionalSpecFns;
use crate::codec::pair_views;

verus! {

/// The external capability that carries one request: it takes the target
/// URL and the encoded parameters and returns the raw reply bytes, or fails.
/// Nothing is promised of the reply: the network decides.
pub trait Transport {
    /// The transport's own failure type.
    type E;

    /// Performs one round-trip.
    fn send(&self, url: &Vec<u8>, params: &Vec<(String, String)>) -> Result<Vec<u8>, Self::E>;
}

/// The failure taxonomy of a generic endpoint call.
#[derive(Debug)]
pub enum Error<E> {
    /// The transport failed before any reply arrived.
    Client(E),
    /// Bytes arrived but matched neither the success schema nor the error
    /// envelope; carries the diagnostic.
    MalformedResponse(String),
    /// The remote service reported this error code, kept verbatim.
    Slack(String),
}

/// Encoding a request record into wire parameters: an ordered set of
/// key/value pairs in which a field without a value does not appear at all.
pub trait ToParams {
    /// The exact parameter list the record encodes to.
    spec fn spec_params(&self) -> Seq<(Seq<char>, Seq<char>)>;

    /// Encodes the record.
    fn to_params(&self) -> (r: Vec<(String, String)>)
        ensures
            pair_views(r@) == self.spec_params();
}


/// A boolean in the `true`/`false` wire spelling used by the derived
/// request encoders.
pub open spec fn bool_tf(b: bool) -> Seq<char> {
    if b {
        ("true")@
    } else {
        ("false")@
    }
}

/// A boolean in the `"1"`/`"0"` wire spelling that some methods require;
/// the inconsistency is the remote service's and is preserved per method.
pub open spec fn bool_01(b: bool) -> Seq<char> {
    if b {
        ("1")@
    } else {
        ("0")@
    }
}

/// Writes a boolean as `true`/`false`.
pub fn bool_string(b: bool) -> (r: String)
    ensures
        r@ == bool_tf(b),
{
    if b {
        "true".to_owned()
    } else {
        "false".to_owned()
    }
}

/// Writes a boolean as `1`/`0`.
pub fn bool01_string(b: bool) -> (r: String)
    ensures
        r@ == bool_01(b),
{
    if b {
        "1".to_owned()
    } else {
        "0".to_owned()
    }
}

/// The contract every endpoint call meets: a success value was decoded from
/// some reply body by the two-stage rule, a `Slack` error carries a code
/// that some reply's error envelope held, and transport or parse failures
/// surface as their own variants.
pub open spec fn call_contract<Resp: FromJson, E>(r: Result<Resp, Error<E>>) -> bool {
    match r {
        Ok(v) => exists|body: Seq<u8>|
            sp_response::<Resp>(body) == VerdictV::Success::<Resp::V>(v@),
        Err(Error::Slack(c)) => exists|body: Seq<u8>|
            (#[trigger] sp_response::<Resp>(body)) matches VerdictV::Failure(code) && c@
                == decode_utf8(code),
        Err(Error::MalformedResponse(_)) => true,
        Err(Error::Client(_)) => true,
    }
}

/// A request that carries no parameters of its own.
#[derive(Clone, Default, Debug)]
pub struct EmptyRequest {}

impl ToParams for EmptyRequest {
    open spec fn spec_params(&self) -> Seq<(Seq<char>, Seq<char>)> {
        seq![]
    }

    fn to_params(&self) -> (r: Vec<(String, String)>) {
        let out: Vec<(String, String)> = Vec::new();
        proof {
            assert(pair_views(out@) =~= self.spec_params());
        }
        out
    }
}

/// The URL bytes addressing a method: the fixed API base path followed by
/// the method name.
pub open spec fn sp_method_url(method: Seq<u8>) -> Seq<u8> {
    ("https://slack.com/api/").spec_bytes() + method
}

/// Builds the URL addressing a method.
pub fn get_slack_url_for_method(method: &str) -> (r: Vec<u8>)
    ensures
        r@ == sp_method_url(method.spec_bytes()),
{
    let mut out = vstd::slice::slice_to_vec("https://slack.com/api/".as_bytes());
    let mut tail = vstd::slice::slice_to_vec(method.as_bytes());
    out.append(&mut tail);
    out
}

/// The parameter list actually sent: the bearer token first, then the
/// record's own parameters.
pub open spec fn sp_sent_params<Req: ToParams>(token: Seq<char>, req: Req) -> Seq<
    (Seq<char>, Seq<char>),
> {
    seq![(("token")@, token)] + req.spec_params()
}

/// Builds the full parameter list of one call: the token, then the request
/// record's encoding, in which an absent optional field does not appear.
pub fn sent_params<Req: ToParams>(token: &str, req: &Req) -> (r: Vec<(String, String)>)
    ensures
        pair_views(r@) == sp_sent_params(token@, *req),
{
    let mut params: Vec<(String, String)> = Vec::new();
    params.push(("token".to_owned(), token.to_owned()));
    let mut rest = req.to_params();
    params.append(&mut rest);
    proof {
        assert(pair_views(params@) =~= sp_sent_params(token@, *req));
    }
    params
}

/// Performs one remote call: encodes the request (the token first, absent
/// optional fields omitted), sends it through the transport, and decodes
/// whatever came back by the two-stage rule. Exactly one round-trip; no
/// retries. A transport failure is returned at once, undecoded.
pub fn call_method<C: Transport, Req: ToParams, Resp: FromJson>(
    client: &C,
    token: &str,
    method: &str,
    req: &Req,
) -> (r: Result<Resp, Error<<C as Transport>::E>>)
    requires
        method@.len() > 0,
    ensures
        call_contract::<Resp, <C as Transport>::E>(r),
{
    let url = get_slack_url_for_method(method);
    let params = sent_params(token, req);
    match client.send(&url, &params) {
        Ok(body) => match decode_response::<Resp>(body.as_slice()) {
            Ok(v) => {
                proof {
                    assert(sp_response::<Resp>(body@) == VerdictV::Success::<Resp::V>(v@));
                }
                Ok(v)
            },
            Err(DecodeFailure::ErrorCode(c)) => {
                proof {
                    assert((sp_response::<Resp>(body@)) matches VerdictV::Failure(code) && c@
                        == decode_utf8(code));
                }
                Err(Error::Slack(c))
            },
            Err(DecodeFailure::Malformed(m)) => Err(Error::MalformedResponse(m)),
        },
        Err(e) => Err(Error::Client(e)),
    }
}

} // verus!
